use duplex_audio::config::{BufferSize, SampleFormat, StreamConfig};
use duplex_audio::duplex::{
    duplex_input_proc, CycleReply, CycleRequest, CycleStep, DuplexCallbackInfo, DuplexCycle,
    DuplexProc, DuplexStreamConfig, InputPull,
};
use duplex_audio::error::{Error, ErrorKind, Message};
use duplex_audio::status::PARAM_ERROR;
use duplex_audio::time::{
    Duration, InputStreamTimestamp, OutputStreamTimestamp, StreamInstant,
};

fn config() -> DuplexStreamConfig {
    DuplexStreamConfig {
        input_channels: 1,
        output_channels: 2,
        sample_rate: 48000,
        buffer_size: BufferSize::Fixed(4),
    }
}

fn at(secs: u64, nanos: u32) -> StreamInstant {
    StreamInstant::new(secs, nanos)
}

#[test]
fn an_info_keeps_both_timestamps() {
    let input = InputStreamTimestamp { callback: at(5, 0), capture: at(4, 0) };
    let output = OutputStreamTimestamp { callback: at(5, 0), playback: at(6, 0) };
    let info = DuplexCallbackInfo::new(input, output);
    assert_eq!(info.input_timestamp(), input);
    assert_eq!(info.output_timestamp(), output);
    assert_eq!(info, DuplexCallbackInfo::new(input, output));
    assert_ne!(
        info,
        DuplexCallbackInfo::new(
            InputStreamTimestamp { callback: at(5, 0), capture: at(3, 0) },
            output
        )
    );
}

#[test]
fn directions_share_all_but_the_channels() {
    assert_eq!(
        config().input_config(),
        StreamConfig { channels: 1, sample_rate: 48000, buffer_size: BufferSize::Fixed(4) }
    );
    assert_eq!(
        config().output_config(),
        StreamConfig { channels: 2, sample_rate: 48000, buffer_size: BufferSize::Fixed(4) }
    );
}

#[test]
fn a_new_scratch_buffer_is_silent() {
    let proc = DuplexProc::new(config(), SampleFormat::F32, 4);
    assert_eq!(proc.input_buffer, vec![0u8; 16]);
    assert!(!proc.buffer_size_changed);
    assert_eq!(proc.device_buffer_frames, 4);
    assert_eq!(proc.sample_rate, 48000);
    assert_eq!(proc.input_channels, 1);
}

#[test]
fn calls_of_one_device_buffer_go_ahead() {
    let mut proc = DuplexProc::new(config(), SampleFormat::F32, 4);
    assert_eq!(proc.accept(4, Some(1)), Ok(()));
    assert_eq!(proc.accept(4, Some(2)), Ok(()));
    assert!(!proc.buffer_size_changed);
}

#[test]
fn calls_without_buffers_are_refused() {
    let mut proc = DuplexProc::new(config(), SampleFormat::F32, 4);
    assert_eq!(proc.accept(4, None), Err(PARAM_ERROR));
    assert_eq!(proc.accept(4, Some(0)), Err(PARAM_ERROR));
    // Not even a misfit trips the flag where there is no buffer.
    assert_eq!(proc.accept(8, None), Err(PARAM_ERROR));
    assert!(!proc.buffer_size_changed);
    assert_eq!(proc.accept(4, Some(1)), Ok(()));
}

#[test]
fn a_misfit_ends_the_stream_for_good() {
    for frames in [0, 3, 5, 8, u32::MAX] {
        let mut proc = DuplexProc::new(config(), SampleFormat::F32, 4);
        assert_eq!(proc.accept(frames, Some(1)), Err(PARAM_ERROR));
        assert!(proc.buffer_size_changed);
        assert_eq!(proc.accept(4, Some(1)), Err(PARAM_ERROR));
        assert_eq!(proc.accept(4, Some(1)), Err(PARAM_ERROR));
    }
}

#[test]
fn a_stream_without_input_takes_any_number_of_frames() {
    let mut silent = config();
    silent.input_channels = 0;
    let mut proc = DuplexProc::new(silent, SampleFormat::F32, 4);
    assert_eq!(proc.accept(4, Some(1)), Ok(()));
    assert_eq!(proc.accept(512, Some(1)), Ok(()));
}

#[test]
fn an_accepted_call_is_dated() {
    let mut stereo = config();
    stereo.input_channels = 2;
    let proc = DuplexProc::new(stereo, SampleFormat::I16, 4);
    let mut errors: Vec<Error> = vec![];
    let pass = proc
        .place(4, Ok(at(10, 0)), Duration::new(0, 250), Some(19), &mut errors)
        .unwrap();
    assert_eq!(
        pass.info.input_timestamp(),
        InputStreamTimestamp { callback: at(10, 0), capture: at(9, 999_999_750) }
    );
    assert_eq!(
        pass.info.output_timestamp(),
        OutputStreamTimestamp { callback: at(10, 0), playback: at(10, 250) }
    );
    assert_eq!(pass.input_channels, 2);
    assert_eq!(pass.input_bytes, 16);
    assert_eq!(pass.input_samples, 8);
    assert_eq!(pass.output_samples, 9);
    assert!(errors.is_empty());
}

#[test]
fn an_unknown_beginning_is_reported() {
    let proc = DuplexProc::new(config(), SampleFormat::F32, 4);
    let mut errors: Vec<Error> = vec![];
    let lost = || Error::with_message(ErrorKind::BackendError, Message::Backend("x".to_string()));
    let r = proc.place(4, Err(lost()), Duration::new(0, 1), Some(32), &mut errors);
    assert_eq!(r, Err(PARAM_ERROR));
    assert_eq!(errors, vec![lost()]);
}

#[test]
fn output_without_memory_is_refused_after_the_timestamps() {
    let proc = DuplexProc::new(config(), SampleFormat::F32, 4);
    let mut errors: Vec<Error> = vec![];
    let r = proc.place(4, Ok(at(1, 0)), Duration::new(2, 0), None, &mut errors);
    assert_eq!(r, Err(PARAM_ERROR));
    assert_eq!(
        errors,
        vec![Error::with_message(ErrorKind::BackendError, Message::CaptureUnderflow)]
    );
}

#[test]
fn both_timestamps_can_fail_at_once() {
    let proc = DuplexProc::new(config(), SampleFormat::F32, 4);
    let mut errors: Vec<Error> = vec![];
    let r = proc.place(4, Ok(at(1, 0)), Duration::new(u64::MAX, 0), Some(32), &mut errors);
    let info = r.unwrap().info;
    assert_eq!(info.input_timestamp().capture, at(1, 0));
    assert_eq!(info.output_timestamp().playback, at(1, 0));
    assert_eq!(
        errors,
        vec![
            Error::with_message(ErrorKind::BackendError, Message::CaptureUnderflow),
            Error::with_message(ErrorKind::BackendError, Message::PlaybackOverflow),
        ]
    );
}

#[test]
fn pulled_input_is_kept() {
    let mut proc = DuplexProc::new(config(), SampleFormat::I16, 2);
    let mut errors: Vec<Error> = vec![];
    proc.input_buffer = vec![1, 2, 3, 4];
    proc.pulled(0, &mut errors);
    assert_eq!(proc.input_buffer, vec![1, 2, 3, 4]);
    assert!(errors.is_empty());
}

#[test]
fn input_that_could_not_be_pulled_is_silenced() {
    let mut proc = DuplexProc::new(config(), SampleFormat::I16, 2);
    let mut errors: Vec<Error> = vec![];
    proc.input_buffer = vec![1, 2, 3, 4];
    proc.pulled(-10863, &mut errors);
    assert_eq!(proc.input_buffer, vec![0, 0, 0, 0]);
    assert_eq!(
        errors,
        vec![Error::with_message(ErrorKind::BackendError, Message::RenderFailed(-10863))]
    );
}

fn ask(step: CycleStep) -> (DuplexCycle, CycleRequest) {
    match step {
        CycleStep::Ask(cycle, request) => (cycle, request),
        CycleStep::Return(status) => panic!("returned {status}"),
    }
}

#[test]
fn a_cycle_pulls_and_then_runs_the_data_callback() {
    for status in [0, -10863] {
        let mut stereo = config();
        stereo.input_channels = 2;
        let mut proc = DuplexProc::new(stereo, SampleFormat::I16, 4);
        assert_eq!(proc.delay(), (4, 48000));
        let mut errors: Vec<Error> = vec![];
        let (cycle, request) = ask(proc.render(777, 4, Some(1)));
        assert_eq!(
            request,
            CycleRequest::ReadClock { host_time: 777, frames: 4, sample_rate: 48000 }
        );
        let clock = CycleReply::Clock {
            callback: Ok(at(10, 0)),
            delay: Duration::new(0, 250),
            output_bytes: Some(19),
        };
        let (cycle, request) = ask(proc.resume(cycle, clock, &mut errors));
        assert_eq!(
            request,
            CycleRequest::PullInput(InputPull {
                bus: 1,
                host_time: 777,
                frames: 4,
                channels: 2,
                bytes: 16,
            })
        );
        assert!(errors.is_empty());
        proc.input_buffer = vec![7; 16];
        let (cycle, request) = ask(proc.resume(cycle, CycleReply::Pulled(status), &mut errors));
        match request {
            CycleRequest::RunDataCallback(call) => {
                assert_eq!(call.info.input_timestamp().capture, at(9, 999_999_750));
                assert_eq!(call.info.output_timestamp().playback, at(10, 250));
                assert_eq!(call.sample_format, SampleFormat::I16);
                assert_eq!(call.input_samples, 8);
                assert_eq!(call.output_samples, 9);
            }
            other => panic!("{other:?}"),
        }
        let captured = if status == 0 { 7 } else { 0 };
        assert_eq!(proc.input_buffer, vec![captured; 16]);
        assert_eq!(errors.len(), if status == 0 { 0 } else { 1 });
        assert_eq!(
            proc.resume(cycle, CycleReply::Returned, &mut errors),
            CycleStep::Return(0)
        );
    }
}

#[test]
fn a_cycle_is_refused_before_it_pulls() {
    let lost = || Error::from_kind(ErrorKind::BackendError);
    let mut proc = DuplexProc::new(config(), SampleFormat::F32, 4);
    let mut errors: Vec<Error> = vec![];
    let (cycle, _) = ask(proc.render(1, 4, Some(1)));
    let delay = Duration::new(0, 1);
    let clock = CycleReply::Clock { callback: Err(lost()), delay, output_bytes: Some(32) };
    assert_eq!(proc.resume(cycle, clock, &mut errors), CycleStep::Return(PARAM_ERROR));
    assert_eq!(errors, vec![lost()]);
    let clock = CycleReply::Clock { callback: Ok(at(1, 0)), delay, output_bytes: None };
    assert_eq!(proc.resume(cycle, clock, &mut errors), CycleStep::Return(PARAM_ERROR));
    assert_eq!(errors, vec![lost()]);
    assert_eq!(proc.render(2, 5, Some(1)), CycleStep::Return(PARAM_ERROR));
    assert_eq!(proc.render(3, 4, Some(1)), CycleStep::Return(PARAM_ERROR));
}

#[test]
fn a_panic_becomes_a_status() {
    assert_eq!(duplex_input_proc(Some(0)), 0);
    assert_eq!(duplex_input_proc(Some(17)), 17);
    assert_eq!(duplex_input_proc(None), objc2_core_audio_types::kAudio_ParamError);
    assert_eq!(PARAM_ERROR, objc2_core_audio_types::kAudio_ParamError);
}
