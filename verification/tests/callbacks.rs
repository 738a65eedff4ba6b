use duplex_audio::callback::{
    get_device_buffer_frame_size, get_device_extra_latency_frames, setup_callback_vars,
    CallbackCycle, CallbackReply, CallbackRequest, CallbackStep, CallbackVars, InputCall,
    InputCallbackInfo, OutputCall, OutputCallbackInfo,
};
use duplex_audio::config::{BufferSize, SampleFormat, StreamConfig};
use duplex_audio::error::{Error, ErrorKind, Message};
use duplex_audio::time::{
    Duration, InputStreamTimestamp, OutputStreamTimestamp, StreamInstant,
};
use duplex_audio::unit::Direction;

fn config() -> StreamConfig {
    StreamConfig { channels: 2, sample_rate: 44100, buffer_size: BufferSize::Default }
}

fn failed() -> Error {
    Error::from_kind(ErrorKind::BackendError)
}

#[test]
fn latency_and_safety_offset_add_up() {
    assert_eq!(get_device_extra_latency_frames(Some(30), Some(12)), 42);
    assert_eq!(get_device_extra_latency_frames(None, Some(12)), 12);
    assert_eq!(get_device_extra_latency_frames(Some(30), None), 30);
    assert_eq!(get_device_extra_latency_frames(None, None), 0);
    assert_eq!(get_device_extra_latency_frames(Some(u32::MAX), Some(1)), 4_294_967_296);
    assert_eq!(get_device_extra_latency_frames(Some(u32::MAX), Some(u32::MAX)), 8_589_934_590);
}

#[test]
fn buffer_frame_size_is_passed_on() {
    assert_eq!(get_device_buffer_frame_size(Ok(512)), Ok(512));
    assert_eq!(get_device_buffer_frame_size(Err(failed())), Err(failed()));
}

#[test]
fn callback_variables() {
    assert_eq!(
        setup_callback_vars(config(), SampleFormat::I16, Some(512), Some(30), None),
        CallbackVars {
            bytes_per_channel: 2,
            sample_rate: 44100,
            device_buffer_frames: Some(512),
            extra_latency_frames: 30,
        }
    );
}

#[test]
fn latency_counts_the_device_buffer() {
    let vars = setup_callback_vars(config(), SampleFormat::F32, Some(512), Some(30), Some(12));
    assert_eq!(vars.buffer_len(1027), 256);
    assert_eq!(vars.latency_frames(256, 2), 554);
}

#[test]
fn latency_counts_the_buffer_at_hand_where_the_device_is_silent() {
    let vars = setup_callback_vars(config(), SampleFormat::F32, None, Some(30), Some(12));
    assert_eq!(vars.latency_frames(257, 2), 170);
}

#[test]
fn latency_wraps_around() {
    let vars = setup_callback_vars(config(), SampleFormat::F32, Some(u32::MAX), Some(3), None);
    assert_eq!(vars.latency_frames(0, 1), 2);
    let max = Some(u32::MAX);
    let vars = setup_callback_vars(config(), SampleFormat::F32, max, max, max);
    assert_eq!(vars.latency_frames(0, 1), u32::MAX - 2);
}

fn vars() -> CallbackVars {
    setup_callback_vars(config(), SampleFormat::F32, Some(512), Some(30), Some(12))
}

fn ask(step: CallbackStep) -> (CallbackCycle, CallbackRequest) {
    match step {
        CallbackStep::Ask(cycle, request) => (cycle, request),
        CallbackStep::Return(result) => panic!("returned {result:?}"),
    }
}

#[test]
fn an_input_callback() {
    let mut errors: Vec<Error> = vec![];
    let callback = StreamInstant::new(3, 0);
    let (cycle, request) =
        ask(vars().begin(Direction::Input, Ok(callback), 1027, 2, &mut errors));
    assert_eq!(request, CallbackRequest::Measure { frames: 554, sample_rate: 44100 });
    let reply = CallbackReply::Delay(Duration::new(1, 0));
    let (next, request) = ask(cycle.resume(reply, &mut errors));
    let info = |capture| InputCallbackInfo {
        timestamp: InputStreamTimestamp { callback, capture },
    };
    assert_eq!(
        request,
        CallbackRequest::RunInput(InputCall { len: 256, info: info(StreamInstant::new(2, 0)) })
    );
    assert!(errors.is_empty());
    assert_eq!(
        next.resume(CallbackReply::Returned, &mut errors),
        CallbackStep::Return(Ok(()))
    );
    assert!(errors.is_empty());

    let reply = CallbackReply::Delay(Duration::new(4, 0));
    let (_, request) = ask(cycle.resume(reply, &mut errors));
    assert_eq!(
        request,
        CallbackRequest::RunInput(InputCall { len: 256, info: info(callback) })
    );
    assert_eq!(
        errors,
        vec![Error::with_message(ErrorKind::BackendError, Message::CaptureUnderflow)]
    );
}

#[test]
fn an_output_callback() {
    let mut errors: Vec<Error> = vec![];
    let callback = StreamInstant::new(3, 0);
    let (cycle, request) =
        ask(vars().begin(Direction::Output, Ok(callback), 1024, 2, &mut errors));
    assert_eq!(request, CallbackRequest::Measure { frames: 554, sample_rate: 44100 });
    let reply = CallbackReply::Delay(Duration::new(1, 7));
    let (next, request) = ask(cycle.resume(reply, &mut errors));
    let info = |playback| OutputCallbackInfo {
        timestamp: OutputStreamTimestamp { callback, playback },
    };
    assert_eq!(
        request,
        CallbackRequest::RunOutput(OutputCall { len: 256, info: info(StreamInstant::new(4, 7)) })
    );
    assert!(errors.is_empty());
    assert_eq!(
        next.resume(CallbackReply::Returned, &mut errors),
        CallbackStep::Return(Ok(()))
    );

    let reply = CallbackReply::Delay(Duration::new(u64::MAX, 0));
    let (_, request) = ask(cycle.resume(reply, &mut errors));
    assert_eq!(
        request,
        CallbackRequest::RunOutput(OutputCall { len: 256, info: info(callback) })
    );
    assert_eq!(
        errors,
        vec![Error::with_message(ErrorKind::BackendError, Message::PlaybackOverflow)]
    );
}

#[test]
fn a_callback_that_began_at_an_unknown_time_does_not_run() {
    for direction in [Direction::Input, Direction::Output] {
        let mut errors: Vec<Error> = vec![];
        assert_eq!(
            vars().begin(direction, Err(failed()), 1024, 0, &mut errors),
            CallbackStep::Return(Err(()))
        );
        assert_eq!(errors, vec![failed()]);
    }
}
