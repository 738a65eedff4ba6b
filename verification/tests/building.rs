use duplex_audio::builder::{check_buffer_size, BuildStep, StreamBuild};
use duplex_audio::callback::CallbackVars;
use duplex_audio::config::{BufferSize, SampleFormat, StreamConfig, SupportedBufferSize};
use duplex_audio::device::Device;
use duplex_audio::duplex::DuplexStreamConfig;
use duplex_audio::duplex_builder::{DuplexBuild, DuplexStep};
use duplex_audio::error::{Error, ErrorKind, Message};
use duplex_audio::stream::{
    DuplexCallbackPtr, Lock, Monitor, Stream, StreamInner, Teardown,
};
use duplex_audio::time::Duration;
use duplex_audio::unit::{
    BuildReply, BuildRequest, Direction, Element, IoType, Scope, UnitProperty,
};

fn failed() -> Error {
    Error::with_message(ErrorKind::DeviceNotAvailable, Message::Backend("failed".to_string()))
}

fn ok() -> BuildReply {
    BuildReply::Done(Ok(()))
}

fn config(buffer_size: BufferSize) -> StreamConfig {
    StreamConfig { channels: 2, sample_rate: 48000, buffer_size }
}

fn duplex_config(buffer_size: BufferSize) -> DuplexStreamConfig {
    DuplexStreamConfig { input_channels: 1, output_channels: 2, sample_rate: 48000, buffer_size }
}

fn set(scope: Scope, element: Element, property: UnitProperty) -> BuildRequest {
    BuildRequest::SetProperty { scope, element, property }
}

/// Feeds replies until the procedure is done; returns what was asked for and the result.
fn run(
    start: (StreamBuild, BuildRequest),
    replies: Vec<BuildReply>,
) -> (Vec<BuildRequest>, Result<Stream, Error>) {
    let (mut m, mut request) = start;
    let mut asked = vec![];
    for reply in replies {
        asked.push(request);
        match m.resume(reply) {
            BuildStep::Ask(n, r) => {
                m = n;
                request = r;
            }
            BuildStep::Done(r) => return (asked, r),
        }
    }
    panic!("asked for {request:?} after {asked:?}");
}

fn callback() -> DuplexCallbackPtr {
    DuplexCallbackPtr { address: 0x2000 }
}

/// As [`run`], with the state behind the callback freed after a failure that comes once it is
/// there.
fn run_duplex(
    start: (DuplexBuild, BuildRequest),
    replies: Vec<BuildReply>,
) -> (Vec<BuildRequest>, Result<Stream, Error>) {
    let (mut m, mut request) = start;
    let mut asked = vec![];
    for reply in replies {
        asked.push(request);
        match m.resume(reply) {
            DuplexStep::Ask(n, r) => {
                m = n;
                request = r;
            }
            DuplexStep::Done(r) => return (asked, r),
            DuplexStep::Undo(inner, e) => {
                assert_eq!(
                    inner.teardown(),
                    vec![Teardown::DisposeUnit, Teardown::FreeCallback(callback())]
                );
                return (asked, Err(e));
            }
        }
    }
    panic!("asked for {request:?} after {asked:?}");
}

#[test]
fn an_output_stream() {
    let device = Device::new(21);
    let c = config(BufferSize::Default);
    let (asked, result) = run(
        device.build_output_stream_raw(c, SampleFormat::F32, None),
        vec![
            ok(),
            ok(),
            ok(),
            ok(),
            ok(),
            BuildReply::Number(Ok(512)),
            BuildReply::Number(Ok(30)),
            BuildReply::Number(Ok(12)),
            ok(),
            ok(),
            ok(),
            BuildReply::Signalled,
        ],
    );
    let vars = CallbackVars {
        bytes_per_channel: 4,
        sample_rate: 48000,
        device_buffer_frames: Some(512),
        extra_latency_frames: 42,
    };
    let monitor = Monitor::Disconnect { device_id: 21, listen_buffer_size: false };
    assert_eq!(
        asked,
        vec![
            BuildRequest::Validate(c),
            BuildRequest::SetPhysicalFormat {
                device_id: 21,
                sample_rate: 48000,
                channels: 2,
                sample_format: SampleFormat::F32,
            },
            BuildRequest::NewUnit(IoType::HalOutput),
            set(Scope::Global, Element::Output, UnitProperty::CurrentDevice(21)),
            set(
                Scope::Input,
                Element::Output,
                UnitProperty::StreamFormat(c, SampleFormat::F32)
            ),
            BuildRequest::ReadBufferFrames { scope: Scope::Global, element: Element::Output },
            BuildRequest::ReadLatency { scope: Scope::Output, element: Element::Output },
            BuildRequest::ReadSafetyOffset { scope: Scope::Output, element: Element::Output },
            BuildRequest::InstallCallback { direction: Direction::Output, vars },
            BuildRequest::Initialize,
            BuildRequest::StartMonitor(monitor),
            BuildRequest::SignalReady,
        ]
    );
    assert_eq!(
        result,
        Ok(Stream {
            inner: StreamInner {
                playing: false,
                device_id: 21,
                loopback_device: None,
                duplex_callback_ptr: None,
            },
            monitor,
        })
    );
}

#[test]
fn a_default_output_stream_follows_the_default() {
    let device = Device { audio_device_id: 21, is_default_output: true };
    let c = config(BufferSize::Fixed(256));
    let (asked, result) = run(
        device.build_output_stream_raw(c, SampleFormat::I16, None),
        vec![
            ok(),
            ok(),
            ok(),
            ok(),
            BuildReply::BufferRange(Ok(SupportedBufferSize::Range { min: 16, max: 256 })),
            ok(),
            BuildReply::Number(Err(failed())),
            BuildReply::Number(Err(failed())),
            BuildReply::Number(Err(failed())),
            ok(),
            ok(),
            ok(),
            BuildReply::Signalled,
        ],
    );
    let vars = CallbackVars {
        bytes_per_channel: 2,
        sample_rate: 48000,
        device_buffer_frames: None,
        extra_latency_frames: 0,
    };
    assert_eq!(asked[2], BuildRequest::NewUnit(IoType::DefaultOutput));
    assert_eq!(
        asked[3..],
        [
            set(
                Scope::Input,
                Element::Output,
                UnitProperty::StreamFormat(c, SampleFormat::I16)
            ),
            BuildRequest::ReadBufferRange { device_id: 21 },
            set(Scope::Global, Element::Output, UnitProperty::BufferFrameSize(256)),
            BuildRequest::ReadBufferFrames { scope: Scope::Global, element: Element::Output },
            BuildRequest::ReadLatency { scope: Scope::Output, element: Element::Output },
            BuildRequest::ReadSafetyOffset { scope: Scope::Output, element: Element::Output },
            BuildRequest::InstallCallback { direction: Direction::Output, vars },
            BuildRequest::Initialize,
            BuildRequest::StartMonitor(Monitor::DefaultOutput),
            BuildRequest::SignalReady,
        ]
    );
    assert_eq!(result.unwrap().monitor, Monitor::DefaultOutput);
}

#[test]
fn an_input_stream() {
    let device = Device::new(21);
    let c = config(BufferSize::Default);
    let (asked, result) = run(
        device.build_input_stream_raw(c, SampleFormat::F32, Some(Duration::new(2, 0))),
        vec![
            ok(),
            BuildReply::Done(Err(failed())),
            ok(),
            BuildReply::Supported(true),
            ok(),
            ok(),
            BuildReply::Number(Ok(512)),
            BuildReply::Number(Ok(1)),
            BuildReply::Number(Ok(2)),
            ok(),
            ok(),
            ok(),
            BuildReply::Signalled,
        ],
    );
    // Without a physical format that fits, the rate is set.
    assert_eq!(
        asked[2..6],
        [
            BuildRequest::SetSampleRate {
                device_id: 21,
                sample_rate: 48000,
                timeout: Some(Duration::new(2, 0)),
            },
            BuildRequest::ProbeInput { device_id: 21 },
            BuildRequest::NewInputUnit { device_id: 21 },
            set(
                Scope::Output,
                Element::Input,
                UnitProperty::StreamFormat(c, SampleFormat::F32)
            ),
        ]
    );
    assert_eq!(
        asked[7],
        BuildRequest::ReadLatency { scope: Scope::Input, element: Element::Output }
    );
    assert!(!result.unwrap().inner.playing);
}

#[test]
fn an_input_stream_on_a_device_that_cannot_record() {
    let device = Device::new(21);
    let c = config(BufferSize::Fixed(64));
    let (asked, result) = run(
        device.build_input_stream_raw(c, SampleFormat::F32, None),
        vec![
            ok(),
            ok(),
            BuildReply::Supported(false),
            BuildReply::Loopback(Ok(99)),
            ok(),
            ok(),
            BuildReply::BufferRange(Err(failed())),
            ok(),
            BuildReply::Number(Ok(64)),
            BuildReply::Number(Ok(1)),
            BuildReply::Number(Ok(2)),
            ok(),
            ok(),
            ok(),
            BuildReply::Signalled,
        ],
    );
    assert_eq!(asked[3], BuildRequest::OpenLoopback { device_id: 21 });
    assert_eq!(asked[4], BuildRequest::NewInputUnit { device_id: 99 });
    assert_eq!(asked[6], BuildRequest::ReadBufferRange { device_id: 99 });
    let stream = result.unwrap();
    assert_eq!(stream.inner.loopback_device, Some(99));
    assert_eq!(stream.inner.device_id, 21);
    assert_eq!(
        stream.monitor,
        Monitor::Disconnect { device_id: 21, listen_buffer_size: false }
    );
}

#[test]
fn a_buffer_size_out_of_range() {
    let range = || Ok(SupportedBufferSize::Range { min: 16, max: 256 });
    assert_eq!(check_buffer_size(16, range()), Ok(()));
    assert_eq!(check_buffer_size(256, range()), Ok(()));
    assert_eq!(check_buffer_size(1, Ok(SupportedBufferSize::Unknown)), Ok(()));
    assert_eq!(check_buffer_size(1, Err(failed())), Ok(()));
    for size in [15, 257] {
        let error = check_buffer_size(size, range()).unwrap_err();
        assert_eq!(error.kind, ErrorKind::UnsupportedConfig);
        assert_eq!(
            error.message.unwrap().text(),
            format!("Buffer size {size} is not in the supported range 16..=256")
        );
    }
    let (_, result) = run(
        Device::new(21).build_output_stream_raw(
            config(BufferSize::Fixed(8)),
            SampleFormat::F32,
            None,
        ),
        vec![ok(), ok(), ok(), ok(), ok(), BuildReply::BufferRange(range())],
    );
    assert_eq!(
        result,
        Err(Error::with_message(
            ErrorKind::UnsupportedConfig,
            Message::BufferSizeOutOfRange { size: 8, min: 16, max: 256 },
        ))
    );
}

#[test]
fn failures_end_the_build() {
    let replies = || {
        vec![
            ok(),
            BuildReply::Done(Err(failed())),
            ok(),
            BuildReply::Supported(false),
            BuildReply::Loopback(Ok(99)),
            ok(),
            ok(),
            BuildReply::BufferRange(Ok(SupportedBufferSize::Unknown)),
            ok(),
            BuildReply::Number(Ok(64)),
            BuildReply::Number(Ok(1)),
            BuildReply::Number(Ok(2)),
            ok(),
            ok(),
            ok(),
            BuildReply::Signalled,
        ]
    };
    let start = || {
        Device::new(21).build_input_stream_raw(
            config(BufferSize::Fixed(64)),
            SampleFormat::F32,
            None,
        )
    };
    assert!(run(start(), replies()).1.is_ok());
    for i in 0..replies().len() {
        let mut failing = replies();
        failing[i] = match failing[i] {
            BuildReply::Done(Ok(())) => BuildReply::Done(Err(failed())),
            BuildReply::Loopback(_) => BuildReply::Loopback(Err(failed())),
            _ => continue,
        };
        let (asked, result) = run(start(), failing);
        assert_eq!(result, Err(failed()));
        assert_eq!(asked.len(), i + 1);
    }
}

fn duplex_replies() -> Vec<BuildReply> {
    vec![
        BuildReply::Supported(true),
        BuildReply::Supported(true),
        ok(),
        ok(),
        ok(),
        ok(),
        ok(),
        ok(),
        ok(),
        ok(),
        ok(),
        BuildReply::Number(Ok(256)),
        BuildReply::Callback(callback()),
        ok(),
        ok(),
        BuildReply::Started(Lock::Held, Ok(())),
        BuildReply::Signalled,
    ]
}

#[test]
fn a_duplex_stream() {
    let c = duplex_config(BufferSize::Fixed(256));
    let timeout = Some(Duration::new(1, 0));
    let (asked, result) = run_duplex(
        Device::new(21).build_duplex_stream_raw(c, SampleFormat::F32, timeout),
        duplex_replies(),
    );
    let monitor = Monitor::Disconnect { device_id: 21, listen_buffer_size: true };
    assert_eq!(
        asked,
        vec![
            BuildRequest::ProbeInput { device_id: 21 },
            BuildRequest::ProbeOutput { device_id: 21 },
            BuildRequest::SetSampleRate { device_id: 21, sample_rate: 48000, timeout },
            BuildRequest::NewUnit(IoType::HalOutput),
            set(Scope::Input, Element::Input, UnitProperty::EnableIo(1)),
            set(Scope::Output, Element::Output, UnitProperty::EnableIo(1)),
            set(Scope::Global, Element::Output, UnitProperty::CurrentDevice(21)),
            set(
                Scope::Output,
                Element::Input,
                UnitProperty::StreamFormat(
                    StreamConfig {
                        channels: 1,
                        sample_rate: 48000,
                        buffer_size: BufferSize::Fixed(256),
                    },
                    SampleFormat::F32,
                )
            ),
            set(
                Scope::Input,
                Element::Output,
                UnitProperty::StreamFormat(
                    StreamConfig {
                        channels: 2,
                        sample_rate: 48000,
                        buffer_size: BufferSize::Fixed(256),
                    },
                    SampleFormat::F32,
                )
            ),
            set(Scope::Global, Element::Output, UnitProperty::BufferFrameSize(256)),
            BuildRequest::Initialize,
            BuildRequest::ReadBufferFrames { scope: Scope::Global, element: Element::Output },
            BuildRequest::NewDuplexCallback { device_buffer_frames: 256 },
            BuildRequest::InstallDuplexCallback {
                scope: Scope::Global,
                element: Element::Output,
                callback: callback(),
            },
            BuildRequest::StartMonitor(monitor),
            BuildRequest::Play,
            BuildRequest::SignalReady,
        ]
    );
    assert_eq!(
        result,
        Ok(Stream {
            inner: StreamInner {
                playing: true,
                device_id: 21,
                loopback_device: None,
                duplex_callback_ptr: Some(callback()),
            },
            monitor,
        })
    );
}

#[test]
fn a_duplex_stream_with_the_device_buffer() {
    let mut replies = duplex_replies();
    replies.remove(9);
    let (asked, result) = run_duplex(
        Device::new(21).build_duplex_stream_raw(
            duplex_config(BufferSize::Default),
            SampleFormat::F32,
            None,
        ),
        replies,
    );
    assert_eq!(asked.len(), 16);
    assert_eq!(asked[9], BuildRequest::Initialize);
    assert!(result.unwrap().inner.playing);
}

#[test]
fn a_device_that_lacks_a_direction() {
    let lacking = Error::with_message(ErrorKind::UnsupportedOperation, Message::NotDuplex);
    let start = || {
        Device::new(21).build_duplex_stream_raw(
            duplex_config(BufferSize::Default),
            SampleFormat::F32,
            None,
        )
    };
    let (asked, result) = run_duplex(start(), vec![BuildReply::Supported(false)]);
    assert_eq!((asked.len(), result), (1, Err(lacking)));
    let (asked, result) = run_duplex(
        start(),
        vec![BuildReply::Supported(true), BuildReply::Supported(false)],
    );
    assert_eq!(asked.len(), 2);
    assert_eq!(result.unwrap_err().kind, ErrorKind::UnsupportedOperation);
}

#[test]
fn a_callback_is_freed_where_it_cannot_be_installed() {
    let (mut m, _) = Device::new(21).build_duplex_stream_raw(
        duplex_config(BufferSize::Fixed(256)),
        SampleFormat::F32,
        None,
    );
    for reply in duplex_replies().into_iter().take(13) {
        m = match m.resume(reply) {
            DuplexStep::Ask(m, _) => m,
            other => panic!("{other:?}"),
        };
    }
    match m.resume(BuildReply::Done(Err(failed()))) {
        DuplexStep::Undo(inner, error) => {
            assert_eq!(error, failed());
            assert_eq!(
                inner,
                StreamInner {
                    playing: false,
                    device_id: 21,
                    loopback_device: None,
                    duplex_callback_ptr: Some(callback()),
                }
            );
        }
        other => panic!("{other:?}"),
    }
}

#[test]
fn failures_end_the_duplex_build() {
    let start = || {
        Device::new(21).build_duplex_stream_raw(
            duplex_config(BufferSize::Fixed(256)),
            SampleFormat::F32,
            None,
        )
    };
    for i in 2..duplex_replies().len() {
        let mut failing = duplex_replies();
        let (reply, kind, text) = match failing[i] {
            BuildReply::Done(_) => (
                BuildReply::Done(Err(failed())),
                ErrorKind::DeviceNotAvailable,
                "failed",
            ),
            BuildReply::Number(_) => (
                BuildReply::Number(Err(failed())),
                ErrorKind::BackendError,
                "failed to query device buffer size: failed",
            ),
            BuildReply::Callback(_) | BuildReply::Signalled => continue,
            _ => (
                BuildReply::Started(Lock::Held, Err(failed())),
                ErrorKind::DeviceNotAvailable,
                "failed to start audio unit: failed",
            ),
        };
        failing[i] = reply;
        let (asked, result) = run_duplex(start(), failing);
        assert_eq!(asked.len(), i + 1);
        let error = result.unwrap_err();
        assert_eq!(error.kind, kind);
        assert_eq!(error.message.unwrap().text(), text);
    }
    let mut poisoned = duplex_replies();
    poisoned[15] = BuildReply::Started(Lock::Poisoned, Ok(()));
    assert_eq!(
        run_duplex(start(), poisoned).1,
        Err(Error::with_message(ErrorKind::StreamInvalidated, Message::BuildLockPoisoned))
    );
}
