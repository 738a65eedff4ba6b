//! Whole runs of building a duplex stream.

use vstd::prelude::*;

use crate::config::{BufferSize, FrameCount, SampleFormat, StreamConfig};
use crate::device::Device;
use crate::duplex::DuplexStreamConfig;
use crate::duplex_builder::{DuplexBuild, DuplexStage, DuplexStep};
use crate::error::{Context, Error, ErrorKind, Message};
use crate::stream::{DuplexCallbackPtr, Lock, Monitor, Stream, StreamInner};
use crate::time::Duration;
use crate::unit::{BuildReply, BuildRequest, Element, IoType, Scope, UnitProperty};

verus! {

/// A run of the procedure on a number of replies.
pub ghost struct DuplexRun {
    /// What was asked for, in order.
    pub asked: Seq<BuildRequest>,
    /// Where the run stands after the last reply.
    pub end: DuplexStep,
    /// Every reply answered a request, and none came after the end.
    pub answered: bool,
}

/// The run of a procedure that waits for the reply to `request`.
pub open spec fn run(
    m: DuplexBuild,
    request: BuildRequest,
    replies: Seq<BuildReply>,
) -> DuplexRun
    decreases replies.len(),
{
    if replies.len() == 0 {
        DuplexRun { asked: seq![request], end: DuplexStep::Ask(m, request), answered: true }
    } else {
        let answers = m.answers(replies[0]);
        match m.next(replies[0]) {
            DuplexStep::Ask(n, following) => {
                let rest = run(n, following, replies.drop_first());
                DuplexRun {
                    asked: seq![request] + rest.asked,
                    end: rest.end,
                    answered: answers && rest.answered,
                }
            },
            end => DuplexRun {
                asked: seq![request],
                end,
                answered: answers && replies.len() == 1,
            },
        }
    }
}

/// A run goes on with the replies that are left.
proof fn lemma_unfold(m: DuplexBuild, request: BuildRequest, replies: Seq<BuildReply>, k: int)
    requires
        0 <= k < replies.len(),
    ensures
        ({
            let whole = run(m, request, replies.skip(k));
            let answers = m.answers(replies[k]);
            match m.next(replies[k]) {
                DuplexStep::Ask(n, following) => {
                    let rest = run(n, following, replies.skip(k + 1));
                    &&& whole.asked == seq![request] + rest.asked
                    &&& whole.end == rest.end
                    &&& whole.answered == (answers && rest.answered)
                },
                end => {
                    &&& whole.asked == seq![request]
                    &&& whole.end == end
                    &&& whole.answered == (answers && k + 1 == replies.len())
                },
            }
        }),
{
    assert(replies.skip(k)[0] == replies[k]);
    assert(replies.skip(k).drop_first() =~= replies.skip(k + 1));
}

/// The replies of a system on which everything succeeds: both directions are there, every setting
/// is taken, the device has a buffer of `frames` frames, and the callback is kept at `callback`.
pub open spec fn all_well(
    config: DuplexStreamConfig,
    frames: FrameCount,
    callback: DuplexCallbackPtr,
) -> Seq<BuildReply> {
    seq![
        BuildReply::Supported(true),
        BuildReply::Supported(true),
        BuildReply::Done(Ok(())),
        BuildReply::Done(Ok(())),
        BuildReply::Done(Ok(())),
        BuildReply::Done(Ok(())),
        BuildReply::Done(Ok(())),
        BuildReply::Done(Ok(())),
        BuildReply::Done(Ok(())),
    ] + match config.buffer_size {
        BufferSize::Fixed(_) => seq![BuildReply::Done(Ok(()))],
        BufferSize::Default => seq![],
    } + seq![
        BuildReply::Done(Ok(())),
        BuildReply::Number(Ok(frames)),
        BuildReply::Callback(callback),
        BuildReply::Done(Ok(())),
        BuildReply::Done(Ok(())),
        BuildReply::Started(Lock::Held, Ok(())),
        BuildReply::Signalled,
    ]
}

/// A setting of the audio unit.
pub open spec fn set(scope: Scope, element: Element, property: UnitProperty) -> BuildRequest {
    BuildRequest::SetProperty { scope, element, property }
}

/// What a duplex stream takes: both directions of the device are probed and its rate set; one
/// audio unit is made, with both buses switched on, pinned to the device, with the formats of both
/// directions on the client's side, and the buffer size if one is requested; and once it is
/// initialized, the callback is made for the buffer that the device then has and installed, the
/// device is watched, its buffer size included, and the unit started.
pub open spec fn everything(
    device: Device,
    config: DuplexStreamConfig,
    sample_format: SampleFormat,
    timeout: Option<Duration>,
    frames: FrameCount,
    callback: DuplexCallbackPtr,
) -> Seq<BuildRequest> {
    let id = device.audio_device_id;
    seq![
        BuildRequest::ProbeInput { device_id: id },
        BuildRequest::ProbeOutput { device_id: id },
        BuildRequest::SetSampleRate {
            device_id: id,
            sample_rate: config.sample_rate,
            timeout,
        },
        BuildRequest::NewUnit(IoType::HalOutput),
        set(Scope::Input, Element::Input, UnitProperty::EnableIo(1)),
        set(Scope::Output, Element::Output, UnitProperty::EnableIo(1)),
        set(Scope::Global, Element::Output, UnitProperty::CurrentDevice(id)),
        set(
            Scope::Output,
            Element::Input,
            UnitProperty::StreamFormat(
                StreamConfig {
                    channels: config.input_channels,
                    sample_rate: config.sample_rate,
                    buffer_size: config.buffer_size,
                },
                sample_format,
            ),
        ),
        set(
            Scope::Input,
            Element::Output,
            UnitProperty::StreamFormat(
                StreamConfig {
                    channels: config.output_channels,
                    sample_rate: config.sample_rate,
                    buffer_size: config.buffer_size,
                },
                sample_format,
            ),
        ),
    ] + match config.buffer_size {
        BufferSize::Fixed(size) => seq![
            set(Scope::Global, Element::Output, UnitProperty::BufferFrameSize(size)),
        ],
        BufferSize::Default => seq![],
    } + seq![
        BuildRequest::Initialize,
        BuildRequest::ReadBufferFrames { scope: Scope::Global, element: Element::Output },
        BuildRequest::NewDuplexCallback { device_buffer_frames: frames },
        BuildRequest::InstallDuplexCallback {
            scope: Scope::Global,
            element: Element::Output,
            callback,
        },
        BuildRequest::StartMonitor(
            Monitor::Disconnect { device_id: id, listen_buffer_size: true },
        ),
        BuildRequest::Play,
        BuildRequest::SignalReady,
    ]
}

/// A duplex stream on `device`, with its callback at `callback`.
pub open spec fn stream_on(device: Device, callback: DuplexCallbackPtr, playing: bool) -> Stream {
    Stream {
        inner: StreamInner {
            playing,
            device_id: device.audio_device_id,
            loopback_device: None,
            duplex_callback_ptr: Some(callback),
        },
        monitor: Monitor::Disconnect {
            device_id: device.audio_device_id,
            listen_buffer_size: true,
        },
    }
}

/// What the procedure waits for after `k` replies of a system on which everything succeeds.
spec fn stage_at(config: DuplexStreamConfig, callback: DuplexCallbackPtr, k: int) -> DuplexStage {
    let j = if config.buffer_size is Fixed {
        k - 10
    } else {
        k - 9
    };
    if k == 0 {
        DuplexStage::ProbeInput
    } else if k == 1 {
        DuplexStage::ProbeOutput
    } else if k == 2 {
        DuplexStage::SampleRate
    } else if k == 3 {
        DuplexStage::Unit
    } else if k == 4 {
        DuplexStage::EnableInput
    } else if k == 5 {
        DuplexStage::EnableOutput
    } else if k == 6 {
        DuplexStage::CurrentDevice
    } else if k == 7 {
        DuplexStage::InputFormat
    } else if k == 8 {
        DuplexStage::OutputFormat
    } else if j < 0 {
        DuplexStage::BufferSize
    } else if j == 0 {
        DuplexStage::Initialize
    } else if j == 1 {
        DuplexStage::BufferFrames
    } else if j == 2 {
        DuplexStage::NewCallback
    } else if j == 3 {
        DuplexStage::Callback { callback }
    } else if j == 4 {
        DuplexStage::Monitor { callback }
    } else if j == 5 {
        DuplexStage::Play { callback }
    } else {
        DuplexStage::Ready { callback }
    }
}

/// The procedure after `k` replies of a system on which everything succeeds.
spec fn machine_at(
    device: Device,
    config: DuplexStreamConfig,
    sample_format: SampleFormat,
    timeout: Option<Duration>,
    callback: DuplexCallbackPtr,
    k: int,
) -> DuplexBuild {
    DuplexBuild {
        device,
        config,
        sample_format,
        timeout,
        stage: stage_at(config, callback, k),
    }
}

/// One more success takes the procedure one request further.
proof fn lemma_success(
    device: Device,
    config: DuplexStreamConfig,
    sample_format: SampleFormat,
    timeout: Option<Duration>,
    frames: FrameCount,
    callback: DuplexCallbackPtr,
    k: int,
)
    requires
        0 <= k < all_well(config, frames, callback).len(),
    ensures
        ({
            let m = machine_at(device, config, sample_format, timeout, callback, k);
            let n = machine_at(device, config, sample_format, timeout, callback, k + 1);
            let replies = all_well(config, frames, callback);
            let plan = everything(device, config, sample_format, timeout, frames, callback);
            &&& replies.len() == plan.len()
            &&& m.answers(replies[k])
            &&& m.next(replies[k]) == if k + 1 < plan.len() {
                DuplexStep::Ask(n, plan[k + 1])
            } else {
                DuplexStep::Done(Ok(stream_on(device, callback, true)))
            }
        }),
{
    let plan = everything(device, config, sample_format, timeout, frames, callback);
    let replies = all_well(config, frames, callback);
    let j = if config.buffer_size is Fixed {
        k - 10
    } else {
        k - 9
    };
    if k <= 8 {
        assert(replies[k] == if k <= 1 {
            BuildReply::Supported(true)
        } else {
            BuildReply::Done(Ok(()))
        });
    } else if j >= 0 {
        assert(j <= 6);
    }
}

/// The rest of a run on which everything succeeds.
proof fn lemma_rest(
    device: Device,
    config: DuplexStreamConfig,
    sample_format: SampleFormat,
    timeout: Option<Duration>,
    frames: FrameCount,
    callback: DuplexCallbackPtr,
    k: int,
)
    requires
        0 <= k < all_well(config, frames, callback).len(),
    ensures
        ({
            let plan = everything(device, config, sample_format, timeout, frames, callback);
            let r = run(
                machine_at(device, config, sample_format, timeout, callback, k),
                plan[k],
                all_well(config, frames, callback).skip(k),
            );
            &&& r.answered
            &&& r.asked == plan.skip(k)
            &&& r.end == DuplexStep::Done(Ok(stream_on(device, callback, true)))
        }),
    decreases all_well(config, frames, callback).len() - k,
{
    let m = machine_at(device, config, sample_format, timeout, callback, k);
    let plan = everything(device, config, sample_format, timeout, frames, callback);
    let replies = all_well(config, frames, callback);
    lemma_success(device, config, sample_format, timeout, frames, callback, k);
    lemma_unfold(m, plan[k], replies, k);
    if k + 1 < replies.len() {
        lemma_rest(device, config, sample_format, timeout, frames, callback, k + 1);
    }
    assert(plan.skip(k) =~= seq![plan[k]] + plan.skip(k + 1));
}

/// Where everything succeeds, building goes through to the end: all that a duplex stream takes is
/// asked for, in order, and there is a stream that plays, whatever the device, the configuration,
/// the sample format and the timeout.
pub proof fn law_success_builds_the_stream(
    device: Device,
    config: DuplexStreamConfig,
    sample_format: SampleFormat,
    timeout: Option<Duration>,
    frames: FrameCount,
    callback: DuplexCallbackPtr,
)
    ensures
        ({
            let r = run(
                DuplexBuild::initial(device, config, sample_format, timeout),
                BuildRequest::ProbeInput { device_id: device.audio_device_id },
                all_well(config, frames, callback),
            );
            &&& r.answered
            &&& r.asked == everything(device, config, sample_format, timeout, frames, callback)
            &&& r.end == DuplexStep::Done(Ok(stream_on(device, callback, true)))
        }),
{
    let replies = all_well(config, frames, callback);
    let plan = everything(device, config, sample_format, timeout, frames, callback);
    lemma_rest(device, config, sample_format, timeout, frames, callback, 0);
    assert(replies.skip(0) =~= replies);
    assert(plan.skip(0) =~= plan);
}

/// `reply` is a refusal of `request`: a direction that is missing, a number that cannot be read, a
/// lock that is poisoned, or a step that failed.
pub open spec fn refuses(request: BuildRequest, reply: BuildReply) -> bool {
    match request {
        BuildRequest::ProbeInput { .. } => reply == BuildReply::Supported(false),
        BuildRequest::ProbeOutput { .. } => reply == BuildReply::Supported(false),
        BuildRequest::ReadBufferFrames { .. } => reply matches BuildReply::Number(Err(_)),
        BuildRequest::Play => reply matches BuildReply::Started(lock, outcome) && (lock
            == Lock::Poisoned || outcome is Err),
        BuildRequest::NewDuplexCallback { .. } => false,
        BuildRequest::SignalReady => false,
        _ => reply matches BuildReply::Done(Err(_)),
    }
}

/// The error that a refusal amounts to.
pub open spec fn error_of(reply: BuildReply) -> Error {
    match reply {
        BuildReply::Supported(_) => Error {
            kind: ErrorKind::UnsupportedOperation,
            message: Some(Message::NotDuplex),
        },
        BuildReply::Number(Err(e)) => Error {
            kind: ErrorKind::BackendError,
            message: Some(
                Message::InContext(
                    Context::DuplexBufferSize,
                    match e.message {
                        Some(m) => Some(Box::new(m)),
                        None => None,
                    },
                ),
            ),
        },
        BuildReply::Started(Lock::Poisoned, _) => Error {
            kind: ErrorKind::StreamInvalidated,
            message: Some(Message::BuildLockPoisoned),
        },
        BuildReply::Started(Lock::Held, Err(e)) => Error {
            kind: e.kind,
            message: Some(
                Message::InContext(
                    Context::StartUnit,
                    match e.message {
                        Some(m) => Some(Box::new(m)),
                        None => None,
                    },
                ),
            ),
        },
        BuildReply::Done(Err(e)) => e,
        _ => arbitrary(),
    }
}

/// How a run ends that is refused after `k` successes: with the error, and with the audio unit and
/// the callback torn down once there is a callback, for the last four requests.
pub open spec fn refused_end(
    device: Device,
    config: DuplexStreamConfig,
    frames: FrameCount,
    callback: DuplexCallbackPtr,
    k: int,
    reply: BuildReply,
) -> DuplexStep {
    if k < all_well(config, frames, callback).len() - 4 {
        DuplexStep::Done(Err(error_of(reply)))
    } else {
        DuplexStep::Undo(stream_on(device, callback, false).inner, error_of(reply))
    }
}

proof fn lemma_refusal(
    device: Device,
    config: DuplexStreamConfig,
    sample_format: SampleFormat,
    timeout: Option<Duration>,
    frames: FrameCount,
    callback: DuplexCallbackPtr,
    k: int,
    refusal: BuildReply,
)
    requires
        0 <= k < all_well(config, frames, callback).len(),
        refuses(
            everything(device, config, sample_format, timeout, frames, callback)[k],
            refusal,
        ),
    ensures
        ({
            let m = machine_at(device, config, sample_format, timeout, callback, k);
            &&& m.answers(refusal)
            &&& m.next(refusal) == refused_end(device, config, frames, callback, k, refusal)
        }),
{
    let plan = everything(device, config, sample_format, timeout, frames, callback);
    let j = if config.buffer_size is Fixed {
        k - 10
    } else {
        k - 9
    };
    if k > 8 && j >= 0 {
        assert(j <= 6);
    }
}

/// The rest of a run that is refused after `k` replies in all.
proof fn lemma_rest_refused(
    device: Device,
    config: DuplexStreamConfig,
    sample_format: SampleFormat,
    timeout: Option<Duration>,
    frames: FrameCount,
    callback: DuplexCallbackPtr,
    i: int,
    k: int,
    refusal: BuildReply,
)
    requires
        0 <= i <= k < all_well(config, frames, callback).len(),
        refuses(
            everything(device, config, sample_format, timeout, frames, callback)[k],
            refusal,
        ),
    ensures
        ({
            let plan = everything(device, config, sample_format, timeout, frames, callback);
            let r = run(
                machine_at(device, config, sample_format, timeout, callback, i),
                plan[i],
                all_well(config, frames, callback).take(k).push(refusal).skip(i),
            );
            &&& r.answered
            &&& r.asked == plan.subrange(i, k + 1)
            &&& r.end == refused_end(device, config, frames, callback, k, refusal)
        }),
    decreases k - i,
{
    let m = machine_at(device, config, sample_format, timeout, callback, i);
    let plan = everything(device, config, sample_format, timeout, frames, callback);
    let replies = all_well(config, frames, callback).take(k).push(refusal);
    lemma_unfold(m, plan[i], replies, i);
    lemma_success(device, config, sample_format, timeout, frames, callback, i);
    if i < k {
        assert(replies[i] == all_well(config, frames, callback)[i]);
        lemma_rest_refused(
            device,
            config,
            sample_format,
            timeout,
            frames,
            callback,
            i + 1,
            k,
            refusal,
        );
    } else {
        lemma_refusal(device, config, sample_format, timeout, frames, callback, k, refusal);
    }
    assert(plan.subrange(i, k + 1) =~= seq![plan[i]] + plan.subrange(i + 1, k + 1));
}

/// A refusal at any point ends building there, with nothing else asked for, and with its error:
/// a missing direction, the size that cannot be read and the poisoned lock with errors of their
/// own, a start that failed with what was being done put before its message, and every other
/// failure as it is. A refusal once there is a callback has it torn down.
pub proof fn law_refusal_ends_building(
    device: Device,
    config: DuplexStreamConfig,
    sample_format: SampleFormat,
    timeout: Option<Duration>,
    frames: FrameCount,
    callback: DuplexCallbackPtr,
    k: int,
    refusal: BuildReply,
)
    requires
        0 <= k < all_well(config, frames, callback).len(),
        refuses(
            everything(device, config, sample_format, timeout, frames, callback)[k],
            refusal,
        ),
    ensures
        ({
            let plan = everything(device, config, sample_format, timeout, frames, callback);
            let r = run(
                DuplexBuild::initial(device, config, sample_format, timeout),
                BuildRequest::ProbeInput { device_id: device.audio_device_id },
                all_well(config, frames, callback).take(k).push(refusal),
            );
            &&& r.answered
            &&& r.asked == plan.take(k + 1)
            &&& r.end == refused_end(device, config, frames, callback, k, refusal)
        }),
{
    let replies = all_well(config, frames, callback).take(k).push(refusal);
    let plan = everything(device, config, sample_format, timeout, frames, callback);
    lemma_rest_refused(
        device,
        config,
        sample_format,
        timeout,
        frames,
        callback,
        0,
        k,
        refusal,
    );
    assert(replies.skip(0) =~= replies);
    assert(plan.subrange(0, k + 1) =~= plan.take(k + 1));
}

/// An error is never made up: whatever the procedure waits for, it ends with an error only on a
/// refusal, and a device counts as lacking a direction only if a probe said so.
pub proof fn law_errors_have_causes(m: DuplexBuild, reply: BuildReply)
    requires
        m.answers(reply),
    ensures
        m.next(reply) matches DuplexStep::Done(Err(e)) ==> match reply {
            BuildReply::Supported(supported) => !supported,
            BuildReply::Number(number) => number is Err,
            BuildReply::Done(outcome) => outcome == Err::<(), Error>(e),
            _ => false,
        },
        m.next(reply) matches DuplexStep::Undo(_, e) ==> match reply {
            BuildReply::Started(lock, outcome) => lock == Lock::Poisoned || outcome is Err,
            BuildReply::Done(outcome) => outcome == Err::<(), Error>(e),
            _ => false,
        },
        m.next(reply) matches DuplexStep::Done(Ok(_)) ==> reply is Signalled,
{
}

} // verus!
