//! What single operations give back, for every result that they can give.

use vstd::prelude::*;

use crate::builder::{BuildStep, StreamBuild};
use crate::callback::{CallbackCycle, CallbackReply, CallbackStep, CallbackVars};
use crate::config::{
    FrameCount, SampleFormat, SampleRate, SupportedBufferSize, SupportedStreamConfigRange,
};
use crate::device::{AudioDeviceID, Device, DeviceId};
use crate::duplex::{
    CycleReply, CycleStep, DuplexCallbackInfo, DuplexCycle, DuplexPass, DuplexProc,
    DuplexStreamConfig,
};
use crate::duplex_builder::{DuplexBuild, DuplexStep};
use crate::error::{Context, Error, ErrorKind, Message};
use crate::physical::{PhysicalReply, PhysicalStep, SetPhysicalFormat};
use crate::properties::{
    ConfigsReply, ConfigsRequest, ConfigsStep, CoreSampleFormat, DefaultConfig,
    DefaultConfigReply, DefaultConfigRequest, DefaultConfigStep, SupportedConfigs,
};
use crate::rate::{RateReply, RateRequest, RateStep, SetSampleRate, ValueRange};
use crate::status::OSStatus;
use crate::stream::{
    DisconnectManager, DuplexCallbackPtr, Listener, ListenerSetup, ListenerStep, Lock, Monitor,
    Reaction, ReactionStep, Stream, StreamAccess, StreamInner, TryLock, UnitCommand,
};
use crate::time::{Duration, InputStreamTimestamp, OutputStreamTimestamp, StreamInstant};
use crate::unit::{BuildReply, BuildRequest, Direction};

verus! {

/// The failure `e`, told together with what was being done.
pub open spec fn while_doing(context: Context, e: Error) -> Error {
    Error {
        kind: e.kind,
        message: Some(
            Message::InContext(
                context,
                match e.message {
                    Some(m) => Some(Box::new(m)),
                    None => None,
                },
            ),
        ),
    }
}

/// An error of the given kind with the given message.
pub open spec fn an_error(kind: ErrorKind, message: Message) -> Error {
    Error { kind, message: Some(message) }
}

/// Playing and pausing never both take a command: of the two, one would change nothing. The other
/// starts a stream that does not play, or stops one that does.
pub proof fn law_play_and_pause(
    inner: StreamInner,
    to_play: Option<UnitCommand>,
    to_pause: Option<UnitCommand>,
)
    requires
        call_ensures(StreamInner::play, (&inner,), to_play),
        call_ensures(StreamInner::pause, (&inner,), to_pause),
    ensures
        to_play is None <==> inner.playing,
        to_pause is None <==> !inner.playing,
        to_play matches Some(command) ==> command == UnitCommand::Start,
        to_pause matches Some(command) ==> command == UnitCommand::Stop,
{
}

/// A stream whose lock is poisoned can neither be played nor paused. Otherwise it is played and
/// paused as what is inside of it.
pub proof fn law_play_and_pause_behind_a_lock(
    stream: Stream,
    lock: Lock,
    to_play: Result<Option<UnitCommand>, Error>,
    to_pause: Result<Option<UnitCommand>, Error>,
)
    requires
        call_ensures(Stream::play, (&stream, lock), to_play),
        call_ensures(Stream::pause, (&stream, lock), to_pause),
    ensures
        to_play is Ok <==> lock == Lock::Held,
        to_pause is Ok <==> lock == Lock::Held,
        to_play matches Err(e) ==> e == an_error(
            ErrorKind::StreamInvalidated,
            Message::StreamLockPoisoned,
        ),
        to_pause matches Err(e) ==> e == an_error(
            ErrorKind::StreamInvalidated,
            Message::StreamLockPoisoned,
        ),
        to_play matches Ok(command) ==> (command is None <==> stream.inner.playing),
        to_pause matches Ok(command) ==> (command is None <==> !stream.inner.playing),
        to_play matches Ok(Some(command)) ==> command == UnitCommand::Start,
        to_pause matches Ok(Some(command)) ==> command == UnitCommand::Stop,
{
}

/// A stream exists exactly if what watches over it was started, and is made of what it is given.
pub proof fn law_new_stream(
    inner: StreamInner,
    monitor: Monitor,
    started: Result<(), Error>,
    r: Result<Stream, Error>,
)
    requires
        call_ensures(Stream::new, (inner, monitor, started), r),
    ensures
        r matches Ok(stream) ==> started is Ok && stream.inner == inner && stream.monitor == monitor,
        r matches Err(e) ==> started == Err::<(), Error>(e),
{
}

/// The size of the buffer is what was read, if the stream's lock could be taken. A failure to read
/// it is told together with what was being done.
pub proof fn law_buffer_size(
    lock: Lock,
    frames: Result<u32, Error>,
    r: Result<FrameCount, Error>,
)
    requires
        call_ensures(Stream::buffer_size, (lock, frames), r),
    ensures
        r matches Ok(n) ==> lock == Lock::Held && frames == Ok::<u32, Error>(n),
        r matches Err(e) ==> match (lock, frames) {
            (Lock::Poisoned, _) => e == an_error(
                ErrorKind::StreamInvalidated,
                Message::StreamLockPoisoned,
            ),
            (Lock::Held, Err(cause)) => e == while_doing(Context::BufferFrameSize, cause),
            (Lock::Held, Ok(_)) => false,
        },
{
}

/// An error goes to the error callback as it is, unless the callback is busy. A callback that
/// panicked before is called all the same.
pub proof fn law_error_callback(lock: TryLock, err: Error, r: (bool, Option<Error>))
    requires
        call_ensures(crate::stream::invoke_error_callback, (lock, err), r),
    ensures
        r.0 <==> lock == TryLock::Acquired || lock == TryLock::Poisoned,
        r.0 <==> r.1 is Some,
        r.1 matches Some(e) ==> e == err,
{
}

/// A device is watched exactly if all its listeners are there, by a manager that knows the device
/// and what it listens to. The failure of a listener is passed on, and a thread that ended without
/// a word has an error of its own.
pub proof fn law_manager(
    device_id: AudioDeviceID,
    listen_buffer_size: bool,
    ready: Option<Result<(), Error>>,
    begun: (ListenerSetup, Listener),
    r: Result<DisconnectManager, Error>,
)
    requires
        call_ensures(DisconnectManager::new, (listen_buffer_size,), begun),
        call_ensures(DisconnectManager::ready, (device_id, listen_buffer_size, ready), r),
    ensures
        begun.1 == Listener::Alive,
        begun.0.stage is Alive,
        begun.0.listen_buffer_size == listen_buffer_size,
        r matches Ok(manager) ==> (ready matches Some(outcome) && outcome is Ok)
            && manager.device_id == device_id && manager.listen_buffer_size == listen_buffer_size,
        r matches Err(e) ==> match ready {
            Some(Ok(_)) => false,
            Some(Err(cause)) => e == cause,
            None => e == an_error(ErrorKind::StreamInvalidated, Message::ListenerThreadLost),
        },
{
}

/// The event thread goes on exactly while there are listeners and the stream is there, and it
/// reports an event exactly in that case, once, and last.
pub proof fn law_event_thread(event: Option<Error>, stream: StreamAccess, r: Reaction, i: int)
    requires
        call_ensures(DisconnectManager::react, (event, stream), r),
    ensures
        r.more <==> event is Some && !(stream is Gone),
        r.more <==> r.steps@.len() > 0,
        r.more ==> r.steps@.last() == ReactionStep::Report(event->0),
        0 <= i < r.steps@.len() - 1 ==> r.steps@[i] == ReactionStep::Command(UnitCommand::Stop)
            && (stream matches StreamAccess::Locked(inner) && inner.playing),
        r.more && (stream matches StreamAccess::Locked(inner) && inner.playing)
            ==> r.steps@.len() == 2,
{
}

/// A device made from an ID has that ID, and does not stand for the default output.
pub proof fn law_new_device(id: AudioDeviceID, r: Device)
    requires
        call_ensures(Device::new, (id,), r),
    ensures
        r == (Device { audio_device_id: id, is_default_output: false }),
{
}

/// A device is known by its unique ID. A device without one is not available, and a failure to
/// read it is passed on.
pub proof fn law_device_id(uid: Result<Option<String>, Error>, r: Result<DeviceId, Error>)
    requires
        call_ensures(Device::id, (uid,), r),
    ensures
        r matches Ok(id) ==> uid == Ok::<Option<String>, Error>(Some(id.uid)),
        r matches Err(e) ==> match uid {
            Ok(Some(_)) => false,
            Ok(None) => e.kind == ErrorKind::DeviceNotAvailable && e.message is None,
            Err(cause) => e == cause,
        },
{
}

/// A device is an aggregate exactly if its class could be read and is that of aggregates.
pub proof fn law_aggregate(status: OSStatus, class: u32, r: bool)
    requires
        call_ensures(Device::is_aggregate_device, (status, class), r),
    ensures
        r <==> status == 0 && class == crate::laws::devices::code('a', 'a', 'g', 'g'),
{
}

/// A device can be used in a direction exactly if it has configurations in it that could be
/// listed, and for duplex streams exactly if it can be used in both.
pub proof fn law_usable_directions(
    input: Result<Vec<SupportedStreamConfigRange>, Error>,
    output: Result<Vec<SupportedStreamConfigRange>, Error>,
    records: bool,
    plays: bool,
    both: bool,
)
    requires
        call_ensures(Device::supports_input, (&input,), records),
        call_ensures(Device::supports_output, (&output,), plays),
        call_ensures(Device::supports_duplex, (&input, &output), both),
    ensures
        records <==> (input matches Ok(configs) && configs@.len() > 0),
        plays <==> (output matches Ok(configs) && configs@.len() > 0),
        both <==> records && plays,
{
}

/// A sample format and its counterpart stand for the same kind of number in the same number of
/// bits, and a format without a counterpart has none that does.
pub proof fn law_counterparts(
    format: SampleFormat,
    core: CoreSampleFormat,
    r: Option<CoreSampleFormat>,
)
    requires
        call_ensures(crate::physical::core_format, (format,), r),
    ensures
        r == Some(core) <==> crate::laws::devices::number_of(format)
            == crate::laws::devices::core_number_of(core),
{
    crate::laws::devices::law_core_format(format, core);
}

/// A rate is supported exactly if it lies between the ends of a range, whichever range that is.
pub proof fn law_supported_rates(ranges: Vec<ValueRange>, n: SampleRate, r: bool)
    requires
        call_ensures(crate::rate::supports_rate, (&ranges, n), r),
    ensures
        r <==> exists|i: int|
            0 <= i < ranges@.len() && crate::laws::rates::between(#[trigger] ranges@[i], n as int),
{
    assert forall|i: int| 0 <= i < ranges@.len() implies (#[trigger] ranges@[i]).contains_spec(
        n as int,
    ) == crate::laws::rates::between(ranges@[i], n as int) by {
        crate::laws::values::law_comparisons(ranges@[i].minimum, n as int);
        crate::laws::values::law_comparisons(ranges@[i].maximum, n as int);
    }
}

/// A requested size passes unless it is known to lie outside of what the device supports.
pub proof fn law_checked_sizes(
    size: FrameCount,
    supported: Result<SupportedBufferSize, Error>,
    r: Result<(), Error>,
)
    requires
        call_ensures(crate::builder::check_buffer_size, (size, supported), r),
    ensures
        match supported {
            Ok(SupportedBufferSize::Range { min, max }) => if min <= size <= max {
                r is Ok
            } else {
                r == Err::<(), Error>(
                    an_error(
                        ErrorKind::UnsupportedConfig,
                        Message::BufferSizeOutOfRange { size, min, max },
                    ),
                )
            },
            _ => r is Ok,
        },
{
}

/// The range of sizes that a device reports, rounded down to whole frames, and a failure to read
/// it as it is.
pub proof fn law_reported_sizes(
    range: Result<ValueRange, Error>,
    r: Result<SupportedBufferSize, Error>,
)
    requires
        call_ensures(crate::properties::get_io_buffer_frame_size_range, (range,), r),
    ensures
        r matches Ok(sizes) ==> range matches Ok(range) && sizes == crate::laws::devices::sizes(
            range,
        ),
        r matches Err(e) ==> range == Err::<ValueRange, Error>(e),
{
}

/// The status that goes back from a render callback: that of the call, or a parameter error where
/// the call did not come to an end.
pub proof fn law_status_of_a_call(outcome: Option<OSStatus>, r: OSStatus)
    requires
        call_ensures(crate::duplex::duplex_input_proc, (outcome,), r),
    ensures
        outcome is Some ==> outcome == Some(r),
        outcome is None ==> r == -50,
{
}

/// A size of the device buffer, and a failure to read it, are kept as they are.
pub proof fn law_device_buffer(frames: Result<u32, Error>, r: Result<usize, Error>)
    requires
        call_ensures(crate::callback::get_device_buffer_frame_size, (frames,), r),
    ensures
        r matches Ok(n) ==> frames matches Ok(m) && m == n,
        r matches Err(e) ==> frames == Err::<u32, Error>(e),
{
}

/// Spans and instants are taken from each other and added up by their nanoseconds, exactly where
/// the result is not negative and can be represented.
pub proof fn law_times(
    span: Duration,
    other: Duration,
    instant: StreamInstant,
    shorter: Option<Duration>,
    earlier: Option<StreamInstant>,
    later: Option<StreamInstant>,
)
    requires
        call_ensures(Duration::checked_sub, (span, other), shorter),
        call_ensures(StreamInstant::checked_sub, (instant, other), earlier),
        call_ensures(StreamInstant::checked_add, (instant, other), later),
    ensures
        ({
            let a = span.secs * 1_000_000_000 + span.nanos;
            let b = other.secs * 1_000_000_000 + other.nanos;
            let t = instant.secs * 1_000_000_000 + instant.nanos;
            &&& shorter is Some <==> a - b >= 0
            &&& earlier is Some <==> t - b >= 0
            &&& later is Some <==> t + b < 0x1_0000_0000_0000_0000 * 1_000_000_000
            &&& shorter matches Some(r) ==> r.nanos < 1_000_000_000 && r.secs * 1_000_000_000
                + r.nanos == a - b
            &&& earlier matches Some(r) ==> r.nanos < 1_000_000_000 && r.secs * 1_000_000_000
                + r.nanos == t - b
            &&& later matches Some(r) ==> r.nanos < 1_000_000_000 && r.secs * 1_000_000_000
                + r.nanos == t + b
        }),
{
}

/// Spans and instants are made of the seconds and nanoseconds given.
pub proof fn law_new_times(secs: u64, nanos: u32, span: Duration, instant: StreamInstant)
    requires
        call_ensures(Duration::new, (secs, nanos), span),
        call_ensures(StreamInstant::new, (secs, nanos), instant),
    ensures
        span.secs == secs && span.nanos == nanos,
        instant.secs == secs && instant.nanos == nanos,
{
}

/// What an info is made of is what it gives back.
pub proof fn law_timestamps(
    input: InputStreamTimestamp,
    output: OutputStreamTimestamp,
    info: DuplexCallbackInfo,
    captured: InputStreamTimestamp,
    played: OutputStreamTimestamp,
)
    requires
        call_ensures(DuplexCallbackInfo::new, (input, output), info),
        call_ensures(DuplexCallbackInfo::input_timestamp, (&info,), captured),
        call_ensures(DuplexCallbackInfo::output_timestamp, (&info,), played),
    ensures
        captured == input,
        played == output,
{
}

/// Errors are made of their kind and message.
pub proof fn law_new_errors(
    kind: ErrorKind,
    message: Message,
    context: Context,
    cause: Error,
    with: Error,
    without: Error,
    within: Error,
)
    requires
        call_ensures(Error::with_message, (kind, message), with),
        call_ensures(Error::from_kind, (kind,), without),
        call_ensures(Error::in_context, (cause, context), within),
    ensures
        with == an_error(kind, message),
        without.kind == kind && without.message is None,
        within == while_doing(context, cause),
{
}

/// How many samples a buffer holds, how long its frames are under way, and what the device adds to
/// that.
pub proof fn law_callback_sizes(
    vars: CallbackVars,
    bytes: u32,
    len: usize,
    channels: u32,
    latency: Option<u32>,
    offset: Option<u32>,
    samples: usize,
    frames: FrameCount,
    extra: usize,
)
    requires
        channels > 0,
        call_ensures(CallbackVars::buffer_len, (&vars, bytes), samples),
        call_ensures(CallbackVars::latency_frames, (&vars, len, channels), frames),
        call_ensures(
            crate::callback::get_device_extra_latency_frames,
            (latency, offset),
            extra,
        ),
    ensures
        samples == bytes as int / vars.bytes_per_channel as int,
        frames == crate::laws::rendering::frames_under_way(vars, len as int, channels as int)
            % 0x1_0000_0000,
        extra == (match latency {
            Some(n) => n as int,
            None => 0,
        }) + (match offset {
            Some(n) => n as int,
            None => 0,
        }),
{
}

/// A duplex stream is set up as configured, for the device buffer given, with a silent buffer that
/// holds a sample for each of its frames and input channels.
pub proof fn law_new_proc(
    config: DuplexStreamConfig,
    format: SampleFormat,
    frames: FrameCount,
    proc: DuplexProc,
    delay: (FrameCount, SampleRate),
    i: int,
)
    requires
        call_ensures(DuplexProc::new, (config, format, frames), proc),
        call_ensures(DuplexProc::delay, (&proc,), delay),
    ensures
        proc.input_channels == config.input_channels,
        proc.sample_format == format,
        proc.sample_rate == config.sample_rate,
        proc.device_buffer_frames == frames,
        !proc.buffer_size_changed,
        proc.input_buffer@.len() == (frames * config.input_channels) * format.sample_size_spec(),
        0 <= i < proc.input_buffer@.len() ==> proc.input_buffer@[i] == 0,
        delay == (frames, config.sample_rate),
{
}

/// The runs that laws speak of begin where building a stream begins.
pub proof fn law_building_begins(
    wanted: crate::laws::building::Wanted,
    input: (StreamBuild, BuildRequest),
    output: (StreamBuild, BuildRequest),
)
    requires
        call_ensures(
            Device::build_input_stream_raw,
            (&wanted.device, wanted.config, wanted.sample_format, wanted.timeout),
            input,
        ),
        call_ensures(
            Device::build_output_stream_raw,
            (&wanted.device, wanted.config, wanted.sample_format, wanted.timeout),
            output,
        ),
    ensures
        ({
            let begun = match wanted.direction {
                Direction::Input => input,
                Direction::Output => output,
            };
            &&& begun.0 == StreamBuild::initial(
                wanted.device,
                wanted.direction,
                wanted.config,
                wanted.sample_format,
                wanted.timeout,
            )
            &&& begun.1 == BuildRequest::Validate(wanted.config)
        }),
{
}

/// Where everything succeeds, what begins with building a duplex stream on a device goes through
/// to a stream that plays on that device.
pub proof fn law_duplex_building_begins(
    device: Device,
    config: DuplexStreamConfig,
    sample_format: SampleFormat,
    timeout: Option<Duration>,
    begun: (DuplexBuild, BuildRequest),
    frames: FrameCount,
    callback: DuplexCallbackPtr,
)
    requires
        call_ensures(
            Device::build_duplex_stream_raw,
            (&device, config, sample_format, timeout),
            begun,
        ),
    ensures
        begun.0 == DuplexBuild::initial(device, config, sample_format, timeout),
        begun.1 == (BuildRequest::ProbeInput { device_id: device.audio_device_id }),
        ({
            let r = crate::laws::duplex_building::run(
                begun.0,
                begun.1,
                crate::laws::duplex_building::all_well(config, frames, callback),
            );
            &&& r.answered
            &&& r.asked == crate::laws::duplex_building::everything(
                device,
                config,
                sample_format,
                timeout,
                frames,
                callback,
            )
            &&& r.end == DuplexStep::Done(
                Ok(crate::laws::duplex_building::stream_on(device, callback, true)),
            )
        }),
{
    crate::laws::duplex_building::law_success_builds_the_stream(
        device,
        config,
        sample_format,
        timeout,
        frames,
        callback,
    );
}

/// The runs that laws speak of begin where changing a rate begins.
pub proof fn law_rate_change_begins(
    device_id: AudioDeviceID,
    target: SampleRate,
    timeout: Option<Duration>,
    begun: (SetSampleRate, RateRequest),
    replies: Seq<RateReply>,
)
    requires
        call_ensures(crate::rate::set_sample_rate, (device_id, target, timeout), begun),
    ensures
        begun.1 == RateRequest::ReadNominalRate,
        crate::laws::rates::run(begun.0, begun.1, replies) == crate::laws::rates::whole_run(
            device_id,
            target,
            timeout,
            replies,
        ),
{
}

/// The runs that laws speak of go on as the procedures do.
pub proof fn law_procedures_go_on(
    building: StreamBuild,
    duplex: DuplexBuild,
    reply: BuildReply,
    rate: SetSampleRate,
    rate_reply: RateReply,
    built: BuildStep,
    built_duplex: DuplexStep,
    changed: RateStep,
)
    requires
        call_ensures(StreamBuild::resume, (building, reply), built),
        call_ensures(DuplexBuild::resume, (duplex, reply), built_duplex),
        call_ensures(SetSampleRate::resume, (rate, rate_reply), changed),
    ensures
        built == building.next(reply),
        built_duplex == duplex.next(reply),
        changed == rate.next(rate_reply),
        building.wf() && building.answers(reply) ==> call_requires(
            StreamBuild::resume,
            (building, reply),
        ),
        duplex.wf() && duplex.answers(reply) ==> call_requires(
            DuplexBuild::resume,
            (duplex, reply),
        ),
        rate.wf() && rate.answers(rate_reply) ==> call_requires(
            SetSampleRate::resume,
            (rate, rate_reply),
        ),
{
}

/// Listing configurations, reading the one a device is set to, setting a physical format and
/// registering listeners go on as laws say, from the request that they begin with.
pub proof fn law_inquiries_go_on(
    listing: SupportedConfigs,
    configs_reply: ConfigsReply,
    listed: ConfigsStep,
    reading: DefaultConfig,
    config_reply: DefaultConfigReply,
    read: DefaultConfigStep,
    setting: SetPhysicalFormat,
    format_reply: PhysicalReply,
    set: PhysicalStep,
    listeners: ListenerSetup,
    outcome: Result<(), Error>,
    registered: ListenerStep,
)
    requires
        call_ensures(SupportedConfigs::resume, (listing, configs_reply), listed),
        call_ensures(DefaultConfig::resume, (reading, config_reply), read),
        call_ensures(SetPhysicalFormat::resume, (setting, format_reply), set),
        call_ensures(ListenerSetup::resume, (listeners, outcome), registered),
    ensures
        listed@ == listing.next(configs_reply),
        read == reading.next(config_reply),
        set == setting.next(format_reply),
        registered == listeners.next(outcome),
{
}

/// Listing the configurations of a device, and reading the one it is set to, begin on that device,
/// each direction in its own scope.
pub proof fn law_inquiries_begin(
    device: Device,
    inputs: (SupportedConfigs, ConfigsRequest),
    outputs: (SupportedConfigs, ConfigsRequest),
    input: (DefaultConfig, DefaultConfigRequest),
    output: (DefaultConfig, DefaultConfigRequest),
)
    requires
        call_ensures(Device::supported_input_configs, (&device,), inputs),
        call_ensures(Device::supported_output_configs, (&device,), outputs),
        call_ensures(Device::default_input_config, (&device,), input),
        call_ensures(Device::default_output_config, (&device,), output),
    ensures
        ({
            let inpt = crate::laws::devices::code('i', 'n', 'p', 't');
            let outp = crate::laws::devices::code('o', 'u', 't', 'p');
            &&& inputs.0.device_id == device.audio_device_id && inputs.0.scope == inpt
            &&& outputs.0.device_id == device.audio_device_id && outputs.0.scope == outp
            &&& input.0.device_id == device.audio_device_id && input.0.scope == inpt
            &&& output.0.device_id == device.audio_device_id && output.0.scope == outp
            &&& inputs.1 matches ConfigsRequest::MeasureBufferList { scope } && scope == inpt
            &&& outputs.1 matches ConfigsRequest::MeasureBufferList { scope } && scope == outp
            &&& input.1 matches DefaultConfigRequest::ReadFormat { scope } && scope == inpt
            &&& output.1 matches DefaultConfigRequest::ReadFormat { scope } && scope == outp
        }),
{
}

/// What becomes of a command that is carried out: it is remembered if it succeeded, and if not, the
/// failure is told together with what was being done, and the stream is as it was.
pub proof fn law_commands_carried_out(
    command: UnitCommand,
    outcome: Result<(), Error>,
    r: Result<(), Error>,
)
    ensures
        forall|inner: &mut StreamInner| #[trigger]
            call_ensures(StreamInner::commanded, (inner, command, outcome), r) ==> {
                &&& final(inner).playing == match outcome {
                    Ok(_) => command == UnitCommand::Start,
                    Err(_) => inner.playing,
                }
                &&& final(inner).device_id == inner.device_id
                &&& final(inner).loopback_device == inner.loopback_device
                &&& final(inner).duplex_callback_ptr == inner.duplex_callback_ptr
                &&& r is Ok <==> outcome is Ok
                &&& r matches Err(e) ==> e == while_doing(
                    match command {
                        UnitCommand::Start => Context::StartUnit,
                        UnitCommand::Stop => Context::StopUnit,
                    },
                    outcome->Err_0,
                )
            },
{
}

/// A duplex stream stays set up as it was.
pub open spec fn set_up_alike(a: DuplexProc, b: DuplexProc) -> bool {
    &&& a.input_channels == b.input_channels
    &&& a.sample_format == b.sample_format
    &&& a.sample_rate == b.sample_rate
    &&& a.device_buffer_frames == b.device_buffer_frames
}

/// A call is accepted exactly if no call before it was for another number of frames than the
/// device buffer has, and neither is this one, and there is a buffer to render to. All that a call
/// can change is whether there was such a call.
pub proof fn law_accepted_calls(
    frames: FrameCount,
    buffers: Option<u32>,
    r: Result<(), OSStatus>,
)
    ensures
        forall|proc: &mut DuplexProc| #[trigger]
            call_ensures(DuplexProc::accept, (proc, frames, buffers), r) && proc.wf() ==> {
                let fits = frames == proc.device_buffer_frames || proc.input_channels == 0;
                let buffer = buffers matches Some(n) && n > 0;
                &&& r is Ok <==> !proc.buffer_size_changed && buffer && fits
                &&& r matches Err(status) ==> status == -50
                &&& final(proc).buffer_size_changed <==> proc.buffer_size_changed || (buffer
                    && !fits)
                &&& set_up_alike(*final(proc), *proc)
                &&& final(proc).input_buffer == proc.input_buffer
            },
{
    assert forall|proc: &mut DuplexProc| #[trigger]
        call_ensures(DuplexProc::accept, (proc, frames, buffers), r) && proc.wf() implies {
        let fits = frames == proc.device_buffer_frames || proc.input_channels == 0;
        let buffer = buffers matches Some(n) && n > 0;
        &&& r is Ok <==> !proc.buffer_size_changed && buffer && fits
        &&& r matches Err(status) ==> status == -50
        &&& final(proc).buffer_size_changed <==> proc.buffer_size_changed || (buffer && !fits)
        &&& set_up_alike(*final(proc), *proc)
        &&& final(proc).input_buffer == proc.input_buffer
    } by {
        crate::duplex::lemma_fits_one_device_buffer(*proc, frames);
    }
}

/// A render call begins, and remembers, as laws say of accepted calls.
pub proof fn law_render_begins(
    host_time: u64,
    frames: FrameCount,
    buffers: Option<u32>,
    step: CycleStep,
)
    ensures
        forall|proc: &mut DuplexProc| #[trigger]
            call_ensures(DuplexProc::render, (proc, host_time, frames, buffers), step)
                && proc.wf() ==> {
                let fits = frames == proc.device_buffer_frames || proc.input_channels == 0;
                let buffer = buffers matches Some(n) && n > 0;
                &&& step == proc.started(host_time, frames, buffers)
                &&& final(proc).buffer_size_changed <==> proc.buffer_size_changed || (buffer
                    && !fits)
                &&& set_up_alike(*final(proc), *proc)
                &&& final(proc).input_buffer == proc.input_buffer
            },
{
    assert forall|proc: &mut DuplexProc| #[trigger]
        call_ensures(DuplexProc::render, (proc, host_time, frames, buffers), step)
            && proc.wf() implies {
        let fits = frames == proc.device_buffer_frames || proc.input_channels == 0;
        let buffer = buffers matches Some(n) && n > 0;
        &&& step == proc.started(host_time, frames, buffers)
        &&& final(proc).buffer_size_changed <==> proc.buffer_size_changed || (buffer && !fits)
        &&& set_up_alike(*final(proc), *proc)
        &&& final(proc).input_buffer == proc.input_buffer
    } by {
        crate::duplex::lemma_fits_one_device_buffer(*proc, frames);
    }
}

/// A render call goes on as laws say, reports what they say after what was reported before, and
/// leaves the scratch buffer as it is, unless a pull failed: then nothing but silence is in it.
pub proof fn law_render_goes_on(cycle: DuplexCycle, reply: CycleReply, step: CycleStep)
    ensures
        forall|proc: &mut DuplexProc, errors: &mut Vec<Error>| #[trigger]
            call_ensures(DuplexProc::resume, (proc, cycle, reply, errors), step) ==> {
                let failed = reply matches CycleReply::Pulled(status) && status != 0;
                &&& step == cycle.next(*proc, reply)
                &&& final(errors)@ == errors@ + cycle.errors(reply)
                &&& set_up_alike(*final(proc), *proc)
                &&& final(proc).buffer_size_changed == proc.buffer_size_changed
                &&& final(proc).input_buffer@.len() == proc.input_buffer@.len()
                &&& !failed ==> final(proc).input_buffer@ == proc.input_buffer@
                &&& failed ==> forall|i: int|
                    0 <= i < proc.input_buffer@.len() ==> #[trigger] final(proc).input_buffer@[i]
                        == 0
            },
{
}

/// A pull that failed is reported with its status and leaves silence. Any other changes nothing.
pub proof fn law_pulled_input(status: OSStatus)
    ensures
        forall|proc: &mut DuplexProc, errors: &mut Vec<Error>| #[trigger]
            call_ensures(DuplexProc::pulled, (proc, status, errors), ()) ==> {
                &&& set_up_alike(*final(proc), *proc)
                &&& final(proc).buffer_size_changed == proc.buffer_size_changed
                &&& final(proc).input_buffer@.len() == proc.input_buffer@.len()
                &&& status == 0 ==> final(proc).input_buffer@ == proc.input_buffer@
                    && final(errors)@ == errors@
                &&& status != 0 ==> final(errors)@ == errors@.push(
                    an_error(ErrorKind::BackendError, Message::RenderFailed(status)),
                )
                &&& status != 0 ==> forall|i: int|
                    0 <= i < proc.input_buffer@.len() ==> #[trigger] final(proc).input_buffer@[i]
                        == 0
            },
{
}

/// An accepted call is placed in time exactly if its instant is known and there is room for output,
/// and it is told what goes wrong with its times.
pub proof fn law_placed_calls(
    proc: DuplexProc,
    frames: FrameCount,
    callback: Result<StreamInstant, Error>,
    delay: Duration,
    output_bytes: Option<u32>,
    r: Result<DuplexPass, OSStatus>,
)
    requires
        callback matches Ok(t) ==> t.wf(),
        delay.wf(),
    ensures
        forall|errors: &mut Vec<Error>| #[trigger]
            call_ensures(
                DuplexProc::place,
                (&proc, frames, callback, delay, output_bytes, errors),
                r,
            ) ==> {
                &&& r matches Ok(pass) ==> match (callback, output_bytes) {
                    (Ok(t), Some(bytes)) => pass == proc.pass(frames, t, delay, bytes),
                    _ => false,
                }
                &&& r matches Err(status) ==> (callback is Err || output_bytes is None) && status
                    == -50
                &&& final(errors)@ == errors@ + match callback {
                    Ok(t) => crate::laws::rendering::too_early(t, delay)
                        + crate::laws::rendering::too_late(t, delay),
                    Err(e) => seq![e],
                }
            },
{
    if let Ok(t) = callback {
        lemma_reports(t, delay);
    }
}

proof fn lemma_reports(t: StreamInstant, delay: Duration)
    requires
        t.wf(),
        delay.wf(),
    ensures
        crate::time::capture_errors(t, delay) == crate::laws::rendering::too_early(t, delay),
        crate::time::playback_errors(t, delay) == crate::laws::rendering::too_late(t, delay),
{
    crate::laws::values::law_capture(t, delay);
    crate::laws::values::law_playback(t, delay);
    assert(crate::time::capture_errors(t, delay) =~= crate::laws::rendering::too_early(t, delay));
    assert(crate::time::playback_errors(t, delay) =~= crate::laws::rendering::too_late(t, delay));
}

/// Capture lies as long before the callback as the delay says, and playback as long after, or at
/// the callback where the clock cannot show that, which is reported.
pub proof fn law_estimates(t: StreamInstant, delay: Duration, r: StreamInstant)
    requires
        t.wf(),
        delay.wf(),
    ensures
        forall|errors: &mut Vec<Error>| #[trigger]
            call_ensures(crate::time::estimate_capture_instant, (t, delay, errors), r) ==> {
                &&& crate::laws::rendering::before(r, t, delay)
                &&& final(errors)@ == errors@ + crate::laws::rendering::too_early(t, delay)
            },
        forall|errors: &mut Vec<Error>| #[trigger]
            call_ensures(crate::time::estimate_playback_instant, (t, delay, errors), r) ==> {
                &&& crate::laws::rendering::after(r, t, delay)
                &&& final(errors)@ == errors@ + crate::laws::rendering::too_late(t, delay)
            },
{
    lemma_reports(t, delay);
    crate::laws::values::law_capture(t, delay);
    crate::laws::values::law_playback(t, delay);
}

/// A callback in one direction begins and goes on as laws say. Why its beginning is unknown is
/// reported, and what goes wrong with its times, each after what was reported before.
pub proof fn law_callback_goes_on(
    vars: CallbackVars,
    direction: Direction,
    callback: Result<StreamInstant, Error>,
    bytes: u32,
    channels: u32,
    cycle: CallbackCycle,
    reply: CallbackReply,
    step: CallbackStep,
)
    ensures
        forall|errors: &mut Vec<Error>| #[trigger]
            call_ensures(
                CallbackVars::begin,
                (&vars, direction, callback, bytes, channels, errors),
                step,
            ) ==> {
                &&& step == vars.begun(direction, callback, bytes, channels)
                &&& callback is Ok ==> final(errors)@ == errors@
                &&& callback matches Err(e) ==> final(errors)@ == errors@.push(e)
            },
        forall|errors: &mut Vec<Error>| #[trigger]
            call_ensures(CallbackCycle::resume, (cycle, reply, errors), step) ==> {
                &&& step == cycle.next(reply)
                &&& final(errors)@ == errors@ + cycle.errors(reply)
            },
{
}

} // verus!
