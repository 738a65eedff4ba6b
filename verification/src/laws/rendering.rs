//! Device cycles of duplex streams, and callbacks of streams in one direction.

use vstd::prelude::*;

use crate::callback::{CallbackReply, CallbackRequest, CallbackStep, CallbackVars};
use crate::config::{FrameCount, SampleFormat, StreamConfig};
use crate::duplex::{
    CycleReply, CycleRequest, CycleStage, CycleStep, DuplexCallbackInfo, DuplexCycle, DuplexProc,
    DuplexStreamConfig,
};
use crate::error::{Error, ErrorKind, Message};
use crate::time::{Duration, InputStreamTimestamp, OutputStreamTimestamp, StreamInstant};
use crate::unit::Direction;

verus! {

/// `t` lies exactly `d` before `callback`, or is `callback` where that would lie before the origin
/// of the clock.
pub open spec fn before(t: StreamInstant, callback: StreamInstant, d: Duration) -> bool {
    let c = callback.secs * 1_000_000_000 + callback.nanos;
    let n = d.secs * 1_000_000_000 + d.nanos;
    if n <= c {
        t.nanos < 1_000_000_000 && t.secs * 1_000_000_000 + t.nanos == c - n
    } else {
        t == callback
    }
}

/// `t` lies exactly `d` after `callback`, or is `callback` where that cannot be represented.
pub open spec fn after(t: StreamInstant, callback: StreamInstant, d: Duration) -> bool {
    let c = callback.secs * 1_000_000_000 + callback.nanos;
    let n = d.secs * 1_000_000_000 + d.nanos;
    if c + n < 0x1_0000_0000_0000_0000 * 1_000_000_000 {
        t.nanos < 1_000_000_000 && t.secs * 1_000_000_000 + t.nanos == c + n
    } else {
        t == callback
    }
}

/// What is reported of a capture that would lie before the origin of the clock.
pub open spec fn too_early(callback: StreamInstant, d: Duration) -> Seq<Error> {
    if d.secs * 1_000_000_000 + d.nanos <= callback.secs * 1_000_000_000 + callback.nanos {
        seq![]
    } else {
        seq![
            Error { kind: ErrorKind::BackendError, message: Some(Message::CaptureUnderflow) },
        ]
    }
}

/// What is reported of a playback that cannot be represented.
pub open spec fn too_late(callback: StreamInstant, d: Duration) -> Seq<Error> {
    if callback.secs * 1_000_000_000 + callback.nanos + d.secs * 1_000_000_000 + d.nanos
        < 0x1_0000_0000_0000_0000 * 1_000_000_000 {
        seq![]
    } else {
        seq![
            Error { kind: ErrorKind::BackendError, message: Some(Message::PlaybackOverflow) },
        ]
    }
}

/// The bytes of some frames: each has a sample for each channel.
pub proof fn law_frame_bytes(frames: nat, channels: nat, format: SampleFormat)
    ensures
        crate::duplex::frame_bytes(frames, channels, format) == (frames * channels)
            * format.sample_size_spec(),
{
}

/// A call is served exactly if no call before it was for another number of frames than the device
/// buffer has, and neither is this one, and there is a buffer to render to. A stream without input
/// does not mind the number of frames. Every other call gets a parameter error, and one that
/// brings a buffer but another number of frames is remembered.
pub proof fn law_calls_that_are_served(
    proc: DuplexProc,
    host_time: u64,
    frames: FrameCount,
    buffers: Option<u32>,
)
    requires
        proc.wf(),
    ensures
        ({
            let fits = frames == proc.device_buffer_frames || proc.input_channels == 0;
            let buffer = buffers matches Some(n) && n > 0;
            &&& proc.started(host_time, frames, buffers) == if !proc.buffer_size_changed && buffer
                && fits {
                CycleStep::Ask(
                    DuplexCycle { host_time, number_frames: frames, stage: CycleStage::Clock },
                    CycleRequest::ReadClock {
                        host_time,
                        frames: proc.device_buffer_frames,
                        sample_rate: proc.sample_rate,
                    },
                )
            } else {
                CycleStep::Return((-50) as i32)
            }
            &&& proc.flag_after(proc.buffer_size_changed, frames, buffers) == (
            proc.buffer_size_changed || (buffer && !fits))
        }),
{
    crate::duplex::lemma_fits_one_device_buffer(proc, frames);
}

/// A call that is served, at a known instant and with room for output: input is pulled once, from
/// bus 1, for the call's own time and frames, into the whole scratch buffer; then the data
/// callback is called once, whatever became of the pull, with a sample for each frame and channel
/// captured, with room for as many samples as the output takes, and with capture and playback one
/// device buffer before and after the same instant; and then zero goes back.
pub proof fn law_served_call(
    proc: DuplexProc,
    host_time: u64,
    frames: FrameCount,
    buffers: Option<u32>,
    callback: StreamInstant,
    delay: Duration,
    output_bytes: u32,
    status: i32,
)
    requires
        proc.wf(),
        !proc.buffer_size_changed,
        frames == proc.device_buffer_frames || proc.input_channels == 0,
        buffers matches Some(n) && n > 0,
        callback.wf(),
        delay.wf(),
    ensures
        ({
            let clock = CycleReply::Clock {
                callback: Ok(callback),
                delay,
                output_bytes: Some(output_bytes),
            };
            let size = proc.sample_format.sample_size_spec() as int;
            &&& proc.started(host_time, frames, buffers) matches CycleStep::Ask(first, _)
            &&& first.answers(clock)
            &&& first.next(proc, clock) matches CycleStep::Ask(second, pulls)
            &&& pulls matches CycleRequest::PullInput(pull)
            &&& pull.bus == 1
            &&& pull.host_time == host_time
            &&& pull.frames == frames
            &&& pull.channels == proc.input_channels
            &&& pull.bytes == frames * proc.input_channels * size % 0x1_0000_0000
            &&& second.answers(CycleReply::Pulled(status))
            &&& second.next(proc, CycleReply::Pulled(status)) matches CycleStep::Ask(third, runs)
            &&& runs matches CycleRequest::RunDataCallback(call)
            &&& call.sample_format == proc.sample_format
            &&& call.input_samples == frames * proc.input_channels
            &&& call.output_samples == output_bytes as int / size
            &&& call.info.input().callback == callback
            &&& call.info.output().callback == callback
            &&& before(call.info.input().capture, callback, delay)
            &&& after(call.info.output().playback, callback, delay)
            &&& third.answers(CycleReply::Returned)
            &&& third.next(proc, CycleReply::Returned) == CycleStep::Return(0)
        }),
{
    crate::duplex::lemma_fits_one_device_buffer(proc, frames);
    crate::duplex::lemma_cycle(
        proc,
        host_time,
        frames,
        buffers,
        callback,
        delay,
        output_bytes,
        status,
    );
    crate::laws::values::law_capture(callback, delay);
    crate::laws::values::law_playback(callback, delay);
    law_frame_bytes(frames as nat, proc.input_channels as nat, proc.sample_format);
}

/// A call whose instant is unknown, or that has no room for output, pulls nothing and runs
/// nothing: a parameter error goes back.
pub proof fn law_unserved_call(
    proc: DuplexProc,
    cycle: DuplexCycle,
    e: Error,
    callback: Result<StreamInstant, Error>,
    delay: Duration,
    output_bytes: Option<u32>,
)
    ensures
        cycle.next(proc, CycleReply::Clock { callback: Err(e), delay, output_bytes })
            == CycleStep::Return((-50) as i32),
        cycle.next(proc, CycleReply::Clock { callback, delay, output_bytes: None })
            == CycleStep::Return((-50) as i32),
        cycle.stage is Clock && delay.wf() ==> cycle.answers(
            CycleReply::Clock { callback: Err(e), delay, output_bytes },
        ),
        cycle.stage is Clock && delay.wf() && (callback matches Ok(t) ==> t.wf())
            ==> cycle.answers(CycleReply::Clock { callback, delay, output_bytes }),
{
}

/// What a call reports, in order: why its instant is unknown; or a capture that would be too early
/// and a playback that would be too late; and a pull that failed, with its status.
pub proof fn law_call_reports(
    cycle: DuplexCycle,
    callback: StreamInstant,
    e: Error,
    delay: Duration,
    output_bytes: Option<u32>,
    status: i32,
)
    requires
        callback.wf(),
        delay.wf(),
    ensures
        cycle.errors(CycleReply::Clock { callback: Err(e), delay, output_bytes }) == seq![e],
        cycle.errors(CycleReply::Clock { callback: Ok(callback), delay, output_bytes }) == too_early(
            callback,
            delay,
        ) + too_late(callback, delay),
        cycle.errors(CycleReply::Pulled(status)) == if status == 0 {
            seq![]
        } else {
            seq![
                Error {
                    kind: ErrorKind::BackendError,
                    message: Some(Message::RenderFailed(status)),
                },
            ]
        },
        cycle.errors(CycleReply::Returned).len() == 0,
        crate::duplex::render_failed(status) == (Error {
            kind: ErrorKind::BackendError,
            message: Some(Message::RenderFailed(status)),
        }),
{
    crate::laws::values::law_capture(callback, delay);
    crate::laws::values::law_playback(callback, delay);
    assert(crate::time::capture_errors(callback, delay) =~= too_early(callback, delay));
    assert(crate::time::playback_errors(callback, delay) =~= too_late(callback, delay));
}

/// What an accepted call works out, apart from the cycle: the same as within it.
pub proof fn law_pass(
    proc: DuplexProc,
    frames: FrameCount,
    callback: StreamInstant,
    delay: Duration,
    output_bytes: u32,
)
    requires
        proc.wf(),
        frames == proc.device_buffer_frames || proc.input_channels == 0,
        callback.wf(),
        delay.wf(),
    ensures
        ({
            let pass = proc.pass(frames, callback, delay, output_bytes);
            let size = proc.sample_format.sample_size_spec() as int;
            &&& pass.sample_format == proc.sample_format
            &&& pass.input_channels == proc.input_channels
            &&& pass.input_bytes == frames * proc.input_channels * size % 0x1_0000_0000
            &&& pass.input_samples == frames * proc.input_channels
            &&& pass.output_samples == output_bytes as int / size
            &&& pass.info.input().callback == callback
            &&& pass.info.output().callback == callback
            &&& before(pass.info.input().capture, callback, delay)
            &&& after(pass.info.output().playback, callback, delay)
        }),
{
    let one: DuplexProc = DuplexProc { buffer_size_changed: false, ..proc };
    law_served_call(one, 0, frames, Some(1), callback, delay, output_bytes, 0);
}

/// The latency of a callback: that of the device buffer, or of the buffer at hand where the device
/// does not tell, and whatever else the device adds.
pub open spec fn frames_under_way(vars: CallbackVars, samples: int, channels: int) -> int {
    (match vars.device_buffer_frames {
        Some(n) => n as int,
        None => samples / channels,
    }) + vars.extra_latency_frames
}

/// A callback in one direction whose beginning is known asks how long the frames under way take at
/// the rate of the stream, then has the data callback of its direction called once, with as many
/// samples as the buffer holds and with capture before, or playback after, its beginning; and then
/// succeeds. Times that the clock cannot show are reported.
pub proof fn law_callback(
    vars: CallbackVars,
    direction: Direction,
    callback: StreamInstant,
    data_byte_size: u32,
    channels: u32,
    delay: Duration,
)
    requires
        vars.wf(),
        callback.wf(),
        delay.wf(),
        channels > 0,
    ensures
        ({
            let samples = data_byte_size as int / vars.bytes_per_channel as int;
            &&& vars.begun(direction, Ok(callback), data_byte_size, channels)
                matches CallbackStep::Ask(first, measures)
            &&& measures matches CallbackRequest::Measure { frames, sample_rate }
            &&& frames == frames_under_way(vars, samples, channels as int) % 0x1_0000_0000
            &&& sample_rate == vars.sample_rate
            &&& first.wf()
            &&& first.answers(CallbackReply::Delay(delay))
            &&& first.next(CallbackReply::Delay(delay)) matches CallbackStep::Ask(second, runs)
            &&& match direction {
                Direction::Input => {
                    &&& runs matches CallbackRequest::RunInput(call)
                    &&& call.len == samples
                    &&& call.info.timestamp.callback == callback
                    &&& before(call.info.timestamp.capture, callback, delay)
                    &&& first.errors(CallbackReply::Delay(delay)) == too_early(callback, delay)
                },
                Direction::Output => {
                    &&& runs matches CallbackRequest::RunOutput(call)
                    &&& call.len == samples
                    &&& call.info.timestamp.callback == callback
                    &&& after(call.info.timestamp.playback, callback, delay)
                    &&& first.errors(CallbackReply::Delay(delay)) == too_late(callback, delay)
                },
            }
            &&& second.answers(CallbackReply::Returned)
            &&& second.errors(CallbackReply::Returned).len() == 0
            &&& second.next(CallbackReply::Returned) == CallbackStep::Return(Ok(()))
        }),
{
    crate::callback::lemma_callback_cycle(
        vars,
        direction,
        Ok(callback),
        data_byte_size,
        channels,
        delay,
    );
    crate::laws::values::law_capture(callback, delay);
    crate::laws::values::law_playback(callback, delay);
    assert(crate::time::capture_errors(callback, delay) =~= too_early(callback, delay));
    assert(crate::time::playback_errors(callback, delay) =~= too_late(callback, delay));
}

/// A callback whose beginning is unknown runs nothing and fails.
pub proof fn law_callback_without_beginning(
    vars: CallbackVars,
    direction: Direction,
    e: Error,
    data_byte_size: u32,
    channels: u32,
)
    ensures
        vars.begun(direction, Err(e), data_byte_size, channels) == CallbackStep::Return(Err(())),
{
}

/// The latency of a buffer: that of the device buffer, or its own frames, and the rest on top.
pub proof fn law_latency(vars: CallbackVars, samples: nat, channels: nat)
    requires
        channels > 0,
    ensures
        vars.latency(samples, channels) == frames_under_way(vars, samples as int, channels as int),
{
}

/// What a callback needs to know is what the configuration and the device say, with nothing for
/// what the device does not say.
pub proof fn law_callback_vars(
    config: StreamConfig,
    format: SampleFormat,
    frames: Option<u32>,
    latency: Option<u32>,
    offset: Option<u32>,
)
    requires
        (match latency {
            Some(n) => n as int,
            None => 0,
        }) + (match offset {
            Some(n) => n as int,
            None => 0,
        }) <= usize::MAX,
    ensures
        ({
            let vars = crate::callback::callback_vars(config, format, frames, latency, offset);
            &&& vars.bytes_per_channel == format.sample_size_spec()
            &&& vars.sample_rate == config.sample_rate
            &&& vars.device_buffer_frames is Some <==> frames is Some
            &&& frames matches Some(n) ==> vars.device_buffer_frames->0 == n
            &&& vars.extra_latency_frames == (match latency {
                Some(n) => n as int,
                None => 0,
            }) + (match offset {
                Some(n) => n as int,
                None => 0,
            })
            &&& crate::callback::or_zero(latency) == match latency {
                Some(n) => n as int,
                None => 0,
            }
            &&& vars.wf()
        }),
{
}

/// No call changes how a stream is set up: its input channels, its sample format, its rate, and the
/// device buffer it was built for.
pub proof fn law_setup_stays(proc: DuplexProc, later: DuplexProc)
    requires
        later.same_setup(proc),
    ensures
        later.input_channels == proc.input_channels,
        later.sample_format == proc.sample_format,
        later.sample_rate == proc.sample_rate,
        later.device_buffer_frames == proc.device_buffer_frames,
{
}

/// Both directions of a duplex stream are opened with its rate and buffer size, and each with its
/// own channels.
pub proof fn law_directions_of_duplex(config: DuplexStreamConfig)
    ensures
        config.input_config_spec() == (StreamConfig {
            channels: config.input_channels,
            sample_rate: config.sample_rate,
            buffer_size: config.buffer_size,
        }),
        config.output_config_spec() == (StreamConfig {
            channels: config.output_channels,
            sample_rate: config.sample_rate,
            buffer_size: config.buffer_size,
        }),
{
}

/// The timestamps put into an info are the ones found in it, the input's as input and the
/// output's as output.
pub proof fn law_info(input: InputStreamTimestamp, output: OutputStreamTimestamp)
    ensures
        DuplexCallbackInfo::of(input, output).input() == input,
        DuplexCallbackInfo::of(input, output).output() == output,
{
    crate::duplex::lemma_info_carries_timestamps(input, output);
}

} // verus!
