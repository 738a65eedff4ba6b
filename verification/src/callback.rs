//! What input and output callbacks need to know, and how they date the frames they carry.

use vstd::prelude::*;

use crate::config::{FrameCount, SampleFormat, SampleRate, StreamConfig};
use crate::error::Error;
use crate::time::{
    estimate_capture_instant, estimate_playback_instant, Duration, InputStreamTimestamp,
    OutputStreamTimestamp, StreamInstant,
};
use crate::unit::Direction;

verus! {

/// Information relevant to a single call of an input data callback.
#[derive(Clone, Copy, Debug, PartialEq, Eq, Structural)]
pub struct InputCallbackInfo {
    pub timestamp: InputStreamTimestamp,
}

/// Information relevant to a single call of an output data callback.
#[derive(Clone, Copy, Debug, PartialEq, Eq, Structural)]
pub struct OutputCallbackInfo {
    pub timestamp: OutputStreamTimestamp,
}

/// What a callback needs to know of the device, read once when the stream is built.
#[derive(Clone, Copy, Debug, PartialEq, Eq, Structural)]
pub struct CallbackVars {
    /// The size of a sample in bytes.
    pub bytes_per_channel: usize,
    /// The rate that the stream runs at.
    pub sample_rate: SampleRate,
    /// The size of the device buffer, where the device tells it.
    pub device_buffer_frames: Option<usize>,
    /// Latency beyond the device buffer.
    pub extra_latency_frames: usize,
}

/// The value, or zero where there is none.
pub open spec fn or_zero(value: Option<u32>) -> nat {
    match value {
        Some(v) => v as nat,
        None => 0,
    }
}

/// The size of the device buffer in frames, as the device reports it.
pub fn get_device_buffer_frame_size(frames: Result<u32, Error>) -> (r: Result<usize, Error>)
    ensures
        r == match frames {
            Ok(n) => Ok::<usize, Error>(n as usize),
            Err(e) => Err(e),
        },
{
    match frames {
        Ok(n) => Ok(n as usize),
        Err(e) => Err(e),
    }
}

/// The sum of the device latency and the safety offset, in frames. Either counts as zero where
/// the device does not report it.
pub fn get_device_extra_latency_frames(
    device_latency: Option<u32>,
    safety_offset: Option<u32>,
) -> (r: usize)
    requires
        or_zero(device_latency) + or_zero(safety_offset) <= usize::MAX,
    ensures
        r == or_zero(device_latency) + or_zero(safety_offset),
{
    let device_latency: u32 = match device_latency {
        Some(v) => v,
        None => 0,
    };
    let safety_offset: u32 = match safety_offset {
        Some(v) => v,
        None => 0,
    };
    device_latency as usize + safety_offset as usize
}

/// The callback variables for a configuration and what the device reported.
pub open spec fn callback_vars(
    config: StreamConfig,
    sample_format: SampleFormat,
    buffer_frames: Option<u32>,
    device_latency: Option<u32>,
    safety_offset: Option<u32>,
) -> CallbackVars {
    CallbackVars {
        bytes_per_channel: sample_format.sample_size_spec(),
        sample_rate: config.sample_rate,
        device_buffer_frames: match buffer_frames {
            Some(n) => Some(n as usize),
            None => None,
        },
        extra_latency_frames: (or_zero(device_latency) + or_zero(safety_offset)) as usize,
    }
}

/// Collects the callback variables.
pub fn setup_callback_vars(
    config: StreamConfig,
    sample_format: SampleFormat,
    buffer_frames: Option<u32>,
    device_latency: Option<u32>,
    safety_offset: Option<u32>,
) -> (r: CallbackVars)
    requires
        or_zero(device_latency) + or_zero(safety_offset) <= usize::MAX,
    ensures
        r == callback_vars(config, sample_format, buffer_frames, device_latency, safety_offset),
        r.wf(),
{
    CallbackVars {
        bytes_per_channel: sample_format.sample_size(),
        sample_rate: config.sample_rate,
        device_buffer_frames: match buffer_frames {
            Some(n) => Some(n as usize),
            None => None,
        },
        extra_latency_frames: get_device_extra_latency_frames(device_latency, safety_offset),
    }
}

impl CallbackVars {
    /// Samples take up space, and frame counts are those that a device can report: the extra
    /// latency is made up of two.
    pub open spec fn wf(self) -> bool {
        &&& self.bytes_per_channel > 0
        &&& self.device_buffer_frames matches Some(n) ==> n <= u32::MAX
        &&& self.extra_latency_frames <= 2 * u32::MAX
    }

    /// The number of samples in a buffer of `data_byte_size` bytes.
    pub fn buffer_len(&self, data_byte_size: u32) -> (r: usize)
        requires
            self.wf(),
        ensures
            r == data_byte_size as int / self.bytes_per_channel as int,
            r <= u32::MAX,
    {
        let r: usize = data_byte_size as usize / self.bytes_per_channel;
        proof {
            vstd::arithmetic::div_mod::lemma_div_is_ordered_by_denominator(
                data_byte_size as int,
                1,
                self.bytes_per_channel as int,
            );
        }
        r
    }

    /// The frames between the device and a callback that holds `len` samples of `channels`
    /// channels: the device buffer, or the buffer at hand where its size is unknown, and the
    /// extra latency on top.
    pub open spec fn latency(self, len: nat, channels: nat) -> nat {
        (match self.device_buffer_frames {
            Some(n) => n as nat,
            None => len / channels,
        }) + self.extra_latency_frames as nat
    }

    /// The latency of a buffer of `len` samples of `channels` channels, as a frame count.
    ///
    /// A latency beyond the range of [`FrameCount`] wraps around.
    pub fn latency_frames(&self, len: usize, channels: u32) -> (r: FrameCount)
        requires
            self.wf(),
            channels > 0,
            len <= u32::MAX,
        ensures
            r == self.latency(len as nat, channels as nat) % 0x1_0000_0000,
    {
        let frames: u64 = match self.device_buffer_frames {
            Some(n) => n as u64,
            None => {
                proof {
                    vstd::arithmetic::div_mod::lemma_div_is_ordered_by_denominator(
                        len as int,
                        1,
                        channels as int,
                    );
                }
                len as u64 / channels as u64
            },
        };
        ((frames + self.extra_latency_frames as u64) % 0x1_0000_0000) as u32
    }

    /// The beginning of a callback in one direction, with a buffer of `data_byte_size` bytes for
    /// `channels` channels.
    pub open spec fn begun(
        self,
        direction: Direction,
        callback: Result<StreamInstant, Error>,
        data_byte_size: u32,
        channels: u32,
    ) -> CallbackStep {
        match callback {
            Ok(callback) => {
                let len = data_byte_size as nat / self.bytes_per_channel as nat;
                CallbackStep::Ask(
                    CallbackCycle {
                        direction,
                        callback,
                        len: len as usize,
                        stage: CallbackStage::Delay,
                    },
                    CallbackRequest::Measure {
                        frames: (self.latency(len, channels as nat) % 0x1_0000_0000) as FrameCount,
                        sample_rate: self.sample_rate,
                    },
                )
            },
            Err(_) => CallbackStep::Return(Err(())),
        }
    }

    /// Begins a callback in one direction, with a buffer of `data_byte_size` bytes for `channels`
    /// channels.
    ///
    /// `callback` is when it began, or why that is unknown: then the reason goes to `errors` and
    /// the data callback does not run.
    pub fn begin(
        &self,
        direction: Direction,
        callback: Result<StreamInstant, Error>,
        data_byte_size: u32,
        channels: u32,
        errors: &mut Vec<Error>,
    ) -> (r: CallbackStep)
        requires
            self.wf(),
            callback matches Ok(t) ==> t.wf() && channels > 0,
        ensures
            r == self.begun(direction, callback, data_byte_size, channels),
            r matches CallbackStep::Ask(cycle, CallbackRequest::Measure { frames, .. }) ==> {
                &&& cycle.wf()
                &&& cycle.len == data_byte_size as int / self.bytes_per_channel as int
                &&& frames == self.latency(cycle.len as nat, channels as nat) % 0x1_0000_0000
            },
            final(errors)@ == match callback {
                Ok(_) => old(errors)@,
                Err(e) => old(errors)@.push(e),
            },
    {
        match callback {
            Err(err) => {
                errors.push(err);
                CallbackStep::Return(Err(()))
            },
            Ok(callback) => {
                let len: usize = self.buffer_len(data_byte_size);
                let frames: FrameCount = self.latency_frames(len, channels);
                CallbackStep::Ask(
                    CallbackCycle { direction, callback, len, stage: CallbackStage::Delay },
                    CallbackRequest::Measure { frames, sample_rate: self.sample_rate },
                )
            },
        }
    }
}

/// What the data callback of an input stream is called with.
#[derive(Clone, Copy, Debug, PartialEq, Eq, Structural)]
pub struct InputCall {
    /// The number of samples in the buffer.
    pub len: usize,
    pub info: InputCallbackInfo,
}

/// What the data callback of an output stream is called with.
#[derive(Clone, Copy, Debug, PartialEq, Eq, Structural)]
pub struct OutputCall {
    /// The number of samples in the buffer.
    pub len: usize,
    pub info: OutputCallbackInfo,
}

/// What [`CallbackCycle`] waits for.
#[derive(Clone, Copy, Debug, PartialEq, Eq, Structural)]
pub enum CallbackStage {
    Delay,
    Data,
}

/// One callback of a stream in one direction, from its beginning to its result.
#[derive(Clone, Copy, Debug, PartialEq, Eq, Structural)]
pub struct CallbackCycle {
    pub direction: Direction,
    /// When the callback began.
    pub callback: StreamInstant,
    /// The number of samples in the buffer.
    pub len: usize,
    pub stage: CallbackStage,
}

/// What a callback asks for.
#[derive(Clone, Copy, Debug, PartialEq, Eq, Structural)]
pub enum CallbackRequest {
    /// Find out how long `frames` frames take at `sample_rate`.
    Measure { frames: FrameCount, sample_rate: SampleRate },
    /// Run the data callback of an input stream.
    RunInput(InputCall),
    /// Run the data callback of an output stream.
    RunOutput(OutputCall),
}

/// The reply to a request.
#[derive(Clone, Copy, Debug, PartialEq, Eq, Structural)]
pub enum CallbackReply {
    /// How long the frames take.
    Delay(Duration),
    /// The data callback has returned.
    Returned,
}

/// How a callback goes on.
#[derive(Clone, Copy, Debug, PartialEq, Eq)]
pub enum CallbackStep {
    Ask(CallbackCycle, CallbackRequest),
    /// Give this result back to CoreAudio.
    Return(Result<(), ()>),
}

impl CallbackCycle {
    pub open spec fn wf(self) -> bool {
        self.callback.wf()
    }

    /// `reply` answers what the callback asked for.
    pub open spec fn answers(self, reply: CallbackReply) -> bool {
        match self.stage {
            CallbackStage::Delay => reply matches CallbackReply::Delay(delay) && delay.wf(),
            CallbackStage::Data => reply is Returned,
        }
    }

    /// The data call, for frames that are `delay` old, or due after `delay`.
    pub open spec fn call(self, delay: Duration) -> CallbackRequest {
        match self.direction {
            Direction::Input => CallbackRequest::RunInput(
                InputCall {
                    len: self.len,
                    info: InputCallbackInfo {
                        timestamp: InputStreamTimestamp {
                            callback: self.callback,
                            capture: crate::time::captured_at(self.callback, delay),
                        },
                    },
                },
            ),
            Direction::Output => CallbackRequest::RunOutput(
                OutputCall {
                    len: self.len,
                    info: OutputCallbackInfo {
                        timestamp: OutputStreamTimestamp {
                            callback: self.callback,
                            playback: crate::time::played_at(self.callback, delay),
                        },
                    },
                },
            ),
        }
    }

    /// What the callback reports on the way.
    pub open spec fn errors(self, reply: CallbackReply) -> Seq<Error> {
        match reply {
            CallbackReply::Delay(delay) => match self.direction {
                Direction::Input => crate::time::capture_errors(self.callback, delay),
                Direction::Output => crate::time::playback_errors(self.callback, delay),
            },
            CallbackReply::Returned => seq![],
        }
    }

    /// How the callback goes on after `reply`.
    pub open spec fn next(self, reply: CallbackReply) -> CallbackStep {
        match reply {
            CallbackReply::Delay(delay) => CallbackStep::Ask(
                CallbackCycle {
                    direction: self.direction,
                    callback: self.callback,
                    len: self.len,
                    stage: CallbackStage::Data,
                },
                self.call(delay),
            ),
            CallbackReply::Returned => CallbackStep::Return(Ok(())),
        }
    }

    /// Goes on after the reply to the last request. Errors for the error callback are appended to
    /// `errors`.
    pub fn resume(self, reply: CallbackReply, errors: &mut Vec<Error>) -> (r: CallbackStep)
        requires
            self.wf(),
            self.answers(reply),
        ensures
            r == self.next(reply),
            r matches CallbackStep::Ask(cycle, _) ==> cycle.wf(),
            final(errors)@ == old(errors)@ + self.errors(reply),
    {
        let delay: Duration = match reply {
            CallbackReply::Delay(delay) => delay,
            CallbackReply::Returned => {
                return CallbackStep::Return(Ok(()));
            },
        };
        let callback: StreamInstant = self.callback;
        let len: usize = self.len;
        let call: CallbackRequest = match self.direction {
            Direction::Input => {
                let capture: StreamInstant = estimate_capture_instant(callback, delay, errors);
                let timestamp = InputStreamTimestamp { callback, capture };
                CallbackRequest::RunInput(InputCall { len, info: InputCallbackInfo { timestamp } })
            },
            Direction::Output => {
                let playback: StreamInstant = estimate_playback_instant(callback, delay, errors);
                let timestamp = OutputStreamTimestamp { callback, playback };
                CallbackRequest::RunOutput(
                    OutputCall { len, info: OutputCallbackInfo { timestamp } },
                )
            },
        };
        let mut next: CallbackCycle = self;
        next.stage = CallbackStage::Data;
        CallbackStep::Ask(next, call)
    }
}

/// A callback whose beginning is known measures its latency at the rate of the stream, then runs
/// the data callback of its direction exactly once, with all the samples of the buffer, and then
/// gives back success. One whose beginning is unknown measures nothing, runs nothing, and gives
/// back failure.
pub proof fn lemma_callback_cycle(
    vars: CallbackVars,
    direction: Direction,
    callback: Result<StreamInstant, Error>,
    data_byte_size: u32,
    channels: u32,
    delay: Duration,
)
    requires
        vars.wf(),
    ensures
        ({
            let begun = vars.begun(direction, callback, data_byte_size, channels);
            match callback {
                Err(_) => begun == CallbackStep::Return(Err(())),
                Ok(t) => {
                    let first = begun->Ask_0;
                    let second = first.next(CallbackReply::Delay(delay))->Ask_0;
                    &&& begun matches CallbackStep::Ask(_, measures)
                    &&& measures matches CallbackRequest::Measure { frames, sample_rate }
                    &&& frames == vars.latency(first.len as nat, channels as nat) % 0x1_0000_0000
                    &&& sample_rate == vars.sample_rate
                    &&& first.next(CallbackReply::Delay(delay)) matches CallbackStep::Ask(_, runs)
                    &&& match direction {
                        Direction::Input => runs matches CallbackRequest::RunInput(call)
                            && call.len == data_byte_size as int / vars.bytes_per_channel as int
                            && call.info.timestamp.callback == t && call.info.timestamp.capture
                            == crate::time::captured_at(t, delay),
                        Direction::Output => runs matches CallbackRequest::RunOutput(call)
                            && call.len == data_byte_size as int / vars.bytes_per_channel as int
                            && call.info.timestamp.callback == t && call.info.timestamp.playback
                            == crate::time::played_at(t, delay),
                    }
                    &&& second.next(CallbackReply::Returned) == CallbackStep::Return(Ok(()))
                },
            }
        }),
{
    vstd::arithmetic::div_mod::lemma_div_is_ordered_by_denominator(
        data_byte_size as int,
        1,
        vars.bytes_per_channel as int,
    );
}

} // verus!
