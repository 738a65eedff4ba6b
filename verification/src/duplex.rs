//! Synchronized duplex (simultaneous input and output) streams.
//!
//! A duplex stream pairs an input and an output direction on a single device-level callback so
//! that captured and rendered audio share the same hardware clock. This is appropriate for
//! workloads that must align input and output sample for sample without separate ring buffers
//! and resampling.

use vstd::prelude::*;

use crate::config::{
    BufferSize, ChannelCount, FrameCount, SampleFormat, SampleRate, StreamConfig,
};
use crate::error::{Error, ErrorKind, Message};
use crate::status::{param_error, OSStatus, NO_ERROR, PARAM_ERROR};
use crate::time::{
    estimate_capture_instant, estimate_playback_instant, Duration, InputStreamTimestamp,
    OutputStreamTimestamp, StreamInstant,
};

verus! {

/// Information relevant to a single call of a duplex data callback.
///
/// Carries timestamps for both the captured input frame and the rendered output frame. On a
/// running stream the two share one `callback` instant, because input and output are driven by
/// the same device callback.
#[derive(Clone, Copy, Debug, PartialEq, Eq, Hash, Structural)]
pub struct DuplexCallbackInfo {
    pub(crate) input_timestamp: InputStreamTimestamp,
    pub(crate) output_timestamp: OutputStreamTimestamp,
}

impl DuplexCallbackInfo {
    /// The input timestamp it carries.
    pub closed spec fn input(self) -> InputStreamTimestamp {
        self.input_timestamp
    }

    /// The output timestamp it carries.
    pub closed spec fn output(self) -> OutputStreamTimestamp {
        self.output_timestamp
    }

    /// The info that carries the two given timestamps.
    pub closed spec fn of(
        input_timestamp: InputStreamTimestamp,
        output_timestamp: OutputStreamTimestamp,
    ) -> DuplexCallbackInfo {
        DuplexCallbackInfo { input_timestamp, output_timestamp }
    }

    /// Puts an input and an output timestamp together.
    pub fn new(
        input_timestamp: InputStreamTimestamp,
        output_timestamp: OutputStreamTimestamp,
    ) -> (r: Self)
        ensures
            r.input() == input_timestamp,
            r.output() == output_timestamp,
            r == DuplexCallbackInfo::of(input_timestamp, output_timestamp),
    {
        DuplexCallbackInfo { input_timestamp, output_timestamp }
    }

    /// The timestamp associated with the captured input frame.
    pub fn input_timestamp(&self) -> (r: InputStreamTimestamp)
        ensures
            r == self.input(),
    {
        self.input_timestamp
    }

    /// The timestamp associated with the rendered output frame.
    pub fn output_timestamp(&self) -> (r: OutputStreamTimestamp)
        ensures
            r == self.output(),
    {
        self.output_timestamp
    }
}

/// An info carries the timestamps it was put together from.
pub proof fn lemma_info_carries_timestamps(
    input_timestamp: InputStreamTimestamp,
    output_timestamp: OutputStreamTimestamp,
)
    ensures
        DuplexCallbackInfo::of(input_timestamp, output_timestamp).input() == input_timestamp,
        DuplexCallbackInfo::of(input_timestamp, output_timestamp).output() == output_timestamp,
{
}

/// Two infos are equal as soon as both of their timestamps are: an info holds nothing else.
pub proof fn lemma_info_by_timestamps(a: DuplexCallbackInfo, b: DuplexCallbackInfo)
    requires
        a.input() == b.input(),
        a.output() == b.output(),
    ensures
        a == b,
{
}

/// The set of parameters used to open a duplex stream.
///
/// Input and output share `sample_rate` and `buffer_size`, but may have different channel counts.
/// The sample format is provided separately, as with [`StreamConfig`].
#[derive(Clone, Copy, Debug, PartialEq, Eq, Structural)]
pub struct DuplexStreamConfig {
    /// Number of channels captured from the input direction.
    pub input_channels: ChannelCount,
    /// Number of channels rendered to the output direction.
    pub output_channels: ChannelCount,
    /// Sample rate shared by both directions.
    pub sample_rate: SampleRate,
    /// Buffer size shared by both directions. See [`BufferSize`].
    pub buffer_size: BufferSize,
}

impl DuplexStreamConfig {
    pub open spec fn input_config_spec(self) -> StreamConfig {
        StreamConfig {
            channels: self.input_channels,
            sample_rate: self.sample_rate,
            buffer_size: self.buffer_size,
        }
    }

    pub open spec fn output_config_spec(self) -> StreamConfig {
        StreamConfig {
            channels: self.output_channels,
            sample_rate: self.sample_rate,
            buffer_size: self.buffer_size,
        }
    }

    /// The parameters of the input direction.
    pub fn input_config(&self) -> (r: StreamConfig)
        ensures
            r == self.input_config_spec(),
    {
        StreamConfig {
            channels: self.input_channels,
            sample_rate: self.sample_rate,
            buffer_size: self.buffer_size,
        }
    }

    /// The parameters of the output direction.
    pub fn output_config(&self) -> (r: StreamConfig)
        ensures
            r == self.output_config_spec(),
    {
        StreamConfig {
            channels: self.output_channels,
            sample_rate: self.sample_rate,
            buffer_size: self.buffer_size,
        }
    }
}

/// The number of bytes that `frames` frames of `channels` channels take up.
pub open spec fn frame_bytes(frames: nat, channels: nat, format: SampleFormat) -> nat {
    frames * channels * format.sample_size_spec() as nat
}

/// The state behind the render callback of a duplex stream.
///
/// CoreAudio calls it once per device cycle. [`DuplexProc::render`] begins the cycle and
/// [`DuplexProc::resume`] carries it on: the clock is read, the input is pulled into
/// `input_buffer`, the data callback runs, and a status goes back to CoreAudio.
#[derive(Debug)]
pub struct DuplexProc {
    /// Channels captured per frame.
    pub input_channels: ChannelCount,
    /// The representation of samples in both directions.
    pub sample_format: SampleFormat,
    /// The rate that both directions run at.
    pub sample_rate: SampleRate,
    /// The size of the device buffer when the stream was built.
    pub device_buffer_frames: FrameCount,
    /// Set once a call did not fit the buffer. Every later call is refused.
    pub buffer_size_changed: bool,
    /// Where captured input is pulled to.
    pub input_buffer: Vec<u8>,
}

/// What one accepted call hands on: how much input to pull, how much output there is room for,
/// and the info for the data callback.
#[derive(Clone, Copy, Debug, PartialEq, Eq, Structural)]
pub struct DuplexPass {
    pub info: DuplexCallbackInfo,
    pub sample_format: SampleFormat,
    pub input_channels: u32,
    pub input_bytes: u32,
    pub input_samples: usize,
    pub output_samples: usize,
}

impl DuplexProc {
    /// The scratch buffer holds exactly one device buffer of input.
    pub open spec fn wf(self) -> bool {
        self.input_buffer@.len() == frame_bytes(
            self.device_buffer_frames as nat,
            self.input_channels as nat,
            self.sample_format,
        )
    }

    /// All but the scratch buffer and the flag, which alone ever change.
    pub open spec fn same_setup(self, other: DuplexProc) -> bool {
        &&& self.input_channels == other.input_channels
        &&& self.sample_format == other.sample_format
        &&& self.sample_rate == other.sample_rate
        &&& self.device_buffer_frames == other.device_buffer_frames
    }

    /// A call for `frames` frames brings as much input as the scratch buffer holds.
    pub open spec fn fits(self, frames: FrameCount) -> bool {
        frame_bytes(frames as nat, self.input_channels as nat, self.sample_format)
            == self.input_buffer@.len()
    }

    /// CoreAudio passed a buffer list with at least one buffer in it.
    pub open spec fn usable(buffers: Option<u32>) -> bool {
        buffers matches Some(n) && n > 0
    }

    /// The flag after a call for `frames` frames with `buffers` output buffers.
    pub open spec fn flag_after(self, flag: bool, frames: FrameCount, buffers: Option<u32>) -> bool {
        flag || (DuplexProc::usable(buffers) && !self.fits(frames))
    }

    /// The flag after a number of calls.
    pub open spec fn flag_after_all(self, flag: bool, calls: Seq<(FrameCount, Option<u32>)>) -> bool
        decreases calls.len(),
    {
        if calls.len() == 0 {
            flag
        } else {
            let last = calls.last();
            self.flag_after(self.flag_after_all(flag, calls.drop_last()), last.0, last.1)
        }
    }

    /// The state for a new stream, with a silent scratch buffer.
    pub fn new(
        config: DuplexStreamConfig,
        sample_format: SampleFormat,
        device_buffer_frames: FrameCount,
    ) -> (r: DuplexProc)
        requires
            frame_bytes(
                device_buffer_frames as nat,
                config.input_channels as nat,
                sample_format,
            ) <= usize::MAX,
        ensures
            r.wf(),
            r.input_channels == config.input_channels,
            r.sample_format == sample_format,
            r.sample_rate == config.sample_rate,
            r.device_buffer_frames == device_buffer_frames,
            !r.buffer_size_changed,
            forall|i: int| 0 <= i < r.input_buffer@.len() ==> r.input_buffer@[i] == 0,
    {
        let bytes: u64 = input_bytes(config.input_channels, sample_format, device_buffer_frames);
        DuplexProc {
            input_channels: config.input_channels,
            sample_format,
            sample_rate: config.sample_rate,
            device_buffer_frames,
            buffer_size_changed: false,
            input_buffer: vec![0u8; bytes as usize],
        }
    }

    /// Decides whether a call for `number_frames` frames goes ahead.
    ///
    /// `buffers` is the number of output buffers, or `None` where CoreAudio passed no buffer
    /// list. A call that does not fit the scratch buffer trips `buffer_size_changed`, and from
    /// then on no call goes ahead.
    pub fn accept(&mut self, number_frames: FrameCount, buffers: Option<u32>) -> (r: Result<
        (),
        OSStatus,
    >)
        ensures
            r == if !old(self).buffer_size_changed && DuplexProc::usable(buffers) && old(
                self,
            ).fits(number_frames) {
                Ok::<(), OSStatus>(())
            } else {
                Err(PARAM_ERROR)
            },
            final(self).buffer_size_changed == old(self).flag_after(
                old(self).buffer_size_changed,
                number_frames,
                buffers,
            ),
            final(self).same_setup(*old(self)),
            final(self).input_buffer == old(self).input_buffer,
            old(self).wf() ==> final(self).wf() && (r is Ok <==> !old(self).buffer_size_changed
                && DuplexProc::usable(buffers) && (number_frames == old(self).device_buffer_frames
                || old(self).input_channels == 0)),
    {
        proof {
            if self.wf() {
                lemma_fits_one_device_buffer(*self, number_frames);
            }
        }
        if self.buffer_size_changed {
            return Err(param_error());
        }
        match buffers {
            None => {
                return Err(param_error());
            },
            Some(n) => {
                if n == 0 {
                    return Err(param_error());
                }
            },
        }
        let bytes: u64 = input_bytes(self.input_channels, self.sample_format, number_frames);
        if bytes != self.input_buffer.len() as u64 {
            self.buffer_size_changed = true;
            return Err(param_error());
        }
        Ok(())
    }
}

/// The number of bytes of input in `frames` frames.
fn input_bytes(channels: ChannelCount, format: SampleFormat, frames: FrameCount) -> (r: u64)
    ensures
        r == frame_bytes(frames as nat, channels as nat, format),
{
    let size: usize = format.sample_size();
    proof {
        lemma_input_fits(frames, channels, size);
    }
    frames as u64 * channels as u64 * size as u64
}

/// No call can bring more input than 64 bits count.
proof fn lemma_input_fits(frames: FrameCount, channels: ChannelCount, size: usize)
    requires
        size <= 8,
    ensures
        frames * channels <= u64::MAX,
        frames * channels * size <= u64::MAX,
{
    assert(frames * channels <= 0xFFFF_FFFF * 0xFFFF) by (nonlinear_arith)
        requires
            frames <= 0xFFFF_FFFF,
            channels <= 0xFFFF,
    ;
    assert(frames * channels * size <= 0xFFFF_FFFF * 0xFFFF * 8) by (nonlinear_arith)
        requires
            0 <= frames * channels <= 0xFFFF_FFFF * 0xFFFF,
            size <= 8,
    ;
}

/// The error reported when input could not be pulled.
pub open spec fn render_failed(status: OSStatus) -> Error {
    Error { kind: ErrorKind::BackendError, message: Some(Message::RenderFailed(status)) }
}

/// What [`DuplexProc::place`] reports.
pub open spec fn place_errors(callback: Result<StreamInstant, Error>, delay: Duration) -> Seq<
    Error,
> {
    match callback {
        Ok(t) => crate::time::capture_errors(t, delay) + crate::time::playback_errors(t, delay),
        Err(e) => seq![e],
    }
}

impl DuplexProc {
    /// When the input and the output of a device cycle that began at `callback` take place.
    pub open spec fn info_at(callback: StreamInstant, delay: Duration) -> DuplexCallbackInfo {
        DuplexCallbackInfo::of(
            InputStreamTimestamp {
                callback,
                capture: crate::time::captured_at(callback, delay),
            },
            OutputStreamTimestamp {
                callback,
                playback: crate::time::played_at(callback, delay),
            },
        )
    }

    /// What an accepted call for `frames` frames, with room for `output_bytes` bytes of output,
    /// hands on when the device cycle began at `callback`.
    pub open spec fn pass(
        self,
        frames: FrameCount,
        callback: StreamInstant,
        delay: Duration,
        output_bytes: u32,
    ) -> DuplexPass {
        DuplexPass {
            info: DuplexProc::info_at(callback, delay),
            sample_format: self.sample_format,
            input_channels: self.input_channels as u32,
            input_bytes: (self.input_buffer@.len() % 0x1_0000_0000) as u32,
            input_samples: (frames * self.input_channels) as usize,
            output_samples: (output_bytes / (
            self.sample_format.sample_size_spec() as u32)) as usize,
        }
    }

    /// What the age of the frames is measured by: one device buffer, at the rate of the stream.
    pub fn delay(&self) -> (r: (FrameCount, SampleRate))
        ensures
            r == (self.device_buffer_frames, self.sample_rate),
    {
        (self.device_buffer_frames, self.sample_rate)
    }

    /// Works out the timestamps and the extent of an accepted call.
    ///
    /// `callback` is when the device cycle began, or why that is unknown; `delay` is the duration
    /// of one device buffer; `output_bytes` is the size of the first output buffer, or `None`
    /// where it has no memory. Errors for the error callback are appended to `errors`, in order.
    pub fn place(
        &self,
        number_frames: FrameCount,
        callback: Result<StreamInstant, Error>,
        delay: Duration,
        output_bytes: Option<u32>,
        errors: &mut Vec<Error>,
    ) -> (r: Result<DuplexPass, OSStatus>)
        requires
            self.fits(number_frames),
            callback matches Ok(t) ==> t.wf(),
            delay.wf(),
        ensures
            final(errors)@ == old(errors)@ + place_errors(callback, delay),
            r is Ok <==> callback is Ok && output_bytes is Some,
            r matches Err(status) ==> status == PARAM_ERROR,
            r matches Ok(pass) ==> {
                &&& pass == self.pass(number_frames, callback->Ok_0, delay, output_bytes->Some_0)
                &&& pass.info.input() == InputStreamTimestamp {
                    callback: callback->Ok_0,
                    capture: crate::time::captured_at(callback->Ok_0, delay),
                }
                &&& pass.info.output() == OutputStreamTimestamp {
                    callback: callback->Ok_0,
                    playback: crate::time::played_at(callback->Ok_0, delay),
                }
                &&& pass.input_bytes == self.input_buffer@.len() % 0x1_0000_0000
                &&& pass.input_samples == number_frames * self.input_channels
            },
    {
        let callback: StreamInstant = match callback {
            Ok(t) => t,
            Err(err) => {
                errors.push(err);
                return Err(param_error());
            },
        };
        let capture: StreamInstant = estimate_capture_instant(callback, delay, errors);
        let playback: StreamInstant = estimate_playback_instant(callback, delay, errors);
        let info = DuplexCallbackInfo::new(
            InputStreamTimestamp { callback, capture },
            OutputStreamTimestamp { callback, playback },
        );
        match output_bytes {
            None => Err(param_error()),
            Some(bytes) => {
                let size: usize = self.sample_format.sample_size();
                proof {
                    lemma_input_fits(number_frames, self.input_channels, size);
                    lemma_samples_fit(number_frames, self.input_channels, size);
                }
                let input_samples: u64 = number_frames as u64 * self.input_channels as u64;
                let output_samples: u32 = bytes / (size as u32);
                Ok(
                    DuplexPass {
                        info,
                        sample_format: self.sample_format,
                        input_channels: self.input_channels as u32,
                        input_bytes: (self.input_buffer.len() as u64 % 0x1_0000_0000) as u32,
                        input_samples: input_samples as usize,
                        output_samples: output_samples as usize,
                    },
                )
            },
        }
    }

    /// Takes note of the status with which CoreAudio filled the scratch buffer.
    ///
    /// Where it failed, the failure is reported and the buffer silenced, so that the data
    /// callback does not see stale input.
    pub fn pulled(&mut self, status: OSStatus, errors: &mut Vec<Error>)
        ensures
            final(self).same_setup(*old(self)),
            final(self).buffer_size_changed == old(self).buffer_size_changed,
            final(self).input_buffer@.len() == old(self).input_buffer@.len(),
            old(self).wf() ==> final(self).wf(),
            status == NO_ERROR ==> final(self).input_buffer@ == old(self).input_buffer@
                && final(errors)@ == old(errors)@,
            status != NO_ERROR ==> final(errors)@ == old(errors)@.push(render_failed(status))
                && forall|i: int|
                0 <= i < final(self).input_buffer@.len() ==> final(self).input_buffer@[i] == 0,
    {
        if status != NO_ERROR {
            errors.push(Error::with_message(ErrorKind::BackendError, Message::RenderFailed(status)));
            let len: usize = self.input_buffer.len();
            let mut i: usize = 0;
            while i < len
                invariant
                    i <= len,
                    len == self.input_buffer@.len(),
                    len == old(self).input_buffer@.len(),
                    self.same_setup(*old(self)),
                    self.buffer_size_changed == old(self).buffer_size_changed,
                    forall|j: int| 0 <= j < i ==> self.input_buffer@[j] == 0,
                decreases len - i,
            {
                self.input_buffer.set(i, 0);
                i = i + 1;
            }
        }
    }
}

/// The bus that input is pulled from.
pub const INPUT_BUS: u32 = 1;

/// How input is pulled into the scratch buffer.
#[derive(Clone, Copy, Debug, PartialEq, Eq, Structural)]
pub struct InputPull {
    /// The bus to pull from.
    pub bus: u32,
    /// The host time of the device cycle, from its own timestamp.
    pub host_time: u64,
    /// The number of frames to pull.
    pub frames: FrameCount,
    /// The number of channels in the scratch buffer.
    pub channels: u32,
    /// The size of the scratch buffer in bytes.
    pub bytes: u32,
}

/// What the data callback is called with: samples from the scratch buffer, and room in the first
/// output buffer.
#[derive(Clone, Copy, Debug, PartialEq, Eq, Structural)]
pub struct DataCall {
    pub info: DuplexCallbackInfo,
    /// The format of the samples on both sides.
    pub sample_format: SampleFormat,
    /// The number of captured samples.
    pub input_samples: usize,
    /// The number of samples to render.
    pub output_samples: usize,
}

/// What [`DuplexCycle`] waits for.
#[derive(Clone, Copy, Debug, PartialEq, Eq, Structural)]
pub enum CycleStage {
    Clock,
    Pull { pass: DuplexPass },
    Data,
}

/// One device cycle of a duplex stream, from a call that was accepted to its status.
#[derive(Clone, Copy, Debug, PartialEq, Eq, Structural)]
pub struct DuplexCycle {
    pub host_time: u64,
    pub number_frames: FrameCount,
    pub stage: CycleStage,
}

/// What a cycle asks for.
#[derive(Clone, Copy, Debug, PartialEq, Eq, Structural)]
pub enum CycleRequest {
    /// Find out which instant `host_time` is, how long `frames` frames take at `sample_rate`, and
    /// how large the first output buffer is.
    ReadClock { host_time: u64, frames: FrameCount, sample_rate: SampleRate },
    /// Pull input into the scratch buffer.
    PullInput(InputPull),
    /// Run the data callback.
    RunDataCallback(DataCall),
}

/// The reply to a request.
#[derive(Debug)]
pub enum CycleReply {
    Clock {
        /// The instant, or why it is unknown.
        callback: Result<StreamInstant, Error>,
        /// How long the frames take.
        delay: Duration,
        /// The size of the first output buffer, or `None` where it has no memory.
        output_bytes: Option<u32>,
    },
    /// The status with which the scratch buffer was filled.
    Pulled(OSStatus),
    /// The data callback has returned.
    Returned,
}

/// How a cycle goes on.
#[derive(Clone, Copy, Debug, PartialEq, Eq, Structural)]
pub enum CycleStep {
    Ask(DuplexCycle, CycleRequest),
    /// Give this status back to CoreAudio.
    Return(OSStatus),
}

impl DuplexCycle {
    /// The same cycle, waiting for something else.
    pub open spec fn at(self, stage: CycleStage) -> DuplexCycle {
        DuplexCycle { host_time: self.host_time, number_frames: self.number_frames, stage }
    }

    /// `reply` answers what the cycle asked for.
    pub open spec fn answers(self, reply: CycleReply) -> bool {
        match self.stage {
            CycleStage::Clock => reply matches CycleReply::Clock { callback, delay, .. }
                && delay.wf() && (callback matches Ok(t) ==> t.wf()),
            CycleStage::Pull { .. } => reply is Pulled,
            CycleStage::Data => reply is Returned,
        }
    }

    /// How input is pulled in this cycle.
    pub open spec fn pull_spec(self, pass: DuplexPass) -> InputPull {
        InputPull {
            bus: INPUT_BUS,
            host_time: self.host_time,
            frames: self.number_frames,
            channels: pass.input_channels,
            bytes: pass.input_bytes,
        }
    }

    /// How input is pulled in this cycle: from the input bus, for the timestamp and the frames
    /// that CoreAudio called with.
    pub fn pull(self, pass: DuplexPass) -> (r: InputPull)
        ensures
            r.bus == 1,
            r.host_time == self.host_time,
            r.frames == self.number_frames,
            r.channels == pass.input_channels,
            r.bytes == pass.input_bytes,
            r == self.pull_spec(pass),
    {
        InputPull {
            bus: INPUT_BUS,
            host_time: self.host_time,
            frames: self.number_frames,
            channels: pass.input_channels,
            bytes: pass.input_bytes,
        }
    }

    /// What the cycle reports on the way.
    pub open spec fn errors(self, reply: CycleReply) -> Seq<Error> {
        match reply {
            CycleReply::Clock { callback, delay, .. } => place_errors(callback, delay),
            CycleReply::Pulled(status) => if status == NO_ERROR {
                seq![]
            } else {
                seq![render_failed(status)]
            },
            CycleReply::Returned => seq![],
        }
    }

    /// How the cycle goes on after `reply`, for the state `proc`.
    pub open spec fn next(self, proc: DuplexProc, reply: CycleReply) -> CycleStep {
        match reply {
            CycleReply::Clock {
                callback: Ok(callback),
                delay,
                output_bytes: Some(bytes),
            } => {
                let pass = proc.pass(self.number_frames, callback, delay, bytes);
                CycleStep::Ask(
                    self.at(CycleStage::Pull { pass }),
                    CycleRequest::PullInput(self.pull_spec(pass)),
                )
            },
            CycleReply::Clock { .. } => CycleStep::Return(PARAM_ERROR),
            CycleReply::Pulled(_) => CycleStep::Ask(
                self.at(CycleStage::Data),
                CycleRequest::RunDataCallback(data_call(self.stage->pass)),
            ),
            CycleReply::Returned => CycleStep::Return(NO_ERROR),
        }
    }
}

/// What the data callback is called with in a cycle that hands on `pass`.
pub open spec fn data_call(pass: DuplexPass) -> DataCall {
    DataCall {
        info: pass.info,
        sample_format: pass.sample_format,
        input_samples: pass.input_samples,
        output_samples: pass.output_samples,
    }
}

impl DuplexProc {
    /// The beginning of a cycle.
    pub open spec fn started(
        self,
        host_time: u64,
        number_frames: FrameCount,
        buffers: Option<u32>,
    ) -> CycleStep {
        if !self.buffer_size_changed && DuplexProc::usable(buffers) && self.fits(number_frames) {
            CycleStep::Ask(
                DuplexCycle { host_time, number_frames, stage: CycleStage::Clock },
                CycleRequest::ReadClock {
                    host_time,
                    frames: self.device_buffer_frames,
                    sample_rate: self.sample_rate,
                },
            )
        } else {
            CycleStep::Return(PARAM_ERROR)
        }
    }

    /// Begins a cycle, for a call by CoreAudio at `host_time` for `number_frames` frames.
    ///
    /// `buffers` is the number of output buffers, or `None` where CoreAudio passed no buffer
    /// list. See [`DuplexProc::accept`] for the calls that are refused.
    pub fn render(
        &mut self,
        host_time: u64,
        number_frames: FrameCount,
        buffers: Option<u32>,
    ) -> (r: CycleStep)
        ensures
            r == old(self).started(host_time, number_frames, buffers),
            r is Ask ==> final(self).fits(number_frames),
            final(self).buffer_size_changed == old(self).flag_after(
                old(self).buffer_size_changed,
                number_frames,
                buffers,
            ),
            final(self).same_setup(*old(self)),
            final(self).input_buffer == old(self).input_buffer,
    {
        match self.accept(number_frames, buffers) {
            Ok(_) => {
                let (frames, sample_rate): (FrameCount, SampleRate) = self.delay();
                CycleStep::Ask(
                    DuplexCycle { host_time, number_frames, stage: CycleStage::Clock },
                    CycleRequest::ReadClock { host_time, frames, sample_rate },
                )
            },
            Err(status) => CycleStep::Return(status),
        }
    }

    /// Carries a cycle on after the reply to its last request. Errors for the error callback are
    /// appended to `errors`, in order.
    pub fn resume(
        &mut self,
        cycle: DuplexCycle,
        reply: CycleReply,
        errors: &mut Vec<Error>,
    ) -> (r: CycleStep)
        requires
            old(self).fits(cycle.number_frames),
            cycle.answers(reply),
        ensures
            r == cycle.next(*old(self), reply),
            final(errors)@ == old(errors)@ + cycle.errors(reply),
            final(self).fits(cycle.number_frames),
            final(self).same_setup(*old(self)),
            final(self).buffer_size_changed == old(self).buffer_size_changed,
            final(self).input_buffer@ == if reply matches CycleReply::Pulled(status) && status
                != NO_ERROR {
                Seq::new(old(self).input_buffer@.len(), |i: int| 0u8)
            } else {
                old(self).input_buffer@
            },
    {
        match reply {
            CycleReply::Clock { callback, delay, output_bytes } => {
                match self.place(cycle.number_frames, callback, delay, output_bytes, errors) {
                    Ok(pass) => {
                        let mut next: DuplexCycle = cycle;
                        next.stage = CycleStage::Pull { pass };
                        CycleStep::Ask(next, CycleRequest::PullInput(cycle.pull(pass)))
                    },
                    Err(status) => CycleStep::Return(status),
                }
            },
            CycleReply::Pulled(status) => {
                self.pulled(status, errors);
                let pass: DuplexPass = match cycle.stage {
                    CycleStage::Pull { pass } => pass,
                    _ => vstd::pervasive::unreached(),
                };
                let mut next: DuplexCycle = cycle;
                next.stage = CycleStage::Data;
                CycleStep::Ask(
                    next,
                    CycleRequest::RunDataCallback(
                        DataCall {
                            info: pass.info,
                            sample_format: pass.sample_format,
                            input_samples: pass.input_samples,
                            output_samples: pass.output_samples,
                        },
                    ),
                )
            },
            CycleReply::Returned => CycleStep::Return(NO_ERROR),
        }
    }
}

/// A cycle whose instant is known and that has room for output pulls its input exactly once, from
/// the input bus, at the time and for the frames that CoreAudio called with; then, whatever became
/// of that, runs the data callback exactly once, with all the frames captured and all the room
/// there is; and then gives back success.
pub proof fn lemma_cycle(
    proc: DuplexProc,
    host_time: u64,
    number_frames: FrameCount,
    buffers: Option<u32>,
    callback: StreamInstant,
    delay: Duration,
    output_bytes: u32,
    status: OSStatus,
)
    requires
        proc.fits(number_frames),
        !proc.buffer_size_changed,
        DuplexProc::usable(buffers),
    ensures
        ({
            let first = proc.started(host_time, number_frames, buffers)->Ask_0;
            let clock = CycleReply::Clock {
                callback: Ok(callback),
                delay,
                output_bytes: Some(output_bytes),
            };
            let second = first.next(proc, clock)->Ask_0;
            let third = second.next(proc, CycleReply::Pulled(status))->Ask_0;
            &&& proc.started(host_time, number_frames, buffers) == CycleStep::Ask(
                first,
                CycleRequest::ReadClock {
                    host_time,
                    frames: proc.device_buffer_frames,
                    sample_rate: proc.sample_rate,
                },
            )
            &&& first.next(proc, clock) matches CycleStep::Ask(_, pulls)
            &&& pulls matches CycleRequest::PullInput(pull)
            &&& pull.bus == 1
            &&& pull.host_time == host_time
            &&& pull.frames == number_frames
            &&& pull.channels == proc.input_channels
            &&& pull.bytes == proc.input_buffer@.len() % 0x1_0000_0000
            &&& second.next(proc, CycleReply::Pulled(status)) matches CycleStep::Ask(_, runs)
            &&& runs matches CycleRequest::RunDataCallback(call)
            &&& call.info.input() == InputStreamTimestamp {
                callback,
                capture: crate::time::captured_at(callback, delay),
            }
            &&& call.info.output() == OutputStreamTimestamp {
                callback,
                playback: crate::time::played_at(callback, delay),
            }
            &&& call.sample_format == proc.sample_format
            &&& call.input_samples == number_frames * proc.input_channels
            &&& call.output_samples == output_bytes as int
                / proc.sample_format.sample_size_spec() as int
            &&& third.next(proc, CycleReply::Returned) == CycleStep::Return(NO_ERROR)
        }),
{
    let size = proc.sample_format.sample_size_spec();
    lemma_samples_fit(number_frames, proc.input_channels, size);
    assert(output_bytes as int / size as int <= output_bytes) by {
        vstd::arithmetic::div_mod::lemma_div_is_ordered_by_denominator(
            output_bytes as int,
            1,
            size as int,
        );
    }
    let samples: int = number_frames * proc.input_channels;
    assert(samples <= proc.input_buffer.len());
}

/// A cycle that pulls no input runs no data callback either: it gives back an error, and reports
/// why, unless the first output buffer has no memory.
pub proof fn lemma_refused_cycle(
    proc: DuplexProc,
    cycle: DuplexCycle,
    callback: Result<StreamInstant, Error>,
    delay: Duration,
    output_bytes: Option<u32>,
)
    requires
        cycle.stage is Clock,
        callback is Err || output_bytes is None,
    ensures
        cycle.next(proc, CycleReply::Clock { callback, delay, output_bytes }) == CycleStep::Return(
            PARAM_ERROR,
        ),
        callback matches Err(e) ==> cycle.errors(
            CycleReply::Clock { callback, delay, output_bytes },
        ) == seq![e],
{
}

/// A sample takes up at least a byte.
proof fn lemma_samples_fit(frames: FrameCount, channels: ChannelCount, size: usize)
    requires
        size >= 1,
    ensures
        0 <= frames * channels <= frames * channels * size,
{
    assert(0 <= frames * channels) by (nonlinear_arith)
        requires
            frames >= 0,
            channels >= 0,
    ;
    assert(frames * channels <= frames * channels * size) by (nonlinear_arith)
        requires
            size >= 1,
            frames * channels >= 0,
    ;
}

/// Once a call did not fit the scratch buffer, the flag stays set through every later call.
pub proof fn lemma_misfit_is_final(
    proc: DuplexProc,
    flag: bool,
    calls: Seq<(FrameCount, Option<u32>)>,
    i: int,
)
    requires
        0 <= i < calls.len(),
        DuplexProc::usable(calls[i].1),
        !proc.fits(calls[i].0),
    ensures
        proc.flag_after_all(flag, calls),
    decreases calls.len(),
{
    if i < calls.len() - 1 {
        lemma_misfit_is_final(proc, flag, calls.drop_last(), i);
    }
}

/// As long as every call fits, or brings no buffers, the flag keeps its value.
pub proof fn lemma_fitting_calls_keep_flag(
    proc: DuplexProc,
    flag: bool,
    calls: Seq<(FrameCount, Option<u32>)>,
)
    requires
        forall|i: int|
            0 <= i < calls.len() ==> !DuplexProc::usable(#[trigger] calls[i].1) || proc.fits(
                calls[i].0,
            ),
    ensures
        proc.flag_after_all(flag, calls) == flag,
    decreases calls.len(),
{
    if calls.len() > 0 {
        assert(calls.last() == calls[calls.len() - 1]);
        assert forall|i: int| 0 <= i < calls.drop_last().len() implies !DuplexProc::usable(
            #[trigger] calls.drop_last()[i].1,
        ) || proc.fits(calls.drop_last()[i].0) by {
            assert(calls.drop_last()[i] == calls[i]);
        }
        lemma_fitting_calls_keep_flag(proc, flag, calls.drop_last());
    }
}

/// A stream that captures anything accepts calls for exactly one device buffer of frames. One
/// that captures nothing accepts any number of them.
pub proof fn lemma_fits_one_device_buffer(proc: DuplexProc, frames: FrameCount)
    requires
        proc.wf(),
    ensures
        proc.fits(frames) <==> frames == proc.device_buffer_frames || proc.input_channels == 0,
{
    let a = frames as int;
    let b = proc.device_buffer_frames as int;
    let c = proc.input_channels as int;
    let z = proc.sample_format.sample_size_spec() as int;
    assert(a * c * z == b * c * z <==> a == b || c == 0) by (nonlinear_arith)
        requires
            c >= 0,
            z > 0,
    ;
}

/// The status that goes back to CoreAudio from the entry point of the render callback.
///
/// `outcome` is the status of the callback, or `None` where it panicked: a panic is turned into
/// an error status, so that it does not unwind through CoreAudio's own frames.
pub fn duplex_input_proc(outcome: Option<OSStatus>) -> (r: OSStatus)
    ensures
        r == match outcome {
            Some(status) => status,
            None => PARAM_ERROR,
        },
{
    match outcome {
        Some(status) => status,
        None => param_error(),
    }
}

} // verus!
