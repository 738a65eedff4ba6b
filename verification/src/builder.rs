//! Building streams in one direction.
//!
//! [`StreamBuild`] holds the decisions of the procedure: it names the next request and is resumed
//! with the reply, until there is a stream or an error.

use vstd::prelude::*;

use crate::callback::setup_callback_vars;
use crate::config::{BufferSize, FrameCount, SampleFormat, StreamConfig, SupportedBufferSize};
use crate::device::{AudioDeviceID, Device};
use crate::error::{Error, ErrorKind, Message};
use crate::stream::{Monitor, Stream, StreamInner};
use crate::time::Duration;
use crate::unit::{
    audio_unit_from_device, pin_device, set_buffer_size, set_stream_format, AudioUnitMode,
    BuildReply, BuildRequest, Direction, Element, Scope,
};

verus! {

/// What [`StreamBuild`] waits for, and what it has read from the device for its callback.
#[derive(Clone, Copy, Debug, PartialEq, Eq, Structural)]
pub enum BuildStage {
    Validate,
    PhysicalFormat,
    SampleRate,
    Probe,
    Loopback,
    Unit,
    CurrentDevice,
    Format,
    BufferRange,
    BufferSize,
    BufferFrames,
    Latency { frames: Option<u32> },
    SafetyOffset { frames: Option<u32>, latency: Option<u32> },
    Callback,
    Initialize,
    Monitor,
    Ready,
}

/// The procedure that builds a stream in one direction.
#[derive(Clone, Copy, Debug)]
pub struct StreamBuild {
    pub device: Device,
    pub direction: Direction,
    pub config: StreamConfig,
    pub sample_format: SampleFormat,
    pub timeout: Option<Duration>,
    /// The aggregate device that stands in for a device that cannot record.
    pub loopback: Option<AudioDeviceID>,
    pub stage: BuildStage,
}

/// How the procedure goes on.
#[derive(Debug)]
pub enum BuildStep {
    Ask(StreamBuild, BuildRequest),
    Done(Result<Stream, Error>),
}

/// The value that was read, or nothing where it could not be.
pub open spec fn readable(number: Result<u32, Error>) -> Option<u32> {
    match number {
        Ok(n) => Some(n),
        Err(_) => None,
    }
}

/// `frames` is known not to be supported.
pub open spec fn out_of_range(
    frames: FrameCount,
    supported: Result<SupportedBufferSize, Error>,
) -> bool {
    supported matches Ok(SupportedBufferSize::Range { min, max }) && !(min <= frames <= max)
}

/// The error for a buffer size that is known not to be supported.
pub open spec fn buffer_size_error(frames: FrameCount, supported: SupportedBufferSize) -> Error {
    Error {
        kind: ErrorKind::UnsupportedConfig,
        message: Some(
            Message::BufferSizeOutOfRange {
                size: frames,
                min: supported->Range_min,
                max: supported->Range_max,
            },
        ),
    }
}

/// Checks a buffer size against what the device says it supports. Where the device does not say,
/// any size passes.
pub fn check_buffer_size(
    frames: FrameCount,
    supported: Result<SupportedBufferSize, Error>,
) -> (r: Result<(), Error>)
    ensures
        r is Err <==> out_of_range(frames, supported),
        r matches Err(e) ==> e == buffer_size_error(frames, supported->Ok_0),
{
    match supported {
        Ok(SupportedBufferSize::Range { min, max }) => {
            if min <= frames && frames <= max {
                Ok(())
            } else {
                Err(
                    Error::with_message(
                        ErrorKind::UnsupportedConfig,
                        Message::BufferSizeOutOfRange { size: frames, min, max },
                    ),
                )
            }
        },
        _ => Ok(()),
    }
}

impl StreamBuild {
    /// The same procedure, waiting for something else.
    pub open spec fn at(self, stage: BuildStage) -> StreamBuild {
        StreamBuild {
            device: self.device,
            direction: self.direction,
            config: self.config,
            sample_format: self.sample_format,
            timeout: self.timeout,
            loopback: self.loopback,
            stage,
        }
    }

    /// The same procedure, with a loopback device.
    pub open spec fn with_loopback(self, id: AudioDeviceID) -> StreamBuild {
        StreamBuild {
            device: self.device,
            direction: self.direction,
            config: self.config,
            sample_format: self.sample_format,
            timeout: self.timeout,
            loopback: Some(id),
            stage: self.stage,
        }
    }

    /// What the audio unit is for.
    pub open spec fn mode(self) -> AudioUnitMode {
        match self.direction {
            Direction::Input => AudioUnitMode::Input,
            Direction::Output => if self.device.is_default_output {
                AudioUnitMode::DefaultOutput
            } else {
                AudioUnitMode::Output
            },
        }
    }

    /// The device that the audio unit works on.
    pub open spec fn effective_device_id(self) -> AudioDeviceID {
        match self.loopback {
            Some(id) => id,
            None => self.device.audio_device_id,
        }
    }

    /// The scope on which the device reports its latency.
    pub open spec fn latency_scope(self) -> Scope {
        match self.direction {
            Direction::Input => Scope::Input,
            Direction::Output => Scope::Output,
        }
    }

    /// What watches over the device.
    pub open spec fn monitor(self) -> Monitor {
        if self.mode() == AudioUnitMode::DefaultOutput {
            Monitor::DefaultOutput
        } else {
            Monitor::Disconnect {
                device_id: self.device.audio_device_id,
                listen_buffer_size: false,
            }
        }
    }

    /// The stream that is built: it does not play yet.
    pub open spec fn stream(self) -> Stream {
        Stream {
            inner: StreamInner {
                playing: false,
                device_id: self.device.audio_device_id,
                loopback_device: self.loopback,
                duplex_callback_ptr: None,
            },
            monitor: self.monitor(),
        }
    }

    /// `reply` answers what the procedure asked for.
    pub open spec fn answers(self, reply: BuildReply) -> bool {
        match self.stage {
            BuildStage::Probe => reply is Supported,
            BuildStage::Loopback => reply is Loopback,
            BuildStage::BufferRange => reply is BufferRange,
            BuildStage::BufferFrames => reply is Number,
            BuildStage::Latency { .. } => reply is Number,
            BuildStage::SafetyOffset { latency, .. } => reply matches BuildReply::Number(offset)
                && crate::callback::or_zero(latency) + crate::callback::or_zero(readable(offset))
                <= usize::MAX,
            BuildStage::Ready => reply is Signalled,
            _ => reply is Done,
        }
    }

    /// The fixed buffer size is only checked and set where there is one.
    pub open spec fn wf(self) -> bool {
        &&& self.timeout matches Some(t) ==> t.wf()
        &&& self.stage is BufferRange ==> self.config.buffer_size is Fixed
    }

    pub open spec fn ask_rate(self) -> BuildStep {
        BuildStep::Ask(
            self.at(BuildStage::SampleRate),
            BuildRequest::SetSampleRate {
                device_id: self.device.audio_device_id,
                sample_rate: self.config.sample_rate,
                timeout: self.timeout,
            },
        )
    }

    /// Begins making the audio unit. An input stream first has to know whether the device can
    /// record.
    pub open spec fn ask_device(self) -> BuildStep {
        match self.direction {
            Direction::Input => BuildStep::Ask(
                self.at(BuildStage::Probe),
                BuildRequest::ProbeInput { device_id: self.device.audio_device_id },
            ),
            Direction::Output => self.ask_unit(),
        }
    }

    pub open spec fn ask_unit(self) -> BuildStep {
        BuildStep::Ask(
            self.at(BuildStage::Unit),
            crate::unit::unit_request(self.effective_device_id(), self.mode()),
        )
    }

    pub open spec fn ask_format(self) -> BuildStep {
        BuildStep::Ask(
            self.at(BuildStage::Format),
            crate::unit::format_request(self.direction, self.config, self.sample_format),
        )
    }

    pub open spec fn ask_frames(self) -> BuildStep {
        BuildStep::Ask(
            self.at(BuildStage::BufferFrames),
            BuildRequest::ReadBufferFrames { scope: Scope::Global, element: Element::Output },
        )
    }

    /// How the procedure goes on after a step that had to succeed and did.
    pub open spec fn next_done(self) -> BuildStep {
        match self.stage {
            BuildStage::Validate => BuildStep::Ask(
                self.at(BuildStage::PhysicalFormat),
                BuildRequest::SetPhysicalFormat {
                    device_id: self.device.audio_device_id,
                    sample_rate: self.config.sample_rate,
                    channels: self.config.channels,
                    sample_format: self.sample_format,
                },
            ),
            BuildStage::PhysicalFormat => self.ask_device(),
            BuildStage::SampleRate => self.ask_device(),
            BuildStage::Unit => if self.mode() == AudioUnitMode::Output {
                BuildStep::Ask(
                    self.at(BuildStage::CurrentDevice),
                    crate::unit::pin_request(self.effective_device_id()),
                )
            } else {
                self.ask_format()
            },
            BuildStage::CurrentDevice => self.ask_format(),
            BuildStage::Format => match self.config.buffer_size {
                BufferSize::Fixed(_) => BuildStep::Ask(
                    self.at(BuildStage::BufferRange),
                    BuildRequest::ReadBufferRange { device_id: self.effective_device_id() },
                ),
                BufferSize::Default => self.ask_frames(),
            },
            BuildStage::BufferSize => self.ask_frames(),
            BuildStage::Callback => BuildStep::Ask(
                self.at(BuildStage::Initialize),
                BuildRequest::Initialize,
            ),
            BuildStage::Initialize => BuildStep::Ask(
                self.at(BuildStage::Monitor),
                BuildRequest::StartMonitor(self.monitor()),
            ),
            BuildStage::Monitor => BuildStep::Ask(
                self.at(BuildStage::Ready),
                BuildRequest::SignalReady,
            ),
            _ => arbitrary(),
        }
    }

    /// How the procedure goes on after `reply`.
    pub open spec fn next(self, reply: BuildReply) -> BuildStep {
        match reply {
            BuildReply::Done(Ok(_)) => self.next_done(),
            // Without a physical format that fits, the rate alone has to do.
            BuildReply::Done(Err(e)) => if self.stage is PhysicalFormat {
                self.ask_rate()
            } else {
                BuildStep::Done(Err(e))
            },
            BuildReply::Supported(true) => self.ask_unit(),
            BuildReply::Supported(false) => BuildStep::Ask(
                self.at(BuildStage::Loopback),
                BuildRequest::OpenLoopback { device_id: self.device.audio_device_id },
            ),
            BuildReply::Loopback(Ok(id)) => self.with_loopback(id).ask_unit(),
            BuildReply::Loopback(Err(e)) => BuildStep::Done(Err(e)),
            BuildReply::BufferRange(supported) => {
                let frames = self.config.buffer_size->Fixed_0;
                if out_of_range(frames, supported) {
                    BuildStep::Done(Err(buffer_size_error(frames, supported->Ok_0)))
                } else {
                    BuildStep::Ask(self.at(BuildStage::BufferSize), crate::unit::buffer_size_request(frames))
                }
            },
            BuildReply::Number(number) => match self.stage {
                BuildStage::BufferFrames => BuildStep::Ask(
                    self.at(BuildStage::Latency { frames: readable(number) }),
                    BuildRequest::ReadLatency {
                        scope: self.latency_scope(),
                        element: Element::Output,
                    },
                ),
                BuildStage::Latency { frames } => BuildStep::Ask(
                    self.at(BuildStage::SafetyOffset { frames, latency: readable(number) }),
                    BuildRequest::ReadSafetyOffset {
                        scope: self.latency_scope(),
                        element: Element::Output,
                    },
                ),
                BuildStage::SafetyOffset { frames, latency } => BuildStep::Ask(
                    self.at(BuildStage::Callback),
                    BuildRequest::InstallCallback {
                        direction: self.direction,
                        vars: crate::callback::callback_vars(
                            self.config,
                            self.sample_format,
                            frames,
                            latency,
                            readable(number),
                        ),
                    },
                ),
                _ => arbitrary(),
            },
            BuildReply::Signalled => BuildStep::Done(Ok(self.stream())),
            _ => arbitrary(),
        }
    }

    fn go(self, stage: BuildStage) -> (r: StreamBuild)
        ensures
            r == self.at(stage),
    {
        let mut m: StreamBuild = self;
        m.stage = stage;
        m
    }

    fn unit_mode(self) -> (r: AudioUnitMode)
        ensures
            r == self.mode(),
    {
        match self.direction {
            Direction::Input => AudioUnitMode::Input,
            Direction::Output => {
                if self.device.is_default_output {
                    AudioUnitMode::DefaultOutput
                } else {
                    AudioUnitMode::Output
                }
            },
        }
    }

    fn device_in_use(self) -> (r: AudioDeviceID)
        ensures
            r == self.effective_device_id(),
    {
        match self.loopback {
            Some(id) => id,
            None => self.device.audio_device_id,
        }
    }

    fn scope_of_latency(self) -> (r: Scope)
        ensures
            r == self.latency_scope(),
    {
        match self.direction {
            Direction::Input => Scope::Input,
            Direction::Output => Scope::Output,
        }
    }

    fn choose_monitor(self) -> (r: Monitor)
        ensures
            r == self.monitor(),
    {
        match self.unit_mode() {
            AudioUnitMode::DefaultOutput => Monitor::DefaultOutput,
            _ => Monitor::Disconnect {
                device_id: self.device.audio_device_id,
                listen_buffer_size: false,
            },
        }
    }

    fn make_unit(self) -> (r: BuildStep)
        ensures
            r == self.ask_unit(),
    {
        BuildStep::Ask(
            self.go(BuildStage::Unit),
            audio_unit_from_device(self.device_in_use(), self.unit_mode()),
        )
    }

    fn find_device(self) -> (r: BuildStep)
        ensures
            r == self.ask_device(),
    {
        match self.direction {
            Direction::Input => BuildStep::Ask(
                self.go(BuildStage::Probe),
                BuildRequest::ProbeInput { device_id: self.device.audio_device_id },
            ),
            Direction::Output => self.make_unit(),
        }
    }

    fn set_format(self) -> (r: BuildStep)
        ensures
            r == self.ask_format(),
    {
        BuildStep::Ask(
            self.go(BuildStage::Format),
            set_stream_format(self.direction, self.config, self.sample_format),
        )
    }

    fn read_frames(self) -> (r: BuildStep)
        ensures
            r == self.ask_frames(),
    {
        BuildStep::Ask(
            self.go(BuildStage::BufferFrames),
            BuildRequest::ReadBufferFrames { scope: Scope::Global, element: Element::Output },
        )
    }

    fn resume_done(self) -> (r: BuildStep)
        requires
            self.answers(BuildReply::Done(Ok(()))),
        ensures
            r == self.next_done(),
    {
        match self.stage {
            BuildStage::Validate => BuildStep::Ask(
                self.go(BuildStage::PhysicalFormat),
                BuildRequest::SetPhysicalFormat {
                    device_id: self.device.audio_device_id,
                    sample_rate: self.config.sample_rate,
                    channels: self.config.channels,
                    sample_format: self.sample_format,
                },
            ),
            BuildStage::PhysicalFormat => self.find_device(),
            BuildStage::SampleRate => self.find_device(),
            BuildStage::Unit => match self.unit_mode() {
                AudioUnitMode::Output => BuildStep::Ask(
                    self.go(BuildStage::CurrentDevice),
                    pin_device(self.device_in_use()),
                ),
                _ => self.set_format(),
            },
            BuildStage::CurrentDevice => self.set_format(),
            BuildStage::Format => match self.config.buffer_size {
                BufferSize::Fixed(_) => BuildStep::Ask(
                    self.go(BuildStage::BufferRange),
                    BuildRequest::ReadBufferRange { device_id: self.device_in_use() },
                ),
                BufferSize::Default => self.read_frames(),
            },
            BuildStage::BufferSize => self.read_frames(),
            BuildStage::Callback => BuildStep::Ask(
                self.go(BuildStage::Initialize),
                BuildRequest::Initialize,
            ),
            BuildStage::Initialize => BuildStep::Ask(
                self.go(BuildStage::Monitor),
                BuildRequest::StartMonitor(self.choose_monitor()),
            ),
            BuildStage::Monitor => BuildStep::Ask(
                self.go(BuildStage::Ready),
                BuildRequest::SignalReady,
            ),
            _ => vstd::pervasive::unreached(),
        }
    }

    fn resume_number(self, number: Result<u32, Error>) -> (r: BuildStep)
        requires
            self.answers(BuildReply::Number(number)),
        ensures
            r == self.next(BuildReply::Number(number)),
    {
        let number: Option<u32> = match number {
            Ok(n) => Some(n),
            Err(_) => None,
        };
        match self.stage {
            BuildStage::BufferFrames => BuildStep::Ask(
                self.go(BuildStage::Latency { frames: number }),
                BuildRequest::ReadLatency {
                    scope: self.scope_of_latency(),
                    element: Element::Output,
                },
            ),
            BuildStage::Latency { frames } => BuildStep::Ask(
                self.go(BuildStage::SafetyOffset { frames, latency: number }),
                BuildRequest::ReadSafetyOffset {
                    scope: self.scope_of_latency(),
                    element: Element::Output,
                },
            ),
            BuildStage::SafetyOffset { frames, latency } => BuildStep::Ask(
                self.go(BuildStage::Callback),
                BuildRequest::InstallCallback {
                    direction: self.direction,
                    vars: setup_callback_vars(
                        self.config,
                        self.sample_format,
                        frames,
                        latency,
                        number,
                    ),
                },
            ),
            _ => vstd::pervasive::unreached(),
        }
    }

    /// Goes on after the reply to the last request.
    pub fn resume(self, reply: BuildReply) -> (r: BuildStep)
        requires
            self.wf(),
            self.answers(reply),
        ensures
            r == self.next(reply),
            r matches BuildStep::Ask(m, _) ==> m.wf(),
    {
        match reply {
            BuildReply::Done(Ok(_)) => self.resume_done(),
            BuildReply::Done(Err(e)) => match self.stage {
                BuildStage::PhysicalFormat => BuildStep::Ask(
                    self.go(BuildStage::SampleRate),
                    BuildRequest::SetSampleRate {
                        device_id: self.device.audio_device_id,
                        sample_rate: self.config.sample_rate,
                        timeout: self.timeout,
                    },
                ),
                _ => BuildStep::Done(Err(e)),
            },
            BuildReply::Supported(supported) => {
                if supported {
                    self.make_unit()
                } else {
                    BuildStep::Ask(
                        self.go(BuildStage::Loopback),
                        BuildRequest::OpenLoopback { device_id: self.device.audio_device_id },
                    )
                }
            },
            BuildReply::Loopback(Ok(id)) => {
                let mut m: StreamBuild = self;
                m.loopback = Some(id);
                m.make_unit()
            },
            BuildReply::Loopback(Err(e)) => BuildStep::Done(Err(e)),
            BuildReply::BufferRange(supported) => match self.config.buffer_size {
                BufferSize::Fixed(frames) => match check_buffer_size(frames, supported) {
                    Ok(_) => BuildStep::Ask(
                        self.go(BuildStage::BufferSize),
                        set_buffer_size(frames),
                    ),
                    Err(e) => BuildStep::Done(Err(e)),
                },
                BufferSize::Default => vstd::pervasive::unreached(),
            },
            BuildReply::Number(number) => self.resume_number(number),
            BuildReply::Signalled => {
                let inner = StreamInner {
                    playing: false,
                    device_id: self.device.audio_device_id,
                    loopback_device: self.loopback,
                    duplex_callback_ptr: None,
                };
                BuildStep::Done(Stream::new(inner, self.choose_monitor(), Ok(())))
            },
            _ => vstd::pervasive::unreached(),
        }
    }

    /// The beginning of the procedure.
    pub open spec fn initial(
        device: Device,
        direction: Direction,
        config: StreamConfig,
        sample_format: SampleFormat,
        timeout: Option<Duration>,
    ) -> StreamBuild {
        StreamBuild {
            device,
            direction,
            config,
            sample_format,
            timeout,
            loopback: None,
            stage: BuildStage::Validate,
        }
    }
}

impl Device {
    /// Starts building an input stream on the device.
    pub fn build_input_stream_raw(
        &self,
        config: StreamConfig,
        sample_format: SampleFormat,
        timeout: Option<Duration>,
    ) -> (r: (StreamBuild, BuildRequest))
        requires
            timeout matches Some(t) ==> t.wf(),
        ensures
            r.0 == StreamBuild::initial(*self, Direction::Input, config, sample_format, timeout),
            r.0.wf(),
            r.1 == BuildRequest::Validate(config),
    {
        (
            StreamBuild {
                device: *self,
                direction: Direction::Input,
                config,
                sample_format,
                timeout,
                loopback: None,
                stage: BuildStage::Validate,
            },
            BuildRequest::Validate(config),
        )
    }

    /// Starts building an output stream on the device.
    pub fn build_output_stream_raw(
        &self,
        config: StreamConfig,
        sample_format: SampleFormat,
        timeout: Option<Duration>,
    ) -> (r: (StreamBuild, BuildRequest))
        requires
            timeout matches Some(t) ==> t.wf(),
        ensures
            r.0 == StreamBuild::initial(*self, Direction::Output, config, sample_format, timeout),
            r.0.wf(),
            r.1 == BuildRequest::Validate(config),
    {
        (
            StreamBuild {
                device: *self,
                direction: Direction::Output,
                config,
                sample_format,
                timeout,
                loopback: None,
                stage: BuildStage::Validate,
            },
            BuildRequest::Validate(config),
        )
    }
}

/// What the replies tell of the system in the course of building a stream.
pub struct BuildFacts {
    /// The physical format could be set.
    pub physical_format: bool,
    /// The device can record.
    pub has_input: bool,
    /// The loopback device that was made for a device that cannot.
    pub loopback: AudioDeviceID,
    /// The size of the device buffer, as far as it could be read.
    pub frames: Option<u32>,
    /// The latency of the device, as far as it could be read.
    pub latency: Option<u32>,
    /// The safety offset of the device, as far as it could be read.
    pub safety_offset: Option<u32>,
}

impl StreamBuild {
    /// Where the procedure stands after a number of replies.
    pub open spec fn after(self, replies: Seq<BuildReply>) -> BuildStep
        decreases replies.len(),
    {
        if replies.len() == 0 {
            BuildStep::Ask(self, BuildRequest::Validate(self.config))
        } else {
            match self.after(replies.drop_last()) {
                BuildStep::Ask(m, _) => m.next(replies.last()),
                BuildStep::Done(r) => BuildStep::Done(r),
            }
        }
    }

    /// Every reply answers the request made at its time.
    pub open spec fn conversation(self, replies: Seq<BuildReply>) -> bool
        decreases replies.len(),
    {
        replies.len() > 0 ==> {
            &&& self.conversation(replies.drop_last())
            &&& self.after(replies.drop_last()) matches BuildStep::Ask(m, _)
            &&& m.answers(replies.last())
        }
    }

    /// Everything that was asked for in the course of a number of replies, in order.
    pub open spec fn asked(self, replies: Seq<BuildReply>) -> Seq<BuildRequest>
        decreases replies.len(),
    {
        let before = if replies.len() == 0 {
            seq![]
        } else {
            self.asked(replies.drop_last())
        };
        match self.after(replies) {
            BuildStep::Ask(_, request) => before.push(request),
            BuildStep::Done(_) => before,
        }
    }

    /// The facts that a number of replies have told. What no reply has told counts as missing.
    pub open spec fn learned(self, replies: Seq<BuildReply>) -> BuildFacts
        decreases replies.len(),
    {
        if replies.len() == 0 {
            BuildFacts {
                physical_format: false,
                has_input: false,
                loopback: 0,
                frames: None,
                latency: None,
                safety_offset: None,
            }
        } else {
            let before = self.learned(replies.drop_last());
            match self.after(replies.drop_last()) {
                BuildStep::Ask(m, _) => learn(before, m, replies.last()),
                BuildStep::Done(_) => before,
            }
        }
    }

    /// The procedure as it stands once the device is known.
    pub open spec fn settled(self, facts: BuildFacts) -> StreamBuild {
        if self.direction == Direction::Input && !facts.has_input {
            self.with_loopback(facts.loopback)
        } else {
            self
        }
    }

    /// First the configuration is checked and the hardware set up: its physical format if
    /// possible, else its rate.
    #[verifier::opaque]
    pub open spec fn plan_hardware(self, facts: BuildFacts) -> Seq<BuildRequest> {
        seq![
            BuildRequest::Validate(self.config),
            BuildRequest::SetPhysicalFormat {
                device_id: self.device.audio_device_id,
                sample_rate: self.config.sample_rate,
                channels: self.config.channels,
                sample_format: self.sample_format,
            },
        ] + if facts.physical_format {
            seq![]
        } else {
            seq![
                BuildRequest::SetSampleRate {
                    device_id: self.device.audio_device_id,
                    sample_rate: self.config.sample_rate,
                    timeout: self.timeout,
                },
            ]
        }
    }

    /// Then input finds out whether the device can record, and makes a loopback device if not.
    #[verifier::opaque]
    pub open spec fn plan_device(self, facts: BuildFacts) -> Seq<BuildRequest> {
        let id = self.device.audio_device_id;
        if self.direction == Direction::Output {
            seq![]
        } else if facts.has_input {
            seq![BuildRequest::ProbeInput { device_id: id }]
        } else {
            seq![
                BuildRequest::ProbeInput { device_id: id },
                BuildRequest::OpenLoopback { device_id: id },
            ]
        }
    }

    /// Then the audio unit is made, and pinned to its device if it is for output to one.
    #[verifier::opaque]
    pub open spec fn plan_unit(self, facts: BuildFacts) -> Seq<BuildRequest> {
        let id = self.settled(facts).effective_device_id();
        seq![crate::unit::unit_request(id, self.mode())] + if self.mode()
            == AudioUnitMode::Output {
            seq![crate::unit::pin_request(id)]
        } else {
            seq![]
        }
    }

    /// Then its format is set, and the buffer size if one was requested.
    #[verifier::opaque]
    pub open spec fn plan_format(self, facts: BuildFacts) -> Seq<BuildRequest> {
        seq![crate::unit::format_request(self.direction, self.config, self.sample_format)]
            + match self.config.buffer_size {
            BufferSize::Fixed(frames) => seq![
                BuildRequest::ReadBufferRange {
                    device_id: self.settled(facts).effective_device_id(),
                },
                crate::unit::buffer_size_request(frames),
            ],
            BufferSize::Default => seq![],
        }
    }

    /// Then what the callback needs is read, the callback installed, the unit initialized, the
    /// monitor started, and the stream signalled to be ready.
    #[verifier::opaque]
    pub open spec fn plan_callback(self, facts: BuildFacts) -> Seq<BuildRequest> {
        seq![
            BuildRequest::ReadBufferFrames { scope: Scope::Global, element: Element::Output },
            BuildRequest::ReadLatency { scope: self.latency_scope(), element: Element::Output },
            BuildRequest::ReadSafetyOffset {
                scope: self.latency_scope(),
                element: Element::Output,
            },
            BuildRequest::InstallCallback {
                direction: self.direction,
                vars: crate::callback::callback_vars(
                    self.config,
                    self.sample_format,
                    facts.frames,
                    facts.latency,
                    facts.safety_offset,
                ),
            },
            BuildRequest::Initialize,
            BuildRequest::StartMonitor(self.monitor()),
            BuildRequest::SignalReady,
        ]
    }

    /// Everything that building a stream asks for, in order.
    pub open spec fn plan(self, facts: BuildFacts) -> Seq<BuildRequest> {
        self.plan_hardware(facts) + self.plan_device(facts) + self.plan_unit(facts)
            + self.plan_format(facts) + self.plan_callback(facts)
    }

    /// What has been asked for by the time the procedure waits in `stage`.
    spec fn plan_until(self, facts: BuildFacts, stage: BuildStage) -> Seq<BuildRequest> {
        let hardware = self.plan_hardware(facts);
        let device = hardware + self.plan_device(facts);
        let unit = device + self.plan_unit(facts);
        let format = unit + self.plan_format(facts);
        match stage {
            BuildStage::Validate => hardware.take(1),
            BuildStage::PhysicalFormat => hardware.take(2),
            BuildStage::SampleRate => hardware,
            BuildStage::Probe => hardware + self.plan_device(facts).take(1),
            BuildStage::Loopback => device,
            BuildStage::Unit => device + self.plan_unit(facts).take(1),
            BuildStage::CurrentDevice => unit,
            BuildStage::Format => unit + self.plan_format(facts).take(1),
            BuildStage::BufferRange => unit + self.plan_format(facts).take(2),
            BuildStage::BufferSize => format,
            BuildStage::BufferFrames => format + self.plan_callback(facts).take(1),
            BuildStage::Latency { .. } => format + self.plan_callback(facts).take(2),
            BuildStage::SafetyOffset { .. } => format + self.plan_callback(facts).take(3),
            BuildStage::Callback => format + self.plan_callback(facts).take(4),
            BuildStage::Initialize => format + self.plan_callback(facts).take(5),
            BuildStage::Monitor => format + self.plan_callback(facts).take(6),
            BuildStage::Ready => format + self.plan_callback(facts),
        }
    }

    /// `m` is what `self` has become by the time it waits in its stage, given the facts so far.
    spec fn became(self, m: StreamBuild, facts: BuildFacts) -> bool {
        let settled = match m.stage {
            BuildStage::Validate => self,
            BuildStage::PhysicalFormat => self,
            BuildStage::SampleRate => self,
            BuildStage::Probe => self,
            BuildStage::Loopback => self,
            _ => self.settled(facts),
        };
        &&& m == settled.at(m.stage)
        &&& match m.stage {
            BuildStage::SampleRate => !facts.physical_format,
            BuildStage::Probe => self.direction == Direction::Input,
            BuildStage::Loopback => self.direction == Direction::Input && !facts.has_input,
            BuildStage::CurrentDevice => self.mode() == AudioUnitMode::Output,
            BuildStage::BufferRange => self.config.buffer_size is Fixed,
            BuildStage::BufferSize => self.config.buffer_size is Fixed,
            BuildStage::Latency { frames } => frames == facts.frames,
            BuildStage::SafetyOffset { frames, latency } => frames == facts.frames && latency
                == facts.latency,
            _ => true,
        }
    }
}

/// The facts, with what one more reply adds to them.
pub open spec fn learn(facts: BuildFacts, m: StreamBuild, reply: BuildReply) -> BuildFacts {
    match m.stage {
        BuildStage::PhysicalFormat => BuildFacts {
            physical_format: reply matches BuildReply::Done(Ok(_)),
            ..facts
        },
        BuildStage::Probe => BuildFacts {
            has_input: reply matches BuildReply::Supported(true),
            ..facts
        },
        BuildStage::Loopback => BuildFacts {
            loopback: match reply {
                BuildReply::Loopback(Ok(id)) => id,
                _ => facts.loopback,
            },
            ..facts
        },
        BuildStage::BufferFrames => BuildFacts {
            frames: readable(reply->Number_0),
            ..facts
        },
        BuildStage::Latency { .. } => BuildFacts { latency: readable(reply->Number_0), ..facts },
        BuildStage::SafetyOffset { .. } => BuildFacts {
            safety_offset: readable(reply->Number_0),
            ..facts
        },
        _ => facts,
    }
}

impl StreamBuild {
    /// One more reply takes the procedure, having become `m`, one step along its plan.
    spec fn follows_plan(self, m: StreamBuild, reply: BuildReply, facts: BuildFacts) -> bool {
        match m.next(reply) {
            BuildStep::Ask(n, request) => {
                let known = learn(facts, m, reply);
                &&& self.became(n, known)
                &&& self.plan_until(known, n.stage) == self.plan_until(facts, m.stage).push(
                    request,
                )
            },
            BuildStep::Done(Ok(stream)) => {
                &&& self.plan_until(facts, m.stage) == self.plan(facts)
                &&& stream == self.settled(facts).stream()
            },
            BuildStep::Done(Err(_)) => true,
        }
    }

    /// The procedure has just begun.
    pub open spec fn begun(self) -> bool {
        self.stage is Validate && self.loopback is None
    }
}

/// Each part of the plan rests on few of the facts.
proof fn lemma_plan_parts(b: StreamBuild, f: BuildFacts, g: BuildFacts)
    ensures
        f.physical_format == g.physical_format ==> b.plan_hardware(f) == b.plan_hardware(g),
        f.has_input == g.has_input ==> b.plan_device(f) == b.plan_device(g),
        f.has_input == g.has_input && f.loopback == g.loopback ==> b.plan_unit(f) == b.plan_unit(
            g,
        ) && b.plan_format(f) == b.plan_format(g),
{
    reveal(StreamBuild::plan_hardware);
    reveal(StreamBuild::plan_device);
    reveal(StreamBuild::plan_unit);
    reveal(StreamBuild::plan_format);
}

proof fn lemma_hardware_follows_plan(
    b: StreamBuild,
    m: StreamBuild,
    reply: BuildReply,
    facts: BuildFacts,
)
    requires
        b.begun(),
        b.became(m, facts),
        m.answers(reply),
        m.stage is Validate
            || m.stage is PhysicalFormat
            || m.stage is SampleRate,
    ensures
        b.follows_plan(m, reply, facts),
{
    reveal(StreamBuild::plan_hardware);
    reveal(StreamBuild::plan_device);
    reveal(StreamBuild::plan_unit);
    let known = learn(facts, m, reply);
    lemma_plan_parts(b, facts, known);
    if let BuildStep::Ask(n, request) = m.next(reply) {
        assert(b.plan_until(known, n.stage) =~= b.plan_until(facts, m.stage).push(request));
    }
}

proof fn lemma_device_follows_plan(
    b: StreamBuild,
    m: StreamBuild,
    reply: BuildReply,
    facts: BuildFacts,
)
    requires
        b.begun(),
        b.became(m, facts),
        m.answers(reply),
        m.stage is Probe
            || m.stage is Loopback,
    ensures
        b.follows_plan(m, reply, facts),
{
    reveal(StreamBuild::plan_device);
    reveal(StreamBuild::plan_unit);
    let known = learn(facts, m, reply);
    lemma_plan_parts(b, facts, known);
    if let BuildStep::Ask(n, request) = m.next(reply) {
        assert(b.plan_until(known, n.stage) =~= b.plan_until(facts, m.stage).push(request));
    }
}

proof fn lemma_unit_follows_plan(
    b: StreamBuild,
    m: StreamBuild,
    reply: BuildReply,
    facts: BuildFacts,
)
    requires
        b.begun(),
        b.became(m, facts),
        m.answers(reply),
        m.stage is Unit
            || m.stage is CurrentDevice,
    ensures
        b.follows_plan(m, reply, facts),
{
    reveal(StreamBuild::plan_unit);
    reveal(StreamBuild::plan_format);
    let known = learn(facts, m, reply);
    lemma_plan_parts(b, facts, known);
    if let BuildStep::Ask(n, request) = m.next(reply) {
        assert(b.plan_until(known, n.stage) =~= b.plan_until(facts, m.stage).push(request));
    }
}

proof fn lemma_format_follows_plan(
    b: StreamBuild,
    m: StreamBuild,
    reply: BuildReply,
    facts: BuildFacts,
)
    requires
        b.begun(),
        b.became(m, facts),
        m.answers(reply),
        m.stage is Format
            || m.stage is BufferRange
            || m.stage is BufferSize,
    ensures
        b.follows_plan(m, reply, facts),
{
    reveal(StreamBuild::plan_format);
    reveal(StreamBuild::plan_callback);
    let known = learn(facts, m, reply);
    lemma_plan_parts(b, facts, known);
    if let BuildStep::Ask(n, request) = m.next(reply) {
        assert(b.plan_until(known, n.stage) =~= b.plan_until(facts, m.stage).push(request));
    }
}

proof fn lemma_reading_follows_plan(
    b: StreamBuild,
    m: StreamBuild,
    reply: BuildReply,
    facts: BuildFacts,
)
    requires
        b.begun(),
        b.became(m, facts),
        m.answers(reply),
        m.stage is BufferFrames
            || m.stage is Latency
            || m.stage is SafetyOffset,
    ensures
        b.follows_plan(m, reply, facts),
{
    reveal(StreamBuild::plan_callback);
    let known = learn(facts, m, reply);
    lemma_plan_parts(b, facts, known);
    if let BuildStep::Ask(n, request) = m.next(reply) {
        assert(b.plan_until(known, n.stage) =~= b.plan_until(facts, m.stage).push(request));
    }
}

proof fn lemma_callback_follows_plan(
    b: StreamBuild,
    m: StreamBuild,
    reply: BuildReply,
    facts: BuildFacts,
)
    requires
        b.begun(),
        b.became(m, facts),
        m.answers(reply),
        m.stage is Callback
            || m.stage is Initialize
            || m.stage is Monitor
            || m.stage is Ready,
    ensures
        b.follows_plan(m, reply, facts),
{
    reveal(StreamBuild::plan_callback);
    let known = learn(facts, m, reply);
    lemma_plan_parts(b, facts, known);
    if let BuildStep::Ask(n, request) = m.next(reply) {
        assert(b.plan_until(known, n.stage) =~= b.plan_until(facts, m.stage).push(request));
    }
}

/// What has been asked for in the course of a conversation is the plan so far.
proof fn lemma_conversation_follows_plan(b: StreamBuild, replies: Seq<BuildReply>)
    requires
        b.begun(),
        b.conversation(replies),
    ensures
        ({
            let facts = b.learned(replies);
            match b.after(replies) {
                BuildStep::Ask(m, _) => b.became(m, facts) && b.asked(replies) == b.plan_until(
                    facts,
                    m.stage,
                ),
                BuildStep::Done(Ok(stream)) => b.asked(replies) == b.plan(facts) && stream
                    == b.settled(facts).stream(),
                BuildStep::Done(Err(_)) => true,
            }
        }),
    decreases replies.len(),
{
    if replies.len() == 0 {
        reveal(StreamBuild::plan_hardware);
        assert(b.asked(replies) =~= b.plan_until(b.learned(replies), b.stage));
    } else {
        lemma_conversation_follows_plan(b, replies.drop_last());
        let facts = b.learned(replies.drop_last());
        let m = b.after(replies.drop_last())->Ask_0;
        let reply = replies.last();
        if m.stage is Validate || m.stage is PhysicalFormat || m.stage is SampleRate {
            lemma_hardware_follows_plan(b, m, reply, facts);
        } else if m.stage is Probe || m.stage is Loopback {
            lemma_device_follows_plan(b, m, reply, facts);
        } else if m.stage is Unit || m.stage is CurrentDevice {
            lemma_unit_follows_plan(b, m, reply, facts);
        } else if m.stage is Format || m.stage is BufferRange || m.stage is BufferSize {
            lemma_format_follows_plan(b, m, reply, facts);
        } else if m.stage is BufferFrames || m.stage is Latency || m.stage is SafetyOffset {
            lemma_reading_follows_plan(b, m, reply, facts);
        } else {
            lemma_callback_follows_plan(b, m, reply, facts);
        }
    }
}

/// A stream is built by carrying out the whole plan, and nothing else, in order: hardware, device,
/// audio unit, format, and then callback, initialization, monitor and signal, each by what the
/// replies have told. It does not play yet, and it keeps the loopback device that was made for it.
pub proof fn lemma_built_by_plan(b: StreamBuild, replies: Seq<BuildReply>, stream: Stream)
    requires
        b.begun(),
        b.conversation(replies),
        b.after(replies) == BuildStep::Done(Ok(stream)),
    ensures
        b.asked(replies) == b.plan(b.learned(replies)),
        stream == b.settled(b.learned(replies)).stream(),
        !stream.inner.playing,
        stream.inner.device_id == b.device.audio_device_id,
        stream.inner.duplex_callback_ptr is None,
        stream.monitor == b.monitor(),
{
    lemma_conversation_follows_plan(b, replies);
}

/// How many requests at most come before the one that is waited for in `stage`.
spec fn requests_before(stage: BuildStage) -> nat {
    match stage {
        BuildStage::Validate => 0,
        BuildStage::PhysicalFormat => 1,
        BuildStage::SampleRate => 2,
        BuildStage::Probe => 3,
        BuildStage::Loopback => 4,
        BuildStage::Unit => 5,
        BuildStage::CurrentDevice => 6,
        BuildStage::Format => 7,
        BuildStage::BufferRange => 8,
        BuildStage::BufferSize => 9,
        BuildStage::BufferFrames => 10,
        BuildStage::Latency { .. } => 11,
        BuildStage::SafetyOffset { .. } => 12,
        BuildStage::Callback => 13,
        BuildStage::Initialize => 14,
        BuildStage::Monitor => 15,
        BuildStage::Ready => 16,
    }
}

proof fn lemma_requests_so_far(b: StreamBuild, replies: Seq<BuildReply>)
    requires
        b.begun(),
        b.conversation(replies),
    ensures
        replies.len() <= 17,
        b.after(replies) matches BuildStep::Ask(m, _) ==> replies.len() <= requests_before(m.stage),
    decreases replies.len(),
{
    if replies.len() > 0 {
        lemma_requests_so_far(b, replies.drop_last());
    }
}

/// Whatever the replies are, there are at most 17 of them until there is a stream or an error.
pub proof fn lemma_building_ends(b: StreamBuild, replies: Seq<BuildReply>)
    requires
        b.begun(),
        b.conversation(replies),
    ensures
        replies.len() <= 17,
{
    lemma_requests_so_far(b, replies);
}

/// A step that has to succeed and does not ends the procedure with its own error.
pub proof fn lemma_failure_is_final(m: StreamBuild, e: Error)
    requires
        m.answers(BuildReply::Done(Err(e))),
        !(m.stage is PhysicalFormat),
    ensures
        m.next(BuildReply::Done(Err(e))) == BuildStep::Done(Err(e)),
{
}

/// What the device does not offer or does not tell does not end the procedure: without a physical
/// format the rate is set, without input a loopback device is made, and sizes and latencies that
/// cannot be read are done without.
pub proof fn lemma_shortcomings_are_tolerated(m: StreamBuild, e: Error)
    ensures
        m.stage is PhysicalFormat ==> m.next(BuildReply::Done(Err(e))) is Ask,
        m.stage is Probe ==> m.next(BuildReply::Supported(false)) is Ask,
        m.stage is BufferRange ==> m.next(BuildReply::BufferRange(Err(e))) is Ask,
        m.stage is BufferFrames || m.stage is Latency || m.stage is SafetyOffset ==> m.next(
            BuildReply::Number(Err(e)),
        ) is Ask,
{
}

} // verus!
