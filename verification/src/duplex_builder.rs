//! Building duplex streams.
//!
//! Both directions of a duplex stream are driven by a single audio unit, so that one device
//! callback serves them together and input and output are aligned sample for sample.
//! [`DuplexBuild`] holds the decisions of the procedure.

use vstd::prelude::*;

use crate::config::{BufferSize, FrameCount, SampleFormat};
use crate::device::Device;
use crate::duplex::DuplexStreamConfig;
use crate::error::{Context, Error, ErrorKind, Message};
use crate::stream::{
    DuplexCallbackPtr, Lock, Monitor, Stream, StreamInner, Teardown, UnitCommand,
};
use crate::time::Duration;
use crate::unit::{
    pin_device, set_buffer_size, set_stream_format, BuildReply, BuildRequest, Direction, Element,
    IoType, Scope, UnitProperty, ENABLED,
};

verus! {

/// What [`DuplexBuild`] waits for.
#[derive(Clone, Copy, Debug, PartialEq, Eq, Structural)]
pub enum DuplexStage {
    ProbeInput,
    ProbeOutput,
    SampleRate,
    Unit,
    EnableInput,
    EnableOutput,
    CurrentDevice,
    InputFormat,
    OutputFormat,
    BufferSize,
    Initialize,
    BufferFrames,
    NewCallback,
    Callback { callback: DuplexCallbackPtr },
    Monitor { callback: DuplexCallbackPtr },
    Play { callback: DuplexCallbackPtr },
    Ready { callback: DuplexCallbackPtr },
}

/// The procedure that builds a duplex stream.
#[derive(Clone, Copy, Debug)]
pub struct DuplexBuild {
    pub device: Device,
    pub config: DuplexStreamConfig,
    pub sample_format: SampleFormat,
    pub timeout: Option<Duration>,
    pub stage: DuplexStage,
}

/// How the procedure goes on.
#[derive(Debug)]
pub enum DuplexStep {
    Ask(DuplexBuild, BuildRequest),
    /// There is a stream, or an error with no callback state to free.
    Done(Result<Stream, Error>),
    /// Tear this down, with the state behind its callback, and then end with the error.
    Undo(StreamInner, Error),
}

/// The state behind the callback that there is when the procedure waits in `stage`.
pub open spec fn callback_held(stage: DuplexStage) -> Option<DuplexCallbackPtr> {
    match stage {
        DuplexStage::Callback { callback } => Some(callback),
        DuplexStage::Monitor { callback } => Some(callback),
        DuplexStage::Play { callback } => Some(callback),
        DuplexStage::Ready { callback } => Some(callback),
        _ => None,
    }
}

/// The error for a device that lacks a direction.
pub open spec fn not_duplex() -> Error {
    Error { kind: ErrorKind::UnsupportedOperation, message: Some(Message::NotDuplex) }
}

/// The error for a stream whose lock is poisoned before it is even handed out.
pub open spec fn build_lock_poisoned() -> Error {
    Error { kind: ErrorKind::StreamInvalidated, message: Some(Message::BuildLockPoisoned) }
}

/// The error for a device buffer whose size cannot be read.
pub open spec fn buffer_frames_unknown(e: Error) -> Error {
    Error {
        kind: ErrorKind::BackendError,
        message: e.in_context_spec(Context::DuplexBufferSize).message,
    }
}

/// The request that switches on the bus of one direction.
pub open spec fn enable_request(direction: Direction) -> BuildRequest {
    BuildRequest::SetProperty {
        scope: match direction {
            Direction::Input => Scope::Input,
            Direction::Output => Scope::Output,
        },
        element: match direction {
            Direction::Input => Element::Input,
            Direction::Output => Element::Output,
        },
        property: UnitProperty::EnableIo(ENABLED),
    }
}

fn enable(direction: Direction) -> (r: BuildRequest)
    ensures
        r == enable_request(direction),
{
    let scope: Scope = match direction {
        Direction::Input => Scope::Input,
        Direction::Output => Scope::Output,
    };
    let element: Element = match direction {
        Direction::Input => Element::Input,
        Direction::Output => Element::Output,
    };
    BuildRequest::SetProperty { scope, element, property: UnitProperty::EnableIo(ENABLED) }
}

impl DuplexBuild {
    /// The same procedure, waiting for something else.
    pub open spec fn at(self, stage: DuplexStage) -> DuplexBuild {
        DuplexBuild {
            device: self.device,
            config: self.config,
            sample_format: self.sample_format,
            timeout: self.timeout,
            stage,
        }
    }

    /// What watches over the device. The size of its buffer must not change under a duplex
    /// stream, so it is listened to as well.
    pub open spec fn monitor(self) -> Monitor {
        Monitor::Disconnect { device_id: self.device.audio_device_id, listen_buffer_size: true }
    }

    /// What there is of the stream before it plays.
    pub open spec fn silent(self, callback: DuplexCallbackPtr) -> StreamInner {
        StreamInner {
            playing: false,
            device_id: self.device.audio_device_id,
            loopback_device: None,
            duplex_callback_ptr: Some(callback),
        }
    }

    /// The end of the procedure with an error. Once there is a callback, it is torn down with
    /// what there is of the stream.
    pub open spec fn failed(self, e: Error) -> DuplexStep {
        match callback_held(self.stage) {
            Some(callback) => DuplexStep::Undo(self.silent(callback), e),
            None => DuplexStep::Done(Err(e)),
        }
    }

    /// The stream that is built: it plays already.
    pub open spec fn stream(self, callback: DuplexCallbackPtr) -> Stream {
        Stream {
            inner: StreamInner {
                playing: true,
                device_id: self.device.audio_device_id,
                loopback_device: None,
                duplex_callback_ptr: Some(callback),
            },
            monitor: self.monitor(),
        }
    }

    /// `reply` answers what the procedure asked for.
    pub open spec fn answers(self, reply: BuildReply) -> bool {
        match self.stage {
            DuplexStage::ProbeInput => reply is Supported,
            DuplexStage::ProbeOutput => reply is Supported,
            DuplexStage::BufferFrames => reply is Number,
            DuplexStage::NewCallback => reply is Callback,
            DuplexStage::Play { .. } => reply is Started,
            DuplexStage::Ready { .. } => reply is Signalled,
            _ => reply is Done,
        }
    }

    pub open spec fn wf(self) -> bool {
        self.timeout matches Some(t) ==> t.wf()
    }

    pub open spec fn ask_initialize(self) -> DuplexStep {
        DuplexStep::Ask(self.at(DuplexStage::Initialize), BuildRequest::Initialize)
    }

    /// How the procedure goes on after a step that had to succeed and did.
    pub open spec fn next_done(self) -> DuplexStep {
        match self.stage {
            DuplexStage::SampleRate => DuplexStep::Ask(
                self.at(DuplexStage::Unit),
                BuildRequest::NewUnit(IoType::HalOutput),
            ),
            DuplexStage::Unit => DuplexStep::Ask(
                self.at(DuplexStage::EnableInput),
                enable_request(Direction::Input),
            ),
            DuplexStage::EnableInput => DuplexStep::Ask(
                self.at(DuplexStage::EnableOutput),
                enable_request(Direction::Output),
            ),
            DuplexStage::EnableOutput => DuplexStep::Ask(
                self.at(DuplexStage::CurrentDevice),
                crate::unit::pin_request(self.device.audio_device_id),
            ),
            DuplexStage::CurrentDevice => DuplexStep::Ask(
                self.at(DuplexStage::InputFormat),
                crate::unit::format_request(
                    Direction::Input,
                    self.config.input_config_spec(),
                    self.sample_format,
                ),
            ),
            DuplexStage::InputFormat => DuplexStep::Ask(
                self.at(DuplexStage::OutputFormat),
                crate::unit::format_request(
                    Direction::Output,
                    self.config.output_config_spec(),
                    self.sample_format,
                ),
            ),
            DuplexStage::OutputFormat => match self.config.buffer_size {
                BufferSize::Fixed(frames) => DuplexStep::Ask(
                    self.at(DuplexStage::BufferSize),
                    crate::unit::buffer_size_request(frames),
                ),
                BufferSize::Default => self.ask_initialize(),
            },
            DuplexStage::BufferSize => self.ask_initialize(),
            DuplexStage::Initialize => DuplexStep::Ask(
                self.at(DuplexStage::BufferFrames),
                BuildRequest::ReadBufferFrames { scope: Scope::Global, element: Element::Output },
            ),
            DuplexStage::Callback { callback } => DuplexStep::Ask(
                self.at(DuplexStage::Monitor { callback }),
                BuildRequest::StartMonitor(self.monitor()),
            ),
            DuplexStage::Monitor { callback } => DuplexStep::Ask(
                self.at(DuplexStage::Play { callback }),
                BuildRequest::Play,
            ),
            _ => arbitrary(),
        }
    }

    /// How the procedure goes on after `reply`.
    pub open spec fn next(self, reply: BuildReply) -> DuplexStep {
        match reply {
            BuildReply::Done(Ok(_)) => self.next_done(),
            BuildReply::Done(Err(e)) => self.failed(e),
            BuildReply::Supported(false) => DuplexStep::Done(Err(not_duplex())),
            BuildReply::Supported(true) => if self.stage is ProbeInput {
                DuplexStep::Ask(
                    self.at(DuplexStage::ProbeOutput),
                    BuildRequest::ProbeOutput { device_id: self.device.audio_device_id },
                )
            } else {
                DuplexStep::Ask(
                    self.at(DuplexStage::SampleRate),
                    BuildRequest::SetSampleRate {
                        device_id: self.device.audio_device_id,
                        sample_rate: self.config.sample_rate,
                        timeout: self.timeout,
                    },
                )
            },
            BuildReply::Number(Ok(frames)) => DuplexStep::Ask(
                self.at(DuplexStage::NewCallback),
                BuildRequest::NewDuplexCallback { device_buffer_frames: frames },
            ),
            BuildReply::Number(Err(e)) => DuplexStep::Done(Err(buffer_frames_unknown(e))),
            BuildReply::Callback(callback) => DuplexStep::Ask(
                self.at(DuplexStage::Callback { callback }),
                BuildRequest::InstallDuplexCallback {
                    scope: Scope::Global,
                    element: Element::Output,
                    callback,
                },
            ),
            BuildReply::Started(Lock::Poisoned, _) => self.failed(build_lock_poisoned()),
            BuildReply::Started(Lock::Held, Ok(_)) => DuplexStep::Ask(
                self.at(DuplexStage::Ready { callback: self.stage->Play_callback }),
                BuildRequest::SignalReady,
            ),
            BuildReply::Started(Lock::Held, Err(e)) => self.failed(
                e.in_context_spec(Context::StartUnit),
            ),
            BuildReply::Signalled => DuplexStep::Done(
                Ok(self.stream(self.stage->Ready_callback)),
            ),
            _ => arbitrary(),
        }
    }

    fn go(self, stage: DuplexStage) -> (r: DuplexBuild)
        ensures
            r == self.at(stage),
    {
        let mut m: DuplexBuild = self;
        m.stage = stage;
        m
    }

    fn initialize(self) -> (r: DuplexStep)
        ensures
            r == self.ask_initialize(),
    {
        DuplexStep::Ask(self.go(DuplexStage::Initialize), BuildRequest::Initialize)
    }

    fn resume_done(self) -> (r: DuplexStep)
        requires
            self.answers(BuildReply::Done(Ok(()))),
        ensures
            r == self.next_done(),
    {
        match self.stage {
            DuplexStage::SampleRate => DuplexStep::Ask(
                self.go(DuplexStage::Unit),
                BuildRequest::NewUnit(IoType::HalOutput),
            ),
            DuplexStage::Unit => DuplexStep::Ask(
                self.go(DuplexStage::EnableInput),
                enable(Direction::Input),
            ),
            DuplexStage::EnableInput => DuplexStep::Ask(
                self.go(DuplexStage::EnableOutput),
                enable(Direction::Output),
            ),
            DuplexStage::EnableOutput => DuplexStep::Ask(
                self.go(DuplexStage::CurrentDevice),
                pin_device(self.device.audio_device_id),
            ),
            DuplexStage::CurrentDevice => DuplexStep::Ask(
                self.go(DuplexStage::InputFormat),
                set_stream_format(
                    Direction::Input,
                    self.config.input_config(),
                    self.sample_format,
                ),
            ),
            DuplexStage::InputFormat => DuplexStep::Ask(
                self.go(DuplexStage::OutputFormat),
                set_stream_format(
                    Direction::Output,
                    self.config.output_config(),
                    self.sample_format,
                ),
            ),
            DuplexStage::OutputFormat => match self.config.buffer_size {
                BufferSize::Fixed(frames) => DuplexStep::Ask(
                    self.go(DuplexStage::BufferSize),
                    set_buffer_size(frames),
                ),
                BufferSize::Default => self.initialize(),
            },
            DuplexStage::BufferSize => self.initialize(),
            DuplexStage::Initialize => DuplexStep::Ask(
                self.go(DuplexStage::BufferFrames),
                BuildRequest::ReadBufferFrames { scope: Scope::Global, element: Element::Output },
            ),
            DuplexStage::Callback { callback } => DuplexStep::Ask(
                self.go(DuplexStage::Monitor { callback }),
                BuildRequest::StartMonitor(self.choose_monitor()),
            ),
            DuplexStage::Monitor { callback } => DuplexStep::Ask(
                self.go(DuplexStage::Play { callback }),
                BuildRequest::Play,
            ),
            _ => vstd::pervasive::unreached(),
        }
    }

    fn choose_monitor(self) -> (r: Monitor)
        ensures
            r == self.monitor(),
    {
        Monitor::Disconnect { device_id: self.device.audio_device_id, listen_buffer_size: true }
    }

    fn not_started(self, callback: DuplexCallbackPtr) -> (r: StreamInner)
        ensures
            r == self.silent(callback),
    {
        StreamInner {
            playing: false,
            device_id: self.device.audio_device_id,
            loopback_device: None,
            duplex_callback_ptr: Some(callback),
        }
    }

    fn fail(self, e: Error) -> (r: DuplexStep)
        ensures
            r == self.failed(e),
    {
        match self.stage {
            DuplexStage::Callback { callback }
            | DuplexStage::Monitor { callback }
            | DuplexStage::Play { callback }
            | DuplexStage::Ready { callback } => DuplexStep::Undo(self.not_started(callback), e),
            _ => DuplexStep::Done(Err(e)),
        }
    }

    fn resume_started(self, outcome: Result<(), Error>) -> (r: DuplexStep)
        requires
            self.stage is Play,
        ensures
            r == self.next(BuildReply::Started(Lock::Held, outcome)),
    {
        let callback: DuplexCallbackPtr = match self.stage {
            DuplexStage::Play { callback } => callback,
            _ => vstd::pervasive::unreached(),
        };
        let mut inner: StreamInner = self.not_started(callback);
        match inner.commanded(UnitCommand::Start, outcome) {
            Ok(_) => DuplexStep::Ask(
                self.go(DuplexStage::Ready { callback }),
                BuildRequest::SignalReady,
            ),
            Err(e) => self.fail(e),
        }
    }

    fn resume_signalled(self) -> (r: DuplexStep)
        requires
            self.stage is Ready,
        ensures
            r == self.next(BuildReply::Signalled),
    {
        let callback: DuplexCallbackPtr = match self.stage {
            DuplexStage::Ready { callback } => callback,
            _ => vstd::pervasive::unreached(),
        };
        let mut inner: StreamInner = self.not_started(callback);
        inner.playing = true;
        DuplexStep::Done(Stream::new(inner, self.choose_monitor(), Ok(())))
    }

    /// Goes on after the reply to the last request.
    pub fn resume(self, reply: BuildReply) -> (r: DuplexStep)
        requires
            self.wf(),
            self.answers(reply),
        ensures
            r == self.next(reply),
            r matches DuplexStep::Ask(m, _) ==> m.wf(),
    {
        match reply {
            BuildReply::Done(Ok(_)) => self.resume_done(),
            BuildReply::Done(Err(e)) => self.fail(e),
            BuildReply::Supported(supported) => {
                if !supported {
                    return DuplexStep::Done(
                        Err(
                            Error::with_message(
                                ErrorKind::UnsupportedOperation,
                                Message::NotDuplex,
                            ),
                        ),
                    );
                }
                match self.stage {
                    DuplexStage::ProbeInput => DuplexStep::Ask(
                        self.go(DuplexStage::ProbeOutput),
                        BuildRequest::ProbeOutput { device_id: self.device.audio_device_id },
                    ),
                    _ => DuplexStep::Ask(
                        self.go(DuplexStage::SampleRate),
                        BuildRequest::SetSampleRate {
                            device_id: self.device.audio_device_id,
                            sample_rate: self.config.sample_rate,
                            timeout: self.timeout,
                        },
                    ),
                }
            },
            BuildReply::Number(Ok(frames)) => DuplexStep::Ask(
                self.go(DuplexStage::NewCallback),
                BuildRequest::NewDuplexCallback { device_buffer_frames: frames },
            ),
            BuildReply::Number(Err(e)) => {
                let e: Error = e.in_context(Context::DuplexBufferSize);
                DuplexStep::Done(
                    Err(Error { kind: ErrorKind::BackendError, message: e.message }),
                )
            },
            BuildReply::Callback(callback) => DuplexStep::Ask(
                self.go(DuplexStage::Callback { callback }),
                BuildRequest::InstallDuplexCallback {
                    scope: Scope::Global,
                    element: Element::Output,
                    callback,
                },
            ),
            BuildReply::Started(Lock::Poisoned, _) => self.fail(
                Error::with_message(ErrorKind::StreamInvalidated, Message::BuildLockPoisoned),
            ),
            BuildReply::Started(Lock::Held, outcome) => self.resume_started(outcome),
            BuildReply::Signalled => self.resume_signalled(),
            _ => vstd::pervasive::unreached(),
        }
    }

    /// The beginning of the procedure.
    pub open spec fn initial(
        device: Device,
        config: DuplexStreamConfig,
        sample_format: SampleFormat,
        timeout: Option<Duration>,
    ) -> DuplexBuild {
        DuplexBuild { device, config, sample_format, timeout, stage: DuplexStage::ProbeInput }
    }
}

impl Device {
    /// Starts building a duplex stream on the device.
    ///
    /// A single audio unit serves both directions, so that input and output are aligned. It is
    /// pinned to the device and does not follow the system's default.
    pub fn build_duplex_stream_raw(
        &self,
        config: DuplexStreamConfig,
        sample_format: SampleFormat,
        timeout: Option<Duration>,
    ) -> (r: (DuplexBuild, BuildRequest))
        requires
            timeout matches Some(t) ==> t.wf(),
        ensures
            r.0 == DuplexBuild::initial(*self, config, sample_format, timeout),
            r.0.wf(),
            r.1 == (BuildRequest::ProbeInput { device_id: self.audio_device_id }),
    {
        (
            DuplexBuild {
                device: *self,
                config,
                sample_format,
                timeout,
                stage: DuplexStage::ProbeInput,
            },
            BuildRequest::ProbeInput { device_id: self.audio_device_id },
        )
    }
}

impl DuplexBuild {
    /// Where the procedure stands after a number of replies.
    pub open spec fn after(self, replies: Seq<BuildReply>) -> DuplexStep
        decreases replies.len(),
    {
        if replies.len() == 0 {
            DuplexStep::Ask(
                self,
                BuildRequest::ProbeInput { device_id: self.device.audio_device_id },
            )
        } else {
            match self.after(replies.drop_last()) {
                DuplexStep::Ask(m, _) => m.next(replies.last()),
                ended => ended,
            }
        }
    }

    /// Every reply answers the request made at its time.
    pub open spec fn conversation(self, replies: Seq<BuildReply>) -> bool
        decreases replies.len(),
    {
        replies.len() > 0 ==> {
            &&& self.conversation(replies.drop_last())
            &&& self.after(replies.drop_last()) matches DuplexStep::Ask(m, _)
            &&& m.answers(replies.last())
        }
    }

    /// Everything that was asked for in the course of a number of replies, in order.
    pub open spec fn asked(self, replies: Seq<BuildReply>) -> Seq<BuildRequest>
        decreases replies.len(),
    {
        let before = if replies.len() == 0 {
            seq![]
        } else {
            self.asked(replies.drop_last())
        };
        match self.after(replies) {
            DuplexStep::Ask(_, request) => before.push(request),
            _ => before,
        }
    }

    /// The size of the device buffer, as the replies told it. Zero if none did.
    pub open spec fn learned_frames(self, replies: Seq<BuildReply>) -> FrameCount
        decreases replies.len(),
    {
        if replies.len() == 0 {
            0
        } else {
            learn_frames(self.learned_frames(replies.drop_last()), replies.last())
        }
    }

    /// The state behind the callback, as the replies handed it over, if they did.
    pub open spec fn learned_callback(self, replies: Seq<BuildReply>) -> Option<DuplexCallbackPtr>
        decreases replies.len(),
    {
        if replies.len() == 0 {
            None
        } else {
            match replies.last() {
                BuildReply::Callback(callback) => Some(callback),
                _ => self.learned_callback(replies.drop_last()),
            }
        }
    }

    /// First the device must have both directions and run at the rate.
    #[verifier::opaque]
    pub open spec fn plan_device(self) -> Seq<BuildRequest> {
        let id = self.device.audio_device_id;
        seq![
            BuildRequest::ProbeInput { device_id: id },
            BuildRequest::ProbeOutput { device_id: id },
            BuildRequest::SetSampleRate {
                device_id: id,
                sample_rate: self.config.sample_rate,
                timeout: self.timeout,
            },
        ]
    }

    /// Then the audio unit is made, both of its buses switched on, and pinned to the device.
    #[verifier::opaque]
    pub open spec fn plan_unit(self) -> Seq<BuildRequest> {
        seq![
            BuildRequest::NewUnit(IoType::HalOutput),
            enable_request(Direction::Input),
            enable_request(Direction::Output),
            crate::unit::pin_request(self.device.audio_device_id),
        ]
    }

    /// Then the formats of both directions are set, and the buffer size if one was requested.
    #[verifier::opaque]
    pub open spec fn plan_format(self) -> Seq<BuildRequest> {
        seq![
            crate::unit::format_request(
                Direction::Input,
                self.config.input_config_spec(),
                self.sample_format,
            ),
            crate::unit::format_request(
                Direction::Output,
                self.config.output_config_spec(),
                self.sample_format,
            ),
        ] + match self.config.buffer_size {
            BufferSize::Fixed(frames) => seq![crate::unit::buffer_size_request(frames)],
            BufferSize::Default => seq![],
        }
    }

    /// Then the unit is initialized, the callback made for the buffer the device then has and
    /// installed, the monitor started, the unit started, and the stream signalled to be ready.
    #[verifier::opaque]
    pub open spec fn plan_callback(
        self,
        frames: FrameCount,
        callback: DuplexCallbackPtr,
    ) -> Seq<BuildRequest> {
        seq![
            BuildRequest::Initialize,
            BuildRequest::ReadBufferFrames { scope: Scope::Global, element: Element::Output },
            BuildRequest::NewDuplexCallback { device_buffer_frames: frames },
            BuildRequest::InstallDuplexCallback {
                scope: Scope::Global,
                element: Element::Output,
                callback,
            },
            BuildRequest::StartMonitor(self.monitor()),
            BuildRequest::Play,
            BuildRequest::SignalReady,
        ]
    }

    /// Everything that building a duplex stream asks for, in order.
    pub open spec fn plan(
        self,
        frames: FrameCount,
        callback: DuplexCallbackPtr,
    ) -> Seq<BuildRequest> {
        self.plan_device() + self.plan_unit() + self.plan_format() + self.plan_callback(
            frames,
            callback,
        )
    }

    /// What has been asked for by the time the procedure waits in `stage`.
    spec fn plan_until(self, frames: FrameCount, stage: DuplexStage) -> Seq<BuildRequest> {
        let unit = self.plan_device() + self.plan_unit();
        let format = unit + self.plan_format();
        let callback = match callback_held(stage) {
            Some(callback) => callback,
            None => DuplexCallbackPtr { address: 0 },
        };
        let last = self.plan_callback(frames, callback);
        match stage {
            DuplexStage::ProbeInput => self.plan_device().take(1),
            DuplexStage::ProbeOutput => self.plan_device().take(2),
            DuplexStage::SampleRate => self.plan_device(),
            DuplexStage::Unit => self.plan_device() + self.plan_unit().take(1),
            DuplexStage::EnableInput => self.plan_device() + self.plan_unit().take(2),
            DuplexStage::EnableOutput => self.plan_device() + self.plan_unit().take(3),
            DuplexStage::CurrentDevice => unit,
            DuplexStage::InputFormat => unit + self.plan_format().take(1),
            DuplexStage::OutputFormat => unit + self.plan_format().take(2),
            DuplexStage::BufferSize => format,
            DuplexStage::Initialize => format + last.take(1),
            DuplexStage::BufferFrames => format + last.take(2),
            DuplexStage::NewCallback => format + last.take(3),
            DuplexStage::Callback { .. } => format + last.take(4),
            DuplexStage::Monitor { .. } => format + last.take(5),
            DuplexStage::Play { .. } => format + last.take(6),
            DuplexStage::Ready { .. } => format + last,
        }
    }

    /// One more reply takes the procedure one step along its plan.
    spec fn follows_plan(self, m: DuplexBuild, reply: BuildReply, frames: FrameCount) -> bool {
        match m.next(reply) {
            DuplexStep::Ask(n, request) => {
                let known = learn_frames(frames, reply);
                &&& n == self.at(n.stage)
                &&& n.stage is BufferSize ==> self.config.buffer_size is Fixed
                &&& self.plan_until(known, n.stage) == self.plan_until(frames, m.stage).push(
                    request,
                )
            },
            DuplexStep::Done(Ok(stream)) => {
                &&& callback_held(m.stage) matches Some(callback)
                &&& self.plan_until(frames, m.stage) == self.plan(frames, callback)
                &&& stream == self.stream(callback)
            },
            _ => true,
        }
    }
}

/// The size of the device buffer, with what one more reply tells of it.
pub open spec fn learn_frames(frames: FrameCount, reply: BuildReply) -> FrameCount {
    match reply {
        BuildReply::Number(Ok(n)) => n,
        _ => frames,
    }
}

/// The procedure has come to making the callback.
spec fn callback_stage(stage: DuplexStage) -> bool {
    stage is NewCallback || callback_held(stage) is Some
}

proof fn lemma_setup_follows_plan(
    b: DuplexBuild,
    m: DuplexBuild,
    reply: BuildReply,
    frames: FrameCount,
)
    requires
        m == b.at(m.stage),
        m.answers(reply),
        m.stage is ProbeInput || m.stage is ProbeOutput || m.stage is SampleRate || m.stage is Unit
            || m.stage is EnableInput || m.stage is EnableOutput,
    ensures
        b.follows_plan(m, reply, frames),
{
    reveal(DuplexBuild::plan_device);
    reveal(DuplexBuild::plan_unit);
    if let DuplexStep::Ask(n, request) = m.next(reply) {
        assert(b.plan_until(frames, n.stage) =~= b.plan_until(frames, m.stage).push(request));
    }
}

proof fn lemma_format_follows_plan(
    b: DuplexBuild,
    m: DuplexBuild,
    reply: BuildReply,
    frames: FrameCount,
)
    requires
        m == b.at(m.stage),
        m.answers(reply),
        m.stage is CurrentDevice || m.stage is InputFormat || m.stage is OutputFormat
            || m.stage is BufferSize,
        m.stage is BufferSize ==> b.config.buffer_size is Fixed,
    ensures
        b.follows_plan(m, reply, frames),
{
    reveal(DuplexBuild::plan_format);
    reveal(DuplexBuild::plan_callback);
    if let DuplexStep::Ask(n, request) = m.next(reply) {
        assert(b.plan_until(frames, n.stage) =~= b.plan_until(frames, m.stage).push(request));
    }
}

proof fn lemma_callback_follows_plan(
    b: DuplexBuild,
    m: DuplexBuild,
    reply: BuildReply,
    frames: FrameCount,
)
    requires
        m == b.at(m.stage),
        m.answers(reply),
        m.stage is Initialize || m.stage is BufferFrames || callback_stage(m.stage),
    ensures
        b.follows_plan(m, reply, frames),
{
    reveal(DuplexBuild::plan_callback);
    let known = learn_frames(frames, reply);
    if let DuplexStep::Ask(n, request) = m.next(reply) {
        assert(b.plan_until(known, n.stage) =~= b.plan_until(frames, m.stage).push(request));
    }
}

/// What has been asked for in the course of a conversation is the plan so far.
proof fn lemma_conversation_follows_plan(b: DuplexBuild, replies: Seq<BuildReply>)
    requires
        b.stage is ProbeInput,
        b.conversation(replies),
    ensures
        match b.after(replies) {
            DuplexStep::Ask(m, _) => {
                &&& m == b.at(m.stage)
                &&& m.stage is BufferSize ==> b.config.buffer_size is Fixed
                &&& b.asked(replies) == b.plan_until(b.learned_frames(replies), m.stage)
                &&& b.learned_callback(replies) == callback_held(m.stage)
            },
            DuplexStep::Done(Ok(stream)) => {
                &&& b.learned_callback(replies) matches Some(callback)
                &&& b.asked(replies) == b.plan(b.learned_frames(replies), callback)
                &&& stream == b.stream(callback)
            },
            DuplexStep::Done(Err(_)) => b.learned_callback(replies) is None,
            DuplexStep::Undo(inner, _) => b.learned_callback(replies) matches Some(callback)
                && inner == b.silent(callback),
        },
    decreases replies.len(),
{
    if replies.len() == 0 {
        reveal(DuplexBuild::plan_device);
        assert(b.asked(replies) =~= b.plan_until(0, b.stage));
    } else {
        lemma_conversation_follows_plan(b, replies.drop_last());
        let frames = b.learned_frames(replies.drop_last());
        let m = b.after(replies.drop_last())->Ask_0;
        let reply = replies.last();
        if m.stage is Initialize || m.stage is BufferFrames || callback_stage(m.stage) {
            lemma_callback_follows_plan(b, m, reply, frames);
        } else if m.stage is CurrentDevice || m.stage is InputFormat || m.stage is OutputFormat
            || m.stage is BufferSize {
            lemma_format_follows_plan(b, m, reply, frames);
        } else {
            lemma_setup_follows_plan(b, m, reply, frames);
        }
    }
}

/// A duplex stream is built by carrying out the whole plan, and nothing else, in order: device,
/// audio unit, formats, and then callback, monitor, start and signal, with the callback made for
/// the buffer that the device was found to have. It plays, and it keeps the state behind its
/// callback until it is torn down.
pub proof fn lemma_duplex_built_by_plan(b: DuplexBuild, replies: Seq<BuildReply>, stream: Stream)
    requires
        b.stage is ProbeInput,
        b.conversation(replies),
        b.after(replies) == DuplexStep::Done(Ok(stream)),
    ensures
        b.learned_callback(replies) matches Some(callback) && b.asked(replies) == b.plan(
            b.learned_frames(replies),
            callback,
        ) && stream == b.stream(callback),
        stream.inner.playing,
        stream.inner.device_id == b.device.audio_device_id,
        stream.inner.duplex_callback_ptr == b.learned_callback(replies),
        stream.monitor == b.monitor(),
{
    lemma_conversation_follows_plan(b, replies);
}

/// The state behind the callback is never lost. Once it was handed over, the procedure ends with a
/// stream that keeps it, or with an error after a teardown, in which the audio unit goes first and
/// the state is freed after it. As long as it was not handed over, there is nothing to free.
pub proof fn lemma_failure_frees_callback(b: DuplexBuild, replies: Seq<BuildReply>)
    requires
        b.stage is ProbeInput,
        b.conversation(replies),
        !(b.after(replies) is Ask),
    ensures
        match b.after(replies) {
            DuplexStep::Done(Ok(stream)) => stream.inner.duplex_callback_ptr
                == b.learned_callback(replies),
            DuplexStep::Done(Err(_)) => b.learned_callback(replies) is None,
            DuplexStep::Undo(inner, _) => {
                &&& inner.duplex_callback_ptr == b.learned_callback(replies)
                &&& b.learned_callback(replies) matches Some(callback) && (callback.address != 0
                    ==> inner.teardown_spec() == seq![
                    Teardown::DisposeUnit,
                    Teardown::FreeCallback(callback),
                ])
            },
            DuplexStep::Ask(_, _) => false,
        },
{
    lemma_conversation_follows_plan(b, replies);
}

/// How many requests at most come before the one that is waited for in `stage`.
spec fn requests_before(stage: DuplexStage) -> nat {
    match stage {
        DuplexStage::ProbeInput => 0,
        DuplexStage::ProbeOutput => 1,
        DuplexStage::SampleRate => 2,
        DuplexStage::Unit => 3,
        DuplexStage::EnableInput => 4,
        DuplexStage::EnableOutput => 5,
        DuplexStage::CurrentDevice => 6,
        DuplexStage::InputFormat => 7,
        DuplexStage::OutputFormat => 8,
        DuplexStage::BufferSize => 9,
        DuplexStage::Initialize => 10,
        DuplexStage::BufferFrames => 11,
        DuplexStage::NewCallback => 12,
        DuplexStage::Callback { .. } => 13,
        DuplexStage::Monitor { .. } => 14,
        DuplexStage::Play { .. } => 15,
        DuplexStage::Ready { .. } => 16,
    }
}

proof fn lemma_requests_so_far(b: DuplexBuild, replies: Seq<BuildReply>)
    requires
        b.stage is ProbeInput,
        b.conversation(replies),
    ensures
        replies.len() <= 17,
        b.after(replies) matches DuplexStep::Ask(m, _) ==> replies.len() <= requests_before(m.stage),
    decreases replies.len(),
{
    if replies.len() > 0 {
        lemma_requests_so_far(b, replies.drop_last());
    }
}

/// Whatever the replies are, there are at most 17 of them until there is a stream or an error.
pub proof fn lemma_duplex_building_ends(b: DuplexBuild, replies: Seq<BuildReply>)
    requires
        b.stage is ProbeInput,
        b.conversation(replies),
    ensures
        replies.len() <= 17,
{
    lemma_requests_so_far(b, replies);
}

/// Nothing but the two probes is asked for before the device was found to have both directions:
/// a device that lacks one is left as it was.
pub proof fn lemma_probes_come_first(
    b: DuplexBuild,
    replies: Seq<BuildReply>,
    request: BuildRequest,
)
    requires
        b.stage is ProbeInput,
        b.conversation(replies),
        b.after(replies) matches DuplexStep::Ask(_, asked) && asked == request,
    ensures
        !(request is ProbeInput || request is ProbeOutput) ==> {
            &&& replies.len() >= 2
            &&& replies[0] == BuildReply::Supported(true)
            &&& replies[1] == BuildReply::Supported(true)
        },
{
    lemma_probe_replies(b, replies);
}

proof fn lemma_probe_replies(b: DuplexBuild, replies: Seq<BuildReply>)
    requires
        b.stage is ProbeInput,
        b.conversation(replies),
    ensures
        b.after(replies) matches DuplexStep::Ask(m, request) ==> {
            if m.stage is ProbeInput {
                replies.len() == 0 && request is ProbeInput
            } else if m.stage is ProbeOutput {
                &&& replies.len() == 1
                &&& request is ProbeOutput
                &&& replies[0] == BuildReply::Supported(true)
            } else {
                &&& replies.len() >= 2
                &&& replies[0] == BuildReply::Supported(true)
                &&& replies[1] == BuildReply::Supported(true)
            }
        },
    decreases replies.len(),
{
    if replies.len() > 0 {
        let before = replies.drop_last();
        lemma_probe_replies(b, before);
        assert(forall|i: int| 0 <= i < before.len() ==> before[i] == replies[i]);
    }
}

/// A step that does not succeed ends the procedure with an error of its own, after a teardown if
/// there is a callback by then.
pub proof fn lemma_duplex_failure_is_final(m: DuplexBuild, e: Error, any: Result<(), Error>)
    ensures
        m.next(BuildReply::Done(Err(e))) == m.failed(e),
        m.next(BuildReply::Supported(false)) == DuplexStep::Done(Err(not_duplex())),
        m.next(BuildReply::Number(Err(e))) == DuplexStep::Done(Err(buffer_frames_unknown(e))),
        m.next(BuildReply::Started(Lock::Poisoned, any)) == m.failed(build_lock_poisoned()),
        m.next(BuildReply::Started(Lock::Held, Err(e))) == m.failed(
            e.in_context_spec(Context::StartUnit),
        ),
        m.failed(e) matches DuplexStep::Done(r) ==> r == Err::<Stream, Error>(e),
        m.failed(e) matches DuplexStep::Undo(_, error) ==> error == e,
        !(m.failed(e) is Ask),
{
}

/// Both directions of a duplex stream run at the same rate with the same buffer size.
pub proof fn lemma_directions_share_clock(config: DuplexStreamConfig)
    ensures
        config.input_config_spec().sample_rate == config.output_config_spec().sample_rate,
        config.input_config_spec().buffer_size == config.output_config_spec().buffer_size,
        config.input_config_spec().channels == config.input_channels,
        config.output_config_spec().channels == config.output_channels,
{
}

} // verus!
