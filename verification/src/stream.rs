//! Built streams: starting and stopping them, watching their device, and tearing them down.

use vstd::prelude::*;

use crate::callback::get_device_buffer_frame_size;
use crate::config::FrameCount;
use crate::device::AudioDeviceID;
use crate::error::{Context, Error, ErrorKind, Message};

verus! {

/// The address of the state behind a duplex render callback, which CoreAudio shares.
#[derive(Clone, Copy, Debug, PartialEq, Eq, Structural)]
pub struct DuplexCallbackPtr {
    pub address: usize,
}

/// What a stream knows of its audio unit.
#[derive(Clone, Copy, Debug, PartialEq, Eq, Structural)]
pub struct StreamInner {
    /// Whether the audio unit runs.
    pub playing: bool,
    /// The device that the stream was built for.
    pub device_id: AudioDeviceID,
    /// The aggregate device made for loopback recording, which lives as long as the stream.
    pub loopback_device: Option<AudioDeviceID>,
    /// The state behind the render callback of a duplex stream. Streams of one direction have
    /// none.
    pub duplex_callback_ptr: Option<DuplexCallbackPtr>,
}

/// A command to the audio unit.
#[derive(Clone, Copy, Debug, PartialEq, Eq, Structural)]
pub enum UnitCommand {
    Start,
    Stop,
}

/// A step of tearing a stream down.
#[derive(Clone, Copy, Debug, PartialEq, Eq, Structural)]
pub enum Teardown {
    /// Dispose of the audio unit, which stops it: no callback runs after that.
    DisposeUnit,
    /// Free the state behind the duplex render callback.
    FreeCallback(DuplexCallbackPtr),
}

impl StreamInner {
    /// The same stream, running or not.
    pub open spec fn set_playing(self, playing: bool) -> StreamInner {
        StreamInner {
            playing,
            device_id: self.device_id,
            loopback_device: self.loopback_device,
            duplex_callback_ptr: self.duplex_callback_ptr,
        }
    }

    /// What to tell the audio unit so that the stream plays: nothing if it already does.
    pub fn play(&self) -> (r: Option<UnitCommand>)
        ensures
            r == if self.playing {
                None::<UnitCommand>
            } else {
                Some(UnitCommand::Start)
            },
    {
        if self.playing {
            None
        } else {
            Some(UnitCommand::Start)
        }
    }

    /// What to tell the audio unit so that the stream pauses: nothing if it does not play.
    pub fn pause(&self) -> (r: Option<UnitCommand>)
        ensures
            r == if self.playing {
                Some(UnitCommand::Stop)
            } else {
                None::<UnitCommand>
            },
    {
        if self.playing {
            Some(UnitCommand::Stop)
        } else {
            None
        }
    }

    /// Whether the stream plays once `command` came back with success or failure.
    pub open spec fn playing_after(self, command: UnitCommand, ok: bool) -> bool {
        if ok {
            command == UnitCommand::Start
        } else {
            self.playing
        }
    }

    /// Takes note of what became of a command. A command that failed changes nothing.
    pub fn commanded(&mut self, command: UnitCommand, outcome: Result<(), Error>) -> (r: Result<
        (),
        Error,
    >)
        ensures
            *final(self) == old(self).set_playing(
                old(self).playing_after(command, outcome is Ok),
            ),
            r is Ok <==> outcome is Ok,
            outcome matches Err(e) ==> r == Err::<(), Error>(
                e.in_context_spec(
                    match command {
                        UnitCommand::Start => Context::StartUnit,
                        UnitCommand::Stop => Context::StopUnit,
                    },
                ),
            ),
    {
        match (command, outcome) {
            (UnitCommand::Start, Ok(_)) => {
                self.playing = true;
                Ok(())
            },
            (UnitCommand::Stop, Ok(_)) => {
                self.playing = false;
                Ok(())
            },
            (UnitCommand::Start, Err(e)) => Err(e.in_context(Context::StartUnit)),
            (UnitCommand::Stop, Err(e)) => Err(e.in_context(Context::StopUnit)),
        }
    }

    /// How a stream is torn down. A callback state without an address is nothing to free.
    pub open spec fn teardown_spec(self) -> Seq<Teardown> {
        match self.duplex_callback_ptr {
            Some(ptr) => if ptr.address != 0 {
                seq![Teardown::DisposeUnit, Teardown::FreeCallback(ptr)]
            } else {
                seq![Teardown::DisposeUnit]
            },
            None => seq![Teardown::DisposeUnit],
        }
    }

    /// The steps of tearing the stream down, in order.
    pub fn teardown(&self) -> (r: Vec<Teardown>)
        ensures
            r@ == self.teardown_spec(),
    {
        let mut steps: Vec<Teardown> = Vec::new();
        steps.push(Teardown::DisposeUnit);
        match self.duplex_callback_ptr {
            Some(ptr) => {
                if ptr.address != 0 {
                    steps.push(Teardown::FreeCallback(ptr));
                }
            },
            None => {},
        }
        assert(steps@ =~= self.teardown_spec());
        steps
    }
}

/// Playing and then pausing, both with success, leaves a paused stream as it was.
pub proof fn lemma_pause_undoes_play(inner: StreamInner)
    requires
        !inner.playing,
    ensures
        ({
            let started = inner.set_playing(inner.playing_after(UnitCommand::Start, true));
            &&& started.playing
            &&& started.set_playing(started.playing_after(UnitCommand::Stop, true)) == inner
        }),
{
}

/// The state behind a callback is freed at most once, and only after the audio unit, which may
/// call it, is gone.
pub proof fn lemma_callback_outlives_unit(inner: StreamInner, i: int)
    requires
        0 <= i < inner.teardown_spec().len(),
        inner.teardown_spec()[i] is FreeCallback,
    ensures
        i == 1,
        inner.teardown_spec()[0] == Teardown::DisposeUnit,
        inner.teardown_spec().len() == 2,
        inner.duplex_callback_ptr == Some(inner.teardown_spec()[i]->FreeCallback_0),
{
}

/// What watches over the device of a stream.
#[derive(Clone, Copy, Debug, PartialEq, Eq, Structural)]
pub enum Monitor {
    /// A [`DisconnectManager`] for one device.
    Disconnect { device_id: AudioDeviceID, listen_buffer_size: bool },
    /// A monitor that follows the system's default output.
    DefaultOutput,
}

/// Whether the lock on a stream could be taken.
#[derive(Clone, Copy, Debug, PartialEq, Eq, Structural)]
pub enum Lock {
    Held,
    /// A thread panicked while it held the lock.
    Poisoned,
}

/// A stream, with what watches over its device.
#[derive(Clone, Copy, Debug, PartialEq, Eq, Structural)]
pub struct Stream {
    pub inner: StreamInner,
    pub monitor: Monitor,
}

/// The error for a stream whose lock is poisoned.
pub open spec fn stream_lock_poisoned() -> Error {
    Error { kind: ErrorKind::StreamInvalidated, message: Some(Message::StreamLockPoisoned) }
}

impl Stream {
    /// A stream whose monitor came up, or the reason why it did not.
    pub fn new(inner: StreamInner, monitor: Monitor, started: Result<(), Error>) -> (r: Result<
        Stream,
        Error,
    >)
        ensures
            r == match started {
                Ok(_) => Ok::<Stream, Error>(Stream { inner, monitor }),
                Err(e) => Err(e),
            },
    {
        match started {
            Ok(_) => Ok(Stream { inner, monitor }),
            Err(e) => Err(e),
        }
    }

    /// What to tell the audio unit so that the stream plays.
    pub fn play(&self, lock: Lock) -> (r: Result<Option<UnitCommand>, Error>)
        ensures
            lock == Lock::Poisoned ==> r == Err::<Option<UnitCommand>, Error>(
                stream_lock_poisoned(),
            ),
            lock == Lock::Held ==> r == Ok::<Option<UnitCommand>, Error>(
                if self.inner.playing {
                    None
                } else {
                    Some(UnitCommand::Start)
                },
            ),
    {
        match lock {
            Lock::Held => Ok(self.inner.play()),
            Lock::Poisoned => Err(
                Error::with_message(ErrorKind::StreamInvalidated, Message::StreamLockPoisoned),
            ),
        }
    }

    /// What to tell the audio unit so that the stream pauses.
    pub fn pause(&self, lock: Lock) -> (r: Result<Option<UnitCommand>, Error>)
        ensures
            lock == Lock::Poisoned ==> r == Err::<Option<UnitCommand>, Error>(
                stream_lock_poisoned(),
            ),
            lock == Lock::Held ==> r == Ok::<Option<UnitCommand>, Error>(
                if self.inner.playing {
                    Some(UnitCommand::Stop)
                } else {
                    None
                },
            ),
    {
        match lock {
            Lock::Held => Ok(self.inner.pause()),
            Lock::Poisoned => Err(
                Error::with_message(ErrorKind::StreamInvalidated, Message::StreamLockPoisoned),
            ),
        }
    }

    /// The size of the device buffer, from what the audio unit reports of it.
    pub fn buffer_size(lock: Lock, frames: Result<u32, Error>) -> (r: Result<FrameCount, Error>)
        ensures
            r == match lock {
                Lock::Poisoned => Err::<FrameCount, Error>(stream_lock_poisoned()),
                Lock::Held => match frames {
                    Ok(n) => Ok(n),
                    Err(e) => Err(e.in_context_spec(Context::BufferFrameSize)),
                },
            },
    {
        match lock {
            Lock::Poisoned => Err(
                Error::with_message(ErrorKind::StreamInvalidated, Message::StreamLockPoisoned),
            ),
            Lock::Held => match get_device_buffer_frame_size(frames) {
                Ok(size) => Ok(size as FrameCount),
                Err(e) => Err(e.in_context(Context::BufferFrameSize)),
            },
        }
    }
}

/// What trying to take the lock on an error callback came to.
#[derive(Clone, Copy, Debug, PartialEq, Eq, Structural)]
pub enum TryLock {
    Acquired,
    /// A thread panicked while it held the lock. It can be taken all the same.
    Poisoned,
    /// Another thread holds the lock.
    WouldBlock,
}

/// Decides whether an error goes to the error callback, and hands it back for delivery if so.
///
/// Returns true if the callback is to be invoked, false if it is skipped because it is busy.
pub fn invoke_error_callback(lock: TryLock, err: Error) -> (r: (bool, Option<Error>))
    ensures
        r.0 == (lock != TryLock::WouldBlock),
        r.1 == if r.0 {
            Some(err)
        } else {
            None
        },
{
    match lock {
        TryLock::Acquired => (true, Some(err)),
        TryLock::Poisoned => (true, Some(err)),
        TryLock::WouldBlock => (false, None),
    }
}

/// A property of a device that is listened to while a stream runs on it.
#[derive(Clone, Copy, Debug, PartialEq, Eq, Structural)]
pub enum Listener {
    /// Whether the device is alive.
    Alive,
    /// Its nominal sample rate.
    SampleRate,
    /// The size of its buffer.
    BufferSize,
}

impl Listener {
    pub open spec fn event_spec(self) -> Error {
        match self {
            Listener::Alive => Error {
                kind: ErrorKind::DeviceNotAvailable,
                message: Some(Message::DeviceDisconnected),
            },
            Listener::SampleRate => Error {
                kind: ErrorKind::StreamInvalidated,
                message: Some(Message::SampleRateChanged),
            },
            Listener::BufferSize => Error {
                kind: ErrorKind::StreamInvalidated,
                message: Some(Message::BufferSizeChanged),
            },
        }
    }

    /// The error that a change of the property amounts to.
    pub fn event(self) -> (r: Error)
        ensures
            r == self.event_spec(),
    {
        match self {
            Listener::Alive => Error::with_message(
                ErrorKind::DeviceNotAvailable,
                Message::DeviceDisconnected,
            ),
            Listener::SampleRate => Error::with_message(
                ErrorKind::StreamInvalidated,
                Message::SampleRateChanged,
            ),
            Listener::BufferSize => Error::with_message(
                ErrorKind::StreamInvalidated,
                Message::BufferSizeChanged,
            ),
        }
    }
}

/// What [`ListenerSetup`] waits for, and what came of the listeners before.
#[derive(Debug)]
pub enum ListenerStage {
    Alive,
    SampleRate { alive: Result<(), Error> },
    BufferSize { alive: Result<(), Error>, rate: Result<(), Error> },
}

/// The procedure by which the listener thread registers its listeners, one after the other.
#[derive(Debug)]
pub struct ListenerSetup {
    pub listen_buffer_size: bool,
    pub stage: ListenerStage,
}

/// How the procedure goes on.
#[derive(Debug)]
pub enum ListenerStep {
    /// Register the next listener.
    Register(ListenerSetup, Listener),
    /// Tell the waiting thread. With success, hold the listeners until the stream is dropped;
    /// with an error, drop those there are.
    Ready(Result<(), Error>),
}

/// What the listeners for life and rate come to together: the first failure, if there is one.
pub open spec fn both(alive: Result<(), Error>, rate: Result<(), Error>) -> Result<(), Error> {
    match (alive, rate) {
        (Err(e), _) => Err(e),
        (Ok(_), Err(e)) => Err(e),
        (Ok(_), Ok(_)) => Ok(()),
    }
}

fn first_failure(alive: Result<(), Error>, rate: Result<(), Error>) -> (r: Result<(), Error>)
    ensures
        r == both(alive, rate),
{
    match alive {
        Err(e) => Err(e),
        Ok(_) => match rate {
            Err(e) => Err(e),
            Ok(_) => Ok(()),
        },
    }
}

impl ListenerSetup {
    /// How the procedure goes on after what came of the last listener.
    ///
    /// A failure of the listeners for life and rate is held back until all are tried; a failure
    /// of the one for the buffer size ends the procedure at once.
    pub open spec fn next(self, outcome: Result<(), Error>) -> ListenerStep {
        match self.stage {
            ListenerStage::Alive => ListenerStep::Register(
                ListenerSetup {
                    listen_buffer_size: self.listen_buffer_size,
                    stage: ListenerStage::SampleRate { alive: outcome },
                },
                Listener::SampleRate,
            ),
            ListenerStage::SampleRate { alive } => if self.listen_buffer_size {
                ListenerStep::Register(
                    ListenerSetup {
                        listen_buffer_size: self.listen_buffer_size,
                        stage: ListenerStage::BufferSize { alive, rate: outcome },
                    },
                    Listener::BufferSize,
                )
            } else {
                ListenerStep::Ready(both(alive, outcome))
            },
            ListenerStage::BufferSize { alive, rate } => match outcome {
                Err(e) => ListenerStep::Ready(Err(e)),
                Ok(_) => ListenerStep::Ready(both(alive, rate)),
            },
        }
    }

    /// Goes on after what came of the last listener.
    pub fn resume(self, outcome: Result<(), Error>) -> (r: ListenerStep)
        ensures
            r == self.next(outcome),
    {
        match self.stage {
            ListenerStage::Alive => ListenerStep::Register(
                ListenerSetup {
                    listen_buffer_size: self.listen_buffer_size,
                    stage: ListenerStage::SampleRate { alive: outcome },
                },
                Listener::SampleRate,
            ),
            ListenerStage::SampleRate { alive } => {
                if self.listen_buffer_size {
                    ListenerStep::Register(
                        ListenerSetup {
                            listen_buffer_size: self.listen_buffer_size,
                            stage: ListenerStage::BufferSize { alive, rate: outcome },
                        },
                        Listener::BufferSize,
                    )
                } else {
                    ListenerStep::Ready(first_failure(alive, outcome))
                }
            },
            ListenerStage::BufferSize { alive, rate } => match outcome {
                Err(e) => ListenerStep::Ready(Err(e)),
                Ok(_) => ListenerStep::Ready(first_failure(alive, rate)),
            },
        }
    }
}

/// Watches for the disconnection of a device, and for changes that invalidate a stream on it.
///
/// One thread registers, holds and drops all listeners, because CoreAudio wants that done on the
/// same thread. Another takes the events: it pauses the stream and calls the error callback.
#[derive(Clone, Copy, Debug, PartialEq, Eq, Structural)]
pub struct DisconnectManager {
    pub device_id: AudioDeviceID,
    pub listen_buffer_size: bool,
}

/// How an event finds the stream.
#[derive(Clone, Copy, Debug, PartialEq, Eq, Structural)]
pub enum StreamAccess {
    /// The stream was dropped.
    Gone,
    /// The stream is there, but its lock could not be taken.
    Busy,
    /// The stream is there and its lock was taken.
    Locked(StreamInner),
}

/// A step of the reaction to an event.
#[derive(Debug, PartialEq, Eq)]
pub enum ReactionStep {
    /// Command the audio unit, so that the stream pauses, and pass what became of it to
    /// [`StreamInner::commanded`], which takes note of a pause that succeeded. A failure is not
    /// reported, and the steps that follow are taken all the same.
    Command(UnitCommand),
    /// Pass the error to the error callback.
    Report(Error),
}

/// What the event thread does next.
#[derive(Debug)]
pub struct Reaction {
    /// The steps to take, in order.
    pub steps: Vec<ReactionStep>,
    /// Whether the thread waits for another event.
    pub more: bool,
}

/// The steps of the reaction to an event: first the stream is paused, if it plays and its lock
/// could be taken, and then the event is reported.
pub open spec fn reaction_steps(event: Error, stream: StreamAccess) -> Seq<ReactionStep> {
    match stream {
        StreamAccess::Gone => seq![],
        StreamAccess::Busy => seq![ReactionStep::Report(event)],
        StreamAccess::Locked(inner) => if inner.playing {
            seq![ReactionStep::Command(UnitCommand::Stop), ReactionStep::Report(event)]
        } else {
            seq![ReactionStep::Report(event)]
        },
    }
}

impl DisconnectManager {
    /// Starts registering the listeners, which begins with the one for life.
    ///
    /// The size of the buffer is listened to only if `listen_buffer_size` is set.
    pub fn new(listen_buffer_size: bool) -> (r: (ListenerSetup, Listener))
        ensures
            r.0 == (ListenerSetup { listen_buffer_size, stage: ListenerStage::Alive }),
            r.1 == Listener::Alive,
    {
        (ListenerSetup { listen_buffer_size, stage: ListenerStage::Alive }, Listener::Alive)
    }

    /// The manager, once the listener thread has told that it is ready. `ready` is `None` where
    /// the thread ended without a word.
    pub fn ready(
        device_id: AudioDeviceID,
        listen_buffer_size: bool,
        ready: Option<Result<(), Error>>,
    ) -> (r: Result<DisconnectManager, Error>)
        ensures
            r == match ready {
                Some(Ok(_)) => Ok::<DisconnectManager, Error>(
                    DisconnectManager { device_id, listen_buffer_size },
                ),
                Some(Err(e)) => Err(e),
                None => Err(
                    Error {
                        kind: ErrorKind::StreamInvalidated,
                        message: Some(Message::ListenerThreadLost),
                    },
                ),
            },
    {
        match ready {
            Some(Ok(_)) => Ok(DisconnectManager { device_id, listen_buffer_size }),
            Some(Err(e)) => Err(e),
            None => Err(
                Error::with_message(ErrorKind::StreamInvalidated, Message::ListenerThreadLost),
            ),
        }
    }

    /// How the event thread reacts. `event` is `None` where no listener is left to send one.
    pub fn react(event: Option<Error>, stream: StreamAccess) -> (r: Reaction)
        ensures
            r.more == (event is Some && stream != StreamAccess::Gone),
            r.steps@ == match event {
                Some(event) => reaction_steps(event, stream),
                None => seq![],
            },
    {
        let mut steps: Vec<ReactionStep> = Vec::new();
        let event: Error = match event {
            Some(event) => event,
            None => {
                return Reaction { steps, more: false };
            },
        };
        match stream {
            StreamAccess::Gone => {
                return Reaction { steps, more: false };
            },
            StreamAccess::Busy => {},
            StreamAccess::Locked(inner) => match inner.pause() {
                Some(command) => {
                    steps.push(ReactionStep::Command(command));
                },
                None => {},
            },
        }
        steps.push(ReactionStep::Report(event));
        assert(steps@ =~= reaction_steps(event, stream));
        Reaction { steps, more: true }
    }
}

/// While the stream is there, a change of a listened property is reported exactly once, as the
/// last step, with the error of that property: a busy lock does not suppress it. A pause, if there
/// is one, comes before the report, and there is one exactly if the stream plays and its lock
/// could be taken.
pub proof fn lemma_pause_comes_before_report(listener: Listener, stream: StreamAccess)
    requires
        stream != StreamAccess::Gone,
    ensures
        ({
            let steps = reaction_steps(listener.event_spec(), stream);
            let pauses = stream matches StreamAccess::Locked(inner) && inner.playing;
            &&& steps.len() == if pauses {
                2nat
            } else {
                1nat
            }
            &&& steps.last() == ReactionStep::Report(listener.event_spec())
            &&& forall|i: int|
                0 <= i < steps.len() - 1 ==> #[trigger] steps[i] == ReactionStep::Command(
                    UnitCommand::Stop,
                )
        }),
{
}

/// What registering the listeners comes to, whatever becomes of each: success if all succeed, or
/// else the failure of the buffer size listener, of the one for life, or of the one for the rate,
/// the first of these that failed.
pub proof fn lemma_listeners_ready(
    listen_buffer_size: bool,
    alive: Result<(), Error>,
    rate: Result<(), Error>,
    buffer_size: Result<(), Error>,
)
    ensures
        ({
            let first = ListenerSetup { listen_buffer_size, stage: ListenerStage::Alive };
            let second = first.next(alive)->Register_0;
            let last = second.next(rate);
            &&& first.next(alive) == ListenerStep::Register(second, Listener::SampleRate)
            &&& if listen_buffer_size {
                let third = last->Register_0;
                &&& last == ListenerStep::Register(third, Listener::BufferSize)
                &&& third.next(buffer_size) == ListenerStep::Ready(
                    if buffer_size is Err {
                        buffer_size
                    } else {
                        both(alive, rate)
                    },
                )
            } else {
                last == ListenerStep::Ready(both(alive, rate))
            }
        }),
{
}

} // verus!
