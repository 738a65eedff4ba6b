//! Built streams and their devices.

use vstd::prelude::*;

use crate::device::AudioDeviceID;
use crate::error::{Error, ErrorKind, Message};
use crate::stream::{
    DuplexCallbackPtr, Listener, ListenerSetup, ListenerStage, ListenerStep, ReactionStep,
    StreamAccess, StreamInner, Teardown, UnitCommand,
};
use crate::unit::{AudioUnitMode, BuildRequest, Element, IoType, Scope, UnitProperty};

verus! {

/// A command that succeeds leaves the stream playing or paused, as commanded, and one that fails
/// leaves it as it was. Nothing else of the stream changes.
pub proof fn law_commands(inner: StreamInner, command: UnitCommand, ok: bool)
    ensures
        ({
            let after = inner.set_playing(inner.playing_after(command, ok));
            &&& ok && command == UnitCommand::Start ==> after.playing
            &&& ok && command == UnitCommand::Stop ==> !after.playing
            &&& !ok ==> after == inner
            &&& after.device_id == inner.device_id
            &&& after.loopback_device == inner.loopback_device
            &&& after.duplex_callback_ptr == inner.duplex_callback_ptr
        }),
{
}

/// Tearing down begins with the audio unit. The state behind the callback, where there is some, is
/// freed after that, and nothing else is done.
pub proof fn law_teardown(inner: StreamInner, ptr: DuplexCallbackPtr)
    ensures
        inner.teardown_spec().len() >= 1,
        inner.teardown_spec()[0] == Teardown::DisposeUnit,
        inner.duplex_callback_ptr == Some(ptr) && ptr.address != 0 ==> inner.teardown_spec().len()
            == 2 && inner.teardown_spec()[1] == Teardown::FreeCallback(ptr),
        inner.duplex_callback_ptr is None || inner.duplex_callback_ptr == Some(
            DuplexCallbackPtr { address: 0 },
        ) ==> inner.teardown_spec().len() == 1,
{
}

/// A stream whose lock is poisoned is invalid, and says so.
pub proof fn law_poisoned_locks()
    ensures
        crate::stream::stream_lock_poisoned() == (Error {
            kind: ErrorKind::StreamInvalidated,
            message: Some(Message::StreamLockPoisoned),
        }),
{
}

/// What a change of a property means: a device that is gone, or a stream that has to be built anew
/// because its rate or its buffer size changed.
pub proof fn law_events(listener: Listener)
    ensures
        listener.event_spec() == match listener {
            Listener::Alive => Error {
                kind: ErrorKind::DeviceNotAvailable,
                message: Some(Message::DeviceDisconnected),
            },
            Listener::SampleRate => Error {
                kind: ErrorKind::StreamInvalidated,
                message: Some(Message::SampleRateChanged),
            },
            Listener::BufferSize => Error {
                kind: ErrorKind::StreamInvalidated,
                message: Some(Message::BufferSizeChanged),
            },
        },
{
}

/// An event is reported exactly if the stream is still there, once, and after everything else. The
/// only thing before it is a stop, exactly if the stream plays and its lock could be taken.
pub proof fn law_reaction(event: Error, stream: StreamAccess)
    ensures
        ({
            let steps = crate::stream::reaction_steps(event, stream);
            let stops = stream matches StreamAccess::Locked(inner) && inner.playing;
            &&& stream is Gone ==> steps.len() == 0
            &&& !(stream is Gone) ==> steps.len() > 0 && steps.last() == ReactionStep::Report(event)
            &&& stops ==> steps.len() == 2 && steps[0] == ReactionStep::Command(UnitCommand::Stop)
            &&& !(stream is Gone) && !stops ==> steps.len() == 1
        }),
{
}

/// Listeners are registered for life, then for the rate, and then, if asked for, for the buffer
/// size, whatever becomes of those before. They are ready if all of them are. Otherwise it is a
/// failure of the last one that counts, or else the first of the others.
pub proof fn law_listeners(
    listen_buffer_size: bool,
    alive: Result<(), Error>,
    rate: Result<(), Error>,
    buffer_size: Result<(), Error>,
)
    ensures
        ({
            let first = ListenerSetup { listen_buffer_size, stage: ListenerStage::Alive };
            let two: ListenerStep = match (alive, rate) {
                (Err(e), _) => ListenerStep::Ready(Err(e)),
                (Ok(_), Err(e)) => ListenerStep::Ready(Err(e)),
                (Ok(_), Ok(_)) => ListenerStep::Ready(Ok(())),
            };
            &&& first.next(alive) matches ListenerStep::Register(second, next)
            &&& next == Listener::SampleRate
            &&& !listen_buffer_size ==> second.next(rate) == two
            &&& listen_buffer_size ==> {
                &&& second.next(rate) matches ListenerStep::Register(third, last)
                &&& last == Listener::BufferSize
                &&& third.next(buffer_size) == match buffer_size {
                    Err(e) => ListenerStep::Ready(Err(e)),
                    Ok(_) => two,
                }
            }
        }),
{
}

/// The requests that make an audio unit and choose its device: an input unit for the device, a
/// unit that follows the default output, or one for output that is pinned on the global scope.
pub proof fn law_units(device_id: AudioDeviceID, frames: u32)
    ensures
        crate::unit::unit_request(device_id, AudioUnitMode::Input) == (BuildRequest::NewInputUnit {
            device_id,
        }),
        crate::unit::unit_request(device_id, AudioUnitMode::Output) == BuildRequest::NewUnit(
            IoType::HalOutput,
        ),
        crate::unit::unit_request(device_id, AudioUnitMode::DefaultOutput)
            == BuildRequest::NewUnit(IoType::DefaultOutput),
        crate::unit::pin_request(device_id) == (BuildRequest::SetProperty {
            scope: Scope::Global,
            element: Element::Output,
            property: UnitProperty::CurrentDevice(device_id),
        }),
        crate::unit::buffer_size_request(frames) == (BuildRequest::SetProperty {
            scope: Scope::Global,
            element: Element::Output,
            property: UnitProperty::BufferFrameSize(frames),
        }),
{
}

} // verus!
