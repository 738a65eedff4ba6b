use duplex_audio::error::{Error, ErrorKind, Message};
use duplex_audio::stream::{
    invoke_error_callback, DisconnectManager, DuplexCallbackPtr, Listener, ListenerStep, Lock,
    Monitor, ReactionStep, Stream, StreamAccess, StreamInner, Teardown, TryLock, UnitCommand,
};

fn inner() -> StreamInner {
    StreamInner {
        playing: false,
        device_id: 11,
        loopback_device: None,
        duplex_callback_ptr: None,
    }
}

fn failed(text: &str) -> Error {
    Error::with_message(ErrorKind::BackendError, Message::Backend(text.to_string()))
}

#[test]
fn playing_and_pausing() {
    let mut s = inner();
    assert_eq!(s.pause(), None);
    assert_eq!(s.play(), Some(UnitCommand::Start));
    assert_eq!(s.commanded(UnitCommand::Start, Ok(())), Ok(()));
    assert!(s.playing);
    assert_eq!(s.play(), None);
    assert_eq!(s.pause(), Some(UnitCommand::Stop));
    assert_eq!(s.commanded(UnitCommand::Stop, Ok(())), Ok(()));
    assert_eq!(s, inner());
}

#[test]
fn a_failed_command_changes_nothing() {
    let mut s = inner();
    let error = s.commanded(UnitCommand::Start, Err(failed("busy"))).unwrap_err();
    assert_eq!(error.kind, ErrorKind::BackendError);
    assert_eq!(error.message.unwrap().text(), "failed to start audio unit: busy");
    assert_eq!(s, inner());

    s.playing = true;
    let error = s.commanded(UnitCommand::Stop, Err(failed("busy"))).unwrap_err();
    assert_eq!(error.message.unwrap().text(), "failed to stop audio unit: busy");
    assert!(s.playing);
}

#[test]
fn teardown_frees_the_callback_last() {
    assert_eq!(inner().teardown(), vec![Teardown::DisposeUnit]);
    let mut s = inner();
    let ptr = DuplexCallbackPtr { address: 0x1000 };
    s.duplex_callback_ptr = Some(ptr);
    assert_eq!(s.teardown(), vec![Teardown::DisposeUnit, Teardown::FreeCallback(ptr)]);
    s.duplex_callback_ptr = Some(DuplexCallbackPtr { address: 0 });
    assert_eq!(s.teardown(), vec![Teardown::DisposeUnit]);
}

#[test]
fn a_stream_needs_its_monitor() {
    let monitor = Monitor::Disconnect { device_id: 11, listen_buffer_size: false };
    assert_eq!(
        Stream::new(inner(), monitor, Ok(())),
        Ok(Stream { inner: inner(), monitor })
    );
    assert_eq!(Stream::new(inner(), monitor, Err(failed("x"))), Err(failed("x")));
}

#[test]
fn a_poisoned_stream() {
    let stream = Stream { inner: inner(), monitor: Monitor::DefaultOutput };
    let poisoned =
        || Error::with_message(ErrorKind::StreamInvalidated, Message::StreamLockPoisoned);
    assert_eq!(stream.play(Lock::Held), Ok(Some(UnitCommand::Start)));
    assert_eq!(stream.pause(Lock::Held), Ok(None));
    assert_eq!(stream.play(Lock::Poisoned), Err(poisoned()));
    assert_eq!(stream.pause(Lock::Poisoned), Err(poisoned()));
    assert_eq!(Stream::buffer_size(Lock::Poisoned, Ok(512)), Err(poisoned()));
}

#[test]
fn buffer_sizes() {
    assert_eq!(Stream::buffer_size(Lock::Held, Ok(512)), Ok(512));
    assert_eq!(Stream::buffer_size(Lock::Held, Ok(u32::MAX)), Ok(u32::MAX));
    let error = Stream::buffer_size(Lock::Held, Err(failed("gone"))).unwrap_err();
    assert_eq!(error.message.unwrap().text(), "failed to get buffer frame size: gone");
}

#[test]
fn error_callbacks_are_skipped_only_when_busy() {
    assert_eq!(
        invoke_error_callback(TryLock::Acquired, failed("x")),
        (true, Some(failed("x")))
    );
    assert_eq!(
        invoke_error_callback(TryLock::Poisoned, failed("x")),
        (true, Some(failed("x")))
    );
    assert_eq!(invoke_error_callback(TryLock::WouldBlock, failed("x")), (false, None));
}

#[test]
fn events_of_the_listeners() {
    assert_eq!(
        Listener::Alive.event(),
        Error::with_message(ErrorKind::DeviceNotAvailable, Message::DeviceDisconnected)
    );
    assert_eq!(
        Listener::SampleRate.event(),
        Error::with_message(ErrorKind::StreamInvalidated, Message::SampleRateChanged)
    );
    assert_eq!(
        Listener::BufferSize.event(),
        Error::with_message(ErrorKind::StreamInvalidated, Message::BufferSizeChanged)
    );
}

/// Registers listeners with the given outcomes; returns the listeners asked for and the result.
fn register(
    listen_buffer_size: bool,
    outcomes: Vec<Result<(), Error>>,
) -> (Vec<Listener>, Result<(), Error>) {
    let (mut setup, mut listener) = DisconnectManager::new(listen_buffer_size);
    let mut asked = vec![];
    for outcome in outcomes {
        asked.push(listener);
        match setup.resume(outcome) {
            ListenerStep::Register(s, l) => {
                setup = s;
                listener = l;
            }
            ListenerStep::Ready(r) => return (asked, r),
        }
    }
    panic!("not ready");
}

#[test]
fn listeners_are_registered_in_order() {
    assert_eq!(
        register(false, vec![Ok(()), Ok(())]),
        (vec![Listener::Alive, Listener::SampleRate], Ok(()))
    );
    assert_eq!(
        register(true, vec![Ok(()), Ok(()), Ok(())]),
        (vec![Listener::Alive, Listener::SampleRate, Listener::BufferSize], Ok(()))
    );
}

#[test]
fn which_listener_failure_counts() {
    let a = || Err(failed("alive"));
    let r = || Err(failed("rate"));
    let b = || Err(failed("buffer"));
    assert_eq!(register(false, vec![a(), r()]).1, a());
    assert_eq!(register(false, vec![Ok(()), r()]).1, r());
    assert_eq!(register(false, vec![a(), Ok(())]).1, a());
    assert_eq!(register(true, vec![a(), r(), b()]).1, b());
    assert_eq!(register(true, vec![a(), r(), Ok(())]).1, a());
    assert_eq!(register(true, vec![Ok(()), r(), Ok(())]).1, r());
}

#[test]
fn the_manager_waits_for_the_listener_thread() {
    assert_eq!(
        DisconnectManager::ready(11, true, Some(Ok(()))),
        Ok(DisconnectManager { device_id: 11, listen_buffer_size: true })
    );
    assert_eq!(DisconnectManager::ready(11, true, Some(Err(failed("x")))), Err(failed("x")));
    assert_eq!(
        DisconnectManager::ready(11, true, None),
        Err(Error::with_message(ErrorKind::StreamInvalidated, Message::ListenerThreadLost))
    );
}

#[test]
fn reactions_to_events() {
    let mut playing = inner();
    playing.playing = true;
    for listener in [Listener::Alive, Listener::SampleRate, Listener::BufferSize] {
        let stop = || ReactionStep::Command(UnitCommand::Stop);
        let report = || ReactionStep::Report(listener.event());
        let react = |stream| DisconnectManager::react(Some(listener.event()), stream);

        let r = react(StreamAccess::Locked(playing));
        assert_eq!((r.steps, r.more), (vec![stop(), report()], true));
        let r = react(StreamAccess::Locked(inner()));
        assert_eq!((r.steps, r.more), (vec![report()], true));
        let r = react(StreamAccess::Busy);
        assert_eq!((r.steps, r.more), (vec![report()], true));
        let r = react(StreamAccess::Gone);
        assert_eq!((r.steps, r.more), (vec![], false));
    }
    let r = DisconnectManager::react(None, StreamAccess::Locked(playing));
    assert_eq!((r.steps, r.more), (vec![], false));
}
