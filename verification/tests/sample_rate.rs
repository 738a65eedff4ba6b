use duplex_audio::binary64::Binary64;
use duplex_audio::error::{Error, ErrorKind, Message};
use duplex_audio::rate::{
    set_sample_rate, RateReply, RateRequest, RateStep, SetSampleRate, ValueRange,
};
use duplex_audio::time::Duration;

fn bits(x: f64) -> Binary64 {
    Binary64 { bits: x.to_bits() }
}

fn ask(step: RateStep) -> (SetSampleRate, RateRequest) {
    match step {
        RateStep::Ask(m, r) => (m, r),
        RateStep::Done(r) => panic!("done: {r:?}"),
    }
}

fn done(step: RateStep) -> Result<(), Error> {
    match step {
        RateStep::Ask(_, r) => panic!("asked: {r:?}"),
        RateStep::Done(r) => r,
    }
}

fn failed() -> Error {
    Error::with_message(ErrorKind::BackendError, Message::Backend("failed".to_string()))
}

/// The procedure when it has written the target rate of 48 kHz.
fn written(timeout: Option<Duration>) -> (SetSampleRate, RateRequest) {
    let (m, r) = set_sample_rate(7, 48000, timeout);
    assert_eq!(r, RateRequest::ReadNominalRate);
    assert_eq!(m.device_id, 7);
    let (m, r) = ask(m.resume(RateReply::NominalRate(Ok(bits(44100.0)))));
    assert_eq!(r, RateRequest::MeasureRates);
    let (m, r) = ask(m.resume(RateReply::RatesSize(Ok(32))));
    assert_eq!(r, RateRequest::ReadRates { count: 2 });
    let ranges = vec![
        ValueRange { minimum: bits(44100.0), maximum: bits(44100.0) },
        ValueRange { minimum: bits(48000.0), maximum: bits(48000.0) },
    ];
    let (m, r) = ask(m.resume(RateReply::Rates(Ok(ranges))));
    assert_eq!(r, RateRequest::RegisterListener);
    let (m, r) = ask(m.resume(RateReply::Registered(Ok(()))));
    assert_eq!(r, RateRequest::WriteNominalRate(48000));
    ask(m.resume(RateReply::Written(Ok(()))))
}

#[test]
fn a_device_at_the_rate_is_left_alone() {
    for current in [48000.0, 48000.9, 47999.5, f64::NAN] {
        let (m, _) = set_sample_rate(7, 48000, None);
        assert_eq!(done(m.resume(RateReply::NominalRate(Ok(bits(current))))), Ok(()));
    }
}

#[test]
fn a_change_is_awaited_for_a_second() {
    let (m, r) = written(None);
    assert_eq!(r, RateRequest::AwaitChange(Duration::new(1, 0)));
    let reply = RateReply::Reported { rate: bits(48000.0), elapsed: Duration::new(0, 5) };
    assert_eq!(done(m.resume(reply)), Ok(()));
}

#[test]
fn a_change_is_awaited_for_the_timeout() {
    let (m, r) = written(Some(Duration::new(3, 0)));
    assert_eq!(r, RateRequest::AwaitChange(Duration::new(3, 0)));
    // Another rate on the way leaves what is left of the timeout.
    let reply = RateReply::Reported { rate: bits(44100.0), elapsed: Duration::new(1, 0) };
    let (m, r) = ask(m.resume(reply));
    assert_eq!(r, RateRequest::AwaitChange(Duration::new(2, 0)));
    let reply = RateReply::Reported { rate: bits(f64::NAN), elapsed: Duration::new(1, 500) };
    let (m, r) = ask(m.resume(reply));
    assert_eq!(r, RateRequest::AwaitChange(Duration::new(1, 999_999_500)));
    let reply = RateReply::Reported { rate: bits(96000.0), elapsed: Duration::new(3, 1) };
    let (m, r) = ask(m.resume(reply));
    assert_eq!(r, RateRequest::AwaitChange(Duration::new(0, 0)));
    let reply = RateReply::Reported { rate: bits(48000.4), elapsed: Duration::new(9, 0) };
    assert_eq!(done(m.resume(reply)), Ok(()));
}

#[test]
fn a_report_within_the_second_is_not_missed() {
    let millis = |n: u32| Duration::new(0, n * 1_000_000);
    let (m, r) = written(None);
    assert_eq!(r, RateRequest::AwaitChange(Duration::new(1, 0)));
    let reply = RateReply::Reported { rate: bits(44100.0), elapsed: millis(400) };
    let (m, r) = ask(m.resume(reply));
    assert_eq!(r, RateRequest::AwaitChange(millis(600)));
    let reply = RateReply::Reported { rate: bits(44100.0), elapsed: millis(700) };
    let (m, r) = ask(m.resume(reply));
    assert_eq!(r, RateRequest::AwaitChange(millis(300)));
    let reply = RateReply::Reported { rate: bits(48000.0), elapsed: millis(900) };
    assert_eq!(done(m.resume(reply)), Ok(()));
}

#[test]
fn no_change_in_time() {
    let (m, _) = written(None);
    assert_eq!(
        done(m.resume(RateReply::TimedOut)),
        Err(Error::with_message(ErrorKind::DeviceNotAvailable, Message::SampleRateTimedOut))
    );
}

#[test]
fn a_listener_that_goes_away() {
    let (m, _) = written(None);
    assert_eq!(
        done(m.resume(RateReply::ListenerLost)),
        Err(Error::with_message(ErrorKind::StreamInvalidated, Message::SampleRateListenerLost))
    );
}

#[test]
fn a_rate_that_no_range_holds() {
    let (m, _) = set_sample_rate(7, 48000, None);
    let (m, _) = ask(m.resume(RateReply::NominalRate(Ok(bits(44100.0)))));
    let (m, r) = ask(m.resume(RateReply::RatesSize(Ok(31))));
    assert_eq!(r, RateRequest::ReadRates { count: 1 });
    let ranges = vec![ValueRange { minimum: bits(8000.0), maximum: bits(44100.0) }];
    let error = done(m.resume(RateReply::Rates(Ok(ranges)))).unwrap_err();
    assert_eq!(error.kind, ErrorKind::UnsupportedConfig);
    assert_eq!(error.message.unwrap().text(), "Sample rate 48000 Hz is not supported");
}

#[test]
fn failures_of_the_device_are_passed_on() {
    let (m, _) = set_sample_rate(7, 48000, None);
    assert_eq!(done(m.resume(RateReply::NominalRate(Err(failed())))), Err(failed()));
    let (m, _) = ask(m.resume(RateReply::NominalRate(Ok(bits(f64::INFINITY)))));
    assert_eq!(done(m.resume(RateReply::RatesSize(Err(failed())))), Err(failed()));
    let (m, _) = ask(m.resume(RateReply::RatesSize(Ok(16))));
    assert_eq!(done(m.resume(RateReply::Rates(Err(failed())))), Err(failed()));
    let ranges = vec![ValueRange { minimum: bits(0.0), maximum: bits(1e6) }];
    let (m, _) = ask(m.resume(RateReply::Rates(Ok(ranges))));
    assert_eq!(done(m.resume(RateReply::Registered(Err(failed())))), Err(failed()));
    let (m, _) = ask(m.resume(RateReply::Registered(Ok(()))));
    assert_eq!(done(m.resume(RateReply::Written(Err(failed())))), Err(failed()));
}
