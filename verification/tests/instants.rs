use duplex_audio::error::{Error, ErrorKind, Message};
use duplex_audio::time::{
    estimate_capture_instant, estimate_playback_instant, Duration, StreamInstant,
};

fn at(secs: u64, nanos: u32) -> StreamInstant {
    StreamInstant::new(secs, nanos)
}

fn span(secs: u64, nanos: u32) -> Duration {
    Duration::new(secs, nanos)
}

#[test]
fn capture_lies_before_the_callback() {
    let mut errors: Vec<Error> = vec![];
    let capture = estimate_capture_instant(at(10, 5), span(0, 10), &mut errors);
    assert_eq!(capture, at(9, 999_999_995));
    assert_eq!(estimate_capture_instant(at(10, 5), span(10, 5), &mut errors), at(0, 0));
    assert_eq!(estimate_capture_instant(at(10, 5), span(3, 2), &mut errors), at(7, 3));
    assert!(errors.is_empty());
}

#[test]
fn capture_before_the_origin_falls_back_and_is_reported() {
    let mut errors: Vec<Error> = vec![];
    assert_eq!(estimate_capture_instant(at(1, 0), span(1, 1), &mut errors), at(1, 0));
    assert_eq!(estimate_capture_instant(at(1, 999_999_999), span(2, 0), &mut errors).secs, 1);
    assert_eq!(errors.len(), 2);
    assert_eq!(
        errors[0],
        Error::with_message(ErrorKind::BackendError, Message::CaptureUnderflow)
    );
}

#[test]
fn playback_lies_after_the_callback() {
    let mut errors: Vec<Error> = vec![];
    assert_eq!(
        estimate_playback_instant(at(10, 999_999_995), span(0, 10), &mut errors),
        at(11, 5)
    );
    assert_eq!(estimate_playback_instant(at(1, 2), span(3, 4), &mut errors), at(4, 6));
    let last = at(u64::MAX, 999_999_999);
    assert_eq!(
        estimate_playback_instant(at(u64::MAX, 0), span(0, 999_999_999), &mut errors),
        last
    );
    assert_eq!(estimate_playback_instant(last, span(0, 0), &mut errors), last);
    assert!(errors.is_empty());
}

#[test]
fn playback_beyond_the_clock_falls_back_and_is_reported() {
    let mut errors: Vec<Error> = vec![];
    let late = at(u64::MAX, 999_999_999);
    assert_eq!(estimate_playback_instant(late, span(0, 1), &mut errors), late);
    assert_eq!(estimate_playback_instant(late, span(u64::MAX, 0), &mut errors), late);
    assert_eq!(
        estimate_playback_instant(at(1, 0), span(u64::MAX, 0), &mut errors),
        at(1, 0)
    );
    assert_eq!(errors.len(), 3);
    assert_eq!(
        errors[2],
        Error::with_message(ErrorKind::BackendError, Message::PlaybackOverflow)
    );
}

#[test]
fn spans_subtract_down_to_nothing() {
    assert_eq!(span(2, 0).minus_or_zero(span(0, 1)), span(1, 999_999_999));
    assert_eq!(span(2, 0).minus_or_zero(span(2, 1)), span(0, 0));
    assert_eq!(span(2, 0).checked_sub(span(2, 0)), Some(span(0, 0)));
    assert_eq!(span(2, 0).checked_sub(span(3, 0)), None);
}
