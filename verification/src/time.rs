//! Spans of time, instants on the stream clock, and the timestamps handed to data callbacks.

use vstd::prelude::*;

use crate::error::{Error, ErrorKind, Message};

verus! {

pub const NANOS_PER_SEC: u32 = 1_000_000_000;

/// A span of time: whole seconds and the nanoseconds beyond them.
#[derive(Clone, Copy, Debug, PartialEq, Eq, Hash, Structural)]
pub struct Duration {
    pub secs: u64,
    pub nanos: u32,
}

/// An instant on the monotonic clock of a stream, as the time since the clock's origin.
#[derive(Clone, Copy, Debug, PartialEq, Eq, Hash, Structural)]
pub struct StreamInstant {
    pub secs: u64,
    pub nanos: u32,
}

/// When an input callback ran, and when its first frame was captured.
#[derive(Clone, Copy, Debug, PartialEq, Eq, Hash, Structural)]
pub struct InputStreamTimestamp {
    pub callback: StreamInstant,
    pub capture: StreamInstant,
}

/// When an output callback ran, and when its first frame will be played.
#[derive(Clone, Copy, Debug, PartialEq, Eq, Hash, Structural)]
pub struct OutputStreamTimestamp {
    pub callback: StreamInstant,
    pub playback: StreamInstant,
}

/// Seconds and nanoseconds as one number of nanoseconds.
pub open spec fn total_nanos(secs: u64, nanos: u32) -> nat {
    (secs * NANOS_PER_SEC + nanos) as nat
}

/// The largest number of nanoseconds that seconds in `u64` can carry.
pub open spec fn max_nanos() -> nat {
    (u64::MAX * NANOS_PER_SEC + NANOS_PER_SEC - 1) as nat
}

impl View for Duration {
    type V = nat;

    open spec fn view(&self) -> nat {
        total_nanos(self.secs, self.nanos)
    }
}

impl View for StreamInstant {
    type V = nat;

    open spec fn view(&self) -> nat {
        total_nanos(self.secs, self.nanos)
    }
}

impl Duration {
    /// Less than a second is left beyond the whole seconds.
    pub open spec fn wf(self) -> bool {
        self.nanos < NANOS_PER_SEC
    }

    /// A span of `secs` seconds and `nanos` nanoseconds.
    pub fn new(secs: u64, nanos: u32) -> (r: Duration)
        requires
            nanos < NANOS_PER_SEC,
        ensures
            r.wf(),
            r == (Duration { secs, nanos }),
    {
        Duration { secs, nanos }
    }

    /// What is left of `self` when `other` is taken away, unless `other` is longer.
    pub fn checked_sub(self, other: Duration) -> (r: Option<Duration>)
        requires
            self.wf(),
            other.wf(),
        ensures
            r is Some <==> other@ <= self@,
            r matches Some(d) ==> d.wf() && d@ == self@ - other@,
    {
        match checked_sub_parts(self.secs, self.nanos, other.secs, other.nanos) {
            Some((secs, nanos)) => Some(Duration { secs, nanos }),
            None => None,
        }
    }

    /// The span of `nanos` nanoseconds.
    pub open spec fn of_nanos(nanos: nat) -> Duration {
        Duration {
            secs: (nanos / NANOS_PER_SEC as nat) as u64,
            nanos: (nanos % NANOS_PER_SEC as nat) as u32,
        }
    }

    pub open spec fn minus_or_zero_spec(self, other: Duration) -> Duration {
        if other@ <= self@ {
            Duration::of_nanos((self@ - other@) as nat)
        } else {
            Duration::of_nanos(0)
        }
    }

    /// What is left of `self` when `other` is taken away, or nothing if `other` is longer.
    pub fn minus_or_zero(self, other: Duration) -> (r: Duration)
        requires
            self.wf(),
            other.wf(),
        ensures
            r.wf(),
            r == self.minus_or_zero_spec(other),
            r@ == if other@ <= self@ {
                self@ - other@
            } else {
                0
            },
    {
        match self.checked_sub(other) {
            Some(d) => {
                assert(d == Duration::of_nanos(d@));
                d
            },
            None => Duration { secs: 0, nanos: 0 },
        }
    }
}

/// The difference of two numbers of nanoseconds, in parts.
fn checked_sub_parts(secs: u64, nanos: u32, other_secs: u64, other_nanos: u32) -> (r: Option<
    (u64, u32),
>)
    requires
        nanos < NANOS_PER_SEC,
        other_nanos < NANOS_PER_SEC,
    ensures
        r is Some <==> total_nanos(other_secs, other_nanos) <= total_nanos(secs, nanos),
        r matches Some(d) ==> d.1 < NANOS_PER_SEC && total_nanos(d.0, d.1) == total_nanos(
            secs,
            nanos,
        ) - total_nanos(other_secs, other_nanos),
{
    if secs < other_secs {
        return None;
    }
    let whole: u64 = secs - other_secs;
    if nanos >= other_nanos {
        Some((whole, nanos - other_nanos))
    } else if whole == 0 {
        None
    } else {
        Some((whole - 1, nanos + (NANOS_PER_SEC - other_nanos)))
    }
}

impl StreamInstant {
    /// Less than a second is left beyond the whole seconds.
    pub open spec fn wf(self) -> bool {
        self.nanos < NANOS_PER_SEC
    }

    /// The instant `secs` seconds and `nanos` nanoseconds after the clock's origin.
    pub fn new(secs: u64, nanos: u32) -> (r: StreamInstant)
        requires
            nanos < NANOS_PER_SEC,
        ensures
            r.wf(),
            r == (StreamInstant { secs, nanos }),
    {
        StreamInstant { secs, nanos }
    }

    /// The instant `delay` earlier, unless that lies before the clock's origin.
    pub fn checked_sub(self, delay: Duration) -> (r: Option<StreamInstant>)
        requires
            self.wf(),
            delay.wf(),
        ensures
            r is Some <==> delay@ <= self@,
            r matches Some(t) ==> t.wf() && t@ == self@ - delay@,
    {
        match checked_sub_parts(self.secs, self.nanos, delay.secs, delay.nanos) {
            Some((secs, nanos)) => Some(StreamInstant { secs, nanos }),
            None => None,
        }
    }

    /// The instant `delay` later, unless it is too late to be represented.
    pub fn checked_add(self, delay: Duration) -> (r: Option<StreamInstant>)
        requires
            self.wf(),
            delay.wf(),
        ensures
            r is Some <==> self@ + delay@ <= max_nanos(),
            r matches Some(t) ==> t.wf() && t@ == self@ + delay@,
    {
        let mut nanos: u32 = self.nanos + delay.nanos;
        let mut carry: u64 = 0;
        if nanos >= NANOS_PER_SEC {
            nanos = nanos - NANOS_PER_SEC;
            carry = 1;
        }
        if delay.secs > u64::MAX - self.secs {
            return None;
        }
        let secs: u64 = self.secs + delay.secs;
        if carry > u64::MAX - secs {
            return None;
        }
        Some(StreamInstant { secs: secs + carry, nanos })
    }
}

/// The error reported when a capture instant would lie before the clock's origin.
pub open spec fn capture_underflow() -> Error {
    Error { kind: ErrorKind::BackendError, message: Some(Message::CaptureUnderflow) }
}

/// The error reported when a playback instant would be too late to be represented.
pub open spec fn playback_overflow() -> Error {
    Error { kind: ErrorKind::BackendError, message: Some(Message::PlaybackOverflow) }
}

/// The instant `nanos` nanoseconds after the clock's origin.
pub open spec fn instant_at(nanos: nat) -> StreamInstant {
    StreamInstant {
        secs: (nanos / NANOS_PER_SEC as nat) as u64,
        nanos: (nanos % NANOS_PER_SEC as nat) as u32,
    }
}

/// `delay` before `callback`, or `callback` itself where that lies before the clock's origin.
pub open spec fn captured_at(callback: StreamInstant, delay: Duration) -> StreamInstant {
    if delay@ <= callback@ {
        instant_at((callback@ - delay@) as nat)
    } else {
        callback
    }
}

/// `delay` after `callback`, or `callback` itself where that cannot be represented.
pub open spec fn played_at(callback: StreamInstant, delay: Duration) -> StreamInstant {
    if callback@ + delay@ <= max_nanos() {
        instant_at(callback@ + delay@)
    } else {
        callback
    }
}

/// What estimating the capture instant reports.
pub open spec fn capture_errors(callback: StreamInstant, delay: Duration) -> Seq<Error> {
    if delay@ <= callback@ {
        seq![]
    } else {
        seq![capture_underflow()]
    }
}

/// What estimating the playback instant reports.
pub open spec fn playback_errors(callback: StreamInstant, delay: Duration) -> Seq<Error> {
    if callback@ + delay@ <= max_nanos() {
        seq![]
    } else {
        seq![playback_overflow()]
    }
}

/// An instant is determined by how far it lies from the clock's origin.
pub proof fn lemma_instant_by_nanos(t: StreamInstant)
    requires
        t.wf(),
    ensures
        t == instant_at(t@),
{
}

/// The instant at which the first captured frame entered the device: `delay` before `callback`.
///
/// Falls back to `callback` and appends an error of kind [`ErrorKind::BackendError`] to `errors`
/// if that instant would lie before the clock's origin. The clock starts before the stream opens,
/// so this takes a pathological latency.
pub fn estimate_capture_instant(
    callback: StreamInstant,
    delay: Duration,
    errors: &mut Vec<Error>,
) -> (r: StreamInstant)
    requires
        callback.wf(),
        delay.wf(),
    ensures
        r.wf(),
        r == captured_at(callback, delay),
        final(errors)@ == old(errors)@ + capture_errors(callback, delay),
{
    match callback.checked_sub(delay) {
        Some(t) => {
            proof {
                lemma_instant_by_nanos(t);
            }
            t
        },
        None => {
            errors.push(Error::with_message(ErrorKind::BackendError, Message::CaptureUnderflow));
            callback
        },
    }
}

/// The instant at which the first rendered frame leaves the device: `delay` after `callback`.
///
/// Falls back to `callback` and appends an error of kind [`ErrorKind::BackendError`] to `errors`
/// if that instant cannot be represented, which takes a pathological latency.
pub fn estimate_playback_instant(
    callback: StreamInstant,
    delay: Duration,
    errors: &mut Vec<Error>,
) -> (r: StreamInstant)
    requires
        callback.wf(),
        delay.wf(),
    ensures
        r.wf(),
        r == played_at(callback, delay),
        final(errors)@ == old(errors)@ + playback_errors(callback, delay),
{
    match callback.checked_add(delay) {
        Some(t) => {
            proof {
                lemma_instant_by_nanos(t);
            }
            t
        },
        None => {
            errors.push(Error::with_message(ErrorKind::BackendError, Message::PlaybackOverflow));
            callback
        },
    }
}

/// Capture never comes after the callback, and playback never before it; each lies exactly
/// `delay` away wherever the clock can show it.
pub proof fn lemma_callback_between(callback: StreamInstant, delay: Duration)
    requires
        callback.wf(),
        delay.wf(),
    ensures
        captured_at(callback, delay)@ <= callback@ <= played_at(callback, delay)@,
        delay@ <= callback@ ==> captured_at(callback, delay)@ + delay@ == callback@,
        callback@ + delay@ <= max_nanos() ==> played_at(callback, delay)@ == callback@ + delay@,
        captured_at(callback, delay).wf(),
        played_at(callback, delay).wf(),
{
    lemma_instant_at(callback@ + delay@);
    if delay@ <= callback@ {
        lemma_instant_at((callback@ - delay@) as nat);
    }
}

/// Every representable number of nanoseconds has its instant.
proof fn lemma_instant_at(nanos: nat)
    ensures
        nanos <= max_nanos() ==> instant_at(nanos)@ == nanos && instant_at(nanos).wf(),
{
    vstd::arithmetic::div_mod::lemma_fundamental_div_mod(nanos as int, NANOS_PER_SEC as int);
}

} // verus!
