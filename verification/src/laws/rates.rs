//! Whole runs of changing a sample rate.

use vstd::prelude::*;

use crate::binary64::Binary64;
use crate::config::SampleRate;
use crate::device::AudioDeviceID;
use crate::error::{Error, ErrorKind, Message};
use crate::rate::{RateReply, RateRequest, RateStep, SetSampleRate, ValueRange};
use crate::time::Duration;

verus! {

/// A run of the procedure on a number of replies.
pub ghost struct RateRun {
    /// What was asked for, in order.
    pub asked: Seq<RateRequest>,
    /// Where the run stands after the last reply.
    pub end: RateStep,
    /// Every reply answered a request, and none came after the end.
    pub answered: bool,
}

/// The run of a procedure that waits for the reply to `request`.
pub open spec fn run(m: SetSampleRate, request: RateRequest, replies: Seq<RateReply>) -> RateRun
    decreases replies.len(),
{
    if replies.len() == 0 {
        RateRun { asked: seq![request], end: RateStep::Ask(m, request), answered: true }
    } else {
        let answers = m.answers(replies[0]);
        match m.next(replies[0]) {
            RateStep::Ask(n, following) => {
                let rest = run(n, following, replies.drop_first());
                RateRun {
                    asked: seq![request] + rest.asked,
                    end: rest.end,
                    answered: answers && rest.answered,
                }
            },
            end => RateRun {
                asked: seq![request],
                end,
                answered: answers && replies.len() == 1,
            },
        }
    }
}

/// The run of the procedure from its beginning.
pub open spec fn whole_run(
    device_id: AudioDeviceID,
    target: SampleRate,
    timeout: Option<Duration>,
    replies: Seq<RateReply>,
) -> RateRun {
    match SetSampleRate::started(device_id, target, timeout) {
        RateStep::Ask(m, request) => run(m, request, replies),
        end => RateRun { asked: seq![], end, answered: false },
    }
}

/// A run goes on with the replies that are left.
proof fn lemma_unfold(m: SetSampleRate, request: RateRequest, replies: Seq<RateReply>, k: int)
    requires
        0 <= k < replies.len(),
    ensures
        ({
            let whole = run(m, request, replies.skip(k));
            let answers = m.answers(replies[k]);
            match m.next(replies[k]) {
                RateStep::Ask(n, following) => {
                    let rest = run(n, following, replies.skip(k + 1));
                    &&& whole.asked == seq![request] + rest.asked
                    &&& whole.end == rest.end
                    &&& whole.answered == (answers && rest.answered)
                },
                end => {
                    &&& whole.asked == seq![request]
                    &&& whole.end == end
                    &&& whole.answered == (answers && k + 1 == replies.len())
                },
            }
        }),
{
    assert(replies.skip(k)[0] == replies[k]);
    assert(replies.skip(k).drop_first() =~= replies.skip(k + 1));
}

/// The double `x` is no larger than `n`, by its value.
pub open spec fn no_larger(x: Binary64, n: int) -> bool {
    if x.is_finite() {
        x.value() <= n * vstd::arithmetic::power2::pow2(1074)
    } else {
        x.bits == 0xFFF0_0000_0000_0000
    }
}

/// The double `x` is no smaller than `n`, by its value.
pub open spec fn no_smaller(x: Binary64, n: int) -> bool {
    if x.is_finite() {
        x.value() >= n * vstd::arithmetic::power2::pow2(1074)
    } else {
        x.bits == 0x7FF0_0000_0000_0000
    }
}

/// `n` lies between the ends of a range.
pub open spec fn between(range: ValueRange, n: int) -> bool {
    no_larger(range.minimum, n) && no_smaller(range.maximum, n)
}

/// The device runs at another rate than `n`: one that differs from it by one or more, once the
/// difference is rounded to a double, or an infinite one.
pub open spec fn another(x: Binary64, n: int) -> bool {
    let one = vstd::arithmetic::power2::pow2(1074) as int;
    let slack = vstd::arithmetic::power2::pow2(1020) as int;
    let difference = x.value() - n * one;
    if x.is_finite() {
        difference >= one - slack || difference <= slack - one
    } else {
        x.is_infinite()
    }
}

/// The rate is `n`, up to a difference of less than one.
pub open spec fn reached(x: Binary64, n: int) -> bool {
    x.is_finite() && !another(x, n)
}

proof fn lemma_meanings(x: Binary64, n: int)
    ensures
        x.at_most_spec(n) == no_larger(x, n),
        x.at_least_spec(n) == no_smaller(x, n),
        x.off_by_one_spec(n) == another(x, n),
        x.within_one_spec(n) == reached(x, n),
{
    crate::laws::values::law_comparisons(x, n);
    crate::laws::values::law_differences(x, n);
}

/// The nanoseconds that a change of rate may take: the caller's timeout, or a second.
pub open spec fn allowed(timeout: Option<Duration>) -> int {
    match timeout {
        Some(t) => t.secs * 1_000_000_000 + t.nanos,
        None => 1_000_000_000,
    }
}

/// A span in nanoseconds.
pub open spec fn nanos(t: Duration) -> int {
    t.secs * 1_000_000_000 + t.nanos
}

/// A device that runs at the target is left alone.
pub proof fn law_device_at_target(
    device_id: AudioDeviceID,
    target: SampleRate,
    timeout: Option<Duration>,
    rate: Binary64,
)
    requires
        !another(rate, target as int),
    ensures
        ({
            let r = whole_run(
                device_id,
                target,
                timeout,
                seq![RateReply::NominalRate(Ok(rate))],
            );
            &&& r.answered
            &&& r.asked == seq![RateRequest::ReadNominalRate]
            &&& r.end == RateStep::Done(Ok(()))
        }),
{
    lemma_meanings(rate, target as int);
    let m = SetSampleRate::started(device_id, target, timeout)->Ask_0;
    let replies = seq![RateReply::NominalRate(Ok(rate))];
    lemma_unfold(m, RateRequest::ReadNominalRate, replies, 0);
    assert(replies.skip(0) =~= replies);
}

/// A device that runs at another rate, and has a range, whichever it is, that the target lies in,
/// is listened to and set to the target, and then the change is awaited for the time allowed.
pub proof fn law_supported_target_is_written(
    device_id: AudioDeviceID,
    target: SampleRate,
    timeout: Option<Duration>,
    rate: Binary64,
    size: u32,
    ranges: Vec<ValueRange>,
    i: int,
)
    requires
        another(rate, target as int),
        0 <= i < ranges@.len(),
        between(ranges@[i], target as int),
    ensures
        ({
            let r = whole_run(
                device_id,
                target,
                timeout,
                seq![
                    RateReply::NominalRate(Ok(rate)),
                    RateReply::RatesSize(Ok(size)),
                    RateReply::Rates(Ok(ranges)),
                    RateReply::Registered(Ok(())),
                    RateReply::Written(Ok(())),
                ],
            );
            &&& r.answered
            &&& r.asked.len() == 6
            &&& r.asked[0] == RateRequest::ReadNominalRate
            &&& r.asked[1] == RateRequest::MeasureRates
            &&& r.asked[2] == (RateRequest::ReadRates { count: size / 16 })
            &&& r.asked[3] == RateRequest::RegisterListener
            &&& r.asked[4] == RateRequest::WriteNominalRate(target)
            &&& r.asked[5] matches RateRequest::AwaitChange(wait) && nanos(wait) == allowed(timeout)
            &&& r.end matches RateStep::Ask(m, _) && m.stage is Change && m.device_id == device_id
                && m.target == target && m.timeout == timeout
        }),
{
    lemma_meanings(rate, target as int);
    lemma_meanings(ranges@[i].minimum, target as int);
    lemma_meanings(ranges@[i].maximum, target as int);
    assert(ranges@[i].contains_spec(target as int));
    let replies = seq![
        RateReply::NominalRate(Ok(rate)),
        RateReply::RatesSize(Ok(size)),
        RateReply::Rates(Ok(ranges)),
        RateReply::Registered(Ok(())),
        RateReply::Written(Ok(())),
    ];
    let m0 = SetSampleRate::started(device_id, target, timeout)->Ask_0;
    let m1 = m0.next(replies[0])->Ask_0;
    let m2 = m1.next(replies[1])->Ask_0;
    let m3 = m2.next(replies[2])->Ask_0;
    let m4 = m3.next(replies[3])->Ask_0;
    let m5 = m4.next(replies[4])->Ask_0;
    lemma_unfold(m0, RateRequest::ReadNominalRate, replies, 0);
    lemma_unfold(m1, m0.next(replies[0])->Ask_1, replies, 1);
    lemma_unfold(m2, m1.next(replies[1])->Ask_1, replies, 2);
    lemma_unfold(m3, m2.next(replies[2])->Ask_1, replies, 3);
    lemma_unfold(m4, m3.next(replies[3])->Ask_1, replies, 4);
    assert(replies.skip(0) =~= replies);
    assert(replies.skip(5) =~= seq![]);
}

/// A device that runs at another rate and has no range that the target lies in is left as it is,
/// with an error that names the target.
pub proof fn law_unsupported_target_is_refused(
    device_id: AudioDeviceID,
    target: SampleRate,
    timeout: Option<Duration>,
    rate: Binary64,
    size: u32,
    ranges: Vec<ValueRange>,
)
    requires
        another(rate, target as int),
        forall|i: int|
            0 <= i < ranges@.len() ==> !between(#[trigger] ranges@[i], target as int),
    ensures
        ({
            let r = whole_run(
                device_id,
                target,
                timeout,
                seq![
                    RateReply::NominalRate(Ok(rate)),
                    RateReply::RatesSize(Ok(size)),
                    RateReply::Rates(Ok(ranges)),
                ],
            );
            &&& r.answered
            &&& r.asked == seq![
                RateRequest::ReadNominalRate,
                RateRequest::MeasureRates,
                RateRequest::ReadRates { count: size / 16 },
            ]
            &&& r.end == RateStep::Done(
                Err(
                    Error {
                        kind: ErrorKind::UnsupportedConfig,
                        message: Some(Message::SampleRateNotSupported(target)),
                    },
                ),
            )
        }),
{
    lemma_meanings(rate, target as int);
    assert forall|i: int| 0 <= i < ranges@.len() implies !(#[trigger] ranges@[i]).contains_spec(
        target as int,
    ) by {
        lemma_meanings(ranges@[i].minimum, target as int);
        lemma_meanings(ranges@[i].maximum, target as int);
        assert(!between(ranges@[i], target as int));
    }
    let replies = seq![
        RateReply::NominalRate(Ok(rate)),
        RateReply::RatesSize(Ok(size)),
        RateReply::Rates(Ok(ranges)),
    ];
    let m0 = SetSampleRate::started(device_id, target, timeout)->Ask_0;
    let m1 = m0.next(replies[0])->Ask_0;
    let m2 = m1.next(replies[1])->Ask_0;
    lemma_unfold(m0, RateRequest::ReadNominalRate, replies, 0);
    lemma_unfold(m1, m0.next(replies[0])->Ask_1, replies, 1);
    lemma_unfold(m2, m1.next(replies[1])->Ask_1, replies, 2);
    assert(replies.skip(0) =~= replies);
}

/// While the change is awaited, a report of the target ends the wait with success; a report of
/// anything else leaves what is left of the time allowed; and silence and a listener that is gone
/// end it with their own errors.
pub proof fn law_waiting(m: SetSampleRate, rate: Binary64, elapsed: Duration)
    requires
        m.wf(),
        m.stage is Change,
        elapsed.wf(),
    ensures
        m.answers(RateReply::Reported { rate, elapsed }),
        m.answers(RateReply::TimedOut),
        m.answers(RateReply::ListenerLost),
        reached(rate, m.target as int) ==> m.next(RateReply::Reported { rate, elapsed })
            == RateStep::Done(Ok(())),
        !reached(rate, m.target as int) ==> {
            &&& m.next(RateReply::Reported { rate, elapsed }) matches RateStep::Ask(n, request)
            &&& n == m
            &&& request matches RateRequest::AwaitChange(wait)
            &&& wait.wf()
            &&& nanos(wait) == if nanos(elapsed) <= allowed(m.timeout) {
                allowed(m.timeout) - nanos(elapsed)
            } else {
                0
            }
        },
        m.next(RateReply::TimedOut) == RateStep::Done(
            Err(
                Error {
                    kind: ErrorKind::DeviceNotAvailable,
                    message: Some(Message::SampleRateTimedOut),
                },
            ),
        ),
        m.next(RateReply::ListenerLost) == RateStep::Done(
            Err(
                Error {
                    kind: ErrorKind::StreamInvalidated,
                    message: Some(Message::SampleRateListenerLost),
                },
            ),
        ),
{
    lemma_meanings(rate, m.target as int);
    crate::laws::values::law_what_is_left(m.limit(), elapsed);
}

/// A failure of the device, at whichever step, ends the procedure with that failure. An error
/// comes from nothing else but a target that is not supported, silence, or a lost listener.
pub proof fn law_failures_are_passed_on(m: SetSampleRate, reply: RateReply)
    requires
        m.answers(reply),
    ensures
        reply matches RateReply::NominalRate(Err(e)) ==> m.next(reply) == RateStep::Done(Err(e)),
        reply matches RateReply::RatesSize(Err(e)) ==> m.next(reply) == RateStep::Done(Err(e)),
        reply matches RateReply::Rates(Err(e)) ==> m.next(reply) == RateStep::Done(Err(e)),
        reply matches RateReply::Registered(Err(e)) ==> m.next(reply) == RateStep::Done(Err(e)),
        reply matches RateReply::Written(Err(e)) ==> m.next(reply) == RateStep::Done(Err(e)),
        m.next(reply) matches RateStep::Done(Err(_)) ==> match reply {
            RateReply::NominalRate(r) => r is Err,
            RateReply::RatesSize(r) => r is Err,
            RateReply::Registered(r) => r is Err,
            RateReply::Written(r) => r is Err,
            RateReply::Reported { .. } => false,
            _ => true,
        },
{
}

/// Whatever comes of a request, good or bad, answers it.
pub proof fn law_every_outcome_is_taken(m: SetSampleRate, reply: RateReply)
    ensures
        reply is NominalRate ==> (m.answers(reply) <==> m.stage is NominalRate),
        reply is RatesSize ==> (m.answers(reply) <==> m.stage is RatesSize),
        reply is Rates ==> (m.answers(reply) <==> m.stage is Rates),
        reply is Registered ==> (m.answers(reply) <==> m.stage is Listener),
        reply is Written ==> (m.answers(reply) <==> m.stage is Write),
        reply is TimedOut || reply is ListenerLost ==> (m.answers(reply) <==> m.stage is Change),
{
}

} // verus!
