//! Changing the nominal sample rate of a device.
//!
//! The procedure alternates between asking the device something and deciding what to ask next.
//! [`SetSampleRate`] holds the decisions: it is started with a target rate, names the next
//! request, and is resumed with the reply, until it is done.

use vstd::prelude::*;

use crate::binary64::Binary64;
use crate::config::SampleRate;
use crate::device::AudioDeviceID;
use crate::error::{Error, ErrorKind, Message};
use crate::time::Duration;

verus! {

/// A closed range of doubles, such as the device reports for sample rates and buffer sizes.
#[derive(Clone, Copy, Debug, PartialEq, Eq, Structural)]
pub struct ValueRange {
    pub minimum: Binary64,
    pub maximum: Binary64,
}

/// The size in bytes of one range in the device's reply: two doubles.
pub const VALUE_RANGE_BYTES: u32 = 16;

impl ValueRange {
    /// `n` lies in the range.
    pub open spec fn contains_spec(self, n: int) -> bool {
        self.minimum.at_most_spec(n) && self.maximum.at_least_spec(n)
    }

    /// Whether `n` lies in the range.
    pub fn contains(&self, n: u32) -> (r: bool)
        ensures
            r == self.contains_spec(n as int),
    {
        self.minimum.at_most(n) && self.maximum.at_least(n)
    }
}

/// Some range holds the rate `n`.
pub open spec fn supports_rate_spec(ranges: Seq<ValueRange>, n: SampleRate) -> bool {
    exists|i: int| 0 <= i < ranges.len() && (#[trigger] ranges[i]).contains_spec(n as int)
}

/// Whether some range holds the rate `n`.
pub fn supports_rate(ranges: &Vec<ValueRange>, n: SampleRate) -> (r: bool)
    ensures
        r == supports_rate_spec(ranges@, n),
{
    let mut i: usize = 0;
    while i < ranges.len()
        invariant
            i <= ranges@.len(),
            forall|j: int| 0 <= j < i ==> !(#[trigger] ranges@[j]).contains_spec(n as int),
        decreases ranges@.len() - i,
    {
        if ranges[i].contains(n) {
            assert(ranges@[i as int].contains_spec(n as int));
            return true;
        }
        i = i + 1;
    }
    false
}

/// What [`SetSampleRate`] waits for.
#[derive(Clone, Copy, Debug, PartialEq, Eq, Structural)]
pub enum RateStage {
    NominalRate,
    RatesSize,
    Rates,
    Listener,
    Write,
    Change,
}

/// The procedure that brings a device to a target sample rate.
#[derive(Clone, Copy, Debug, PartialEq, Eq, Structural)]
pub struct SetSampleRate {
    pub device_id: AudioDeviceID,
    pub target: SampleRate,
    pub timeout: Option<Duration>,
    pub stage: RateStage,
}

/// What the procedure asks for.
#[derive(Clone, Copy, Debug, PartialEq, Eq, Structural)]
pub enum RateRequest {
    /// Read the current nominal rate.
    ReadNominalRate,
    /// Find out how many bytes the list of supported rates takes up.
    MeasureRates,
    /// Read this many ranges of supported rates.
    ReadRates { count: u32 },
    /// Register a listener for rate changes.
    RegisterListener,
    /// Set the nominal rate.
    WriteNominalRate(SampleRate),
    /// Wait for the listener to report a rate, for this long at most.
    AwaitChange(Duration),
}

/// The reply to a request.
#[derive(Debug)]
pub enum RateReply {
    NominalRate(Result<Binary64, Error>),
    RatesSize(Result<u32, Error>),
    Rates(Result<Vec<ValueRange>, Error>),
    Registered(Result<(), Error>),
    Written(Result<(), Error>),
    /// The listener reported `rate`; `elapsed` has passed since waiting began.
    Reported { rate: Binary64, elapsed: Duration },
    /// Nothing was reported in time.
    TimedOut,
    /// The listener is gone.
    ListenerLost,
}

/// How the procedure goes on.
#[derive(Debug)]
pub enum RateStep {
    Ask(SetSampleRate, RateRequest),
    Done(Result<(), Error>),
}

/// How long to wait for a change of rate where the caller does not say.
pub open spec fn default_timeout() -> Duration {
    Duration { secs: 1, nanos: 0 }
}

/// How long a change of rate may take in all.
pub open spec fn limit_of(timeout: Option<Duration>) -> Duration {
    match timeout {
        Some(t) => t,
        None => default_timeout(),
    }
}

impl SetSampleRate {
    pub open spec fn wf(self) -> bool {
        self.timeout matches Some(t) ==> t.wf()
    }

    /// How long a change of rate may take in all: the caller's timeout, or a second.
    pub open spec fn limit(self) -> Duration {
        limit_of(self.timeout)
    }

    /// `reply` answers what the procedure asked for.
    pub open spec fn answers(self, reply: RateReply) -> bool {
        match self.stage {
            RateStage::NominalRate => reply is NominalRate,
            RateStage::RatesSize => reply is RatesSize,
            RateStage::Rates => reply is Rates,
            RateStage::Listener => reply is Registered,
            RateStage::Write => reply is Written,
            RateStage::Change => match reply {
                RateReply::Reported { elapsed, .. } => elapsed.wf(),
                RateReply::TimedOut => true,
                RateReply::ListenerLost => true,
                _ => false,
            },
        }
    }

    /// The same procedure, waiting for something else.
    pub open spec fn at(self, stage: RateStage) -> SetSampleRate {
        SetSampleRate { device_id: self.device_id, target: self.target, timeout: self.timeout, stage }
    }

    /// How the procedure goes on after `reply`.
    pub open spec fn next(self, reply: RateReply) -> RateStep {
        match reply {
            RateReply::NominalRate(Ok(rate)) => if rate.off_by_one_spec(self.target as int) {
                RateStep::Ask(self.at(RateStage::RatesSize), RateRequest::MeasureRates)
            } else {
                RateStep::Done(Ok(()))
            },
            RateReply::RatesSize(Ok(size)) => RateStep::Ask(
                self.at(RateStage::Rates),
                RateRequest::ReadRates { count: size / VALUE_RANGE_BYTES },
            ),
            RateReply::Rates(Ok(ranges)) => if supports_rate_spec(ranges@, self.target) {
                RateStep::Ask(self.at(RateStage::Listener), RateRequest::RegisterListener)
            } else {
                RateStep::Done(
                    Err(
                        Error {
                            kind: ErrorKind::UnsupportedConfig,
                            message: Some(Message::SampleRateNotSupported(self.target)),
                        },
                    ),
                )
            },
            RateReply::Registered(Ok(_)) => RateStep::Ask(
                self.at(RateStage::Write),
                RateRequest::WriteNominalRate(self.target),
            ),
            RateReply::Written(Ok(_)) => RateStep::Ask(
                self.at(RateStage::Change),
                RateRequest::AwaitChange(self.limit()),
            ),
            RateReply::Reported { rate, elapsed } => if rate.within_one_spec(self.target as int) {
                RateStep::Done(Ok(()))
            } else {
                RateStep::Ask(
                    self.at(RateStage::Change),
                    RateRequest::AwaitChange(self.limit().minus_or_zero_spec(elapsed)),
                )
            },
            RateReply::TimedOut => RateStep::Done(
                Err(
                    Error {
                        kind: ErrorKind::DeviceNotAvailable,
                        message: Some(Message::SampleRateTimedOut),
                    },
                ),
            ),
            RateReply::ListenerLost => RateStep::Done(
                Err(
                    Error {
                        kind: ErrorKind::StreamInvalidated,
                        message: Some(Message::SampleRateListenerLost),
                    },
                ),
            ),
            RateReply::NominalRate(Err(e)) => RateStep::Done(Err(e)),
            RateReply::RatesSize(Err(e)) => RateStep::Done(Err(e)),
            RateReply::Rates(Err(e)) => RateStep::Done(Err(e)),
            RateReply::Registered(Err(e)) => RateStep::Done(Err(e)),
            RateReply::Written(Err(e)) => RateStep::Done(Err(e)),
        }
    }

    fn go(self, stage: RateStage) -> (r: SetSampleRate)
        ensures
            r == self.at(stage),
    {
        SetSampleRate { device_id: self.device_id, target: self.target, timeout: self.timeout, stage }
    }

    fn time_allowed(self) -> (r: Duration)
        requires
            self.wf(),
        ensures
            r == self.limit(),
            r.wf(),
    {
        match self.timeout {
            Some(t) => t,
            None => Duration::new(1, 0),
        }
    }

    /// Goes on after the reply to the last request.
    pub fn resume(self, reply: RateReply) -> (r: RateStep)
        requires
            self.wf(),
            self.answers(reply),
        ensures
            r == self.next(reply),
            r matches RateStep::Ask(m, _) ==> m.wf(),
    {
        match reply {
            RateReply::NominalRate(Ok(rate)) => {
                if rate.off_by_one(self.target) {
                    RateStep::Ask(self.go(RateStage::RatesSize), RateRequest::MeasureRates)
                } else {
                    RateStep::Done(Ok(()))
                }
            },
            RateReply::RatesSize(Ok(size)) => {
                RateStep::Ask(
                    self.go(RateStage::Rates),
                    RateRequest::ReadRates { count: size / VALUE_RANGE_BYTES },
                )
            },
            RateReply::Rates(Ok(ranges)) => {
                if supports_rate(&ranges, self.target) {
                    RateStep::Ask(self.go(RateStage::Listener), RateRequest::RegisterListener)
                } else {
                    RateStep::Done(
                        Err(
                            Error::with_message(
                                ErrorKind::UnsupportedConfig,
                                Message::SampleRateNotSupported(self.target),
                            ),
                        ),
                    )
                }
            },
            RateReply::Registered(Ok(_)) => {
                RateStep::Ask(
                    self.go(RateStage::Write),
                    RateRequest::WriteNominalRate(self.target),
                )
            },
            RateReply::Written(Ok(_)) => {
                RateStep::Ask(
                    self.go(RateStage::Change),
                    RateRequest::AwaitChange(self.time_allowed()),
                )
            },
            RateReply::Reported { rate, elapsed } => {
                if rate.within_one(self.target) {
                    return RateStep::Done(Ok(()));
                }
                let remaining: Duration = self.time_allowed().minus_or_zero(elapsed);
                RateStep::Ask(self.go(RateStage::Change), RateRequest::AwaitChange(remaining))
            },
            RateReply::TimedOut => {
                RateStep::Done(
                    Err(
                        Error::with_message(
                            ErrorKind::DeviceNotAvailable,
                            Message::SampleRateTimedOut,
                        ),
                    ),
                )
            },
            RateReply::ListenerLost => {
                RateStep::Done(
                    Err(
                        Error::with_message(
                            ErrorKind::StreamInvalidated,
                            Message::SampleRateListenerLost,
                        ),
                    ),
                )
            },
            RateReply::NominalRate(Err(e)) => RateStep::Done(Err(e)),
            RateReply::RatesSize(Err(e)) => RateStep::Done(Err(e)),
            RateReply::Rates(Err(e)) => RateStep::Done(Err(e)),
            RateReply::Registered(Err(e)) => RateStep::Done(Err(e)),
            RateReply::Written(Err(e)) => RateStep::Done(Err(e)),
        }
    }
}

/// Starts bringing a device to `target`, which begins with reading its current rate.
///
/// Where the rate has to change, the procedure waits for `timeout` in all, or for a second where
/// there is none, however many other rates are reported meanwhile.
pub fn set_sample_rate(
    device_id: AudioDeviceID,
    target: SampleRate,
    timeout: Option<Duration>,
) -> (r: (SetSampleRate, RateRequest))
    requires
        timeout matches Some(t) ==> t.wf(),
    ensures
        RateStep::Ask(r.0, r.1) == SetSampleRate::started(device_id, target, timeout),
        r.0.wf(),
{
    (SetSampleRate { device_id, target, timeout, stage: RateStage::NominalRate }, RateRequest::ReadNominalRate)
}

impl SetSampleRate {
    /// The beginning of the procedure.
    pub open spec fn started(
        device_id: AudioDeviceID,
        target: SampleRate,
        timeout: Option<Duration>,
    ) -> RateStep {
        RateStep::Ask(
            SetSampleRate { device_id, target, timeout, stage: RateStage::NominalRate },
            RateRequest::ReadNominalRate,
        )
    }

    /// Where the procedure stands after a number of replies.
    pub open spec fn after(
        device_id: AudioDeviceID,
        target: SampleRate,
        timeout: Option<Duration>,
        replies: Seq<RateReply>,
    ) -> RateStep
        decreases replies.len(),
    {
        if replies.len() == 0 {
            SetSampleRate::started(device_id, target, timeout)
        } else {
            match SetSampleRate::after(device_id, target, timeout, replies.drop_last()) {
                RateStep::Ask(m, _) => m.next(replies.last()),
                RateStep::Done(r) => RateStep::Done(r),
            }
        }
    }

    /// Every reply answers the request made at its time.
    pub open spec fn conversation(
        device_id: AudioDeviceID,
        target: SampleRate,
        timeout: Option<Duration>,
        replies: Seq<RateReply>,
    ) -> bool
        decreases replies.len(),
    {
        if replies.len() == 0 {
            timeout matches Some(t) ==> t.wf()
        } else {
            &&& SetSampleRate::conversation(device_id, target, timeout, replies.drop_last())
            &&& SetSampleRate::after(device_id, target, timeout, replies.drop_last()) matches RateStep::Ask(
                m,
                _,
            )
            &&& m.answers(replies.last())
        }
    }

    /// How long the wait for the change has lasted: until the last report, if there was one.
    pub open spec fn waited(replies: Seq<RateReply>) -> nat {
        if replies.len() == 0 {
            0
        } else {
            match replies.last() {
                RateReply::Reported { elapsed, .. } => elapsed@,
                _ => 0,
            }
        }
    }

    /// Every report came within the wait that was asked for.
    pub open spec fn timely(
        device_id: AudioDeviceID,
        target: SampleRate,
        timeout: Option<Duration>,
        replies: Seq<RateReply>,
    ) -> bool
        decreases replies.len(),
    {
        replies.len() > 0 ==> {
            let before = replies.drop_last();
            &&& SetSampleRate::timely(device_id, target, timeout, before)
            &&& replies.last() is Reported ==> (match SetSampleRate::after(
                device_id,
                target,
                timeout,
                before,
            ) {
                RateStep::Ask(_, RateRequest::AwaitChange(wait)) => SetSampleRate::waited(replies)
                    <= SetSampleRate::waited(before) + wait@,
                _ => false,
            })
        }
    }

    /// The device was found at another rate, and supports the target.
    pub open spec fn change_possible(target: SampleRate, replies: Seq<RateReply>) -> bool {
        &&& replies.len() >= 3
        &&& replies[0] matches RateReply::NominalRate(Ok(rate)) && rate.off_by_one_spec(
            target as int,
        )
        &&& replies[2] matches RateReply::Rates(Ok(ranges)) && supports_rate_spec(ranges@, target)
    }
}

/// What has happened by the time the procedure waits for something.
proof fn lemma_history(
    device_id: AudioDeviceID,
    target: SampleRate,
    timeout: Option<Duration>,
    replies: Seq<RateReply>,
)
    requires
        SetSampleRate::conversation(device_id, target, timeout, replies),
    ensures
        SetSampleRate::after(device_id, target, timeout, replies) matches RateStep::Ask(m, request) ==> {
            &&& m.wf()
            &&& m.device_id == device_id
            &&& m.target == target
            &&& m.timeout == timeout
            &&& match m.stage {
                RateStage::NominalRate => replies.len() == 0 && request
                    == RateRequest::ReadNominalRate,
                RateStage::RatesSize => replies.len() == 1 && request == RateRequest::MeasureRates
                    && (replies[0] matches RateReply::NominalRate(Ok(rate))
                    && rate.off_by_one_spec(target as int)),
                RateStage::Rates => replies.len() == 2 && request is ReadRates && (
                replies[0] matches RateReply::NominalRate(Ok(rate)) && rate.off_by_one_spec(
                    target as int,
                )),
                RateStage::Listener => replies.len() == 3 && request
                    == RateRequest::RegisterListener && SetSampleRate::change_possible(
                    target,
                    replies,
                ),
                RateStage::Write => replies.len() == 4 && request == RateRequest::WriteNominalRate(
                    target,
                ) && SetSampleRate::change_possible(target, replies) && (
                replies[3] matches RateReply::Registered(Ok(_))),
                RateStage::Change => replies.len() >= 5 && SetSampleRate::change_possible(
                    target,
                    replies,
                ) && (replies[3] matches RateReply::Registered(Ok(_))) && (
                replies[4] matches RateReply::Written(Ok(_))) && (
                request matches RateRequest::AwaitChange(wait) && wait@ == left_of(
                    limit_of(timeout)@,
                    SetSampleRate::waited(replies),
                )),
            }
        },
    decreases replies.len(),
{
    if replies.len() > 0 {
        let before = replies.drop_last();
        lemma_history(device_id, target, timeout, before);
        assert(forall|i: int| 0 <= i < before.len() ==> before[i] == replies[i]);
        match SetSampleRate::after(device_id, target, timeout, before) {
            RateStep::Ask(m, _) => {
                if let RateReply::Reported { rate, elapsed } = replies.last() {
                    lemma_remaining(m.limit(), elapsed);
                }
            },
            RateStep::Done(_) => {},
        }
    }
}

/// What is left of `limit` after `spent`: nothing once it is used up.
pub open spec fn left_of(limit: nat, spent: nat) -> nat {
    if spent <= limit {
        (limit - spent) as nat
    } else {
        0
    }
}

proof fn lemma_remaining(limit: Duration, elapsed: Duration)
    requires
        limit.wf(),
        elapsed.wf(),
    ensures
        limit.minus_or_zero_spec(elapsed).wf(),
        limit.minus_or_zero_spec(elapsed)@ == left_of(limit@, elapsed@),
{
    if elapsed@ <= limit@ {
        let n = (limit@ - elapsed@) as nat;
        vstd::arithmetic::div_mod::lemma_fundamental_div_mod(
            n as int,
            crate::time::NANOS_PER_SEC as int,
        );
    }
}

/// The procedure succeeds only on a device that runs at the target rate: either it was found
/// there to begin with, or the last thing it reported is the target.
pub proof fn lemma_success_means_target_rate(
    device_id: AudioDeviceID,
    target: SampleRate,
    timeout: Option<Duration>,
    replies: Seq<RateReply>,
)
    requires
        SetSampleRate::conversation(device_id, target, timeout, replies),
        SetSampleRate::after(device_id, target, timeout, replies) == RateStep::Done(Ok(())),
    ensures
        ({
            ||| replies.len() == 1 && (replies[0] matches RateReply::NominalRate(Ok(rate))
                && !rate.off_by_one_spec(target as int))
            ||| replies.len() >= 6 && (replies.last() matches RateReply::Reported { rate, .. }
                && rate.within_one_spec(target as int)) && SetSampleRate::change_possible(
                target,
                replies,
            )
        }),
{
    let before = replies.drop_last();
    lemma_history(device_id, target, timeout, before);
    assert(forall|i: int| 0 <= i < before.len() ==> before[i] == replies[i]);
}

/// The rate is written only where it has to change and the device supports it, and only after a
/// listener was registered, so that the change cannot go unnoticed.
pub proof fn lemma_write_is_guarded(
    device_id: AudioDeviceID,
    target: SampleRate,
    timeout: Option<Duration>,
    replies: Seq<RateReply>,
    written: SampleRate,
)
    requires
        SetSampleRate::conversation(device_id, target, timeout, replies),
        SetSampleRate::after(device_id, target, timeout, replies) matches RateStep::Ask(_, request)
            && request == RateRequest::WriteNominalRate(written),
    ensures
        written == target,
        SetSampleRate::change_possible(target, replies),
        replies.last() matches RateReply::Registered(Ok(_)),
{
    lemma_history(device_id, target, timeout, replies);
}

/// Whatever has been reported so far, the next wait lasts until exactly the caller's timeout, or a
/// second where there is none, has passed since waiting began. Once that time is over, there is
/// no more waiting.
pub proof fn lemma_waits_are_bounded(
    device_id: AudioDeviceID,
    target: SampleRate,
    timeout: Option<Duration>,
    replies: Seq<RateReply>,
    wait: Duration,
)
    requires
        SetSampleRate::conversation(device_id, target, timeout, replies),
        SetSampleRate::after(device_id, target, timeout, replies) matches RateStep::Ask(_, request)
            && request == RateRequest::AwaitChange(wait),
    ensures
        SetSampleRate::waited(replies) <= limit_of(timeout)@ ==> SetSampleRate::waited(replies)
            + wait@ == limit_of(timeout)@,
        SetSampleRate::waited(replies) > limit_of(timeout)@ ==> wait@ == 0,
{
    lemma_history(device_id, target, timeout, replies);
}

/// As long as every report comes within the wait that was asked for, all the waits together, the
/// next one included, come to exactly the time allowed, and never to more.
pub proof fn lemma_waits_together(
    device_id: AudioDeviceID,
    target: SampleRate,
    timeout: Option<Duration>,
    replies: Seq<RateReply>,
    wait: Duration,
)
    requires
        SetSampleRate::conversation(device_id, target, timeout, replies),
        SetSampleRate::timely(device_id, target, timeout, replies),
        SetSampleRate::after(device_id, target, timeout, replies) matches RateStep::Ask(_, request)
            && request == RateRequest::AwaitChange(wait),
    ensures
        SetSampleRate::waited(replies) + wait@ == limit_of(timeout)@,
    decreases replies.len(),
{
    lemma_history(device_id, target, timeout, replies);
    if replies.last() is Reported {
        let before = replies.drop_last();
        lemma_history(device_id, target, timeout, before);
        let earlier = SetSampleRate::after(device_id, target, timeout, before)->Ask_1;
        lemma_waits_together(device_id, target, timeout, before, earlier->AwaitChange_0);
    }
}

/// A report of the target that comes within the time allowed is waited for, and ends the
/// procedure with success, whatever was reported before it.
pub proof fn lemma_report_in_time_succeeds(
    device_id: AudioDeviceID,
    target: SampleRate,
    timeout: Option<Duration>,
    replies: Seq<RateReply>,
    wait: Duration,
    rate: Binary64,
    elapsed: Duration,
)
    requires
        SetSampleRate::conversation(device_id, target, timeout, replies),
        SetSampleRate::after(device_id, target, timeout, replies) matches RateStep::Ask(_, request)
            && request == RateRequest::AwaitChange(wait),
        rate.within_one_spec(target as int),
        SetSampleRate::waited(replies) <= elapsed@ <= limit_of(timeout)@,
    ensures
        elapsed@ <= SetSampleRate::waited(replies) + wait@,
        SetSampleRate::after(
            device_id,
            target,
            timeout,
            replies.push(RateReply::Reported { rate, elapsed }),
        ) == RateStep::Done(Ok(())),
{
    lemma_history(device_id, target, timeout, replies);
    assert(replies.push(RateReply::Reported { rate, elapsed }).drop_last() =~= replies);
}

/// After a report of another rate, the wait that follows and the time since waiting began make up
/// exactly the time allowed. Once that is over, there is no more waiting.
pub proof fn lemma_wait_shrinks(m: SetSampleRate, rate: Binary64, elapsed: Duration)
    requires
        m.wf(),
        m.stage is Change,
        elapsed.wf(),
        !rate.within_one_spec(m.target as int),
    ensures
        m.next(RateReply::Reported { rate, elapsed }) matches RateStep::Ask(_, request)
            && (request matches RateRequest::AwaitChange(wait) && if elapsed@ < m.limit()@ {
            wait@ + elapsed@ == m.limit()@
        } else {
            wait@ == 0
        }),
{
    lemma_remaining(m.limit(), elapsed);
}

} // verus!
