//! Numbers, times, sizes and texts.

use vstd::prelude::*;

use crate::binary64::Binary64;
use crate::config::SampleFormat;
use crate::error::{Context, Error, ErrorKind, Message};
use crate::time::{Duration, StreamInstant};

verus! {

/// The bit pattern of a double with the given sign, biased exponent and fraction.
pub open spec fn assembled(negative: bool, exponent: nat, fraction: nat) -> Binary64 {
    Binary64 {
        bits: ((if negative {
            0x8000_0000_0000_0000int
        } else {
            0
        }) + exponent * 0x10_0000_0000_0000 + fraction) as u64,
    }
}

/// What a bit pattern stands for, put together from its parts, counted in units of `2^-1074`: a
/// subnormal number counts its fraction, and a normal one its fraction behind a leading bit, with
/// every step of the exponent twice as much.
pub proof fn law_value_of_bits(negative: bool, exponent: nat, fraction: nat)
    requires
        exponent < 2047,
        fraction < 0x10_0000_0000_0000,
    ensures
        ({
            let x = assembled(negative, exponent, fraction);
            let magnitude: int = if exponent == 0 {
                fraction as int
            } else {
                (0x10_0000_0000_0000 + fraction as int) * vstd::arithmetic::power2::pow2(
                    (exponent - 1) as nat,
                )
            };
            &&& x.is_finite() && !x.is_nan() && !x.is_infinite()
            &&& x.value() == if negative {
                -magnitude
            } else {
                magnitude
            }
        }),
{
    let x = assembled(negative, exponent, fraction);
    vstd::arithmetic::power2::lemma2_to64();
    assert(x.exponent() == exponent);
    assert(x.fraction() == fraction);
    assert(x.negative() == negative);
    assert(fraction * 1 == fraction);
}

/// The patterns with the highest exponent are the infinities and the NaNs.
pub proof fn law_special_bits(negative: bool, fraction: nat)
    requires
        fraction < 0x10_0000_0000_0000,
    ensures
        ({
            let x = assembled(negative, 2047, fraction);
            &&& !x.is_finite()
            &&& x.is_infinite() <==> fraction == 0
            &&& x.is_nan() <==> fraction != 0
        }),
{
}

/// A double is compared with a whole number by its value. The infinities lie beyond all of them,
/// and a NaN compares with none.
pub proof fn law_comparisons(x: Binary64, n: int)
    ensures
        x.is_finite() ==> (x.at_most_spec(n) <==> x.value() <= n
            * vstd::arithmetic::power2::pow2(1074)),
        x.is_finite() ==> (x.at_least_spec(n) <==> x.value() >= n
            * vstd::arithmetic::power2::pow2(1074)),
        x.at_most_spec(n) && !x.is_finite() <==> x.bits == 0xFFF0_0000_0000_0000,
        x.at_least_spec(n) && !x.is_finite() <==> x.bits == 0x7FF0_0000_0000_0000,
{
}

/// A finite double differs from a whole number by at least one, or by less, according to the
/// difference rounded to a double: what falls short of one by no more than `2^-54` rounds to one.
/// The infinities differ from every number, and a NaN neither differs nor is near.
pub proof fn law_differences(x: Binary64, n: int)
    ensures
        ({
            let one = vstd::arithmetic::power2::pow2(1074) as int;
            let slack = vstd::arithmetic::power2::pow2(1020) as int;
            let above = x.value() - n * one;
            let below = n * one - x.value();
            &&& x.is_finite() ==> (x.within_one_spec(n) <==> above + slack < one && below + slack
                < one)
            &&& x.is_finite() ==> (x.off_by_one_spec(n) <==> above + slack >= one || below + slack
                >= one)
            &&& x.is_infinite() ==> x.off_by_one_spec(n) && !x.within_one_spec(n)
            &&& x.is_nan() ==> !x.off_by_one_spec(n) && !x.within_one_spec(n)
        }),
{
    vstd::arithmetic::power2::lemma_pow2_pos(1074);
    vstd::arithmetic::power2::lemma_pow2_pos(1020);
    vstd::arithmetic::power2::lemma_pow2_strictly_increases(1020, 1074);
}

/// Rounding to `u32` gives the whole number just at or below the value. Values below zero and NaNs
/// give zero, and values that are too large give the largest number.
pub proof fn law_rounding(x: Binary64)
    ensures
        ({
            let one = vstd::arithmetic::power2::pow2(1074) as int;
            let r = x.to_u32_spec();
            &&& x.is_finite() && x.value() < 0 ==> r == 0
            &&& x.is_finite() && 0 <= x.value() < 0x1_0000_0000 * one ==> r * one <= x.value() < (r
                + 1) * one
            &&& x.is_finite() && x.value() >= 0x1_0000_0000 * one ==> r == 0xFFFF_FFFF
            &&& x.is_nan() ==> r == 0
            &&& x.bits == 0x7FF0_0000_0000_0000 ==> r == 0xFFFF_FFFF
            &&& x.bits == 0xFFF0_0000_0000_0000 ==> r == 0
        }),
{
    let one = vstd::arithmetic::power2::pow2(1074) as int;
    vstd::arithmetic::power2::lemma_pow2_pos(1074);
    let m = x.magnitude() as int;
    let q = m / one;
    vstd::arithmetic::div_mod::lemma_fundamental_div_mod(m, one);
    vstd::arithmetic::div_mod::lemma_mod_bound(m, one);
    assert(q * one <= m < (q + 1) * one) by (nonlinear_arith)
        requires
            m == one * q + m % one,
            0 <= m % one < one,
    ;
    assert(q > 0xFFFF_FFFF <==> m >= 0x1_0000_0000 * one) by (nonlinear_arith)
        requires
            q * one <= m < (q + 1) * one,
            one > 0,
    ;
    assert(0 <= q) by (nonlinear_arith)
        requires
            m >= 0,
            m < (q + 1) * one,
            one > 0,
    ;
    if x.is_finite() && x.value() == 0 {
        assert(q == 0) by (nonlinear_arith)
            requires
                m == 0,
                q * one <= m,
                0 <= q,
                one > 0,
        ;
    }
}

/// The number of bits in a sample of a format.
pub open spec fn bits_in(format: SampleFormat) -> int {
    match format {
        SampleFormat::I8 => 8,
        SampleFormat::U8 => 8,
        SampleFormat::I16 => 16,
        SampleFormat::U16 => 16,
        SampleFormat::I24 => 24,
        SampleFormat::U24 => 24,
        SampleFormat::I32 => 32,
        SampleFormat::U32 => 32,
        SampleFormat::F32 => 32,
        SampleFormat::I64 => 64,
        SampleFormat::U64 => 64,
        SampleFormat::F64 => 64,
    }
}

/// A sample takes up the smallest power of two of bytes that holds its bits.
pub proof fn law_sample_sizes(format: SampleFormat)
    ensures
        ({
            let size = format.sample_size_spec();
            &&& size == 1 || size == 2 || size == 4 || size == 8
            &&& 4 * size < bits_in(format) <= 8 * size
        }),
{
}

/// Spans and instants are counted in nanoseconds, of which a second has a thousand million.
pub proof fn law_nanoseconds(span: Duration, instant: StreamInstant)
    ensures
        span@ == span.secs * 1_000_000_000 + span.nanos,
        instant@ == instant.secs * 1_000_000_000 + instant.nanos,
        span.wf() <==> span.nanos < 1_000_000_000,
        instant.wf() <==> instant.nanos < 1_000_000_000,
{
}

/// What is left of a span after another is their difference, or nothing.
pub proof fn law_what_is_left(span: Duration, spent: Duration)
    requires
        span.wf(),
        spent.wf(),
    ensures
        ({
            let left = span.minus_or_zero_spec(spent);
            let a = span.secs * 1_000_000_000 + span.nanos;
            let b = spent.secs * 1_000_000_000 + spent.nanos;
            &&& left.nanos < 1_000_000_000
            &&& left.secs * 1_000_000_000 + left.nanos == if b <= a {
                a - b
            } else {
                0
            }
        }),
{
    if spent@ <= span@ {
        let n = (span@ - spent@) as nat;
        vstd::arithmetic::div_mod::lemma_fundamental_div_mod(n as int, 1_000_000_000);
    }
}

/// Frames were captured exactly `delay` before the callback. Where that lies before the origin of
/// the clock, they count as captured at the callback, and that is reported.
pub proof fn law_capture(callback: StreamInstant, delay: Duration)
    requires
        callback.wf(),
        delay.wf(),
    ensures
        ({
            let capture = crate::time::captured_at(callback, delay);
            let c = callback.secs * 1_000_000_000 + callback.nanos;
            let d = delay.secs * 1_000_000_000 + delay.nanos;
            let errors = crate::time::capture_errors(callback, delay);
            if d <= c {
                &&& capture.nanos < 1_000_000_000
                &&& capture.secs * 1_000_000_000 + capture.nanos == c - d
                &&& errors.len() == 0
            } else {
                &&& capture == callback
                &&& errors == seq![
                    Error {
                        kind: ErrorKind::BackendError,
                        message: Some(Message::CaptureUnderflow),
                    },
                ]
            }
        }),
{
    crate::time::lemma_callback_between(callback, delay);
}

/// Frames will be played exactly `delay` after the callback. Where that is too late to be
/// represented, they count as played at the callback, and that is reported.
pub proof fn law_playback(callback: StreamInstant, delay: Duration)
    requires
        callback.wf(),
        delay.wf(),
    ensures
        ({
            let playback = crate::time::played_at(callback, delay);
            let c = callback.secs * 1_000_000_000 + callback.nanos;
            let d = delay.secs * 1_000_000_000 + delay.nanos;
            let errors = crate::time::playback_errors(callback, delay);
            if c + d < 0x1_0000_0000_0000_0000 * 1_000_000_000 {
                &&& playback.nanos < 1_000_000_000
                &&& playback.secs * 1_000_000_000 + playback.nanos == c + d
                &&& errors.len() == 0
            } else {
                &&& playback == callback
                &&& errors == seq![
                    Error {
                        kind: ErrorKind::BackendError,
                        message: Some(Message::PlaybackOverflow),
                    },
                ]
            }
        }),
{
    crate::time::lemma_callback_between(callback, delay);
}

/// The number that decimal digits stand for.
pub open spec fn read_back(digits: Seq<char>) -> int
    decreases digits.len(),
{
    if digits.len() == 0 {
        0
    } else {
        read_back(digits.drop_last()) * 10 + (digits.last() as int - '0' as int)
    }
}

/// A number in decimal is made of digits, without a leading zero, and reads back as the number.
pub proof fn law_decimal(n: nat, i: int)
    ensures
        ({
            let digits = crate::error::decimal(n);
            &&& digits.len() > 0
            &&& read_back(digits) == n
            &&& 0 <= i < digits.len() ==> '0' <= digits[i] <= '9'
            &&& digits[0] == '0' ==> n == 0 && digits.len() == 1
        }),
    decreases n,
{
    let digits = crate::error::decimal(n);
    if n < 10 {
        assert(digits.drop_last() =~= seq![]);
        reveal_with_fuel(read_back, 2);
    } else {
        law_decimal(n / 10, i);
        law_decimal(n / 10, 0);
        assert(digits.drop_last() =~= crate::error::decimal(n / 10));
    }
}

/// A negative number in decimal has a minus sign in front of the digits of its opposite.
pub proof fn law_signed_decimal(n: nat)
    ensures
        crate::error::signed_decimal(n as int) == crate::error::decimal(n),
        n > 0 ==> crate::error::signed_decimal(-(n as int)) == "-"@ + crate::error::decimal(n),
{
}

/// The texts of messages that carry values: numbers in decimal, between fixed words, and text of
/// the backend as it is.
pub proof fn law_texts_with_values(
    text: String,
    rate: u32,
    size: u32,
    min: u32,
    max: u32,
    status: i32,
)
    ensures
        Message::Backend(text).text_spec() == text@,
        Message::SampleRateNotSupported(rate).text_spec() == "Sample rate "@
            + crate::error::decimal(rate as nat) + " Hz is not supported"@,
        (Message::BufferSizeOutOfRange { size, min, max }).text_spec() == "Buffer size "@
            + crate::error::decimal(size as nat) + " is not in the supported range "@
            + crate::error::decimal(min as nat) + "..="@ + crate::error::decimal(max as nat),
        Message::RenderFailed(status).text_spec() == "AudioUnitRender (input) returned OSStatus "@
            + crate::error::signed_decimal(status as int),
{
}

/// The texts of messages that carry nothing.
pub proof fn law_fixed_texts()
    ensures
        Message::SampleRateTimedOut.text_spec() == "Sample rate update timed out"@,
        Message::SampleRateListenerLost.text_spec()
            == "Sample rate listener disconnected unexpectedly"@,
        Message::CaptureUnderflow.text_spec() == "timestamp underflow computing capture instant"@,
        Message::PlaybackOverflow.text_spec() == "timestamp overflow computing playback instant"@,
        Message::UnexpectedScope.text_spec() == "Unexpected audio property scope"@,
        Message::NotLinearPcm.text_spec() == "Audio format is not linear PCM"@,
        Message::SampleFormatNotSupported.text_spec()
            == "Sample format is not supported; supported formats are F32 and I16"@,
        Message::NotDuplex.text_spec() == "device does not support both input and output"@,
        Message::StreamLockPoisoned.text_spec() == "stream lock poisoned"@,
        Message::BuildLockPoisoned.text_spec() == "Stream lock poisoned"@,
        Message::DeviceDisconnected.text_spec() == "device disconnected"@,
        Message::SampleRateChanged.text_spec() == "device sample rate changed"@,
        Message::BufferSizeChanged.text_spec() == "device buffer size changed"@,
        Message::ListenerThreadLost.text_spec()
            == "disconnect listener thread terminated unexpectedly"@,
{
}

/// An error in context keeps its kind. Its text is that of the context, followed by that of the
/// error, if it has one.
pub proof fn law_context(error: Error, context: Context)
    ensures
        ({
            let r = error.in_context_spec(context);
            &&& r.kind == error.kind
            &&& r.message matches Some(message) && message.text_spec() == match error.message {
                Some(inner) => context.text_spec() + ": "@ + inner.text_spec(),
                None => context.text_spec(),
            }
        }),
{
    reveal_with_fuel(Message::text_spec, 3);
}

/// What was being done, in words.
pub proof fn law_context_texts(context: Context)
    ensures
        context.text_spec() == match context {
            Context::DeviceName => "Failed to get device name"@,
            Context::StartUnit => "failed to start audio unit"@,
            Context::StopUnit => "failed to stop audio unit"@,
            Context::BufferFrameSize => "failed to get buffer frame size"@,
            Context::DuplexBufferSize => "failed to query device buffer size"@,
        },
{
}

} // verus!
