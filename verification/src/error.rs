//! Errors, their kinds, and the exact text of every message the library makes.

use vstd::prelude::*;
use vstd::string::StringExecFns;

verus! {

/// What went wrong, in terms a caller can act on.
#[derive(Clone, Copy, Debug, PartialEq, Eq, Hash, Structural)]
pub enum ErrorKind {
    /// The device changed while the stream kept running.
    DeviceChanged,
    /// The device is gone or does not answer.
    DeviceNotAvailable,
    /// The backend reported a failure of its own.
    BackendError,
    /// An argument makes no sense.
    InvalidInput,
    /// The system refused real-time scheduling.
    RealtimeDenied,
    /// The stream can no longer be used and must be built anew.
    StreamInvalidated,
    /// The device does not support the requested configuration.
    UnsupportedConfig,
    /// The device does not support the requested operation.
    UnsupportedOperation,
    /// Samples were lost or repeated.
    Xrun,
}

/// What the library was doing when the backend reported a failure.
#[derive(Clone, Copy, Debug, PartialEq, Eq, Structural)]
pub enum Context {
    DeviceName,
    StartUnit,
    StopUnit,
    BufferFrameSize,
    DuplexBufferSize,
}

/// The message of an error.
///
/// `Backend` carries text that CoreAudio supplied; every other message is the library's own.
#[derive(Debug, PartialEq, Eq)]
pub enum Message {
    Backend(String),
    InContext(Context, Option<Box<Message>>),
    SampleRateNotSupported(u32),
    SampleRateTimedOut,
    SampleRateListenerLost,
    CaptureUnderflow,
    PlaybackOverflow,
    UnexpectedScope,
    NotLinearPcm,
    SampleFormatNotSupported,
    NotDuplex,
    BufferSizeOutOfRange { size: u32, min: u32, max: u32 },
    RenderFailed(i32),
    StreamLockPoisoned,
    BuildLockPoisoned,
    DeviceDisconnected,
    SampleRateChanged,
    BufferSizeChanged,
    ListenerThreadLost,
}

/// An error: its kind and, mostly, a message.
#[derive(Debug, PartialEq, Eq)]
pub struct Error {
    pub kind: ErrorKind,
    pub message: Option<Message>,
}

/// The character that writes the decimal digit `d`.
pub open spec fn digit(d: nat) -> char
    recommends
        d < 10,
{
    (48 + d) as char
}

/// `n` in decimal, without leading zeros.
pub open spec fn decimal(n: nat) -> Seq<char>
    decreases n,
{
    if n < 10 {
        seq![digit(n)]
    } else {
        decimal(n / 10).push(digit(n % 10))
    }
}

/// `n` in decimal, with a minus sign in front of a negative number.
pub open spec fn signed_decimal(n: int) -> Seq<char> {
    if n < 0 {
        "-"@ + decimal((-n) as nat)
    } else {
        decimal(n as nat)
    }
}

impl Context {
    pub open spec fn text_spec(self) -> Seq<char> {
        match self {
            Context::DeviceName => "Failed to get device name"@,
            Context::StartUnit => "failed to start audio unit"@,
            Context::StopUnit => "failed to stop audio unit"@,
            Context::BufferFrameSize => "failed to get buffer frame size"@,
            Context::DuplexBufferSize => "failed to query device buffer size"@,
        }
    }

    /// The text of the context.
    pub fn text(self) -> (r: String)
        ensures
            r@ == self.text_spec(),
    {
        let text: &str = match self {
            Context::DeviceName => "Failed to get device name",
            Context::StartUnit => "failed to start audio unit",
            Context::StopUnit => "failed to stop audio unit",
            Context::BufferFrameSize => "failed to get buffer frame size",
            Context::DuplexBufferSize => "failed to query device buffer size",
        };
        text.to_owned()
    }
}

impl Message {
    pub open spec fn text_spec(self) -> Seq<char>
        decreases self,
    {
        match self {
            Message::Backend(text) => text@,
            Message::InContext(context, source) => match source {
                Some(inner) => context.text_spec() + ": "@ + inner.text_spec(),
                None => context.text_spec(),
            },
            Message::SampleRateNotSupported(rate) => "Sample rate "@ + decimal(rate as nat)
                + " Hz is not supported"@,
            Message::SampleRateTimedOut => "Sample rate update timed out"@,
            Message::SampleRateListenerLost => "Sample rate listener disconnected unexpectedly"@,
            Message::CaptureUnderflow => "timestamp underflow computing capture instant"@,
            Message::PlaybackOverflow => "timestamp overflow computing playback instant"@,
            Message::UnexpectedScope => "Unexpected audio property scope"@,
            Message::NotLinearPcm => "Audio format is not linear PCM"@,
            Message::SampleFormatNotSupported =>
                "Sample format is not supported; supported formats are F32 and I16"@,
            Message::NotDuplex => "device does not support both input and output"@,
            Message::BufferSizeOutOfRange { size, min, max } => "Buffer size "@ + decimal(
                size as nat,
            ) + " is not in the supported range "@ + decimal(min as nat) + "..="@ + decimal(
                max as nat,
            ),
            Message::RenderFailed(status) => "AudioUnitRender (input) returned OSStatus "@
                + signed_decimal(status as int),
            Message::StreamLockPoisoned => "stream lock poisoned"@,
            Message::BuildLockPoisoned => "Stream lock poisoned"@,
            Message::DeviceDisconnected => "device disconnected"@,
            Message::SampleRateChanged => "device sample rate changed"@,
            Message::BufferSizeChanged => "device buffer size changed"@,
            Message::ListenerThreadLost => "disconnect listener thread terminated unexpectedly"@,
        }
    }
}

/// Writes one decimal digit behind `out`.
fn append_digit(out: &mut String, d: u32)
    requires
        d < 10,
    ensures
        final(out)@ == old(out)@.push(digit(d as nat)),
{
    let text: &str = match d {
        0 => "0",
        1 => "1",
        2 => "2",
        3 => "3",
        4 => "4",
        5 => "5",
        6 => "6",
        7 => "7",
        8 => "8",
        _ => "9",
    };
    proof {
        reveal_strlit("0");
        reveal_strlit("1");
        reveal_strlit("2");
        reveal_strlit("3");
        reveal_strlit("4");
        reveal_strlit("5");
        reveal_strlit("6");
        reveal_strlit("7");
        reveal_strlit("8");
        reveal_strlit("9");
    }
    out.append(text);
    assert(out@ =~= old(out)@.push(digit(d as nat)));
}

/// Writes `n` in decimal behind `out`.
fn append_decimal(out: &mut String, n: u32)
    ensures
        final(out)@ == old(out)@ + decimal(n as nat),
    decreases n,
{
    if n < 10 {
        append_digit(out, n);
        assert(out@ =~= old(out)@ + decimal(n as nat));
    } else {
        append_decimal(out, n / 10);
        append_digit(out, n % 10);
        assert(out@ =~= old(out)@ + decimal(n as nat));
    }
}

/// Writes `n` in decimal, signed where negative, behind `out`.
fn append_signed_decimal(out: &mut String, n: i32)
    ensures
        final(out)@ == old(out)@ + signed_decimal(n as int),
{
    if n < 0 {
        out.append("-");
        append_decimal(out, (-(n as i64)) as u32);
        assert(out@ =~= old(out)@ + signed_decimal(n as int));
    } else {
        append_decimal(out, n as u32);
    }
}

impl Message {
    /// The text of the message.
    pub fn text(&self) -> (r: String)
        ensures
            r@ == self.text_spec(),
        decreases self,
    {
        let fixed: &str = match self {
            Message::Backend(text) => {
                return text.clone();
            },
            Message::InContext(context, source) => {
                let mut out: String = context.text();
                match source {
                    Some(inner) => {
                        let rest: String = inner.text();
                        out.append(": ");
                        out.append(rest.as_str());
                    },
                    None => {},
                }
                return out;
            },
            Message::SampleRateNotSupported(rate) => {
                let mut out: String = "Sample rate ".to_owned();
                append_decimal(&mut out, *rate);
                out.append(" Hz is not supported");
                return out;
            },
            Message::BufferSizeOutOfRange { size, min, max } => {
                let mut out: String = "Buffer size ".to_owned();
                append_decimal(&mut out, *size);
                out.append(" is not in the supported range ");
                append_decimal(&mut out, *min);
                out.append("..=");
                append_decimal(&mut out, *max);
                return out;
            },
            Message::RenderFailed(status) => {
                let mut out: String = "AudioUnitRender (input) returned OSStatus ".to_owned();
                append_signed_decimal(&mut out, *status);
                return out;
            },
            Message::SampleRateTimedOut => "Sample rate update timed out",
            Message::SampleRateListenerLost => "Sample rate listener disconnected unexpectedly",
            Message::CaptureUnderflow => "timestamp underflow computing capture instant",
            Message::PlaybackOverflow => "timestamp overflow computing playback instant",
            Message::UnexpectedScope => "Unexpected audio property scope",
            Message::NotLinearPcm => "Audio format is not linear PCM",
            Message::SampleFormatNotSupported =>
                "Sample format is not supported; supported formats are F32 and I16",
            Message::NotDuplex => "device does not support both input and output",
            Message::StreamLockPoisoned => "stream lock poisoned",
            Message::BuildLockPoisoned => "Stream lock poisoned",
            Message::DeviceDisconnected => "device disconnected",
            Message::SampleRateChanged => "device sample rate changed",
            Message::BufferSizeChanged => "device buffer size changed",
            Message::ListenerThreadLost => "disconnect listener thread terminated unexpectedly",
        };
        fixed.to_owned()
    }
}

impl Error {
    /// An error with a message.
    pub fn with_message(kind: ErrorKind, message: Message) -> (r: Error)
        ensures
            r == (Error { kind, message: Some(message) }),
    {
        Error { kind, message: Some(message) }
    }

    /// An error that says no more than its kind.
    pub fn from_kind(kind: ErrorKind) -> (r: Error)
        ensures
            r == (Error { kind, message: None }),
    {
        Error { kind, message: None }
    }

    pub open spec fn in_context_spec(self, context: Context) -> Error {
        Error {
            kind: self.kind,
            message: Some(
                Message::InContext(
                    context,
                    match self.message {
                        Some(m) => Some(Box::new(m)),
                        None => None,
                    },
                ),
            ),
        }
    }

    /// The same kind of error, with what was being done put before its message.
    pub fn in_context(self, context: Context) -> (r: Error)
        ensures
            r == self.in_context_spec(context),
    {
        let source: Option<Box<Message>> = match self.message {
            Some(m) => Some(Box::new(m)),
            None => None,
        };
        Error { kind: self.kind, message: Some(Message::InContext(context, source)) }
    }
}

} // verus!
