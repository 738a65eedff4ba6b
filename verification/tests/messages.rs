use duplex_audio::error::{Context, Error, ErrorKind, Message};

#[test]
fn messages_with_numbers() {
    assert_eq!(
        Message::SampleRateNotSupported(44100).text(),
        "Sample rate 44100 Hz is not supported"
    );
    assert_eq!(Message::SampleRateNotSupported(0).text(), "Sample rate 0 Hz is not supported");
    assert_eq!(
        Message::BufferSizeOutOfRange { size: 8, min: 14, max: 4294967295 }.text(),
        "Buffer size 8 is not in the supported range 14..=4294967295"
    );
    assert_eq!(
        Message::RenderFailed(-10863).text(),
        "AudioUnitRender (input) returned OSStatus -10863"
    );
    assert_eq!(
        Message::RenderFailed(i32::MIN).text(),
        "AudioUnitRender (input) returned OSStatus -2147483648"
    );
    assert_eq!(Message::RenderFailed(7).text(), "AudioUnitRender (input) returned OSStatus 7");
}

#[test]
fn messages_without_numbers() {
    let texts = vec![
        (Message::SampleRateTimedOut, "Sample rate update timed out"),
        (Message::SampleRateListenerLost, "Sample rate listener disconnected unexpectedly"),
        (Message::CaptureUnderflow, "timestamp underflow computing capture instant"),
        (Message::PlaybackOverflow, "timestamp overflow computing playback instant"),
        (Message::UnexpectedScope, "Unexpected audio property scope"),
        (Message::NotLinearPcm, "Audio format is not linear PCM"),
        (
            Message::SampleFormatNotSupported,
            "Sample format is not supported; supported formats are F32 and I16",
        ),
        (Message::NotDuplex, "device does not support both input and output"),
        (Message::StreamLockPoisoned, "stream lock poisoned"),
        (Message::BuildLockPoisoned, "Stream lock poisoned"),
        (Message::DeviceDisconnected, "device disconnected"),
        (Message::SampleRateChanged, "device sample rate changed"),
        (Message::BufferSizeChanged, "device buffer size changed"),
        (Message::ListenerThreadLost, "disconnect listener thread terminated unexpectedly"),
        (Message::Backend("no such object".to_string()), "no such object"),
    ];
    for (message, text) in texts {
        assert_eq!(message.text(), text);
    }
}

#[test]
fn context_goes_before_the_message() {
    let contexts = vec![
        (Context::DeviceName, "Failed to get device name"),
        (Context::StartUnit, "failed to start audio unit"),
        (Context::StopUnit, "failed to stop audio unit"),
        (Context::BufferFrameSize, "failed to get buffer frame size"),
        (Context::DuplexBufferSize, "failed to query device buffer size"),
    ];
    for (context, text) in contexts {
        let bare = Error::from_kind(ErrorKind::Xrun).in_context(context);
        assert_eq!(bare.kind, ErrorKind::Xrun);
        assert_eq!(bare.message.unwrap().text(), text);

        let source = Error::with_message(
            ErrorKind::BackendError,
            Message::Backend("Unauthorized".to_string()),
        );
        let error = source.in_context(context);
        assert_eq!(error.kind, ErrorKind::BackendError);
        assert_eq!(error.message.unwrap().text(), format!("{text}: Unauthorized"));
    }
}
