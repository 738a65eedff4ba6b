//! Setting the physical format of a device.
//!
//! Running the hardware at the requested bit depth and rate avoids conversions. The physical
//! format is looked for among those that the device offers, and set if there is one.

use vstd::prelude::*;

use crate::binary64::Binary64;
use crate::config::{ChannelCount, SampleFormat, SampleRate};
use crate::device::AudioDeviceID;
use crate::error::Error;
use crate::properties::CoreSampleFormat;

verus! {

/// Why the physical format was not set.
#[derive(Debug)]
pub enum PhysicalFormatError {
    /// CoreAudio has no such format, or the device does not offer it.
    UnsupportedStreamFormat,
    /// Setting it failed.
    Backend(Error),
}

/// The physical format to look for. No format flags are asked for.
#[derive(Clone, Copy, Debug, PartialEq, Eq, Structural)]
pub struct PhysicalFormat {
    pub sample_rate: SampleRate,
    pub sample_format: CoreSampleFormat,
    pub channels: u32,
}

/// A stream format as CoreAudio describes it: an `AudioStreamBasicDescription`, field by field.
#[derive(Clone, Copy, Debug, PartialEq, Eq, Structural)]
pub struct StreamDescription {
    pub sample_rate: Binary64,
    pub format_id: u32,
    pub format_flags: u32,
    pub bytes_per_packet: u32,
    pub frames_per_packet: u32,
    pub bytes_per_frame: u32,
    pub channels_per_frame: u32,
    pub bits_per_channel: u32,
    pub reserved: u32,
}

/// CoreAudio's counterpart of a sample format, where it has one.
pub open spec fn core_format_spec(sample_format: SampleFormat) -> Option<CoreSampleFormat> {
    match sample_format {
        SampleFormat::I8 => Some(CoreSampleFormat::I8),
        SampleFormat::I16 => Some(CoreSampleFormat::I16),
        SampleFormat::I24 => Some(CoreSampleFormat::I24),
        SampleFormat::I32 => Some(CoreSampleFormat::I32),
        SampleFormat::F32 => Some(CoreSampleFormat::F32),
        _ => None,
    }
}

/// CoreAudio's counterpart of a sample format, where it has one.
pub fn core_format(sample_format: SampleFormat) -> (r: Option<CoreSampleFormat>)
    ensures
        r == core_format_spec(sample_format),
{
    match sample_format {
        SampleFormat::I8 => Some(CoreSampleFormat::I8),
        SampleFormat::I16 => Some(CoreSampleFormat::I16),
        SampleFormat::I24 => Some(CoreSampleFormat::I24),
        SampleFormat::I32 => Some(CoreSampleFormat::I32),
        SampleFormat::F32 => Some(CoreSampleFormat::F32),
        _ => None,
    }
}

/// What [`SetPhysicalFormat`] waits for.
#[derive(Clone, Copy, Debug, PartialEq, Eq, Structural)]
pub enum PhysicalStage {
    Match,
    /// For the format that was found to be set.
    Write { found: StreamDescription },
}

/// The procedure that sets the physical format of a device.
#[derive(Clone, Copy, Debug, PartialEq, Eq, Structural)]
pub struct SetPhysicalFormat {
    pub device_id: AudioDeviceID,
    pub stage: PhysicalStage,
}

/// What the procedure asks for.
#[derive(Clone, Copy, Debug, PartialEq, Eq, Structural)]
pub enum PhysicalRequest {
    /// Look for a matching format among those that the device offers.
    FindMatch(PhysicalFormat),
    /// Set the format that was found.
    WriteMatch(StreamDescription),
}

/// The reply to a request.
#[derive(Debug)]
pub enum PhysicalReply {
    /// The format that was found, if there is one.
    Match(Option<StreamDescription>),
    Written(Result<(), Error>),
}

/// How the procedure goes on.
#[derive(Debug)]
pub enum PhysicalStep {
    Ask(SetPhysicalFormat, PhysicalRequest),
    /// The format that the device was set to, or why it was not.
    Done(Result<StreamDescription, PhysicalFormatError>),
}

impl SetPhysicalFormat {
    /// `reply` answers what the procedure asked for.
    pub open spec fn answers(self, reply: PhysicalReply) -> bool {
        match self.stage {
            PhysicalStage::Match => reply is Match,
            PhysicalStage::Write { .. } => reply is Written,
        }
    }

    /// How the procedure goes on after `reply`.
    pub open spec fn next(self, reply: PhysicalReply) -> PhysicalStep {
        match reply {
            PhysicalReply::Match(Some(found)) => PhysicalStep::Ask(
                SetPhysicalFormat {
                    device_id: self.device_id,
                    stage: PhysicalStage::Write { found },
                },
                PhysicalRequest::WriteMatch(found),
            ),
            PhysicalReply::Match(None) => PhysicalStep::Done(
                Err(PhysicalFormatError::UnsupportedStreamFormat),
            ),
            PhysicalReply::Written(Ok(_)) => PhysicalStep::Done(Ok(self.stage->found)),
            PhysicalReply::Written(Err(e)) => PhysicalStep::Done(
                Err(PhysicalFormatError::Backend(e)),
            ),
        }
    }

    /// Goes on after the reply to the last request.
    pub fn resume(self, reply: PhysicalReply) -> (r: PhysicalStep)
        requires
            self.answers(reply),
        ensures
            r == self.next(reply),
    {
        match reply {
            PhysicalReply::Match(Some(found)) => PhysicalStep::Ask(
                SetPhysicalFormat {
                    device_id: self.device_id,
                    stage: PhysicalStage::Write { found },
                },
                PhysicalRequest::WriteMatch(found),
            ),
            PhysicalReply::Match(None) => PhysicalStep::Done(
                Err(PhysicalFormatError::UnsupportedStreamFormat),
            ),
            PhysicalReply::Written(Ok(_)) => match self.stage {
                PhysicalStage::Write { found } => PhysicalStep::Done(Ok(found)),
                PhysicalStage::Match => vstd::pervasive::unreached(),
            },
            PhysicalReply::Written(Err(e)) => PhysicalStep::Done(
                Err(PhysicalFormatError::Backend(e)),
            ),
        }
    }

    /// The beginning of the procedure.
    pub open spec fn started(
        device_id: AudioDeviceID,
        sample_rate: SampleRate,
        channels: ChannelCount,
        sample_format: SampleFormat,
    ) -> PhysicalStep {
        match core_format_spec(sample_format) {
            Some(format) => PhysicalStep::Ask(
                SetPhysicalFormat { device_id, stage: PhysicalStage::Match },
                PhysicalRequest::FindMatch(
                    PhysicalFormat {
                        sample_rate,
                        sample_format: format,
                        channels: channels as u32,
                    },
                ),
            ),
            None => PhysicalStep::Done(Err(PhysicalFormatError::UnsupportedStreamFormat)),
        }
    }
}

/// What setting the physical format comes to, whatever is found and whatever becomes of writing
/// it: for a format that CoreAudio has, the one format found is written and, if that succeeds,
/// returned. Without a counterpart or a match nothing is written.
pub proof fn lemma_match_is_applied(
    device_id: AudioDeviceID,
    sample_rate: SampleRate,
    channels: ChannelCount,
    sample_format: SampleFormat,
    found: Option<StreamDescription>,
    written: Result<(), Error>,
)
    ensures
        ({
            let unsupported = PhysicalStep::Done(
                Err(PhysicalFormatError::UnsupportedStreamFormat),
            );
            match SetPhysicalFormat::started(device_id, sample_rate, channels, sample_format) {
                PhysicalStep::Ask(m, request) => {
                    &&& core_format_spec(sample_format) is Some
                    &&& request is FindMatch
                    &&& match found {
                        None => m.next(PhysicalReply::Match(found)) == unsupported,
                        Some(description) => {
                            &&& m.next(PhysicalReply::Match(found)) matches PhysicalStep::Ask(
                                n,
                                write,
                            )
                            &&& write == PhysicalRequest::WriteMatch(description)
                            &&& n.next(PhysicalReply::Written(written)) == PhysicalStep::Done(
                                match written {
                                    Ok(_) => Ok(description),
                                    Err(e) => Err(PhysicalFormatError::Backend(e)),
                                },
                            )
                        },
                    }
                },
                done => core_format_spec(sample_format) is None && done == unsupported,
            }
        }),
{
}

/// Starts setting the physical format of a device.
///
/// A sample format that CoreAudio has no counterpart for is refused without asking the device.
pub fn set_physical_format(
    device_id: AudioDeviceID,
    sample_rate: SampleRate,
    channels: ChannelCount,
    sample_format: SampleFormat,
) -> (r: PhysicalStep)
    ensures
        r == SetPhysicalFormat::started(device_id, sample_rate, channels, sample_format),
{
    match core_format(sample_format) {
        Some(format) => PhysicalStep::Ask(
            SetPhysicalFormat { device_id, stage: PhysicalStage::Match },
            PhysicalRequest::FindMatch(
                PhysicalFormat { sample_rate, sample_format: format, channels: channels as u32 },
            ),
        ),
        None => PhysicalStep::Done(Err(PhysicalFormatError::UnsupportedStreamFormat)),
    }
}

} // verus!
