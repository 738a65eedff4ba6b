//! Stream parameters: channel counts, rates, buffer sizes and sample formats.

use vstd::prelude::*;

verus! {

/// A number of channels.
pub type ChannelCount = u16;

/// A number of frames per second.
pub type SampleRate = u32;

/// A number of frames.
pub type FrameCount = u32;

/// The requested size of the device buffer.
#[derive(Clone, Copy, Debug, PartialEq, Eq, Hash, Structural)]
pub enum BufferSize {
    /// Whatever the device is set to.
    Default,
    /// Exactly this many frames.
    Fixed(FrameCount),
}

/// The buffer sizes that a device supports.
#[derive(Clone, Copy, Debug, PartialEq, Eq, Hash, Structural)]
pub enum SupportedBufferSize {
    /// Any number of frames from `min` to `max`, both included.
    Range { min: FrameCount, max: FrameCount },
    /// The device does not say.
    Unknown,
}

/// How a sample is represented.
#[derive(Clone, Copy, Debug, PartialEq, Eq, Hash, Structural)]
#[non_exhaustive]
pub enum SampleFormat {
    I8,
    I16,
    I24,
    I32,
    I64,
    U8,
    U16,
    U24,
    U32,
    U64,
    F32,
    F64,
}

/// The parameters used to open a stream in one direction.
#[derive(Clone, Copy, Debug, PartialEq, Eq, Structural)]
pub struct StreamConfig {
    pub channels: ChannelCount,
    pub sample_rate: SampleRate,
    pub buffer_size: BufferSize,
}

/// One configuration that a device supports.
#[derive(Clone, Copy, Debug, PartialEq, Eq, Structural)]
pub struct SupportedStreamConfig {
    pub channels: ChannelCount,
    pub sample_rate: SampleRate,
    pub buffer_size: SupportedBufferSize,
    pub sample_format: SampleFormat,
}

/// A range of sample rates that a device supports, with all else fixed.
#[derive(Clone, Copy, Debug, PartialEq, Eq, Structural)]
pub struct SupportedStreamConfigRange {
    pub channels: ChannelCount,
    pub min_sample_rate: SampleRate,
    pub max_sample_rate: SampleRate,
    pub buffer_size: SupportedBufferSize,
    pub sample_format: SampleFormat,
}

impl SampleFormat {
    pub open spec fn sample_size_spec(self) -> usize {
        match self {
            SampleFormat::I8 | SampleFormat::U8 => 1,
            SampleFormat::I16 | SampleFormat::U16 => 2,
            SampleFormat::I24 | SampleFormat::U24 => 4,
            SampleFormat::I32 | SampleFormat::U32 | SampleFormat::F32 => 4,
            SampleFormat::I64 | SampleFormat::U64 | SampleFormat::F64 => 8,
        }
    }

    /// The number of bytes a sample takes up in a buffer. A 24-bit sample is kept in four.
    pub fn sample_size(self) -> (r: usize)
        ensures
            r == self.sample_size_spec(),
            1 <= r <= 8,
    {
        match self {
            SampleFormat::I8 | SampleFormat::U8 => 1,
            SampleFormat::I16 | SampleFormat::U16 => 2,
            SampleFormat::I24 | SampleFormat::U24 => 4,
            SampleFormat::I32 | SampleFormat::U32 | SampleFormat::F32 => 4,
            SampleFormat::I64 | SampleFormat::U64 | SampleFormat::F64 => 8,
        }
    }
}

} // verus!
