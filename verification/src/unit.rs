//! The vocabulary of building a stream: what an audio unit is asked to do, and what comes back.

use vstd::prelude::*;

use crate::callback::CallbackVars;
use crate::config::{
    ChannelCount, FrameCount, SampleFormat, SampleRate, StreamConfig, SupportedBufferSize,
};
use crate::device::AudioDeviceID;
use crate::error::Error;
use crate::stream::{DuplexCallbackPtr, Lock, Monitor};
use crate::time::Duration;

verus! {

/// The side of an audio unit that a property belongs to.
#[derive(Clone, Copy, Debug, PartialEq, Eq, Structural)]
pub enum Scope {
    Global,
    Input,
    Output,
}

/// The bus of an audio unit that a property belongs to.
#[derive(Clone, Copy, Debug, PartialEq, Eq, Structural)]
pub enum Element {
    Input,
    Output,
}

/// The kind of an audio unit.
#[derive(Clone, Copy, Debug, PartialEq, Eq, Structural)]
pub enum IoType {
    /// A unit that is pinned to a device.
    HalOutput,
    /// A unit that follows the system's default output.
    DefaultOutput,
}

/// What an audio unit is for.
#[derive(Clone, Copy, Debug, PartialEq, Eq, Structural)]
pub enum AudioUnitMode {
    /// Input from one device.
    Input,
    /// Output to one device.
    Output,
    /// Output to whatever is the system's default output.
    DefaultOutput,
}

/// The direction of a stream.
#[derive(Clone, Copy, Debug, PartialEq, Eq, Structural)]
pub enum Direction {
    Input,
    Output,
}

/// A property of an audio unit, with the value to set.
#[derive(Clone, Copy, Debug, PartialEq, Eq, Structural)]
pub enum UnitProperty {
    /// Whether a bus is switched on.
    EnableIo(u32),
    /// The device that the unit is pinned to.
    CurrentDevice(AudioDeviceID),
    /// The format on the side of the client.
    StreamFormat(StreamConfig, SampleFormat),
    /// The size of the device buffer.
    BufferFrameSize(FrameCount),
}

/// The value of [`UnitProperty::EnableIo`] that switches a bus on.
pub const ENABLED: u32 = 1;

/// What building a stream asks for.
#[derive(Clone, Copy, Debug, PartialEq, Eq, Structural)]
pub enum BuildRequest {
    /// Check that the configuration makes sense.
    Validate(StreamConfig),
    /// Set the physical format of a device.
    SetPhysicalFormat {
        device_id: AudioDeviceID,
        sample_rate: SampleRate,
        channels: ChannelCount,
        sample_format: SampleFormat,
    },
    /// Set the nominal sample rate of a device.
    SetSampleRate {
        device_id: AudioDeviceID,
        sample_rate: SampleRate,
        timeout: Option<Duration>,
    },
    /// Find out whether a device can record.
    ProbeInput { device_id: AudioDeviceID },
    /// Find out whether a device can play.
    ProbeOutput { device_id: AudioDeviceID },
    /// Make an aggregate device that records what another device plays.
    OpenLoopback { device_id: AudioDeviceID },
    /// Make an audio unit of the given kind, without initializing it.
    NewUnit(IoType),
    /// Make an audio unit for input from a device, without initializing it.
    NewInputUnit { device_id: AudioDeviceID },
    /// Set a property of the audio unit.
    SetProperty { scope: Scope, element: Element, property: UnitProperty },
    /// Read the range of buffer sizes of a device.
    ReadBufferRange { device_id: AudioDeviceID },
    /// Read the size of the device buffer from the audio unit.
    ReadBufferFrames { scope: Scope, element: Element },
    /// Read the latency of the device from the audio unit.
    ReadLatency { scope: Scope, element: Element },
    /// Read the safety offset of the device from the audio unit.
    ReadSafetyOffset { scope: Scope, element: Element },
    /// Install the callback of a stream in one direction.
    InstallCallback { direction: Direction, vars: CallbackVars },
    /// Make the state behind the callback of a duplex stream, for a device whose buffer has this
    /// many frames.
    NewDuplexCallback { device_buffer_frames: FrameCount },
    /// Install the callback of a duplex stream.
    InstallDuplexCallback { scope: Scope, element: Element, callback: DuplexCallbackPtr },
    /// Initialize the audio unit.
    Initialize,
    /// Start watching over the device.
    StartMonitor(Monitor),
    /// Take the lock on the stream and start the audio unit.
    Play,
    /// Signal that the stream is ready.
    SignalReady,
}

/// The reply to a request.
#[derive(Debug)]
pub enum BuildReply {
    Done(Result<(), Error>),
    Supported(bool),
    Loopback(Result<AudioDeviceID, Error>),
    BufferRange(Result<SupportedBufferSize, Error>),
    Number(Result<u32, Error>),
    Callback(DuplexCallbackPtr),
    Started(Lock, Result<(), Error>),
    Signalled,
}

/// The request that begins making an audio unit for a device.
pub open spec fn unit_request(device_id: AudioDeviceID, mode: AudioUnitMode) -> BuildRequest {
    match mode {
        AudioUnitMode::DefaultOutput => BuildRequest::NewUnit(IoType::DefaultOutput),
        AudioUnitMode::Input => BuildRequest::NewInputUnit { device_id },
        AudioUnitMode::Output => BuildRequest::NewUnit(IoType::HalOutput),
    }
}

/// The request that pins an audio unit to a device. Which device a unit uses is a property of the
/// device as a whole, so it is always set on the global scope.
pub open spec fn pin_request(device_id: AudioDeviceID) -> BuildRequest {
    BuildRequest::SetProperty {
        scope: Scope::Global,
        element: Element::Output,
        property: UnitProperty::CurrentDevice(device_id),
    }
}

/// Begins making an audio unit for a device.
///
/// In output mode the unit has to be pinned to the device afterwards, see [`pin_device`]: that
/// keeps it from following the system's default output if the device happens to be that.
pub fn audio_unit_from_device(device_id: AudioDeviceID, mode: AudioUnitMode) -> (r: BuildRequest)
    ensures
        r == unit_request(device_id, mode),
{
    match mode {
        AudioUnitMode::DefaultOutput => BuildRequest::NewUnit(IoType::DefaultOutput),
        AudioUnitMode::Input => BuildRequest::NewInputUnit { device_id },
        AudioUnitMode::Output => BuildRequest::NewUnit(IoType::HalOutput),
    }
}

/// Pins an audio unit to a device.
pub fn pin_device(device_id: AudioDeviceID) -> (r: BuildRequest)
    ensures
        r == pin_request(device_id),
{
    BuildRequest::SetProperty {
        scope: Scope::Global,
        element: Element::Output,
        property: UnitProperty::CurrentDevice(device_id),
    }
}

/// The request that sets the size of the device buffer, a property of the device as a whole.
pub open spec fn buffer_size_request(frames: FrameCount) -> BuildRequest {
    BuildRequest::SetProperty {
        scope: Scope::Global,
        element: Element::Output,
        property: UnitProperty::BufferFrameSize(frames),
    }
}

/// Sets the size of the device buffer.
pub fn set_buffer_size(frames: FrameCount) -> (r: BuildRequest)
    ensures
        r == buffer_size_request(frames),
{
    BuildRequest::SetProperty {
        scope: Scope::Global,
        element: Element::Output,
        property: UnitProperty::BufferFrameSize(frames),
    }
}

/// The request that sets the format that the client sees.
///
/// The scopes are turned around: what the client reads is the output side of the input bus, and
/// what it writes is the input side of the output bus.
pub open spec fn format_request(
    direction: Direction,
    config: StreamConfig,
    sample_format: SampleFormat,
) -> BuildRequest {
    BuildRequest::SetProperty {
        scope: match direction {
            Direction::Input => Scope::Output,
            Direction::Output => Scope::Input,
        },
        element: match direction {
            Direction::Input => Element::Input,
            Direction::Output => Element::Output,
        },
        property: UnitProperty::StreamFormat(config, sample_format),
    }
}

/// Sets the format that the client sees.
pub fn set_stream_format(
    direction: Direction,
    config: StreamConfig,
    sample_format: SampleFormat,
) -> (r: BuildRequest)
    ensures
        r == format_request(direction, config, sample_format),
{
    let scope: Scope = match direction {
        Direction::Input => Scope::Output,
        Direction::Output => Scope::Input,
    };
    let element: Element = match direction {
        Direction::Input => Element::Input,
        Direction::Output => Element::Output,
    };
    BuildRequest::SetProperty {
        scope,
        element,
        property: UnitProperty::StreamFormat(config, sample_format),
    }
}

} // verus!
