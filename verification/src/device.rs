//! Devices, and what they say of themselves.

use vstd::prelude::*;

use crate::config::{ChannelCount, SupportedStreamConfigRange};
use crate::error::{Context, Error, ErrorKind};
use crate::status::{OSStatus, NO_ERROR};

verus! {

/// The number by which CoreAudio knows a device.
pub type AudioDeviceID = u32;

/// The direction that a device property is about, as a four-character code.
pub type AudioObjectPropertyScope = u32;

/// The scope of properties of the input direction, `'inpt'`.
pub const SCOPE_INPUT: AudioObjectPropertyScope = 0x696e_7074;

/// The scope of properties of the output direction, `'outp'`.
pub const SCOPE_OUTPUT: AudioObjectPropertyScope = 0x6f75_7470;

/// The class of devices that combine others, `'aagg'`.
pub const AGGREGATE_DEVICE_CLASS: u32 = 0x6161_6767;

/// An audio device.
///
/// Two devices are equal if they have the same ID, however they were come by.
#[derive(Clone, Copy, Debug)]
pub struct Device {
    pub audio_device_id: AudioDeviceID,
    /// Whether the device stands for the system's default output, whatever that is.
    pub is_default_output: bool,
}

impl PartialEq for Device {
    fn eq(&self, other: &Device) -> (r: bool) {
        self.audio_device_id == other.audio_device_id
    }
}

impl vstd::std_specs::cmp::PartialEqSpecImpl for Device {
    open spec fn obeys_eq_spec() -> bool {
        true
    }

    open spec fn eq_spec(&self, other: &Device) -> bool {
        self.audio_device_id == other.audio_device_id
    }
}

impl Eq for Device {

}

/// Feeds a number to a hasher, with the standard library's `Hash` for `u32`.
///
/// Nothing is claimed of what the hasher makes of it. Contracts speak of this function to say
/// what is fed to a hasher.
#[verifier::external_body]
pub fn feed<H: std::hash::Hasher>(key: u32, state: &mut H) {
    std::hash::Hash::hash(&key, state)
}

/// Calls `f`, which feeds a number to a hasher.
fn feed_by<H: std::hash::Hasher, F: Fn(u32, &mut H)>(f: F, key: u32, state: &mut H)
    requires
        forall|s: &mut H| #[trigger] call_requires(f, (key, s)),
    ensures
        exists|s: &mut H|
            *s == *old(state) && *final(s) == *final(state) && #[trigger] call_ensures(
                f,
                (key, s),
                (),
            ),
{
    f(key, state)
}

impl std::hash::Hash for Device {
    /// Feeds the ID to the hasher, and nothing else.
    fn hash<H: std::hash::Hasher>(&self, state: &mut H)
        ensures
            exists|s: &mut H|
                *s == *old(state) && *final(s) == *final(state) && #[trigger] call_ensures(
                    crate::device::feed::<H>,
                    (self.hash_key_spec(), s),
                    (),
                ),
    {
        feed_by(feed::<H>, self.hash_key(), state)
    }
}

/// In which directions a device can be used.
#[derive(Clone, Copy, Debug, PartialEq, Eq, Hash, Structural)]
pub enum DeviceDirection {
    Input,
    Output,
    Duplex,
    Unknown,
}

/// How a device is attached.
#[derive(Clone, Copy, Debug, PartialEq, Eq, Hash, Structural)]
pub enum InterfaceType {
    /// The device combines others.
    Aggregate,
    Unknown,
}

/// What there is to tell of a device.
#[derive(Debug, PartialEq, Eq)]
pub struct DeviceDescription {
    pub name: String,
    pub direction: DeviceDirection,
    pub interface_type: InterfaceType,
}

/// The name by which a device is found again: its UID on the CoreAudio host.
#[derive(Debug, PartialEq, Eq)]
pub struct DeviceId {
    pub uid: String,
}

/// The low 16 bits of a count, as it is kept in a [`ChannelCount`].
pub open spec fn to_channel_count(n: nat) -> ChannelCount {
    (n % 0x1_0000) as ChannelCount
}

/// The directions in which there is anything to use, by the number of configurations in each.
/// No configurations are as good as none known.
pub open spec fn direction_spec(
    input: Option<ChannelCount>,
    output: Option<ChannelCount>,
) -> DeviceDirection {
    let has_input = input matches Some(n) && n > 0;
    let has_output = output matches Some(n) && n > 0;
    if has_input && has_output {
        DeviceDirection::Duplex
    } else if has_input {
        DeviceDirection::Input
    } else if has_output {
        DeviceDirection::Output
    } else {
        DeviceDirection::Unknown
    }
}

/// The directions of a device, by the number of its configurations in each.
pub fn direction_from_counts(input: Option<ChannelCount>, output: Option<ChannelCount>) -> (r:
    DeviceDirection)
    ensures
        r == direction_spec(input, output),
{
    let has_input: bool = match input {
        Some(n) => n > 0,
        None => false,
    };
    let has_output: bool = match output {
        Some(n) => n > 0,
        None => false,
    };
    if has_input && has_output {
        DeviceDirection::Duplex
    } else if has_input {
        DeviceDirection::Input
    } else if has_output {
        DeviceDirection::Output
    } else {
        DeviceDirection::Unknown
    }
}

/// The number of configurations, where they could be had, as it is kept in a [`ChannelCount`].
pub open spec fn config_count(
    configs: Result<Seq<SupportedStreamConfigRange>, Error>,
) -> Option<ChannelCount> {
    match configs {
        Ok(c) => Some(to_channel_count(c.len())),
        Err(_) => None,
    }
}

fn count_configs(configs: &Result<Vec<SupportedStreamConfigRange>, Error>) -> (r: Option<
    ChannelCount,
>)
    ensures
        r == config_count(configs_view(*configs)),
{
    match configs {
        Ok(c) => Some((c.len() as u64 % 0x1_0000) as ChannelCount),
        Err(_) => None,
    }
}

/// Configurations, or the reason why they could not be had, with the vector seen as a sequence.
pub open spec fn configs_view(
    configs: Result<Vec<SupportedStreamConfigRange>, Error>,
) -> Result<Seq<SupportedStreamConfigRange>, Error> {
    match configs {
        Ok(c) => Ok(c@),
        Err(e) => Err(e),
    }
}

/// There is at least one configuration.
pub open spec fn offers_any(configs: Result<Seq<SupportedStreamConfigRange>, Error>) -> bool {
    configs matches Ok(c) && c.len() > 0
}

/// What a device is described as, from its name, its configurations and its class.
pub open spec fn described(
    name: Result<String, Error>,
    input: Result<Seq<SupportedStreamConfigRange>, Error>,
    output: Result<Seq<SupportedStreamConfigRange>, Error>,
    aggregate: bool,
) -> Result<DeviceDescription, Error> {
    match name {
        Ok(name) => Ok(
            DeviceDescription {
                name,
                direction: direction_spec(config_count(input), config_count(output)),
                interface_type: if aggregate {
                    InterfaceType::Aggregate
                } else {
                    InterfaceType::Unknown
                },
            },
        ),
        Err(e) => Err(e.in_context_spec(Context::DeviceName)),
    }
}

impl Device {
    /// The device with the given ID.
    pub fn new(audio_device_id: AudioDeviceID) -> (r: Device)
        ensures
            r.audio_device_id == audio_device_id,
            !r.is_default_output,
    {
        Device { audio_device_id, is_default_output: false }
    }

    /// What is fed to a hasher for the device: its ID, and nothing else.
    pub fn hash_key(&self) -> (r: AudioDeviceID)
        ensures
            r == self.hash_key_spec(),
    {
        self.audio_device_id
    }

    pub open spec fn hash_key_spec(self) -> AudioDeviceID {
        self.audio_device_id
    }

    /// Whether a device is an aggregate device, which combines others into a single one.
    ///
    /// `status` and `class_id` are what reading the device's class came back with. A device whose
    /// class cannot be read counts as none.
    pub fn is_aggregate_device(status: OSStatus, class_id: u32) -> (r: bool)
        ensures
            r == (status == NO_ERROR && class_id == AGGREGATE_DEVICE_CLASS),
    {
        status == NO_ERROR && class_id == AGGREGATE_DEVICE_CLASS
    }

    /// Describes a device by its name, its configurations in both directions, and whether it is
    /// an aggregate. Only the name is indispensable.
    pub fn description(
        name: Result<String, Error>,
        input: &Result<Vec<SupportedStreamConfigRange>, Error>,
        output: &Result<Vec<SupportedStreamConfigRange>, Error>,
        aggregate: bool,
    ) -> (r: Result<DeviceDescription, Error>)
        ensures
            r == described(name, configs_view(*input), configs_view(*output), aggregate),
    {
        let name: String = match name {
            Ok(name) => name,
            Err(e) => {
                return Err(e.in_context(Context::DeviceName));
            },
        };
        let direction: DeviceDirection = direction_from_counts(
            count_configs(input),
            count_configs(output),
        );
        let interface_type: InterfaceType = if aggregate {
            InterfaceType::Aggregate
        } else {
            InterfaceType::Unknown
        };
        Ok(DeviceDescription { name, direction, interface_type })
    }

    /// The ID of a device, from its UID as it was read: an error, no string at all, or a string.
    pub fn id(uid: Result<Option<String>, Error>) -> (r: Result<DeviceId, Error>)
        ensures
            r == match uid {
                Ok(Some(uid)) => Ok::<DeviceId, Error>(DeviceId { uid }),
                Ok(None) => Err(Error { kind: ErrorKind::DeviceNotAvailable, message: None }),
                Err(e) => Err(e),
            },
    {
        match uid {
            Ok(Some(uid)) => Ok(DeviceId { uid }),
            Ok(None) => Err(Error::from_kind(ErrorKind::DeviceNotAvailable)),
            Err(e) => Err(e),
        }
    }

    /// Whether a device with these input configurations can record.
    pub fn supports_input(configs: &Result<Vec<SupportedStreamConfigRange>, Error>) -> (r: bool)
        ensures
            r == offers_any(configs_view(*configs)),
    {
        match configs {
            Ok(c) => c.len() > 0,
            Err(_) => false,
        }
    }

    /// Whether a device with these output configurations can play.
    pub fn supports_output(configs: &Result<Vec<SupportedStreamConfigRange>, Error>) -> (r: bool)
        ensures
            r == offers_any(configs_view(*configs)),
    {
        match configs {
            Ok(c) => c.len() > 0,
            Err(_) => false,
        }
    }

    /// Whether a device with these configurations can do both at once.
    ///
    /// Any device that exposes both directions can be driven by a single audio unit. A device
    /// that combines others keeps their clocks together itself.
    pub fn supports_duplex(
        input: &Result<Vec<SupportedStreamConfigRange>, Error>,
        output: &Result<Vec<SupportedStreamConfigRange>, Error>,
    ) -> (r: bool)
        ensures
            r == (offers_any(configs_view(*input)) && offers_any(configs_view(*output))),
    {
        Device::supports_input(input) && Device::supports_output(output)
    }
}

/// Devices are equal exactly if the same number is fed to a hasher for them. So equal devices
/// hash alike: whatever becomes of a hasher with one of them can become of it with the other.
pub proof fn lemma_equal_devices_hash_alike<H: std::hash::Hasher>(a: Device, b: Device)
    ensures
        vstd::std_specs::cmp::PartialEqSpec::eq_spec(&a, &b) <==> a.hash_key_spec()
            == b.hash_key_spec(),
        vstd::std_specs::cmp::PartialEqSpec::eq_spec(&a, &b) ==> forall|s: &mut H|
            call_ensures(crate::device::feed::<H>, (a.hash_key_spec(), s), ())
                <==> #[trigger] call_ensures(
                crate::device::feed::<H>,
                (b.hash_key_spec(), s),
                (),
            ),
{
}

/// Equality of devices is an equivalence, and does not look at how the device was come by.
pub proof fn lemma_device_equality(a: Device, b: Device, c: Device)
    ensures
        vstd::std_specs::cmp::PartialEqSpec::eq_spec(&a, &a),
        vstd::std_specs::cmp::PartialEqSpec::eq_spec(&a, &b)
            == vstd::std_specs::cmp::PartialEqSpec::eq_spec(&b, &a),
        vstd::std_specs::cmp::PartialEqSpec::eq_spec(&a, &b)
            && vstd::std_specs::cmp::PartialEqSpec::eq_spec(&b, &c)
            ==> vstd::std_specs::cmp::PartialEqSpec::eq_spec(&a, &c),
        vstd::std_specs::cmp::PartialEqSpec::eq_spec(
            &a,
            &Device {
                audio_device_id: a.audio_device_id,
                is_default_output: b.is_default_output,
            },
        ),
{
}

} // verus!
