//! What devices are described as, offer and are set to.

use vstd::prelude::*;

use crate::config::{
    ChannelCount, SampleFormat, SampleRate, SupportedBufferSize, SupportedStreamConfigRange,
};
use crate::device::{
    AudioDeviceID, AudioObjectPropertyScope, Device, DeviceDirection, InterfaceType,
    AGGREGATE_DEVICE_CLASS, SCOPE_INPUT, SCOPE_OUTPUT,
};
use crate::error::{Context, Error, ErrorKind, Message};
use crate::physical::{
    PhysicalFormat, PhysicalFormatError, PhysicalReply, PhysicalRequest, PhysicalStep,
    SetPhysicalFormat, StreamDescription,
};
use crate::properties::{
    ConfigsReply, ConfigsRequest, ConfigsStep, ConfigsStepView, CoreSampleFormat, DefaultConfig,
    DefaultConfigReply, DefaultConfigRequest, DefaultConfigStep, DeviceFormat, Encoding,
    SupportedConfigs,
};
use crate::rate::ValueRange;

verus! {

/// What kind of number a sample is, and in how many bits.
pub enum Number {
    Signed(nat),
    Unsigned(nat),
    Float(nat),
}

/// The number that a sample is.
pub open spec fn number_of(format: SampleFormat) -> Number {
    match format {
        SampleFormat::I8 => Number::Signed(8),
        SampleFormat::I16 => Number::Signed(16),
        SampleFormat::I24 => Number::Signed(24),
        SampleFormat::I32 => Number::Signed(32),
        SampleFormat::I64 => Number::Signed(64),
        SampleFormat::U8 => Number::Unsigned(8),
        SampleFormat::U16 => Number::Unsigned(16),
        SampleFormat::U24 => Number::Unsigned(24),
        SampleFormat::U32 => Number::Unsigned(32),
        SampleFormat::U64 => Number::Unsigned(64),
        SampleFormat::F32 => Number::Float(32),
        SampleFormat::F64 => Number::Float(64),
    }
}

/// The number that a sample of CoreAudio is.
pub open spec fn core_number_of(format: CoreSampleFormat) -> Number {
    match format {
        CoreSampleFormat::I8 => Number::Signed(8),
        CoreSampleFormat::I16 => Number::Signed(16),
        CoreSampleFormat::I24 => Number::Signed(24),
        CoreSampleFormat::I32 => Number::Signed(32),
        CoreSampleFormat::F32 => Number::Float(32),
    }
}

/// The counterpart of a sample format is the format of CoreAudio for the same kind of number in
/// the same number of bits. There is none exactly if CoreAudio has no such format.
pub proof fn law_core_format(format: SampleFormat, core: CoreSampleFormat)
    ensures
        crate::physical::core_format_spec(format) == Some(core) <==> number_of(format)
            == core_number_of(core),
{
}

/// The physical format that is looked for is the requested one, in rate, channels, kind of number
/// and bits. If CoreAudio has such a format and the device offers it, what the device offers is
/// set and returned; otherwise nothing is set.
pub proof fn law_physical_format(
    device_id: AudioDeviceID,
    sample_rate: SampleRate,
    channels: ChannelCount,
    sample_format: SampleFormat,
    core: CoreSampleFormat,
    offered: StreamDescription,
    e: Error,
)
    ensures
        ({
            let start = SetPhysicalFormat::started(
                device_id,
                sample_rate,
                channels,
                sample_format,
            );
            let unsupported = PhysicalStep::Done(
                Err(PhysicalFormatError::UnsupportedStreamFormat),
            );
            &&& number_of(sample_format) == core_number_of(core) ==> {
                &&& start matches PhysicalStep::Ask(m, request)
                &&& request == PhysicalRequest::FindMatch(
                    PhysicalFormat { sample_rate, sample_format: core, channels: channels as u32 },
                )
                &&& m.device_id == device_id
                &&& m.answers(PhysicalReply::Match(None))
                &&& m.answers(PhysicalReply::Match(Some(offered)))
                &&& m.next(PhysicalReply::Match(None)) == unsupported
                &&& m.next(PhysicalReply::Match(Some(offered))) matches PhysicalStep::Ask(n, write)
                &&& write == PhysicalRequest::WriteMatch(offered)
                &&& n.device_id == device_id
                &&& n.answers(PhysicalReply::Written(Ok(())))
                &&& n.answers(PhysicalReply::Written(Err(e)))
                &&& n.next(PhysicalReply::Written(Ok(()))) == PhysicalStep::Done(Ok(offered))
                &&& n.next(PhysicalReply::Written(Err(e))) == PhysicalStep::Done(
                    Err(PhysicalFormatError::Backend(e)),
                )
            }
            &&& (forall|c: CoreSampleFormat| number_of(sample_format) != core_number_of(c))
                ==> start == unsupported
        }),
{
    if forall|c: CoreSampleFormat| number_of(sample_format) != core_number_of(c) {
        assert(number_of(sample_format) != core_number_of(CoreSampleFormat::I8));
        assert(number_of(sample_format) != core_number_of(CoreSampleFormat::I16));
        assert(number_of(sample_format) != core_number_of(CoreSampleFormat::I24));
        assert(number_of(sample_format) != core_number_of(CoreSampleFormat::I32));
        assert(number_of(sample_format) != core_number_of(CoreSampleFormat::F32));
    }
}

/// A number with its low byte at `at` and its high byte three further on.
pub open spec fn holds(bytes: Seq<u8>, at: int, n: nat) -> bool {
    &&& bytes[at] == n % 256
    &&& bytes[at + 1] == n / 256 % 256
    &&& bytes[at + 2] == n / 65536 % 256
    &&& bytes[at + 3] == n / 16777216
}

/// A buffer list begins with the number of its buffers, and each buffer, sixteen bytes apart from
/// the eighth byte on, with the number of its channels.
pub proof fn law_buffer_list(list: Seq<u8>, count: u32, i: int, channels: u32)
    requires
        holds(list, 0, count as nat),
    ensures
        crate::properties::buffer_count(list) == count,
        crate::properties::buffer_channels(list).len() == count,
        0 <= i < count && holds(list, 8 + 16 * i, channels as nat)
            ==> crate::properties::buffer_channels(list)[i] == channels,
        crate::properties::is_buffer_list(list) <==> list.len() >= 4 && (count > 0 ==> list.len()
            >= 8 + 16 * count),
{
    lemma_word(list, 0, count);
    if 0 <= i < count && holds(list, 8 + 16 * i, channels as nat) {
        lemma_word(list, 8 + 16 * i, channels);
    }
}

proof fn lemma_word(bytes: Seq<u8>, at: int, n: u32)
    requires
        holds(bytes, at, n as nat),
    ensures
        crate::properties::word(bytes, at) == n,
{
    assert(n as nat % 256 + (n as nat / 256 % 256) * 256 + (n as nat / 65536 % 256) * 65536 + (
    n as nat / 16777216) * 16777216 == n);
}

/// The channels of some buffers taken together: those of one buffer are its own, those of two
/// groups of buffers the sum of both, and those of no buffer none.
pub proof fn law_channels_add_up(a: Seq<u32>, b: Seq<u32>, one: u32)
    ensures
        crate::properties::channel_total(seq![]) == 0,
        crate::properties::channel_total(seq![one]) == one,
        crate::properties::channel_total(a + b) == crate::properties::channel_total(a)
            + crate::properties::channel_total(b),
    decreases b.len(),
{
    reveal_with_fuel(crate::properties::channel_total, 2);
    assert(seq![one].drop_last() =~= seq![]);
    if b.len() == 0 {
        assert(a + b =~= a);
    } else {
        law_channels_add_up(a, b.drop_last(), one);
        assert((a + b).drop_last() =~= a + b.drop_last());
    }
}

/// The channel count of a buffer list: the sum of its channels, kept to 16 bits.
pub proof fn law_listed_channels(list: Seq<u8>)
    ensures
        crate::properties::listed_channels(list) as int == crate::properties::channel_total(
            crate::properties::buffer_channels(list),
        ) % 65536,
        crate::properties::channel_total(crate::properties::buffer_channels(list)) < 65536
            ==> crate::properties::listed_channels(list) == crate::properties::channel_total(
            crate::properties::buffer_channels(list),
        ),
{
}

/// The whole number at or just below each end of a range of sizes.
pub open spec fn sizes(range: ValueRange) -> SupportedBufferSize {
    SupportedBufferSize::Range {
        min: range.minimum.to_u32_spec(),
        max: range.maximum.to_u32_spec(),
    }
}

/// Listing the configurations of a device in a direction. Without buffers there are none. With
/// buffers, there is one for each range of rates, in order, with the ends of that range, the
/// channels of all buffers, the sizes of the device and 32-bit floats. A scope that is neither
/// input nor output comes out only once the rates are read.
pub proof fn law_listing(
    device: Device,
    scope: AudioObjectPropertyScope,
    list_size: u32,
    list: Vec<u8>,
    rates_size: u32,
    ranges: Vec<ValueRange>,
    range: ValueRange,
    i: int,
)
    requires
        crate::properties::is_buffer_list(list@),
    ensures
        ({
            let start = SupportedConfigs::started(device, scope);
            &&& start matches ConfigsStepView::Ask(m0, r0)
            &&& r0 == ConfigsRequest::MeasureBufferList { scope }
            &&& m0.device_id == device.audio_device_id
            &&& m0.answers(ConfigsReply::Size(Ok(list_size)))
            &&& m0.next(ConfigsReply::Size(Ok(list_size))) matches ConfigsStepView::Ask(m1, r1)
            &&& r1 == ConfigsRequest::ReadBufferList { scope, bytes: list_size }
            &&& m1.device_id == device.audio_device_id
            &&& m1.answers(ConfigsReply::BufferList(Ok(list)))
            &&& crate::properties::buffer_count(list@) == 0 ==> m1.next(
                ConfigsReply::BufferList(Ok(list)),
            ) == ConfigsStepView::Done(Ok(seq![]))
            &&& crate::properties::buffer_count(list@) > 0 ==> {
                &&& m1.next(ConfigsReply::BufferList(Ok(list))) matches ConfigsStepView::Ask(m2, r2)
                &&& r2 == ConfigsRequest::MeasureRates { scope }
                &&& m2.device_id == device.audio_device_id
                &&& m2.answers(ConfigsReply::Size(Ok(rates_size)))
                &&& m2.next(ConfigsReply::Size(Ok(rates_size))) matches ConfigsStepView::Ask(m3, r3)
                &&& r3 == ConfigsRequest::ReadRates { scope, count: rates_size / 16 }
                &&& m3.device_id == device.audio_device_id
                &&& m3.answers(ConfigsReply::Rates(Ok(ranges)))
                &&& scope != SCOPE_INPUT && scope != SCOPE_OUTPUT ==> m3.next(
                    ConfigsReply::Rates(Ok(ranges)),
                ) == ConfigsStepView::Done(
                    Err(
                        Error {
                            kind: ErrorKind::UnsupportedOperation,
                            message: Some(Message::UnexpectedScope),
                        },
                    ),
                )
                &&& scope == SCOPE_INPUT || scope == SCOPE_OUTPUT ==> {
                    &&& m3.next(ConfigsReply::Rates(Ok(ranges))) matches ConfigsStepView::Ask(
                        m4,
                        r4,
                    )
                    &&& r4 == ConfigsRequest::ReadBufferRange
                    &&& m4.device_id == device.audio_device_id
                    &&& m4.answers(ConfigsReply::BufferRange(Ok(range)))
                    &&& m4.next(ConfigsReply::BufferRange(Ok(range)))
                        matches ConfigsStepView::Done(listed)
                    &&& listed matches Ok(configs)
                    &&& configs.len() == ranges@.len()
                    &&& 0 <= i < ranges@.len() ==> configs[i] == SupportedStreamConfigRange {
                        channels: crate::properties::listed_channels(list@),
                        min_sample_rate: ranges@[i].minimum.to_u32_spec(),
                        max_sample_rate: ranges@[i].maximum.to_u32_spec(),
                        buffer_size: sizes(range),
                        sample_format: SampleFormat::F32,
                    }
                }
            }
        }),
{
}

/// A failure while listing ends it with that failure, and so does a scope that is neither input
/// nor output, once the rates are read. There are no other errors.
pub proof fn law_listing_fails(m: SupportedConfigs, reply: ConfigsReply)
    requires
        m.answers(reply),
    ensures
        reply matches ConfigsReply::Size(Err(e)) ==> m.next(reply) == ConfigsStepView::Done(Err(e)),
        reply matches ConfigsReply::BufferList(Err(e)) ==> m.next(reply) == ConfigsStepView::Done(
            Err(e),
        ),
        reply matches ConfigsReply::Rates(Err(e)) ==> m.next(reply) == ConfigsStepView::Done(Err(e)),
        reply matches ConfigsReply::BufferRange(Err(e)) ==> m.next(reply) == ConfigsStepView::Done(
            Err(e),
        ),
        reply matches ConfigsReply::Rates(Ok(_)) && m.scope != SCOPE_INPUT && m.scope
            != SCOPE_OUTPUT ==> m.next(reply) == ConfigsStepView::Done(
            Err(
                Error {
                    kind: ErrorKind::UnsupportedOperation,
                    message: Some(Message::UnexpectedScope),
                },
            ),
        ),
        m.next(reply) matches ConfigsStepView::Done(Err(_)) ==> match reply {
            ConfigsReply::Size(r) => r is Err,
            ConfigsReply::BufferList(r) => r is Err,
            ConfigsReply::Rates(r) => r is Err || (m.scope != SCOPE_INPUT && m.scope
                != SCOPE_OUTPUT),
            ConfigsReply::BufferRange(r) => r is Err,
        },
{
}

/// Whatever comes of a request while listing, good or bad, answers it, a buffer list if it holds
/// the buffers it says.
pub proof fn law_listing_takes_every_outcome(m: SupportedConfigs, reply: ConfigsReply)
    ensures
        reply is Size ==> (m.answers(reply) <==> m.stage is BufferListSize || m.stage is RatesSize),
        reply is Rates ==> (m.answers(reply) <==> m.stage is Rates),
        reply is BufferRange ==> (m.answers(reply) <==> m.stage is BufferRange),
        reply matches ConfigsReply::BufferList(r) ==> (m.answers(reply) <==> m.stage is BufferList
            && (r matches Ok(list) ==> crate::properties::is_buffer_list(list@))),
{
}

/// The configuration that a device is set to: 32-bit floats or 16-bit integers in linear PCM, with
/// the rate rounded down, the channels kept to 16 bits, and the sizes of the device. Every other
/// encoding is refused, and so is a scope that is neither input nor output.
pub proof fn law_default_config(
    device: Device,
    scope: AudioObjectPropertyScope,
    format: DeviceFormat,
    range: ValueRange,
    e: Error,
)
    ensures
        ({
            let direction = scope == SCOPE_INPUT || scope == SCOPE_OUTPUT;
            let floats = format.encoding == Encoding::LinearPcm(Some(CoreSampleFormat::F32));
            let integers = format.encoding == Encoding::LinearPcm(Some(CoreSampleFormat::I16));
            let refused = |kind: ErrorKind, message: Message|
                DefaultConfigStep::Done(Err(Error { kind, message: Some(message) }));
            &&& DefaultConfig::started(device, scope) matches DefaultConfigStep::Ask(m, request)
            &&& request == DefaultConfigRequest::ReadFormat { scope }
            &&& m.device_id == device.audio_device_id
            &&& m.answers(DefaultConfigReply::Format(Ok(format)))
            &&& m.answers(DefaultConfigReply::Format(Err(e)))
            &&& m.next(DefaultConfigReply::Format(Err(e))) == DefaultConfigStep::Done(Err(e))
            &&& format.encoding == Encoding::Other ==> m.next(DefaultConfigReply::Format(Ok(format)))
                == refused(ErrorKind::UnsupportedConfig, Message::NotLinearPcm)
            &&& format.encoding is LinearPcm && !floats && !integers ==> m.next(
                DefaultConfigReply::Format(Ok(format)),
            ) == refused(ErrorKind::UnsupportedConfig, Message::SampleFormatNotSupported)
            &&& (floats || integers) && !direction ==> m.next(DefaultConfigReply::Format(Ok(format)))
                == refused(ErrorKind::UnsupportedOperation, Message::UnexpectedScope)
            &&& (floats || integers) && direction ==> {
                &&& m.next(DefaultConfigReply::Format(Ok(format))) matches DefaultConfigStep::Ask(
                    n,
                    reads,
                )
                &&& reads == DefaultConfigRequest::ReadBufferRange
                &&& n.device_id == device.audio_device_id
                &&& n.answers(DefaultConfigReply::BufferRange(Ok(range)))
                &&& n.answers(DefaultConfigReply::BufferRange(Err(e)))
                &&& n.next(DefaultConfigReply::BufferRange(Err(e))) == DefaultConfigStep::Done(
                    Err(e),
                )
                &&& n.next(DefaultConfigReply::BufferRange(Ok(range)))
                    matches DefaultConfigStep::Done(done)
                &&& done matches Ok(config)
                &&& config.channels == format.channels_per_frame % 65536
                &&& config.sample_rate == format.sample_rate.to_u32_spec()
                &&& config.buffer_size == sizes(range)
                &&& config.sample_format == if floats {
                    SampleFormat::F32
                } else {
                    SampleFormat::I16
                }
            }
        }),
{
}

/// The buffer sizes of a device, read on their own, are those of a listing.
pub proof fn law_buffer_sizes(range: ValueRange)
    ensures
        crate::properties::buffer_sizes(range) == sizes(range),
{
}

/// A device is described by its name, by the directions in which it has configurations, and as an
/// aggregate if it is one. Without a name it is not described.
pub proof fn law_description(
    name: String,
    e: Error,
    input: Result<Seq<SupportedStreamConfigRange>, Error>,
    output: Result<Seq<SupportedStreamConfigRange>, Error>,
    aggregate: bool,
)
    ensures
        ({
            // A count is kept in 16 bits.
            let records = input matches Ok(c) && c.len() % 65536 != 0;
            let plays = output matches Ok(c) && c.len() % 65536 != 0;
            &&& crate::device::described(Ok(name), input, output, aggregate) matches Ok(d)
            &&& d.name == name
            &&& d.direction == DeviceDirection::Duplex <==> records && plays
            &&& d.direction == DeviceDirection::Input <==> records && !plays
            &&& d.direction == DeviceDirection::Output <==> plays && !records
            &&& d.interface_type == InterfaceType::Aggregate <==> aggregate
            &&& crate::device::described(Err(e), input, output, aggregate) matches Err(refused)
            &&& refused == Error {
                kind: e.kind,
                message: Some(
                    Message::InContext(
                        Context::DeviceName,
                        match e.message {
                            Some(m) => Some(Box::new(m)),
                            None => None,
                        },
                    ),
                ),
            }
        }),
{
}

/// A device can be used in a direction if it has a configuration in it.
pub proof fn law_directions(configs: Vec<SupportedStreamConfigRange>, e: Error)
    ensures
        crate::device::offers_any(crate::device::configs_view(Ok(configs))) <==> configs@.len() > 0,
        !crate::device::offers_any(crate::device::configs_view(Err(e))),
        crate::device::configs_view(Ok(configs)) == Ok::<
            Seq<SupportedStreamConfigRange>,
            Error,
        >(configs@),
{
}

/// The number of the four letters of a code.
pub open spec fn code(a: char, b: char, c: char, d: char) -> int {
    a as int * 0x100_0000 + b as int * 0x1_0000 + c as int * 0x100 + d as int
}

/// CoreAudio's codes are four letters each.
pub proof fn law_codes()
    ensures
        SCOPE_INPUT == code('i', 'n', 'p', 't'),
        SCOPE_OUTPUT == code('o', 'u', 't', 'p'),
        AGGREGATE_DEVICE_CLASS == code('a', 'a', 'g', 'g'),
{
}

/// Devices are told apart by their IDs alone.
pub proof fn law_identity(a: Device, b: Device)
    ensures
        vstd::std_specs::cmp::PartialEqSpec::eq_spec(&a, &b) <==> a.audio_device_id
            == b.audio_device_id,
        a.hash_key_spec() == a.audio_device_id,
{
}

/// A listing that is done is seen as exactly the configurations it lists, in their order.
pub proof fn law_listing_is_seen_whole(step: ConfigsStep)
    ensures
        step matches ConfigsStep::Ask(m, request) ==> step@ == ConfigsStepView::Ask(m, request),
        step matches ConfigsStep::Done(Ok(configs)) ==> step@ == ConfigsStepView::Done(
            Ok(configs@),
        ),
        step matches ConfigsStep::Done(Err(e)) ==> step@ == ConfigsStepView::Done(Err(e)),
{
}

/// The directions of a device are those with a positive count.
pub proof fn law_direction_from_counts(input: Option<ChannelCount>, output: Option<ChannelCount>)
    ensures
        ({
            let records = input is Some && input != Some(0u16);
            let plays = output is Some && output != Some(0u16);
            let r = crate::device::direction_spec(input, output);
            &&& r == DeviceDirection::Duplex <==> records && plays
            &&& r == DeviceDirection::Input <==> records && !plays
            &&& r == DeviceDirection::Output <==> plays && !records
            &&& r == DeviceDirection::Unknown <==> !plays && !records
        }),
{
}

} // verus!
