//! Reading the configurations that a device supports, and the one it is set to.
//!
//! Each procedure names the next property to read and is resumed with what was read.

use vstd::prelude::*;

use crate::binary64::Binary64;
use crate::config::{
    ChannelCount, SampleFormat, SampleRate, SupportedBufferSize, SupportedStreamConfig,
    SupportedStreamConfigRange,
};
use crate::device::{
    AudioDeviceID, AudioObjectPropertyScope, Device, SCOPE_INPUT, SCOPE_OUTPUT,
};
use crate::error::{Error, ErrorKind, Message};
use crate::rate::{ValueRange, VALUE_RANGE_BYTES};

verus! {

/// The buffer sizes of a device whose range of sizes is `range`.
pub open spec fn buffer_sizes(range: ValueRange) -> SupportedBufferSize {
    SupportedBufferSize::Range {
        min: range.minimum.to_u32_spec(),
        max: range.maximum.to_u32_spec(),
    }
}

/// The buffer sizes of a device, from its range of sizes as it was read.
pub fn get_io_buffer_frame_size_range(range: Result<ValueRange, Error>) -> (r: Result<
    SupportedBufferSize,
    Error,
>)
    ensures
        r == match range {
            Ok(range) => Ok::<SupportedBufferSize, Error>(buffer_sizes(range)),
            Err(e) => Err(e),
        },
{
    match range {
        Ok(range) => Ok(
            SupportedBufferSize::Range {
                min: range.minimum.to_u32(),
                max: range.maximum.to_u32(),
            },
        ),
        Err(e) => Err(e),
    }
}

/// `scope` is one of the two directions.
pub open spec fn is_direction(scope: AudioObjectPropertyScope) -> bool {
    scope == SCOPE_INPUT || scope == SCOPE_OUTPUT
}

/// The error for a scope that is not a direction.
pub open spec fn unexpected_scope() -> Error {
    Error { kind: ErrorKind::UnsupportedOperation, message: Some(Message::UnexpectedScope) }
}

fn check_direction(scope: AudioObjectPropertyScope) -> (r: Result<(), Error>)
    ensures
        is_direction(scope) ==> r is Ok,
        !is_direction(scope) ==> r == Err::<(), Error>(unexpected_scope()),
{
    if scope == SCOPE_INPUT || scope == SCOPE_OUTPUT {
        Ok(())
    } else {
        Err(Error::with_message(ErrorKind::UnsupportedOperation, Message::UnexpectedScope))
    }
}

/// Where the buffers begin in a buffer list, in bytes: after their number and some padding.
pub const BUFFER_LIST_HEADER: usize = 8;

/// The size of a buffer in a buffer list, in bytes: two words, of which the first is the number
/// of channels, and an address.
pub const BUFFER_BYTES: usize = 16;

/// The 32-bit word at `at`, with its low byte first.
pub open spec fn word(bytes: Seq<u8>, at: int) -> u32 {
    (bytes[at] + bytes[at + 1] * 0x100 + bytes[at + 2] * 0x1_0000 + bytes[at + 3]
        * 0x100_0000) as u32
}

fn read_word(bytes: &Vec<u8>, at: usize) -> (r: u32)
    requires
        at + 4 <= bytes.len(),
    ensures
        r == word(bytes@, at as int),
{
    bytes[at] as u32 + bytes[at + 1] as u32 * 0x100 + bytes[at + 2] as u32 * 0x1_0000 + bytes[at
        + 3] as u32 * 0x100_0000
}

/// The number of buffers in a buffer list.
pub open spec fn buffer_count(list: Seq<u8>) -> nat {
    word(list, 0) as nat
}

/// A buffer list holds as many buffers as it says.
pub open spec fn is_buffer_list(list: Seq<u8>) -> bool {
    &&& list.len() >= 4
    &&& buffer_count(list) > 0 ==> list.len() >= BUFFER_LIST_HEADER + BUFFER_BYTES * buffer_count(
        list,
    )
}

/// The channel counts of the buffers in a buffer list.
pub open spec fn buffer_channels(list: Seq<u8>) -> Seq<u32> {
    Seq::new(buffer_count(list), |i: int| word(list, BUFFER_LIST_HEADER + BUFFER_BYTES * i))
}

/// The channels of all buffers taken together.
pub open spec fn channel_total(buffers: Seq<u32>) -> nat
    decreases buffers.len(),
{
    if buffers.len() == 0 {
        0
    } else {
        channel_total(buffers.drop_last()) + buffers.last() as nat
    }
}

/// The channels of all buffers of a buffer list, as a [`ChannelCount`].
pub open spec fn listed_channels(list: Seq<u8>) -> ChannelCount {
    crate::device::to_channel_count(channel_total(buffer_channels(list)))
}

/// The number of buffers in a buffer list.
pub fn count_buffers(list: &Vec<u8>) -> (r: u32)
    requires
        is_buffer_list(list@),
    ensures
        r == buffer_count(list@),
{
    read_word(list, 0)
}

fn channels_of_buffer(list: &Vec<u8>, i: u32) -> (r: u32)
    requires
        is_buffer_list(list@),
        i < buffer_count(list@),
    ensures
        r == buffer_channels(list@)[i as int],
{
    let len: usize = list.len();
    assert(BUFFER_LIST_HEADER + BUFFER_BYTES * (i + 1) <= len);
    read_word(list, BUFFER_LIST_HEADER + BUFFER_BYTES * i as usize)
}

/// One more buffer adds its channels, of which the low bits depend on low bits only.
proof fn lemma_one_more_buffer(channels: Seq<u32>, i: int)
    requires
        0 <= i < channels.len(),
    ensures
        channel_total(channels.take(i + 1)) % 0x1_0000 == (channel_total(channels.take(i))
            % 0x1_0000 + channels[i] % 0x1_0000) % 0x1_0000,
{
    assert(channels.take(i + 1).drop_last() =~= channels.take(i));
}

/// The channels of all buffers of a buffer list taken together, as a [`ChannelCount`]: of a
/// larger number only the low bits are kept.
pub fn count_channels(list: &Vec<u8>) -> (r: ChannelCount)
    requires
        is_buffer_list(list@),
    ensures
        r == listed_channels(list@),
{
    let n: u32 = count_buffers(list);
    let ghost channels = buffer_channels(list@);
    let mut low: u32 = 0;
    let mut i: u32 = 0;
    while i < n
        invariant
            i <= n,
            n == channels.len(),
            n == buffer_count(list@),
            is_buffer_list(list@),
            channels == buffer_channels(list@),
            low == channel_total(channels.take(i as int)) % 0x1_0000,
        decreases n - i,
    {
        let buffer: u32 = channels_of_buffer(list, i);
        proof {
            lemma_one_more_buffer(channels, i as int);
        }
        low = (low + buffer % 0x1_0000) % 0x1_0000;
        i = i + 1;
    }
    assert(channels.take(i as int) =~= channels);
    low as ChannelCount
}

/// The configurations of a device with `channels` channels, the given ranges of sample rates and
/// the given buffer sizes: one for each range, in order.
pub open spec fn configs_of(
    channels: ChannelCount,
    ranges: Seq<ValueRange>,
    buffer_size: SupportedBufferSize,
) -> Seq<SupportedStreamConfigRange> {
    Seq::new(
        ranges.len(),
        |i: int|
            SupportedStreamConfigRange {
                channels,
                min_sample_rate: ranges[i].minimum.to_u32_spec(),
                max_sample_rate: ranges[i].maximum.to_u32_spec(),
                buffer_size,
                sample_format: SampleFormat::F32,
            },
    )
}

fn make_configs(
    channels: ChannelCount,
    ranges: &Vec<ValueRange>,
    buffer_size: SupportedBufferSize,
) -> (r: Vec<SupportedStreamConfigRange>)
    ensures
        r@ == configs_of(channels, ranges@, buffer_size),
{
    let mut configs: Vec<SupportedStreamConfigRange> = Vec::new();
    let mut i: usize = 0;
    while i < ranges.len()
        invariant
            i <= ranges@.len(),
            configs@ == configs_of(channels, ranges@.take(i as int), buffer_size),
        decreases ranges@.len() - i,
    {
        let range: ValueRange = ranges[i];
        configs.push(
            SupportedStreamConfigRange {
                channels,
                min_sample_rate: range.minimum.to_u32(),
                max_sample_rate: range.maximum.to_u32(),
                buffer_size,
                sample_format: SampleFormat::F32,
            },
        );
        i = i + 1;
        assert(configs@ =~= configs_of(channels, ranges@.take(i as int), buffer_size));
    }
    assert(ranges@.take(i as int) =~= ranges@);
    configs
}

/// What [`SupportedConfigs`] waits for.
#[derive(Debug)]
pub enum ConfigsStage {
    BufferListSize,
    BufferList,
    RatesSize { channels: ChannelCount },
    Rates { channels: ChannelCount },
    BufferRange { channels: ChannelCount, ranges: Vec<ValueRange> },
}

/// The procedure that lists the configurations of a device in one direction.
#[derive(Debug)]
pub struct SupportedConfigs {
    pub device_id: AudioDeviceID,
    pub scope: AudioObjectPropertyScope,
    pub stage: ConfigsStage,
}

/// What the procedure asks for.
#[derive(Clone, Copy, Debug, PartialEq, Eq, Structural)]
pub enum ConfigsRequest {
    /// Find out how many bytes the list of the device's buffers takes up.
    MeasureBufferList { scope: AudioObjectPropertyScope },
    /// Read the list of the device's buffers, which takes up this many bytes.
    ReadBufferList { scope: AudioObjectPropertyScope, bytes: u32 },
    /// Find out how many bytes the list of supported rates takes up.
    MeasureRates { scope: AudioObjectPropertyScope },
    /// Read this many ranges of supported rates.
    ReadRates { scope: AudioObjectPropertyScope, count: u32 },
    /// Read the range of buffer sizes.
    ReadBufferRange,
}

/// The reply to a request.
#[derive(Debug)]
pub enum ConfigsReply {
    Size(Result<u32, Error>),
    BufferList(Result<Vec<u8>, Error>),
    Rates(Result<Vec<ValueRange>, Error>),
    BufferRange(Result<ValueRange, Error>),
}

/// How the procedure goes on.
#[derive(Debug)]
pub enum ConfigsStep {
    Ask(SupportedConfigs, ConfigsRequest),
    Done(Result<Vec<SupportedStreamConfigRange>, Error>),
}

/// A step, with the configurations seen as a sequence.
pub enum ConfigsStepView {
    Ask(SupportedConfigs, ConfigsRequest),
    Done(Result<Seq<SupportedStreamConfigRange>, Error>),
}

impl View for ConfigsStep {
    type V = ConfigsStepView;

    open spec fn view(&self) -> ConfigsStepView {
        match *self {
            ConfigsStep::Ask(m, r) => ConfigsStepView::Ask(m, r),
            ConfigsStep::Done(Ok(configs)) => ConfigsStepView::Done(Ok(configs@)),
            ConfigsStep::Done(Err(e)) => ConfigsStepView::Done(Err(e)),
        }
    }
}

impl SupportedConfigs {
    /// `reply` answers what the procedure asked for.
    pub open spec fn answers(self, reply: ConfigsReply) -> bool {
        match self.stage {
            ConfigsStage::BufferListSize => reply is Size,
            ConfigsStage::BufferList => reply matches ConfigsReply::BufferList(list) && (
            list matches Ok(list) ==> is_buffer_list(list@)),
            ConfigsStage::RatesSize { .. } => reply is Size,
            ConfigsStage::Rates { .. } => reply is Rates,
            ConfigsStage::BufferRange { .. } => reply is BufferRange,
        }
    }

    /// The same procedure, waiting for something else.
    pub open spec fn at(self, stage: ConfigsStage) -> SupportedConfigs {
        SupportedConfigs { device_id: self.device_id, scope: self.scope, stage }
    }

    /// The beginning of the procedure.
    pub open spec fn started(device: Device, scope: AudioObjectPropertyScope) -> ConfigsStepView {
        ConfigsStepView::Ask(
            SupportedConfigs {
                device_id: device.audio_device_id,
                scope,
                stage: ConfigsStage::BufferListSize,
            },
            ConfigsRequest::MeasureBufferList { scope },
        )
    }

    /// Where the procedure stands after a number of replies.
    pub open spec fn after(
        device: Device,
        scope: AudioObjectPropertyScope,
        replies: Seq<ConfigsReply>,
    ) -> ConfigsStepView
        decreases replies.len(),
    {
        if replies.len() == 0 {
            SupportedConfigs::started(device, scope)
        } else {
            match SupportedConfigs::after(device, scope, replies.drop_last()) {
                ConfigsStepView::Ask(m, _) => m.next(replies.last()),
                ConfigsStepView::Done(r) => ConfigsStepView::Done(r),
            }
        }
    }

    /// Every reply answers the request made at its time.
    pub open spec fn conversation(
        device: Device,
        scope: AudioObjectPropertyScope,
        replies: Seq<ConfigsReply>,
    ) -> bool
        decreases replies.len(),
    {
        replies.len() > 0 ==> {
            &&& SupportedConfigs::conversation(device, scope, replies.drop_last())
            &&& SupportedConfigs::after(
                device,
                scope,
                replies.drop_last(),
            ) matches ConfigsStepView::Ask(m, _)
            &&& m.answers(replies.last())
        }
    }

    /// How the procedure goes on after `reply`.
    pub open spec fn next(self, reply: ConfigsReply) -> ConfigsStepView {
        let scope = self.scope;
        match (self.stage, reply) {
            (_, ConfigsReply::Size(Err(e))) => ConfigsStepView::Done(Err(e)),
            (_, ConfigsReply::BufferList(Err(e))) => ConfigsStepView::Done(Err(e)),
            (_, ConfigsReply::Rates(Err(e))) => ConfigsStepView::Done(Err(e)),
            (_, ConfigsReply::BufferRange(Err(e))) => ConfigsStepView::Done(Err(e)),
            (ConfigsStage::BufferListSize, ConfigsReply::Size(Ok(bytes))) => ConfigsStepView::Ask(
                self.at(ConfigsStage::BufferList),
                ConfigsRequest::ReadBufferList { scope, bytes },
            ),
            (_, ConfigsReply::BufferList(Ok(list))) => if buffer_count(list@) == 0 {
                ConfigsStepView::Done(Ok(seq![]))
            } else {
                ConfigsStepView::Ask(
                    self.at(
                        ConfigsStage::RatesSize { channels: listed_channels(list@) },
                    ),
                    ConfigsRequest::MeasureRates { scope },
                )
            },
            (
                ConfigsStage::RatesSize { channels },
                ConfigsReply::Size(Ok(bytes)),
            ) => ConfigsStepView::Ask(
                self.at(ConfigsStage::Rates { channels }),
                ConfigsRequest::ReadRates { scope, count: bytes / VALUE_RANGE_BYTES },
            ),
            (ConfigsStage::Rates { channels }, ConfigsReply::Rates(Ok(ranges))) => if is_direction(
                scope,
            ) {
                ConfigsStepView::Ask(
                    self.at(ConfigsStage::BufferRange { channels, ranges }),
                    ConfigsRequest::ReadBufferRange,
                )
            } else {
                ConfigsStepView::Done(Err(unexpected_scope()))
            },
            (
                ConfigsStage::BufferRange { channels, ranges },
                ConfigsReply::BufferRange(Ok(range)),
            ) => ConfigsStepView::Done(Ok(configs_of(channels, ranges@, buffer_sizes(range)))),
            _ => arbitrary(),
        }
    }

    /// Goes on after the reply to the last request.
    pub fn resume(self, reply: ConfigsReply) -> (r: ConfigsStep)
        requires
            self.answers(reply),
        ensures
            r@ == self.next(reply),
    {
        let device_id: AudioDeviceID = self.device_id;
        let scope: AudioObjectPropertyScope = self.scope;
        match reply {
            ConfigsReply::Size(Err(e)) => ConfigsStep::Done(Err(e)),
            ConfigsReply::BufferList(Err(e)) => ConfigsStep::Done(Err(e)),
            ConfigsReply::Rates(Err(e)) => ConfigsStep::Done(Err(e)),
            ConfigsReply::BufferRange(Err(e)) => ConfigsStep::Done(Err(e)),
            ConfigsReply::Size(Ok(bytes)) => match self.stage {
                ConfigsStage::RatesSize { channels } => ConfigsStep::Ask(
                    SupportedConfigs { device_id, scope, stage: ConfigsStage::Rates { channels } },
                    ConfigsRequest::ReadRates { scope, count: bytes / VALUE_RANGE_BYTES },
                ),
                _ => ConfigsStep::Ask(
                    SupportedConfigs { device_id, scope, stage: ConfigsStage::BufferList },
                    ConfigsRequest::ReadBufferList { scope, bytes },
                ),
            },
            ConfigsReply::BufferList(Ok(list)) => {
                if count_buffers(&list) == 0 {
                    return ConfigsStep::Done(Ok(Vec::new()));
                }
                let channels: ChannelCount = count_channels(&list);
                ConfigsStep::Ask(
                    SupportedConfigs { device_id, scope, stage: ConfigsStage::RatesSize { channels } },
                    ConfigsRequest::MeasureRates { scope },
                )
            },
            ConfigsReply::Rates(Ok(ranges)) => {
                let channels: ChannelCount = match self.stage {
                    ConfigsStage::Rates { channels } => channels,
                    _ => vstd::pervasive::unreached(),
                };
                match check_direction(scope) {
                    Ok(_) => ConfigsStep::Ask(
                        SupportedConfigs {
                            device_id,
                            scope,
                            stage: ConfigsStage::BufferRange { channels, ranges },
                        },
                        ConfigsRequest::ReadBufferRange,
                    ),
                    Err(e) => ConfigsStep::Done(Err(e)),
                }
            },
            ConfigsReply::BufferRange(Ok(range)) => match get_io_buffer_frame_size_range(
                Ok(range),
            ) {
                Ok(buffer_size) => match self.stage {
                    ConfigsStage::BufferRange { channels, ranges } => ConfigsStep::Done(
                        Ok(make_configs(channels, &ranges, buffer_size)),
                    ),
                    _ => vstd::pervasive::unreached(),
                },
                Err(e) => ConfigsStep::Done(Err(e)),
            },
        }
    }
}

impl Device {
    /// Starts listing the configurations of the device in the direction `scope`.
    ///
    /// A device without buffers in that direction has none. Otherwise there is one configuration
    /// for each range of sample rates: most hardware reports single rates, whose ends coincide.
    pub fn supported_configs(&self, scope: AudioObjectPropertyScope) -> (r: (
        SupportedConfigs,
        ConfigsRequest,
    ))
        ensures
            ConfigsStepView::Ask(r.0, r.1) == SupportedConfigs::started(*self, scope),
    {
        (
            SupportedConfigs {
                device_id: self.audio_device_id,
                scope,
                stage: ConfigsStage::BufferListSize,
            },
            ConfigsRequest::MeasureBufferList { scope },
        )
    }

    /// Starts listing the input configurations of the device.
    pub fn supported_input_configs(&self) -> (r: (SupportedConfigs, ConfigsRequest))
        ensures
            ConfigsStepView::Ask(r.0, r.1) == SupportedConfigs::started(*self, SCOPE_INPUT),
    {
        self.supported_configs(SCOPE_INPUT)
    }

    /// Starts listing the output configurations of the device.
    pub fn supported_output_configs(&self) -> (r: (SupportedConfigs, ConfigsRequest))
        ensures
            ConfigsStepView::Ask(r.0, r.1) == SupportedConfigs::started(*self, SCOPE_OUTPUT),
    {
        self.supported_configs(SCOPE_OUTPUT)
    }
}

/// What has been read by the time the procedure waits for something.
proof fn lemma_configs_history(
    device: Device,
    scope: AudioObjectPropertyScope,
    replies: Seq<ConfigsReply>,
)
    requires
        SupportedConfigs::conversation(device, scope, replies),
    ensures
        SupportedConfigs::after(device, scope, replies) matches ConfigsStepView::Ask(m, _) ==> {
            &&& m.device_id == device.audio_device_id
            &&& m.scope == scope
            &&& match m.stage {
                ConfigsStage::BufferListSize => replies.len() == 0,
                ConfigsStage::BufferList => replies.len() == 1,
                ConfigsStage::RatesSize { channels } => replies.len() == 2 && (
                replies[1] matches ConfigsReply::BufferList(Ok(list)) && buffer_count(list@) > 0
                    && channels == listed_channels(list@)),
                ConfigsStage::Rates { channels } => replies.len() == 3 && (
                replies[1] matches ConfigsReply::BufferList(Ok(list)) && buffer_count(list@) > 0
                    && channels == listed_channels(list@)),
                ConfigsStage::BufferRange { channels, ranges } => replies.len() == 4 && (
                replies[1] matches ConfigsReply::BufferList(Ok(list)) && buffer_count(list@) > 0
                    && channels == listed_channels(list@)) && is_direction(scope) && (
                replies[3] matches ConfigsReply::Rates(Ok(r)) && r@ == ranges@),
            }
        },
    decreases replies.len(),
{
    if replies.len() > 0 {
        let before = replies.drop_last();
        lemma_configs_history(device, scope, before);
        assert(forall|i: int| 0 <= i < before.len() ==> before[i] == replies[i]);
    }
}

/// What a listing comes to: nothing for a device without buffers in that direction, and otherwise
/// one configuration for each range of rates, in order, all with the channels of all the buffers
/// taken together.
pub proof fn lemma_listing(
    device: Device,
    scope: AudioObjectPropertyScope,
    replies: Seq<ConfigsReply>,
    configs: Seq<SupportedStreamConfigRange>,
)
    requires
        SupportedConfigs::conversation(device, scope, replies),
        SupportedConfigs::after(device, scope, replies) == ConfigsStepView::Done(Ok(configs)),
    ensures
        replies.len() >= 2,
        replies[1] matches ConfigsReply::BufferList(Ok(list)) && if buffer_count(list@) == 0 {
            configs.len() == 0
        } else {
            &&& replies.len() == 5
            &&& is_direction(scope)
            &&& replies[3] matches ConfigsReply::Rates(Ok(ranges))
            &&& replies[4] matches ConfigsReply::BufferRange(Ok(range))
            &&& configs == configs_of(
                listed_channels(list@),
                ranges@,
                buffer_sizes(range),
            )
        },
{
    let before = replies.drop_last();
    lemma_configs_history(device, scope, before);
    assert(forall|i: int| 0 <= i < before.len() ==> before[i] == replies[i]);
}

/// Every rate that a device can be set to lies within a configuration listed for it.
pub proof fn lemma_settable_rates_are_listed(
    channels: ChannelCount,
    ranges: Seq<ValueRange>,
    buffer_size: SupportedBufferSize,
    rate: SampleRate,
)
    requires
        crate::rate::supports_rate_spec(ranges, rate),
    ensures
        exists|i: int|
            0 <= i < configs_of(channels, ranges, buffer_size).len() && (
            #[trigger] configs_of(channels, ranges, buffer_size)[i]).min_sample_rate <= rate
                && rate <= configs_of(channels, ranges, buffer_size)[i].max_sample_rate,
{
    let i = choose|i: int|
        0 <= i < ranges.len() && (#[trigger] ranges[i]).contains_spec(rate as int);
    crate::binary64::lemma_rounding_keeps_order(ranges[i].minimum, rate);
    crate::binary64::lemma_rounding_keeps_order(ranges[i].maximum, rate);
    let config = configs_of(channels, ranges, buffer_size)[i];
    assert(config.min_sample_rate <= rate && rate <= config.max_sample_rate);
}

/// The sample formats that CoreAudio has for linear PCM.
#[derive(Clone, Copy, Debug, PartialEq, Eq, Structural)]
pub enum CoreSampleFormat {
    F32,
    I32,
    I24,
    I16,
    I8,
}

/// How a device encodes audio.
#[derive(Clone, Copy, Debug, PartialEq, Eq, Structural)]
pub enum Encoding {
    /// As linear PCM, in one of the known sample formats or in another one.
    LinearPcm(Option<CoreSampleFormat>),
    /// As something else.
    Other,
}

/// The stream format that a device is set to.
#[derive(Clone, Copy, Debug, PartialEq, Eq, Structural)]
pub struct DeviceFormat {
    pub sample_rate: Binary64,
    pub channels_per_frame: u32,
    pub encoding: Encoding,
}

/// The sample format of an encoding, of which two are supported.
pub open spec fn encoding_format(encoding: Encoding) -> Result<SampleFormat, Error> {
    match encoding {
        Encoding::LinearPcm(Some(CoreSampleFormat::F32)) => Ok(SampleFormat::F32),
        Encoding::LinearPcm(Some(CoreSampleFormat::I16)) => Ok(SampleFormat::I16),
        Encoding::LinearPcm(_) => Err(
            Error {
                kind: ErrorKind::UnsupportedConfig,
                message: Some(Message::SampleFormatNotSupported),
            },
        ),
        Encoding::Other => Err(
            Error { kind: ErrorKind::UnsupportedConfig, message: Some(Message::NotLinearPcm) },
        ),
    }
}

/// The sample format of an encoding, if it is a supported one.
pub fn sample_format_of(encoding: Encoding) -> (r: Result<SampleFormat, Error>)
    ensures
        r == encoding_format(encoding),
{
    match encoding {
        Encoding::LinearPcm(Some(CoreSampleFormat::F32)) => Ok(SampleFormat::F32),
        Encoding::LinearPcm(Some(CoreSampleFormat::I16)) => Ok(SampleFormat::I16),
        Encoding::LinearPcm(_) => Err(
            Error::with_message(ErrorKind::UnsupportedConfig, Message::SampleFormatNotSupported),
        ),
        Encoding::Other => Err(
            Error::with_message(ErrorKind::UnsupportedConfig, Message::NotLinearPcm),
        ),
    }
}

/// What [`DefaultConfig`] waits for.
#[derive(Clone, Copy, Debug, PartialEq, Eq, Structural)]
pub enum DefaultConfigStage {
    Format,
    BufferRange { format: DeviceFormat, sample_format: SampleFormat },
}

/// The procedure that reads the configuration a device is set to in one direction.
#[derive(Clone, Copy, Debug, PartialEq, Eq, Structural)]
pub struct DefaultConfig {
    pub device_id: AudioDeviceID,
    pub scope: AudioObjectPropertyScope,
    pub stage: DefaultConfigStage,
}

/// What the procedure asks for.
#[derive(Clone, Copy, Debug, PartialEq, Eq, Structural)]
pub enum DefaultConfigRequest {
    /// Read the stream format in the direction `scope`.
    ReadFormat { scope: AudioObjectPropertyScope },
    /// Read the range of buffer sizes.
    ReadBufferRange,
}

/// The reply to a request.
#[derive(Debug)]
pub enum DefaultConfigReply {
    Format(Result<DeviceFormat, Error>),
    BufferRange(Result<ValueRange, Error>),
}

/// How the procedure goes on.
#[derive(Debug)]
pub enum DefaultConfigStep {
    Ask(DefaultConfig, DefaultConfigRequest),
    Done(Result<SupportedStreamConfig, Error>),
}

impl DefaultConfig {
    /// `reply` answers what the procedure asked for.
    pub open spec fn answers(self, reply: DefaultConfigReply) -> bool {
        match self.stage {
            DefaultConfigStage::Format => reply is Format,
            DefaultConfigStage::BufferRange { .. } => reply is BufferRange,
        }
    }

    /// The beginning of the procedure.
    pub open spec fn started(
        device: Device,
        scope: AudioObjectPropertyScope,
    ) -> DefaultConfigStep {
        DefaultConfigStep::Ask(
            DefaultConfig {
                device_id: device.audio_device_id,
                scope,
                stage: DefaultConfigStage::Format,
            },
            DefaultConfigRequest::ReadFormat { scope },
        )
    }

    /// The configuration that a format, a sample format and a range of buffer sizes make.
    pub open spec fn made_of(
        format: DeviceFormat,
        sample_format: SampleFormat,
        range: ValueRange,
    ) -> SupportedStreamConfig {
        SupportedStreamConfig {
            channels: crate::device::to_channel_count(format.channels_per_frame as nat),
            sample_rate: format.sample_rate.to_u32_spec(),
            buffer_size: buffer_sizes(range),
            sample_format,
        }
    }

    /// How the procedure goes on after `reply`.
    pub open spec fn next(self, reply: DefaultConfigReply) -> DefaultConfigStep {
        match reply {
            DefaultConfigReply::Format(Err(e)) => DefaultConfigStep::Done(Err(e)),
            DefaultConfigReply::Format(Ok(format)) => match encoding_format(format.encoding) {
                Err(e) => DefaultConfigStep::Done(Err(e)),
                Ok(sample_format) => if is_direction(self.scope) {
                    DefaultConfigStep::Ask(
                        DefaultConfig {
                            device_id: self.device_id,
                            scope: self.scope,
                            stage: DefaultConfigStage::BufferRange { format, sample_format },
                        },
                        DefaultConfigRequest::ReadBufferRange,
                    )
                } else {
                    DefaultConfigStep::Done(Err(unexpected_scope()))
                },
            },
            DefaultConfigReply::BufferRange(Err(e)) => DefaultConfigStep::Done(Err(e)),
            DefaultConfigReply::BufferRange(Ok(range)) => DefaultConfigStep::Done(
                Ok(
                    DefaultConfig::made_of(
                        self.stage->BufferRange_format,
                        self.stage->BufferRange_sample_format,
                        range,
                    ),
                ),
            ),
        }
    }

    /// Goes on after the reply to the last request.
    pub fn resume(self, reply: DefaultConfigReply) -> (r: DefaultConfigStep)
        requires
            self.answers(reply),
        ensures
            r == self.next(reply),
    {
        match reply {
            DefaultConfigReply::Format(Err(e)) => DefaultConfigStep::Done(Err(e)),
            DefaultConfigReply::Format(Ok(format)) => {
                let sample_format: SampleFormat = match sample_format_of(format.encoding) {
                    Ok(f) => f,
                    Err(e) => {
                        return DefaultConfigStep::Done(Err(e));
                    },
                };
                match check_direction(self.scope) {
                    Ok(_) => DefaultConfigStep::Ask(
                        DefaultConfig {
                            device_id: self.device_id,
                            scope: self.scope,
                            stage: DefaultConfigStage::BufferRange { format, sample_format },
                        },
                        DefaultConfigRequest::ReadBufferRange,
                    ),
                    Err(e) => DefaultConfigStep::Done(Err(e)),
                }
            },
            DefaultConfigReply::BufferRange(range) => {
                let buffer_size: SupportedBufferSize = match get_io_buffer_frame_size_range(range) {
                    Ok(b) => b,
                    Err(e) => {
                        return DefaultConfigStep::Done(Err(e));
                    },
                };
                match self.stage {
                    DefaultConfigStage::BufferRange { format, sample_format } =>
                        DefaultConfigStep::Done(
                        Ok(
                            SupportedStreamConfig {
                                channels: (format.channels_per_frame % 0x1_0000) as ChannelCount,
                                sample_rate: format.sample_rate.to_u32(),
                                buffer_size,
                                sample_format,
                            },
                        ),
                    ),
                    DefaultConfigStage::Format => vstd::pervasive::unreached(),
                }
            },
        }
    }
}

impl Device {
    /// Starts reading the configuration that the device is set to in the direction `scope`.
    pub fn default_config(&self, scope: AudioObjectPropertyScope) -> (r: (
        DefaultConfig,
        DefaultConfigRequest,
    ))
        ensures
            DefaultConfigStep::Ask(r.0, r.1) == DefaultConfig::started(*self, scope),
    {
        (
            DefaultConfig {
                device_id: self.audio_device_id,
                scope,
                stage: DefaultConfigStage::Format,
            },
            DefaultConfigRequest::ReadFormat { scope },
        )
    }

    /// Starts reading the input configuration that the device is set to.
    pub fn default_input_config(&self) -> (r: (DefaultConfig, DefaultConfigRequest))
        ensures
            DefaultConfigStep::Ask(r.0, r.1) == DefaultConfig::started(*self, SCOPE_INPUT),
    {
        self.default_config(SCOPE_INPUT)
    }

    /// Starts reading the output configuration that the device is set to.
    pub fn default_output_config(&self) -> (r: (DefaultConfig, DefaultConfigRequest))
        ensures
            DefaultConfigStep::Ask(r.0, r.1) == DefaultConfig::started(*self, SCOPE_OUTPUT),
    {
        self.default_config(SCOPE_OUTPUT)
    }
}

/// A default configuration is in one of the two supported sample formats.
pub proof fn lemma_default_formats(
    device: Device,
    scope: AudioObjectPropertyScope,
    format: DeviceFormat,
    range: ValueRange,
)
    requires
        is_direction(scope),
    ensures
        ({
            let start = DefaultConfig::started(device, scope)->Ask_0;
            match start.next(DefaultConfigReply::Format(Ok(format))) {
                DefaultConfigStep::Ask(m, _) => {
                    &&& m.next(
                        DefaultConfigReply::BufferRange(Ok(range)),
                    ) matches DefaultConfigStep::Done(Ok(config))
                    &&& config.sample_format == SampleFormat::F32 || config.sample_format
                        == SampleFormat::I16
                    &&& config.buffer_size == buffer_sizes(range)
                },
                DefaultConfigStep::Done(r) => r matches Err(e) && e.kind
                    == ErrorKind::UnsupportedConfig,
            }
        }),
{
}

} // verus!
