use std::collections::hash_map::DefaultHasher;
use std::hash::{Hash, Hasher};

use duplex_audio::binary64::Binary64;
use duplex_audio::config::{
    SampleFormat, SupportedBufferSize, SupportedStreamConfig, SupportedStreamConfigRange,
};
use duplex_audio::device::{
    direction_from_counts, Device, DeviceDescription, DeviceDirection, DeviceId, InterfaceType,
    AGGREGATE_DEVICE_CLASS, SCOPE_INPUT, SCOPE_OUTPUT,
};
use duplex_audio::error::{Error, ErrorKind, Message};
use duplex_audio::host::Host;
use duplex_audio::physical::{
    set_physical_format, PhysicalFormat, PhysicalFormatError, PhysicalReply, PhysicalRequest,
    PhysicalStep, StreamDescription,
};
use duplex_audio::properties::{
    count_buffers, count_channels, get_io_buffer_frame_size_range, ConfigsReply, ConfigsRequest,
    ConfigsStep, CoreSampleFormat, DefaultConfigReply, DefaultConfigRequest, DefaultConfigStep,
    DeviceFormat, Encoding, SupportedConfigs, BUFFER_BYTES, BUFFER_LIST_HEADER,
};
use duplex_audio::rate::{supports_rate, ValueRange, VALUE_RANGE_BYTES};

fn bits(x: f64) -> Binary64 {
    Binary64 { bits: x.to_bits() }
}

fn range(min: f64, max: f64) -> ValueRange {
    ValueRange { minimum: bits(min), maximum: bits(max) }
}

/// A buffer list as CoreAudio lays it out: the number of buffers, padding, and for each buffer
/// its channels, its size and its address.
fn buffer_list(channels: &[u32]) -> Vec<u8> {
    let mut list = vec![];
    list.extend((channels.len() as u32).to_le_bytes());
    list.extend([0xAA; 4]);
    for c in channels {
        list.extend(c.to_le_bytes());
        list.extend([0xBB; 4]);
        list.extend([0xCC; 8]);
    }
    list
}

fn failed() -> Error {
    Error::with_message(ErrorKind::BackendError, Message::Backend("failed".to_string()))
}

fn some_config() -> SupportedStreamConfigRange {
    SupportedStreamConfigRange {
        channels: 2,
        min_sample_rate: 44100,
        max_sample_rate: 48000,
        buffer_size: SupportedBufferSize::Unknown,
        sample_format: SampleFormat::F32,
    }
}

fn ask(step: ConfigsStep) -> (SupportedConfigs, ConfigsRequest) {
    match step {
        ConfigsStep::Ask(m, r) => (m, r),
        ConfigsStep::Done(r) => panic!("done: {r:?}"),
    }
}

fn done(step: ConfigsStep) -> Result<Vec<SupportedStreamConfigRange>, Error> {
    match step {
        ConfigsStep::Ask(_, r) => panic!("asked: {r:?}"),
        ConfigsStep::Done(r) => r,
    }
}

#[test]
fn the_host_is_always_there() {
    assert!(Host::new().is_ok());
    assert!(Host::is_available());
}

#[test]
fn devices_are_equal_by_id() {
    let a = Device::new(42);
    let b = Device { audio_device_id: 42, is_default_output: true };
    assert!(!a.is_default_output);
    assert!(a == b);
    assert!(a != Device::new(43));
}

#[test]
fn equal_devices_hash_alike() {
    let hash = |device: Device| {
        let mut hasher = DefaultHasher::new();
        device.hash(&mut hasher);
        hasher.finish()
    };
    let id_hash = |id: u32| {
        let mut hasher = DefaultHasher::new();
        id.hash(&mut hasher);
        hasher.finish()
    };
    let default = Device { audio_device_id: 4, is_default_output: true };
    assert_eq!(Device::new(4).hash_key(), 4);
    assert_eq!(hash(Device::new(4)), hash(default));
    assert_eq!(hash(Device::new(4)), id_hash(4));
    assert_ne!(hash(Device::new(4)), hash(Device::new(5)));
}

#[test]
fn aggregate_devices() {
    assert!(Device::is_aggregate_device(0, AGGREGATE_DEVICE_CLASS));
    assert!(!Device::is_aggregate_device(-50, AGGREGATE_DEVICE_CLASS));
    assert!(!Device::is_aggregate_device(0, 0x6164_6576));
    assert_eq!(AGGREGATE_DEVICE_CLASS.to_be_bytes(), *b"aagg");
    assert_eq!(SCOPE_INPUT.to_be_bytes(), *b"inpt");
    assert_eq!(SCOPE_OUTPUT.to_be_bytes(), *b"outp");
}

#[test]
fn directions() {
    assert_eq!(direction_from_counts(Some(1), Some(2)), DeviceDirection::Duplex);
    assert_eq!(direction_from_counts(Some(1), Some(0)), DeviceDirection::Input);
    assert_eq!(direction_from_counts(None, Some(2)), DeviceDirection::Output);
    assert_eq!(direction_from_counts(Some(0), None), DeviceDirection::Unknown);
}

#[test]
fn a_device_is_described() {
    let description = Device::description(
        Ok("Built-in".to_string()),
        &Ok(vec![some_config()]),
        &Err(failed()),
        false,
    );
    assert_eq!(
        description,
        Ok(DeviceDescription {
            name: "Built-in".to_string(),
            direction: DeviceDirection::Input,
            interface_type: InterfaceType::Unknown,
        })
    );
    let description = Device::description(
        Ok("Both".to_string()),
        &Ok(vec![some_config()]),
        &Ok(vec![some_config(), some_config()]),
        true,
    )
    .unwrap();
    assert_eq!(description.direction, DeviceDirection::Duplex);
    assert_eq!(description.interface_type, InterfaceType::Aggregate);
}

#[test]
fn a_count_of_configurations_keeps_its_low_bits() {
    let many = Ok(vec![some_config(); 65536]);
    let description =
        Device::description(Ok("Many".to_string()), &many, &Ok(vec![some_config()]), false);
    assert_eq!(description.unwrap().direction, DeviceDirection::Output);
}

#[test]
fn a_device_without_a_name_is_not_described() {
    let error = Device::description(Err(failed()), &Ok(vec![]), &Ok(vec![]), false).unwrap_err();
    assert_eq!(error.kind, ErrorKind::BackendError);
    assert_eq!(error.message.unwrap().text(), "Failed to get device name: failed");
}

#[test]
fn device_ids() {
    assert_eq!(
        Device::id(Ok(Some("AppleHDA:1".to_string()))),
        Ok(DeviceId { uid: "AppleHDA:1".to_string() })
    );
    assert_eq!(Device::id(Ok(None)), Err(Error::from_kind(ErrorKind::DeviceNotAvailable)));
    assert_eq!(Device::id(Err(failed())), Err(failed()));
}

#[test]
fn directions_that_a_device_supports() {
    let some = Ok(vec![some_config()]);
    let none: Result<Vec<SupportedStreamConfigRange>, Error> = Ok(vec![]);
    let unknown: Result<Vec<SupportedStreamConfigRange>, Error> = Err(failed());
    assert!(Device::supports_input(&some));
    assert!(!Device::supports_input(&none));
    assert!(!Device::supports_output(&unknown));
    assert!(Device::supports_output(&some));
    assert!(Device::supports_duplex(&some, &some));
    assert!(!Device::supports_duplex(&some, &none));
    assert!(!Device::supports_duplex(&unknown, &some));
}

#[test]
fn configurations_are_listed_for_each_range() {
    let device = Device::new(9);
    let (m, r) = device.supported_input_configs();
    assert_eq!(m.device_id, 9);
    assert_eq!(r, ConfigsRequest::MeasureBufferList { scope: SCOPE_INPUT });
    let (m, r) = ask(m.resume(ConfigsReply::Size(Ok(40))));
    assert_eq!(r, ConfigsRequest::ReadBufferList { scope: SCOPE_INPUT, bytes: 40 });
    let (m, r) = ask(m.resume(ConfigsReply::BufferList(Ok(buffer_list(&[2, 1])))));
    assert_eq!(r, ConfigsRequest::MeasureRates { scope: SCOPE_INPUT });
    let (m, r) = ask(m.resume(ConfigsReply::Size(Ok(32))));
    assert_eq!(r, ConfigsRequest::ReadRates { scope: SCOPE_INPUT, count: 2 });
    let ranges = vec![range(44100.0, 44100.0), range(48000.0, 96000.5)];
    let (m, r) = ask(m.resume(ConfigsReply::Rates(Ok(ranges))));
    assert_eq!(r, ConfigsRequest::ReadBufferRange);
    let configs = done(m.resume(ConfigsReply::BufferRange(Ok(range(14.0, 4096.0))))).unwrap();
    let buffer_size = SupportedBufferSize::Range { min: 14, max: 4096 };
    let config = |min, max| SupportedStreamConfigRange {
        channels: 3,
        min_sample_rate: min,
        max_sample_rate: max,
        buffer_size,
        sample_format: SampleFormat::F32,
    };
    assert_eq!(configs, vec![config(44100, 44100), config(48000, 96000)]);
}

#[test]
fn rates_that_can_be_set_are_listed() {
    let ranges = || vec![range(8000.5, 16000.0), range(44100.0, 48000.75)];
    let (m, _) = Device::new(3).supported_output_configs();
    let (m, _) = ask(m.resume(ConfigsReply::Size(Ok(24))));
    let (m, _) = ask(m.resume(ConfigsReply::BufferList(Ok(buffer_list(&[2])))));
    let (m, _) = ask(m.resume(ConfigsReply::Size(Ok(32))));
    let (m, _) = ask(m.resume(ConfigsReply::Rates(Ok(ranges()))));
    let configs =
        done(m.resume(ConfigsReply::BufferRange(Ok(range(16.0, 4096.0))))).unwrap();
    let listed = |rate: u32| {
        configs.iter().any(|c| c.min_sample_rate <= rate && rate <= c.max_sample_rate)
    };
    for rate in [8001, 16000, 44100, 48000] {
        assert!(supports_rate(&ranges(), rate));
        assert!(listed(rate));
    }
    // A listing may be wider than what can be set, never narrower.
    assert!(!supports_rate(&ranges(), 8000));
    assert!(listed(8000));
    assert!(!supports_rate(&ranges(), 22050));
    assert!(!listed(22050));
}

#[test]
fn a_range_is_two_doubles() {
    let size = std::mem::size_of::<objc2_core_audio_types::AudioValueRange>();
    assert_eq!(VALUE_RANGE_BYTES as usize, size);
}

#[test]
fn buffer_lists_are_laid_out_like_those_of_coreaudio() {
    let buffer = std::mem::size_of::<objc2_core_audio_types::AudioBuffer>();
    assert_eq!(BUFFER_BYTES, buffer);
    // A list is declared with one buffer in it.
    let list = std::mem::size_of::<objc2_core_audio_types::AudioBufferList>();
    assert_eq!(BUFFER_LIST_HEADER + BUFFER_BYTES, list);
}

#[test]
fn buffers_are_counted() {
    assert_eq!(count_buffers(&buffer_list(&[])), 0);
    assert_eq!(count_buffers(&vec![0, 0, 0, 0]), 0);
    assert_eq!(count_buffers(&buffer_list(&[7, 7])), 2);
    assert_eq!(count_buffers(&buffer_list(&[1; 0x1_02])), 0x1_02);
}

#[test]
fn a_device_without_buffers_has_no_configurations() {
    // No buffers come before anything else is looked at, the scope included.
    let (m, _) = Device::new(9).supported_configs(7);
    let (m, _) = ask(m.resume(ConfigsReply::Size(Ok(8))));
    assert_eq!(done(m.resume(ConfigsReply::BufferList(Ok(buffer_list(&[]))))), Ok(vec![]));
}

#[test]
fn a_scope_that_is_no_direction() {
    let (m, _) = Device::new(9).supported_configs(7);
    let (m, _) = ask(m.resume(ConfigsReply::Size(Ok(24))));
    let (m, _) = ask(m.resume(ConfigsReply::BufferList(Ok(buffer_list(&[2])))));
    let (m, _) = ask(m.resume(ConfigsReply::Size(Ok(16))));
    assert_eq!(
        done(m.resume(ConfigsReply::Rates(Ok(vec![range(1.0, 2.0)])))),
        Err(Error::with_message(ErrorKind::UnsupportedOperation, Message::UnexpectedScope))
    );
}

#[test]
fn failures_while_listing_are_passed_on() {
    let device = Device::new(9);
    let (m, _) = device.supported_output_configs();
    assert_eq!(done(m.resume(ConfigsReply::Size(Err(failed())))), Err(failed()));
    let (m, _) = device.supported_output_configs();
    let (m, _) = ask(m.resume(ConfigsReply::Size(Ok(24))));
    assert_eq!(done(m.resume(ConfigsReply::BufferList(Err(failed())))), Err(failed()));
    let upto_rates = || {
        let (m, _) = device.supported_output_configs();
        let (m, _) = ask(m.resume(ConfigsReply::Size(Ok(24))));
        ask(m.resume(ConfigsReply::BufferList(Ok(buffer_list(&[2]))))).0
    };
    assert_eq!(done(upto_rates().resume(ConfigsReply::Size(Err(failed())))), Err(failed()));
    let (m, _) = ask(upto_rates().resume(ConfigsReply::Size(Ok(16))));
    assert_eq!(done(m.resume(ConfigsReply::Rates(Err(failed())))), Err(failed()));
    let (m, _) = ask(upto_rates().resume(ConfigsReply::Size(Ok(16))));
    let (m, _) = ask(m.resume(ConfigsReply::Rates(Ok(vec![range(1.0, 2.0)]))));
    assert_eq!(done(m.resume(ConfigsReply::BufferRange(Err(failed())))), Err(failed()));
}

#[test]
fn channels_add_up_and_wrap_around() {
    assert_eq!(count_channels(&buffer_list(&[])), 0);
    assert_eq!(count_channels(&buffer_list(&[2, 6, 1])), 9);
    assert_eq!(count_channels(&buffer_list(&[65535, 2])), 1);
    assert_eq!(count_channels(&buffer_list(&[u32::MAX, u32::MAX])), 65534);
}

#[test]
fn buffer_size_ranges_are_rounded() {
    assert_eq!(
        get_io_buffer_frame_size_range(Ok(range(14.9, 4096.0))),
        Ok(SupportedBufferSize::Range { min: 14, max: 4096 })
    );
    assert_eq!(get_io_buffer_frame_size_range(Err(failed())), Err(failed()));
}

fn device_format(encoding: Encoding) -> DeviceFormat {
    DeviceFormat { sample_rate: bits(48000.0), channels_per_frame: 65538, encoding }
}

#[test]
fn default_configurations() {
    let formats = vec![
        (CoreSampleFormat::F32, SampleFormat::F32),
        (CoreSampleFormat::I16, SampleFormat::I16),
    ];
    for (core, sample_format) in formats {
        let (m, r) = Device::new(3).default_input_config();
        assert_eq!(r, DefaultConfigRequest::ReadFormat { scope: SCOPE_INPUT });
        let format = device_format(Encoding::LinearPcm(Some(core)));
        match m.resume(DefaultConfigReply::Format(Ok(format))) {
            DefaultConfigStep::Ask(m, r) => {
                assert_eq!(r, DefaultConfigRequest::ReadBufferRange);
                match m.resume(DefaultConfigReply::BufferRange(Ok(range(16.0, 512.0)))) {
                    DefaultConfigStep::Done(config) => assert_eq!(
                        config,
                        Ok(SupportedStreamConfig {
                            channels: 2,
                            sample_rate: 48000,
                            buffer_size: SupportedBufferSize::Range { min: 16, max: 512 },
                            sample_format,
                        })
                    ),
                    other => panic!("{other:?}"),
                }
                match m.resume(DefaultConfigReply::BufferRange(Err(failed()))) {
                    DefaultConfigStep::Done(r) => assert_eq!(r, Err(failed())),
                    other => panic!("{other:?}"),
                }
            }
            other => panic!("{other:?}"),
        }
    }
}

fn default_error(scope: u32, format: Result<DeviceFormat, Error>) -> Error {
    let (m, _) = Device::new(3).default_config(scope);
    match m.resume(DefaultConfigReply::Format(format)) {
        DefaultConfigStep::Done(r) => r.unwrap_err(),
        other => panic!("{other:?}"),
    }
}

#[test]
fn default_configurations_that_are_not_supported() {
    let not_pcm = Error::with_message(ErrorKind::UnsupportedConfig, Message::NotLinearPcm);
    // The format is looked at before the scope.
    assert_eq!(default_error(0, Ok(device_format(Encoding::Other))), not_pcm);
    let not_supported =
        Error::with_message(ErrorKind::UnsupportedConfig, Message::SampleFormatNotSupported);
    for core in [
        None,
        Some(CoreSampleFormat::I8),
        Some(CoreSampleFormat::I24),
        Some(CoreSampleFormat::I32),
    ] {
        let format = device_format(Encoding::LinearPcm(core));
        assert_eq!(default_error(SCOPE_OUTPUT, Ok(format)), not_supported);
    }
    let format = device_format(Encoding::LinearPcm(Some(CoreSampleFormat::F32)));
    assert_eq!(
        default_error(0, Ok(format)),
        Error::with_message(ErrorKind::UnsupportedOperation, Message::UnexpectedScope)
    );
    assert_eq!(default_error(SCOPE_OUTPUT, Err(failed())), failed());
}

#[test]
fn default_output_configurations_ask_for_output() {
    let (_, r) = Device::new(3).default_output_config();
    assert_eq!(r, DefaultConfigRequest::ReadFormat { scope: SCOPE_OUTPUT });
}

#[test]
fn physical_formats() {
    match set_physical_format(5, 44100, 2, SampleFormat::I24) {
        PhysicalStep::Ask(m, r) => {
            assert_eq!(
                r,
                PhysicalRequest::FindMatch(PhysicalFormat {
                    sample_rate: 44100,
                    sample_format: CoreSampleFormat::I24,
                    channels: 2,
                })
            );
            assert!(matches!(
                m.resume(PhysicalReply::Match(None)),
                PhysicalStep::Done(Err(PhysicalFormatError::UnsupportedStreamFormat))
            ));
            let found = StreamDescription {
                sample_rate: bits(44100.0),
                format_id: 0x6c70_636d,
                format_flags: 0xC,
                bytes_per_packet: 6,
                frames_per_packet: 1,
                bytes_per_frame: 6,
                channels_per_frame: 2,
                bits_per_channel: 24,
                reserved: 0,
            };
            match m.resume(PhysicalReply::Match(Some(found))) {
                PhysicalStep::Ask(m, r) => {
                    assert_eq!(r, PhysicalRequest::WriteMatch(found));
                    match m.resume(PhysicalReply::Written(Ok(()))) {
                        PhysicalStep::Done(Ok(set)) => assert_eq!(set, found),
                        other => panic!("{other:?}"),
                    }
                    assert!(matches!(
                        m.resume(PhysicalReply::Written(Err(failed()))),
                        PhysicalStep::Done(Err(PhysicalFormatError::Backend(_)))
                    ));
                }
                other => panic!("{other:?}"),
            }
        }
        other => panic!("{other:?}"),
    }
}

#[test]
fn physical_formats_without_a_counterpart() {
    for format in [
        SampleFormat::U8,
        SampleFormat::U16,
        SampleFormat::U24,
        SampleFormat::U32,
        SampleFormat::I64,
        SampleFormat::U64,
        SampleFormat::F64,
    ] {
        assert!(matches!(
            set_physical_format(5, 44100, 2, format),
            PhysicalStep::Done(Err(PhysicalFormatError::UnsupportedStreamFormat))
        ));
    }
    for format in [
        SampleFormat::I8,
        SampleFormat::I16,
        SampleFormat::I24,
        SampleFormat::I32,
        SampleFormat::F32,
    ] {
        assert!(matches!(set_physical_format(5, 44100, 2, format), PhysicalStep::Ask(_, _)));
    }
}

#[test]
fn sample_sizes() {
    let sizes = vec![
        (SampleFormat::I8, 1),
        (SampleFormat::U8, 1),
        (SampleFormat::I16, 2),
        (SampleFormat::U16, 2),
        (SampleFormat::I24, 4),
        (SampleFormat::U24, 4),
        (SampleFormat::I32, 4),
        (SampleFormat::U32, 4),
        (SampleFormat::F32, 4),
        (SampleFormat::I64, 8),
        (SampleFormat::U64, 8),
        (SampleFormat::F64, 8),
    ];
    for (format, size) in sizes {
        assert_eq!(format.sample_size(), size);
    }
}
