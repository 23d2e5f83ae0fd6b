use robot_hal::can::{
    CanActiveConfig, CanBitTiming, CanBusState, CanConfigureConfig, CanFrame, CanId, ClockDomain,
    CanLinkExpectation, CanMode,
};
use robot_hal::error::ErrorCategory;
use robot_hal::pcan::adapter::{default_library_name, PcanAdapter, Platform};
use robot_hal::pcan::channel::{
    bus_status, pause_before_poll, NativePcanChannel, ReceiveAction, ReceivePoll,
};
use robot_hal::pcan::device::{
    attached_channels, bus_and_index, decode_name, discovery_buffer_length, text_in_buffer,
    BusType, ChannelRecord, DriverDevice,
};
use robot_hal::pcan::driver_error::{
    check_status, from_backend, map_driver_error, status_code, status_decision, BackendFault,
    DriverError, PCAN_ERROR_BUSHEAVY, PCAN_ERROR_BUSOFF, PCAN_ERROR_OK, PCAN_ERROR_QRCVEMPTY,
    PCAN_ERROR_QXMTFULL,
};
use robot_hal::pcan::identity::{identity_from_metadata, PcanChannelMetadata};
use robot_hal::pcan::message::{
    classic_send, dlc_to_len, fd_send, from_classic_message, from_fd_message, len_to_dlc,
    read_classic, read_fd, to_classic_message, to_fd_message, PcanTimestamp, RawReceive,
    PCAN_MESSAGE_BRS, PCAN_MESSAGE_ESI, PCAN_MESSAGE_EXTENDED, PCAN_MESSAGE_FD, PCAN_MESSAGE_RTR,
    PCAN_MESSAGE_STATUS,
};
use robot_hal::pcan::open::{
    channel_address, listen_only_parameter, observe_link, prepare_attach, prepare_configure,
    verify_expectation, ObservedLink, PreparedKind,
};
use robot_hal::pcan::timing::{
    classic_bitrate, exact_phase, parse_fd_timing, timing_to_public, ClassicBitrate, PhaseTiming,
    TimingPhase,
};
use robot_hal::resource::{Capability, IdentityQuality, ResourceId};

fn request(
    mode: CanMode,
    nominal: CanBitTiming,
    data: Option<CanBitTiming>,
    listen_only: bool,
) -> CanConfigureConfig {
    CanConfigureConfig {
        mode,
        nominal,
        data,
        listen_only,
        loopback: false,
        restart_ms: None,
    }
}

fn timing(bitrate: u32, sample_point: Option<u16>, sjw: Option<u16>) -> CanBitTiming {
    CanBitTiming::new(bitrate, sample_point, sjw).unwrap()
}

#[test]
fn vendor_device_identity_is_strong_and_channel_specific() {
    let metadata = PcanChannelMetadata {
        handle: 0x51,
        device_type: 0x05,
        controller_number: 1,
        device_name: Some("PCAN-USB FD".to_owned()),
        device_id: Some(0x1234),
    };

    let identity = identity_from_metadata(&metadata).unwrap();

    assert_eq!(identity.id.as_str(), "can:pcan:device:05:00001234:01");
    assert_eq!(identity.quality, IdentityQuality::Strong);
}

#[test]
fn hardware_model_without_instance_evidence_is_weak() {
    let metadata = PcanChannelMetadata {
        handle: 0x52,
        device_type: 0x05,
        controller_number: 0,
        device_name: Some("PCAN/USB 1%".to_owned()),
        device_id: None,
    };

    let identity = identity_from_metadata(&metadata).unwrap();

    assert_eq!(identity.id.as_str(), "can:pcan:handle:0052");
    assert_eq!(identity.quality, IdentityQuality::Weak);
}

#[test]
fn handle_only_identity_is_weak() {
    let metadata = PcanChannelMetadata {
        handle: 0x801,
        device_type: 0x08,
        controller_number: 0,
        device_name: None,
        device_id: None,
    };

    let identity = identity_from_metadata(&metadata).unwrap();

    assert_eq!(identity.id.as_str(), "can:pcan:handle:0801");
    assert_eq!(identity.quality, IdentityQuality::Weak);
}

#[test]
fn zero_vendor_device_id_is_not_treated_as_stable_evidence() {
    let metadata = PcanChannelMetadata {
        handle: 0x51,
        device_type: 0x05,
        controller_number: 0,
        device_name: None,
        device_id: Some(0),
    };

    let identity = identity_from_metadata(&metadata).unwrap();

    assert_eq!(identity.quality, IdentityQuality::Weak);
    assert_eq!(identity.id.as_str(), "can:pcan:handle:0051");
}

#[test]
fn unsupported_platform_load_is_structured() {
    let error = PcanAdapter::load(Platform::Other, Ok(()))
        .err()
        .expect("PCAN must be unavailable on unsupported platforms");

    assert_eq!(error.name(), "can.adapter.unavailable");
    assert_eq!(error.operation(), "can.adapter.load");
    assert_eq!(
        default_library_name(Platform::Windows),
        Some("PCANBasic.dll")
    );
    assert_eq!(
        default_library_name(Platform::Linux),
        Some("libpcanbasic.so")
    );
}

#[test]
fn missing_dynamic_library_is_adapter_unavailable() {
    let error = from_backend(BackendFault::LibraryLoad(
        "__seeed_hal_missing_pcan_basic_library__: cannot open shared object file".to_owned(),
    ));
    let mapped = map_driver_error("can.adapter.load", error, None);

    assert_eq!(mapped.name(), "can.adapter.unavailable");
    assert_eq!(mapped.operation(), "can.adapter.load");
    assert!(!mapped.retryable());
}

#[test]
fn classic_configuration_rejects_non_predefined_bitrate() {
    let request = request(CanMode::Classic, timing(333_333, None, None), None, false);

    assert!(matches!(
        prepare_configure(&request),
        Err(DriverError::Unsupported(_))
    ));
}

#[test]
fn fd_configuration_rejects_rounded_sample_point() {
    let request = request(
        CanMode::Fd,
        timing(500_000, Some(873), None),
        Some(timing(2_000_000, Some(800), None)),
        false,
    );

    assert!(matches!(
        prepare_configure(&request),
        Err(DriverError::Unsupported(_))
    ));
}

#[test]
fn exact_fd_configuration_preserves_requested_sjw() {
    let request = request(
        CanMode::Fd,
        timing(500_000, Some(700), Some(4)),
        Some(timing(2_000_000, Some(800), Some(2))),
        true,
    );

    let prepared = match prepare_configure(&request) {
        Ok(prepared) => prepared,
        Err(error) => panic!("{}", error.message()),
    };
    let PreparedKind::Fd(timing) = prepared.kind else {
        panic!("expected FD timing");
    };
    assert_eq!(timing.nominal.sjw, 4);
    assert_eq!(timing.data.sjw, 2);
    assert!(prepared.active.listen_only);
}

#[test]
fn frame_conversion_preserves_remote_and_fd_flags() {
    let remote = CanFrame::classic_remote(CanId::extended(0x18da_00f1).unwrap(), 8).unwrap();
    let raw_remote = to_fd_message(&remote).ok().unwrap();
    assert_eq!(raw_remote.id, 0x18da_00f1);
    assert_ne!(raw_remote.message_type & PCAN_MESSAGE_EXTENDED, 0);
    assert_ne!(raw_remote.message_type & PCAN_MESSAGE_RTR, 0);
    assert_eq!(raw_remote.dlc, 8);

    let fd = CanFrame::fd_data(CanId::standard(0x123).unwrap(), vec![0x5a; 12], true, true)
        .unwrap();
    let raw_fd = to_fd_message(&fd).ok().unwrap();
    assert_eq!(raw_fd.dlc, 9);
    assert_ne!(raw_fd.message_type & PCAN_MESSAGE_FD, 0);
    assert_ne!(raw_fd.message_type & PCAN_MESSAGE_BRS, 0);
    assert_ne!(raw_fd.message_type & PCAN_MESSAGE_ESI, 0);
    assert_eq!(from_fd_message(&raw_fd).ok().unwrap(), Some(fd));
}

#[test]
fn documented_status_maps_to_vendor_code_and_resource() {
    let resource_id = ResourceId::new("can:pcan:handle:0051".to_owned());
    let error = map_driver_error(
        "can.send",
        DriverError::Status(PCAN_ERROR_QXMTFULL),
        Some(&resource_id),
    );

    assert_eq!(error.name(), "runtime.queue.full");
    assert_eq!(error.vendor_code(), Some("0x00000080"));
    assert_eq!(error.resource_id(), Some(&resource_id));
    assert!(error.retryable());
}

fn device() -> DriverDevice {
    DriverDevice {
        handle: 0x51,
        device_type: 0x05,
        controller_number: 0,
        device_name: Some("PCAN-USB FD".to_owned()),
        device_id: Some(0x1234),
        channel_condition: 1,
        fd_capable: true,
    }
}

fn adapter() -> PcanAdapter {
    PcanAdapter::load(Platform::Linux, Ok(())).ok().unwrap()
}

#[test]
fn fake_driver_covers_discovery_polling_partial_send_status_and_cleanup() {
    let adapter = adapter();
    assert_eq!(adapter.adapter_name(), "pcan");
    let descriptors = adapter.enumerate(Ok(vec![device()])).unwrap();
    let descriptor = &descriptors[0];

    assert!(descriptor.supports(Capability::CanClassic));
    assert!(descriptor.supports(Capability::CanFd));
    assert!(descriptor.supports(Capability::CanConfigure));
    assert!(descriptor.supports(Capability::CanRxTimestamp));
    assert!(!descriptor.supports(Capability::CanErrorFrames));

    let config = request(
        CanMode::Fd,
        timing(500_000, None, None),
        Some(timing(2_000_000, None, None)),
        false,
    );
    let prepared = match prepare_configure(&config) {
        Ok(prepared) => prepared,
        Err(error) => panic!("{}", error.message()),
    };
    let (selected, devices) = adapter.open(Ok(vec![device()]), descriptor.id()).unwrap();
    assert_eq!(devices[selected.position].handle, 0x51);
    let mut channel = NativePcanChannel::new(selected.descriptor, prepared.active);
    channel.ensure_open("can.send").unwrap();
    let first = CanFrame::classic_data(CanId::standard(0x123).unwrap(), vec![1]).unwrap();
    assert!(fd_send(&first).is_ok());
    channel
        .complete("can.send", check_status(PCAN_ERROR_OK))
        .unwrap();
    let rejected = channel
        .complete("can.send", check_status(PCAN_ERROR_QXMTFULL))
        .unwrap_err();
    assert_eq!(rejected.name(), "runtime.queue.full");
    assert_eq!(rejected.vendor_code(), Some("0x00000080"));

    let frame =
        CanFrame::fd_data(CanId::extended(0x12345).unwrap(), vec![0x5a; 12], true, true).unwrap();
    let raw = to_fd_message(&frame).ok().unwrap();
    let read = read_fd(PCAN_ERROR_OK, &raw, 42).ok().unwrap();
    match ReceivePoll::new().on_read(read) {
        ReceiveAction::Deliver(received) => {
            assert!(matches!(
                received.frame,
                CanFrame::FdData {
                    bitrate_switch: true,
                    ..
                }
            ));
            let timestamp = received.timestamp.unwrap();
            assert_eq!(timestamp.nanoseconds, 42_000);
            assert_eq!(timestamp.clock_domain.as_str(), "pcan-basic");
        }
        _ => panic!("a frame must be delivered"),
    }
    assert_eq!(
        channel
            .complete("can.status", bus_status(PCAN_ERROR_BUSHEAVY))
            .unwrap()
            .state,
        CanBusState::Warning
    );
    assert!(channel.needs_close());
    channel.close(Ok(())).unwrap();
    assert!(!channel.needs_close());
    channel.close(Ok(())).unwrap();
    assert_eq!(
        channel.ensure_open("can.send").unwrap_err().name(),
        "runtime.session.closed"
    );
}

#[test]
fn unavailable_fake_driver_maps_to_adapter_unavailable() {
    let error = adapter()
        .enumerate(Err(DriverError::Unavailable(
            "PCANBasic.dll was not found".to_owned(),
        )))
        .unwrap_err();

    assert_eq!(error.name(), "can.adapter.unavailable");
    assert_eq!(error.operation(), "can.enumerate");
    assert!(error.resource_id().is_none());
}

#[test]
fn selected_channel_reports_bus_off() {
    assert_eq!(
        bus_status(PCAN_ERROR_BUSOFF).ok().unwrap().state,
        CanBusState::BusOff
    );
    assert_eq!(
        bus_status(PCAN_ERROR_OK).ok().unwrap().state,
        CanBusState::Active
    );
    assert!(bus_status(PCAN_ERROR_QXMTFULL).is_err());
}

#[test]
fn selected_channels_are_told_apart_by_their_identity() {
    let other = DriverDevice {
        handle: 0x52,
        controller_number: 1,
        ..device()
    };
    let devices = vec![device(), other];
    let adapter = adapter();
    let id = ResourceId::new("can:pcan:device:05:00001234:01".to_owned());
    let selected = adapter.select(&devices, &id).unwrap();
    assert_eq!(selected.position, 1);
    let missing = ResourceId::new("can:pcan:handle:0001".to_owned());
    let error = adapter.select(&devices, &missing).err().unwrap();
    assert_eq!(error.name(), "runtime.resource.not_found");
    assert_eq!(error.resource_id(), Some(&missing));
}

#[test]
fn selected_classic_channel_preserves_standard_and_remote_frames() {
    for frame in [
        CanFrame::classic_data(CanId::standard(0x123).unwrap(), vec![1, 2, 3]).unwrap(),
        CanFrame::classic_remote(CanId::extended(0x1abc_def0).unwrap(), 4).unwrap(),
    ] {
        let message = classic_send(&frame).ok().unwrap();
        assert_eq!(from_classic_message(&message).ok().unwrap(), Some(frame));
    }
    let fd = CanFrame::fd_data(CanId::standard(1).unwrap(), vec![0; 12], false, false).unwrap();
    assert!(matches!(
        to_classic_message(&fd),
        Err(DriverError::UnsupportedFrame(_))
    ));
}

#[test]
fn selected_fd_channel_preserves_brs_esi_and_payload() {
    for length in [0_usize, 8, 12, 16, 20, 24, 32, 48, 64] {
        let frame = CanFrame::fd_data(
            CanId::extended(0x12345).unwrap(),
            vec![0x5a; length],
            true,
            length == 64,
        )
        .unwrap();
        let message = fd_send(&frame).ok().unwrap();
        assert_eq!(from_fd_message(&message).ok().unwrap(), Some(frame));
    }
}

#[test]
fn selected_channel_reports_disconnect_with_canonical_identity() {
    let id = ResourceId::new("can:pcan:device:05:00001234:00".to_owned());
    let error = map_driver_error("can.receive", DriverError::Status(0x1400), Some(&id));
    assert_eq!(error.vendor_code(), Some("0x00001400"));
    assert_eq!(error.resource_id(), Some(&id));
}

#[test]
fn diagnostics_are_skipped_a_bounded_number_of_times() {
    let mut poll = ReceivePoll::new();
    let mut again = 0;
    while let ReceiveAction::ReadAgain = poll.on_read(RawReceive::Skipped) {
        again += 1;
    }
    assert_eq!(again, 63);
    assert!(matches!(
        poll.on_read(RawReceive::Empty),
        ReceiveAction::CheckDeadline
    ));
    assert_eq!(pause_before_poll(0, 5), None);
    assert_eq!(pause_before_poll(7, 0), None);
    assert_eq!(pause_before_poll(7_000_000, 7_000_000), Some(1_000_000));
    assert_eq!(pause_before_poll(7_000_000, 9), Some(9));
}

#[test]
fn reads_tell_frames_diagnostics_and_an_empty_queue_apart() {
    let frame = CanFrame::classic_data(CanId::standard(0x7ff).unwrap(), vec![9; 8]).unwrap();
    let message = to_classic_message(&frame).ok().unwrap();
    let time = PcanTimestamp {
        millis: 2,
        millis_overflow: 0,
        micros: 5,
    };
    match read_classic(PCAN_ERROR_OK, &message, time).ok().unwrap() {
        RawReceive::Frame(received, time) => {
            assert_eq!(received, frame);
            assert_eq!(time, 2_005_000);
        }
        _ => panic!("a frame was read"),
    }
    assert!(matches!(
        read_classic(PCAN_ERROR_QRCVEMPTY, &message, time),
        Ok(RawReceive::Empty)
    ));
    let mut status = message;
    status.message_type = PCAN_MESSAGE_STATUS;
    assert!(matches!(
        read_classic(PCAN_ERROR_OK, &status, time),
        Ok(RawReceive::Skipped)
    ));
    assert!(matches!(
        read_classic(0x0800_0000, &message, time),
        Err(DriverError::Status(0x0800_0000))
    ));
}

#[test]
fn lengths_and_their_codes_are_inverse() {
    for (length, code) in [(0, 0), (8, 8), (12, 9), (16, 10), (20, 11), (24, 12), (32, 13)] {
        assert_eq!(len_to_dlc(length), Some(code));
        assert_eq!(dlc_to_len(code) as usize, length);
    }
    assert_eq!(len_to_dlc(48), Some(14));
    assert_eq!(len_to_dlc(64), Some(15));
    assert_eq!(len_to_dlc(13), None);
}

#[test]
fn exact_timings_are_read_back() {
    let asked = timing(500_000, Some(800), Some(2));
    let registers = exact_phase(&asked, TimingPhase::Nominal).ok().unwrap();
    let public = timing_to_public(registers).ok().unwrap();
    assert_eq!(public.bitrate, 500_000);
    assert_eq!(public.sample_point_permill, Some(800));
    assert_eq!(public.sjw, Some(2));
    let odd = timing_to_public(PhaseTiming {
        brp: 2,
        tseg1: 63,
        tseg2: 16,
        sjw: 16,
    })
    .ok()
    .unwrap();
    assert_eq!(odd.bitrate, 500_000);
    assert_eq!(odd.sample_point_permill, Some(800));
    assert_eq!(classic_bitrate(500_000), Some(ClassicBitrate::Br500K));
    assert_eq!(classic_bitrate(500_001), None);
}

const TIMING_TEXT: &str = "f_clock_mhz=80, nom_brp=2, nom_tseg1=63, nom_tseg2=16, nom_sjw=16, \
    data_brp=2, data_tseg1=15, data_tseg2=4, data_sjw=4";

#[test]
fn attached_links_are_described_by_the_driver() {
    let expectation = CanLinkExpectation {
        mode: None,
        nominal_bitrate: Some(500_000),
        data_bitrate: Some(2_000_000),
        listen_only: None,
        loopback: None,
    };
    let link = observe_link(Ok(500_000), Ok(2_000_000), Ok(0), &expectation)
        .ok()
        .unwrap();
    assert!(link.needs_timing_text());
    assert!(verify_expectation(&expectation, &link).is_ok());
    let prepared = prepare_attach(&link, TIMING_TEXT).ok().unwrap();
    assert_eq!(prepared.active.mode, CanMode::Fd);
    assert_eq!(prepared.active.nominal.bitrate, 500_000);
    let timing = parse_fd_timing(TIMING_TEXT).ok().unwrap();
    assert_eq!(timing.data.tseg1, 15);
    assert!(parse_fd_timing("nom_brp=2").is_err());
    let wrong = CanLinkExpectation {
        nominal_bitrate: Some(250_000),
        ..expectation
    };
    assert!(matches!(
        verify_expectation(&wrong, &link),
        Err(DriverError::ConfigurationMismatch(_))
    ));
    let classic = ObservedLink {
        nominal_bitrate: 500_000,
        data_bitrate: None,
        listen_only: true,
    };
    assert!(!classic.needs_timing_text());
    let prepared = prepare_attach(&classic, "").ok().unwrap();
    assert_eq!(prepared.active.mode, CanMode::Classic);
    assert!(prepared.active.listen_only);
    assert_eq!(
        listen_only_parameter(&device(), &prepared).ok().unwrap(),
        1
    );
}

#[test]
fn channels_are_found_in_the_drivers_records() {
    let mut name = vec![0_u8; 33];
    name[..4].copy_from_slice(b"PCAN");
    let record = ChannelRecord {
        channel_handle: 0x51,
        device_type: 5,
        controller_number: 0,
        device_features: 1,
        device_name: name.clone(),
        device_id: 7,
        channel_condition: 1,
    };
    let devices = attached_channels(&vec![record]);
    assert_eq!(devices.len(), 1);
    assert_eq!(devices[0].device_name.as_deref(), Some("PCAN"));
    assert!(devices[0].fd_capable);
    assert_eq!(decode_name(&[0; 33]), None);
    assert_eq!(text_in_buffer(&name).ok().unwrap(), "PCAN");
    assert!(text_in_buffer(&[0xff, 0]).is_err());
    assert_eq!(bus_and_index(0x51), Some((BusType::Usb, 0)));
    assert_eq!(bus_and_index(0x50), Some((BusType::Pci, 15)));
    assert_eq!(bus_and_index(0x802), Some((BusType::Lan, 1)));
    assert_eq!(bus_and_index(0), None);
    assert!(channel_address(&device()).is_ok());
    assert_eq!(discovery_buffer_length(2).ok().unwrap(), 104);
    assert!(discovery_buffer_length(u32::MAX).is_err());
}

#[test]
fn driver_errors_keep_their_texts() {
    assert_eq!(status_code(0x80), "0x00000080");
    let (name, category, retryable) = status_decision(PCAN_ERROR_QXMTFULL, "can.send");
    assert_eq!(name, "runtime.queue.full");
    assert_eq!(category, ErrorCategory::Unavailable);
    assert!(retryable);
    let closed = map_driver_error("can.send", DriverError::Closed, None);
    assert_eq!(closed.name(), "runtime.session.closed");
    let mismatch = map_driver_error(
        "can.open",
        DriverError::ConfigurationMismatch("bitrate".to_owned()),
        None,
    );
    assert_eq!(mismatch.name(), "can.configuration.mismatch");
    let active = CanActiveConfig::new(
        CanMode::Classic,
        timing(500_000, None, None),
        None,
        false,
        false,
        ClockDomain::PcanBasic,
    )
    .unwrap();
    assert_eq!(active.mode, CanMode::Classic);
}

#[test]
fn unset_sample_points_are_those_of_the_controller() {
    let nominal = exact_phase(&timing(500_000, None, None), TimingPhase::Nominal)
        .ok()
        .unwrap();
    assert_eq!(
        nominal,
        PhaseTiming {
            brp: 8,
            tseg1: 13,
            tseg2: 6,
            sjw: 4
        }
    );
    let data = exact_phase(&timing(2_000_000, None, None), TimingPhase::Data)
        .ok()
        .unwrap();
    assert_eq!(
        data,
        PhaseTiming {
            brp: 4,
            tseg1: 7,
            tseg2: 2,
            sjw: 2
        }
    );
}

#[test]
fn bytes_that_are_no_text_are_replaced_or_refused() {
    assert_eq!(
        decode_name(&[b'P', 0xff, b'N', 0]).as_deref(),
        Some("P\u{fffd}N")
    );
    assert_eq!(
        text_in_buffer(&[0xff, 0]).err().unwrap().message(),
        "PCAN returned non-UTF-8 timing text: invalid utf-8 sequence of 1 bytes from index 0"
    );
}
