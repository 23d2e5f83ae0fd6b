use robot_hal::error::{ErrorCategory, HalError, IoErrorKind};
use robot_hal::resource::{IdentityQuality, TransportKind};
use robot_hal::serial::adapter::{descriptor_from_port, PortInfo, PortType, SerialPortAdapter};
use robot_hal::serial::fault::{io_error_decision, map_io_error, map_serialport_error, PortFault};
use robot_hal::serial::identity::{
    identity_from_endpoint, identity_from_usb_metadata, UsbPortMetadata,
};
use robot_hal::serial::session::{
    validate_config, CloseStep, DataBits, DrainEnd, FlowControl, NativeSerialSession, Parity,
    ReadEnd, Readiness, SerialConfig, StopBits,
};

fn metadata() -> UsbPortMetadata {
    UsbPortMetadata {
        vid: 0x10c4,
        pid: 0xea60,
        serial_number: Some("ABC123".into()),
        manufacturer: Some("Silicon Labs".into()),
        product: Some("CP210x".into()),
    }
}

#[test]
fn usb_serial_number_produces_strong_identity() {
    let identity = identity_from_usb_metadata("COM7", &metadata()).unwrap();

    assert_eq!(identity.id.as_str(), "serial:usb:10c4:ea60:ABC123");
    assert_eq!(identity.quality, IdentityQuality::Strong);
}

#[test]
fn endpoint_only_identity_is_explicitly_weak() {
    let identity = identity_from_endpoint("/dev/ttyS0").unwrap();

    assert_eq!(identity.quality, IdentityQuality::Weak);
    assert_ne!(identity.id.as_str(), "/dev/ttyS0");
}

fn config() -> SerialConfig {
    SerialConfig {
        baud_rate: 115_200,
        data_bits: DataBits::Eight,
        parity: Parity::Absent,
        stop_bits: StopBits::One,
        flow_control: FlowControl::Absent,
        read_timeout: 100_000_000,
    }
}

fn session() -> NativeSerialSession {
    NativeSerialSession::open(config()).ok().unwrap()
}

#[test]
fn closed_state_takes_precedence_over_invalid_read_size() {
    let mut session = session();
    assert!(matches!(session.close_step(), CloseStep::StartDrain));
    session
        .close_after_drain(DrainEnd::Finished(Ok(())))
        .unwrap();
    let error = session.check_read(0).unwrap_err();

    assert_eq!(error.name(), "runtime.session.closed");
}

#[test]
fn dropping_flush_future_leaves_tracked_drain_and_recovers_session() {
    let mut session = session();
    session.begin_tracked_drain("serial.flush").unwrap();
    assert!(matches!(
        session.readiness("serial.read"),
        Ok(Readiness::AwaitDrain)
    ));

    session
        .ensure_ready("serial.read", DrainEnd::Finished(Ok(())))
        .unwrap();
    let error = session.check_read(0).unwrap_err();

    assert_eq!(error.name(), "runtime.argument.invalid");
    assert!(matches!(
        session.readiness("serial.read"),
        Ok(Readiness::Ready)
    ));
}

#[test]
fn dropping_close_future_leaves_tracked_close_and_terminal_state() {
    let mut session = session();
    assert!(matches!(session.close_step(), CloseStep::StartDrain));
    assert!(matches!(session.close_step(), CloseStep::AwaitDrain));

    session
        .close_after_drain(DrainEnd::Finished(Ok(())))
        .unwrap();

    assert!(matches!(session.close_step(), CloseStep::Done));
    assert!(session.readiness("serial.read").is_err());
}

#[test]
fn drain_join_failure_closes_session_deterministically() {
    let mut session = session();
    assert!(matches!(session.close_step(), CloseStep::StartDrain));

    let error = session
        .finish_tracked_drain(DrainEnd::Lost("task panicked".to_owned()))
        .unwrap_err();

    assert_eq!(error.name(), "runtime.internal");
    assert!(matches!(session.close_step(), CloseStep::Done));
}

fn disconnected() -> HalError {
    HalError::fixed(
        "runtime.transport.disconnected",
        ErrorCategory::Unavailable,
        "serial.close",
        false,
        "device was unplugged",
    )
}

#[test]
fn unplugged_ports_close_without_a_failure() {
    let mut session = session();
    assert!(matches!(session.close_step(), CloseStep::StartDrain));
    session
        .close_after_drain(DrainEnd::Finished(Err(disconnected())))
        .unwrap();
    assert!(matches!(session.close_step(), CloseStep::Done));
}

#[test]
fn configurations_have_to_be_usable() {
    assert!(validate_config(&config()).is_ok());
    assert_eq!(
        validate_config(&SerialConfig {
            baud_rate: 0,
            ..config()
        })
        .unwrap_err()
        .debug_message(),
        "baud_rate must be greater than zero"
    );
    assert_eq!(
        validate_config(&SerialConfig {
            read_timeout: 0,
            ..config()
        })
        .unwrap_err()
        .debug_message(),
        "read_timeout must be greater than zero"
    );
    assert_eq!(session().read_timeout(), 100_000_000);
}

#[test]
fn physical_loopback_round_trip_preserves_byte_order() {
    let session = session();
    assert!(session.write_needed(&[1, 2, 3]).unwrap());
    assert!(!session.write_needed(&[]).unwrap());
    assert_eq!(
        session
            .read(ReadEnd::Read {
                buffer: vec![1, 2, 3, 0, 0],
                count: 3,
            })
            .unwrap(),
        vec![1, 2, 3]
    );
    assert_eq!(
        session
            .read(ReadEnd::Read {
                buffer: vec![0; 4],
                count: 0,
            })
            .unwrap_err()
            .name(),
        "runtime.transport.disconnected"
    );
    assert_eq!(
        session
            .read(ReadEnd::TimedOut {
                shown_timeout: "100ms".to_owned(),
            })
            .unwrap_err()
            .debug_message(),
        "read timed out after 100ms"
    );
}

#[test]
fn ports_are_described_and_selected() {
    let port = PortInfo {
        port_name: "COM7".to_owned(),
        port_type: PortType::Usb(metadata()),
    };
    let descriptor = descriptor_from_port(&port).unwrap();
    assert_eq!(descriptor.id().as_str(), "serial:usb:10c4:ea60:ABC123");
    assert_eq!(descriptor.endpoint, "COM7");
    let adapter = SerialPortAdapter::new();
    assert_eq!(adapter.adapter_name(), "serialport");
    let descriptors = adapter
        .enumerate(&vec![
            PortInfo {
                port_name: "/dev/ttyS0".to_owned(),
                port_type: PortType::Unknown,
            },
            port,
        ])
        .unwrap();
    assert_eq!(
        adapter
            .select(
                &descriptors,
                TransportKind::Serial,
                descriptor.id(),
                descriptor.quality,
            )
            .unwrap(),
        1
    );
    assert_eq!(
        adapter
            .select(
                &descriptors,
                TransportKind::Serial,
                descriptor.id(),
                IdentityQuality::Weak,
            )
            .unwrap_err()
            .name(),
        "runtime.resource.not_found"
    );
    assert!(adapter
        .select(
            &descriptors,
            TransportKind::Can,
            descriptor.id(),
            descriptor.quality,
        )
        .is_err());
}

#[test]
fn faults_are_told_apart() {
    let (name, _, _) = io_error_decision(IoErrorKind::PermissionDenied);
    assert_eq!(name, "runtime.transport.permission_denied");
    let error = map_serialport_error("serial.open", PortFault::NoDevice, "NoDevice", "gone");
    assert_eq!(error.operation(), "serial.open");
    let error = map_io_error(
        "serial.write",
        IoErrorKind::BrokenPipe,
        "BrokenPipe",
        "broken pipe",
    );
    assert_eq!(error.name(), "runtime.transport.disconnected");
}
