use robot_hal::resource::{IdentityQuality, ResourceId};
use robot_hal::usb::adapter::{descriptor_from_device, NusbAdapter, UsbDeviceInfo};
use robot_hal::usb::identity::{identity_from_metadata, UsbDeviceMetadata};
use robot_hal::usb::transfer::{
    control_type, recipient, transfer_error, ControlType, EndpointKind, NusbSession, Recipient,
    TransferFault, TransferOutcome, TransferPlan, UsbTransfer,
};

#[test]
fn serial_number_produces_strong_usb_identity() {
    let metadata = UsbDeviceMetadata {
        vendor_id: 0x2886,
        product_id: 0x802f,
        serial_number: Some("SN/42".to_owned()),
        topology: "1-2.3".to_owned(),
    };

    let identity = identity_from_metadata(&metadata).expect("metadata is valid");

    assert_eq!(identity.id.as_str(), "usb:device:2886:802f:SN%2F42");
    assert_eq!(identity.quality, IdentityQuality::Strong);
}

#[test]
fn topology_is_weak_identity_and_endpoint_is_separate() {
    let metadata = UsbDeviceMetadata {
        vendor_id: 0x2886,
        product_id: 0x802f,
        serial_number: None,
        topology: "1-2.3".to_owned(),
    };

    let identity = identity_from_metadata(&metadata).expect("metadata is valid");

    assert_eq!(identity.id.as_str(), "usb:topology:1-2.3");
    assert_eq!(identity.quality, IdentityQuality::Weak);
}

#[test]
fn bus_address_is_never_used_as_an_identity() {
    let first = UsbDeviceMetadata {
        vendor_id: 0x2886,
        product_id: 0x802f,
        serial_number: None,
        topology: "1-2.3".to_owned(),
    };
    let second = UsbDeviceMetadata {
        topology: "1-2.4".to_owned(),
        ..first.clone()
    };

    assert_ne!(
        identity_from_metadata(&first).unwrap().id,
        identity_from_metadata(&second).unwrap().id
    );
}

fn device(serial: Option<&str>, address: u8) -> UsbDeviceInfo {
    UsbDeviceInfo {
        bus_id: "1".to_owned(),
        port_chain: vec![2, 3],
        vendor_id: 0x2886,
        product_id: 0x802f,
        serial_number: serial.map(str::to_owned),
        device_address: address,
    }
}

#[test]
fn devices_are_described_and_selected() {
    let descriptor = descriptor_from_device(&device(None, 9)).unwrap();
    assert_eq!(descriptor.id().as_str(), "usb:topology:1-2.3");
    assert_eq!(
        descriptor.id().as_str(),
        descriptor_from_device(&device(None, 10))
            .unwrap()
            .id()
            .as_str()
    );
    let adapter = NusbAdapter::new();
    assert_eq!(adapter.adapter_name(), "nusb");
    let devices = vec![device(Some("A"), 1), device(Some("B"), 2)];
    let descriptors = adapter.enumerate(&devices).unwrap();
    let selected = adapter.select(&devices, descriptors[1].id()).unwrap();
    assert_eq!(selected.position, 1);
    assert!(adapter
        .select(&devices, &ResourceId::new("usb:topology:x".to_owned()))
        .is_err());
}

#[test]
fn request_types_are_taken_apart() {
    assert_eq!(control_type(0x40).unwrap(), ControlType::Vendor);
    assert_eq!(control_type(0x21).unwrap(), ControlType::Class);
    assert_eq!(control_type(0x00).unwrap(), ControlType::Standard);
    assert!(control_type(0x60).is_err());
    assert_eq!(recipient(0x01).unwrap(), Recipient::Interface);
    assert_eq!(recipient(0x83).unwrap(), Recipient::Other);
    assert!(recipient(0x04).is_err());
}

#[test]
fn selected_interface_claim_and_bounded_transfers() {
    let mut session = NusbSession::open(ResourceId::new("usb:topology:1-2.3".to_owned()), 2);
    assert_eq!(session.interface_claim(), 2);
    match session
        .transfer(UsbTransfer::BulkIn {
            endpoint: 0x81,
            max_bytes: 64,
        })
        .unwrap()
    {
        TransferPlan::EndpointIn {
            kind,
            endpoint,
            max_bytes,
        } => {
            assert_eq!(kind, EndpointKind::Bulk);
            assert_eq!(endpoint, 0x81);
            assert_eq!(max_bytes, 64);
        }
        _ => panic!("a bulk read stays one"),
    }
    assert!(session
        .transfer(UsbTransfer::BulkOut {
            endpoint: 0x81,
            data: vec![1],
        })
        .is_err());
    assert_eq!(
        session
            .transfer(UsbTransfer::ControlIn {
                request_type: 0xc0,
                request: 1,
                value: 2,
                index: 3,
                max_bytes: 0x1_0000,
            })
            .unwrap_err()
            .debug_message(),
        "control length exceeds u16"
    );
    assert_eq!(
        session
            .complete(TransferOutcome::Received {
                buffer: vec![1, 2, 3, 4],
                actual_len: 2,
            })
            .unwrap(),
        vec![1, 2]
    );
    assert!(session.complete(TransferOutcome::Sent).unwrap().is_empty());
    session.close().unwrap();
    assert_eq!(
        session
            .transfer(UsbTransfer::InterruptIn {
                endpoint: 0x81,
                max_bytes: 8,
            })
            .unwrap_err()
            .name(),
        "runtime.session.closed"
    );
}

#[test]
fn transfer_faults_are_told_apart() {
    let name = |fault: TransferFault| transfer_error(&fault).name();
    assert_eq!(
        name(TransferFault::Cancelled("timeout".to_owned())),
        "runtime.transport.timeout"
    );
    assert_eq!(
        name(TransferFault::Disconnected("gone".to_owned())),
        "runtime.transport.disconnected"
    );
    assert_eq!(
        name(TransferFault::InvalidArgument("bad".to_owned())),
        "runtime.transport.unsupported_configuration"
    );
    assert_eq!(
        name(TransferFault::Other("stall".to_owned())),
        "runtime.transport.unavailable"
    );
    assert_eq!(
        transfer_error(&TransferFault::Endpoint("busy".to_owned())).debug_message(),
        "nusb platform error: busy"
    );
}
