use robot_hal::gpio::linux::{
    descriptor_from_metadata, identity_from_metadata, is_chip_name, EdgeDetection,
    GpioChipMetadata, LinuxGpioAdapter, LinuxGpioSession, RawEdge,
};
use robot_hal::gpio::session::{
    GpioBias, GpioDirection, GpioDrive, GpioEdge, GpioEdgeRequest, GpioEdgeSet, GpioLineConfig,
};
use robot_hal::gpio::windows::{OpenStep, WindowsGpioAdapter, WindowsGpioSession};
use robot_hal::resource::{Capability, IdentityQuality, ResourceId};

#[test]
fn chip_kernel_name_is_a_strong_gpio_identity() {
    let metadata = GpioChipMetadata {
        path: "/dev/gpiochip0".to_owned(),
        kernel_name: "gpiochip0".to_owned(),
        label: Some("pinctrl-bcm2711".to_owned()),
        line_count: 58,
    };

    let identity = identity_from_metadata(&metadata).expect("metadata is valid");

    assert_eq!(identity.id.as_str(), "gpio:chip:gpiochip0");
    assert_eq!(identity.quality, IdentityQuality::Strong);
    let descriptor = descriptor_from_metadata(&metadata).unwrap();
    assert_eq!(descriptor.properties.get("gpio.line_count"), Some("58"));
    assert_eq!(
        descriptor.properties.get("gpio.label"),
        Some("pinctrl-bcm2711")
    );
    assert!(descriptor.supports(Capability::GpioLines));
    assert!(descriptor.supports(Capability::GpioEdges));
}

#[test]
fn endpoint_path_is_not_used_when_chip_identity_exists() {
    let first = GpioChipMetadata {
        path: "/dev/gpiochip0".to_owned(),
        kernel_name: "gpiochip0".to_owned(),
        label: None,
        line_count: 8,
    };
    let moved = GpioChipMetadata {
        path: "/dev/gpiochip9".to_owned(),
        ..first.clone()
    };

    assert_eq!(
        identity_from_metadata(&first).unwrap().id,
        identity_from_metadata(&moved).unwrap().id
    );
}

#[test]
fn unsupported_platform_fails_closed_without_gpio_discovery() {
    let adapter = WindowsGpioAdapter::new();

    let error = adapter
        .enumerate(None)
        .expect_err("Windows GPIO must not probe hardware off Windows");

    assert_eq!(error.name(), "runtime.adapter.unavailable");
    assert_eq!(error.operation(), "gpio.enumerate");
    let descriptors = adapter.enumerate(Some(Ok(28))).unwrap();
    assert_eq!(descriptors[0].id().as_str(), "gpio:windows:default");
    assert_eq!(descriptors[0].properties.get("gpio.line_count"), Some("28"));
    assert_eq!(
        adapter
            .enumerate(Some(Err("denied".to_owned())))
            .unwrap_err()
            .debug_message(),
        "WinRT GPIO error: denied"
    );
}

fn input() -> GpioLineConfig {
    GpioLineConfig {
        direction: GpioDirection::Input,
        bias: GpioBias::PullUp,
        active_low: true,
        drive: None,
        initial_value: None,
    }
}

fn output() -> GpioLineConfig {
    GpioLineConfig {
        direction: GpioDirection::Output,
        bias: GpioBias::Disabled,
        active_low: false,
        drive: Some(GpioDrive::PushPull),
        initial_value: Some(true),
    }
}

#[test]
fn selected_chip_reads_writes_and_reports_monotonic_edges() {
    let session = LinuxGpioSession::open(vec![4, 7], input()).unwrap();
    assert_eq!(session.lines(), &vec![4, 7]);
    session.check_read().unwrap();
    assert_eq!(
        session.read(&vec![(7, true), (4, false)]).unwrap(),
        vec![false, true]
    );
    assert_eq!(
        session.read(&vec![(7, true)]).unwrap_err().debug_message(),
        "requested GPIO line disappeared"
    );
    assert!(session.check_write(2).is_err());
    let settings = session
        .edge_settings(&GpioEdgeRequest {
            edges: GpioEdgeSet {
                rising: true,
                falling: true,
            },
            capacity: 16,
        })
        .unwrap();
    assert_eq!(settings.detection, EdgeDetection::Both);
    assert!(settings.active_low);
    let event = session
        .next_edge(
            true,
            Some(RawEdge {
                rising: false,
                timestamp_ns: u128::MAX,
                sequence: 3,
            }),
        )
        .unwrap()
        .unwrap();
    assert_eq!(event.edge, GpioEdge::Falling);
    assert_eq!(event.timestamp_ns, u64::MAX);
    assert_eq!(event.sequence, 3);
    assert!(session.next_edge(false, None).unwrap().is_none());
    assert!(session.next_edge(true, None).is_err());
}

#[test]
fn sessions_check_what_they_are_asked() {
    assert_eq!(
        LinuxGpioSession::open(vec![], input())
            .err()
            .unwrap()
            .debug_message(),
        "at least one GPIO line is required"
    );
    let mut session = LinuxGpioSession::open(vec![1], output()).unwrap();
    session.check_write(1).unwrap();
    assert_eq!(
        session.check_write(2).unwrap_err().debug_message(),
        "value count must equal requested line count"
    );
    assert!(session
        .edge_settings(&GpioEdgeRequest {
            edges: GpioEdgeSet {
                rising: true,
                falling: false,
            },
            capacity: 1,
        })
        .is_err());
    session.close().unwrap();
    assert_eq!(
        session.check_write(1).unwrap_err().name(),
        "runtime.session.closed"
    );
    assert!(is_chip_name("gpiochip3"));
    assert!(!is_chip_name("gpiomem"));
    assert_eq!(LinuxGpioAdapter::new().adapter_name(), "linux-gpio");
}

#[test]
fn windows_sessions_check_what_they_are_asked() {
    let mut session = WindowsGpioSession::open(vec![5], output());
    session.check_read().unwrap();
    session.check_write(1).unwrap();
    assert!(session.next_edge().is_err());
    session.close(Ok(())).unwrap();
    assert_eq!(
        session.check_read().unwrap_err().name(),
        "runtime.session.closed"
    );
}

#[test]
fn windows_pins_are_opened_one_after_the_other() {
    let id = ResourceId::new("gpio:windows:default".to_owned());
    let begin = |lines: Vec<u32>| {
        WindowsGpioAdapter::new()
            .open(&id, lines, output(), Some(Ok(16)))
            .unwrap()
    };
    let (opening, pin) = match begin(vec![4, 9]).advance(Ok(())) {
        OpenStep::Pin(opening, pin) => (opening, pin),
        _ => panic!("the first pin follows the controller"),
    };
    assert_eq!(pin, 4);
    assert_eq!(opening.config(), output());
    let (opening, pin) = match opening.advance(Ok(())) {
        OpenStep::Pin(opening, pin) => (opening, pin),
        _ => panic!("the second pin follows the first"),
    };
    assert_eq!(pin, 9);
    match opening.advance(Ok(())) {
        OpenStep::Complete(descriptor, session) => {
            assert_eq!(descriptor.id(), &id);
            assert_eq!(session.lines(), &vec![4, 9]);
        }
        _ => panic!("every line has its pin"),
    }

    match begin(vec![4]).advance(Err("busy".to_owned())) {
        OpenStep::Refused(error) => assert_eq!(error.debug_message(), "WinRT GPIO error: busy"),
        _ => panic!("there is no controller"),
    }
    // The number of a line is looked at when its turn has come.
    let opening = match begin(vec![4, u32::MAX]).advance(Ok(())) {
        OpenStep::Pin(opening, _) => opening,
        _ => panic!("the first pin can be opened"),
    };
    match opening.advance(Ok(())) {
        OpenStep::Refused(error) => {
            assert_eq!(error.debug_message(), "GPIO line number exceeds i32");
        }
        _ => panic!("there is no such pin"),
    }
}

#[test]
fn windows_lines_are_refused_before_anything_is_opened() {
    let adapter = WindowsGpioAdapter::new();
    let id = ResourceId::new("gpio:windows:default".to_owned());
    let refused = |id: &ResourceId, lines: Vec<u32>, count: Option<Result<i32, String>>| {
        match adapter.open(id, lines, output(), count) {
            Ok(_) => panic!("the lines must be refused"),
            Err(error) => error,
        }
    };
    let error = refused(&id, Vec::new(), None);
    assert_eq!(error.name(), "runtime.adapter.unavailable");
    assert_eq!(error.resource_id(), Some(&id));
    let error = refused(&id, Vec::new(), Some(Err("gone".to_owned())));
    assert_eq!(error.debug_message(), "at least one GPIO line is required");
    let error = refused(&id, vec![1], Some(Err("gone".to_owned())));
    assert_eq!(error.operation(), "gpio.enumerate");
    let other = ResourceId::new("gpio:windows:other".to_owned());
    let error = refused(&other, vec![1], Some(Ok(16)));
    assert_eq!(error.name(), "runtime.resource.not_found");
    assert_eq!(error.resource_id(), Some(&other));
}
