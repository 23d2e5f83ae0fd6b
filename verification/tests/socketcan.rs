use robot_hal::can::{
    CanActiveConfig, CanBitTiming, CanBusState, CanConfigureConfig, CanErrorClass, CanFrame,
    CanId, CanLinkExpectation, CanMode, ClockDomain,
};
use robot_hal::error::{ErrorCategory, IoError, IoErrorKind};
use robot_hal::resource::{Capability, IdentityQuality, ResourceId};
use robot_hal::socketcan::adapter::{descriptor_from_interface, unavailable, SocketCanAdapter};
use robot_hal::socketcan::channel::NativeSocketCanChannel;
use robot_hal::socketcan::configure::{configure, ConfigureStep};
use robot_hal::socketcan::fault::{
    map_backend_error, map_io_error, map_netlink_error, map_send_io_error, BackendFault,
    NetlinkFault, EBUSY, ENOBUFS, EPERM,
};
use robot_hal::socketcan::frame::{
    conversion_error, from_socketcan_frame, receive_wait, received, send_route, ReadFailure,
    SendRoute, SocketFrame,
};
use robot_hal::socketcan::identity::{
    identity_from_metadata, is_virtual_path, metadata_from_sysfs, CanInterfaceMetadata,
    SysfsReport,
};
use robot_hal::socketcan::kernel::{
    ControlMode, ControlModes, ControllerState, ErrorCounters, InterfaceDetails, KernelTiming, Mtu,
};
use robot_hal::socketcan::lease::{
    bus_status, configure_plan, control_modes, fingerprint_for_identity, restore_evidence_for_configure,
    restore_params, rollback_after_failure, verify_configured, verify_physical_identity, CloseStep,
    ConfigureProgress, LinkAction, LinkLease, LinkSnapshot, ObservedInterface, RestoreEvidence,
};
use robot_hal::socketcan::link::{
    capabilities_for_details, config_matches, from_socketcan_timing, to_socketcan_timing,
    verify_config,
};

#[test]
fn serial_identity_is_strong_and_percent_encoded() {
    let metadata = CanInterfaceMetadata {
        interface: "can0".to_owned(),
        serial: Some("SER/IAL 1%".to_owned()),
        stable_path: None,
        topology: None,
        virtual_interface: false,
    };

    let identity = identity_from_metadata(&metadata).unwrap();

    assert_eq!(identity.id.as_str(), "can:serial:SER%2FIAL%201%25");
    assert_eq!(identity.quality, IdentityQuality::Strong);
}

#[test]
fn stable_path_identity_is_medium_without_serial() {
    let metadata = CanInterfaceMetadata {
        interface: "can0".to_owned(),
        serial: None,
        stable_path: Some("/devices/pci 0000:01/0000:01:00.0".to_owned()),
        topology: None,
        virtual_interface: false,
    };

    let identity = identity_from_metadata(&metadata).unwrap();

    assert_eq!(
        identity.id.as_str(),
        "can:path:%2Fdevices%2Fpci%200000%3A01%2F0000%3A01%3A00.0"
    );
    assert_eq!(identity.quality, IdentityQuality::Medium);
}

#[test]
fn virtual_interfaces_are_always_weak_endpoint_identities() {
    let metadata = CanInterfaceMetadata {
        interface: "vcan 0".to_owned(),
        serial: Some("should-not-be-used".to_owned()),
        stable_path: Some("/sys/devices/virtual/net/vcan 0".to_owned()),
        topology: Some("virtual".to_owned()),
        virtual_interface: true,
    };

    let identity = identity_from_metadata(&metadata).unwrap();

    assert_eq!(identity.id.as_str(), "can:endpoint:vcan%200");
    assert_eq!(identity.quality, IdentityQuality::Weak);
}

#[test]
fn endpoint_identity_is_distinct_for_transient_interface_names() {
    let first = CanInterfaceMetadata {
        interface: "can0".to_owned(),
        serial: None,
        stable_path: None,
        topology: None,
        virtual_interface: false,
    };
    let second = CanInterfaceMetadata {
        interface: "can1".to_owned(),
        ..first.clone()
    };

    let first_identity = identity_from_metadata(&first).unwrap();
    let second_identity = identity_from_metadata(&second).unwrap();

    assert_eq!(first_identity.quality, IdentityQuality::Weak);
    assert_eq!(second_identity.quality, IdentityQuality::Weak);
    assert_ne!(first_identity.id, second_identity.id);
}

#[test]
fn metadata_is_read_from_the_system_files() {
    assert!(is_virtual_path("/sys/devices/virtual"));
    assert!(is_virtual_path("/sys/devices/virtual/net/vcan0"));
    assert!(!is_virtual_path("/sys/devices/virtually/net"));
    assert!(!is_virtual_path("/sys/devices/pci0000:00"));
    let metadata = metadata_from_sysfs(
        "can0",
        &SysfsReport {
            serial: Some(" 0042\n".to_owned()),
            device_path: Some("/sys/devices/pci0000:00/1-1".to_owned()),
            topology: Some("\n".to_owned()),
            network_path: Some("/sys/devices/pci0000:00/1-1/net/can0".to_owned()),
        },
    );
    assert_eq!(metadata.serial.as_deref(), Some("0042"));
    assert_eq!(
        metadata.stable_path.as_deref(),
        Some("/sys/devices/pci0000:00/1-1")
    );
    assert_eq!(metadata.topology, None);
    assert!(!metadata.virtual_interface);
}

fn request() -> CanConfigureConfig {
    CanConfigureConfig {
        mode: CanMode::Classic,
        nominal: CanBitTiming::new(500_000, Some(875), Some(2)).expect("valid timing"),
        data: None,
        listen_only: false,
        loopback: false,
        restart_ms: Some(100),
    }
}

fn configured_details(request: &CanConfigureConfig) -> InterfaceDetails {
    let mut details = InterfaceDetails::new();
    details.is_up = true;
    details.mtu = Some(Mtu::Standard);
    details.can.params.bit_timing = Some(to_socketcan_timing(&request.nominal));
    details.can.params.ctrl_mode = Some(ControlModes::new());
    details.can.params.restart_ms = Some(request.restart_ms.unwrap_or(0));
    details
}

fn active(request: &CanConfigureConfig) -> CanActiveConfig {
    CanActiveConfig::new(
        request.mode,
        request.nominal,
        request.data,
        request.listen_only,
        request.loopback,
        ClockDomain::HostMonotonic,
    )
    .expect("valid active configuration")
}

#[test]
fn classic_verification_accepts_absent_data_timing() {
    let request = request();
    let details = configured_details(&request);
    assert!(config_matches(&request, &details, &active(&request)));

    let mut unexpected_data = details;
    unexpected_data.can.params.data_bit_timing = Some(to_socketcan_timing(&request.nominal));
    assert!(!config_matches(
        &request,
        &unexpected_data,
        &active(&request)
    ));
}

#[test]
fn verification_checks_sample_point_sjw_and_restart_delay() {
    let request = request();
    let active = active(&request);

    let mut wrong_sample_point = configured_details(&request);
    wrong_sample_point
        .can
        .params
        .bit_timing
        .as_mut()
        .expect("nominal timing")
        .sample_point = 874;
    assert!(!config_matches(&request, &wrong_sample_point, &active));

    let mut wrong_sjw = configured_details(&request);
    wrong_sjw
        .can
        .params
        .bit_timing
        .as_mut()
        .expect("nominal timing")
        .sjw = 1;
    assert!(!config_matches(&request, &wrong_sjw, &active));

    let mut wrong_restart = configured_details(&request);
    wrong_restart.can.params.restart_ms = Some(99);
    assert!(!config_matches(&request, &wrong_restart, &active));
    assert_eq!(
        verify_config(
            &request,
            &wrong_restart,
            &active,
            &ResourceId::new("can:path:test".to_owned())
        )
        .unwrap_err()
        .name(),
        "can.configuration.mismatch"
    );
}

#[test]
fn fingerprint_tracks_full_timing_control_modes_and_termination() {
    let mut details = InterfaceDetails::new();
    details.name = Some("can-test".to_owned());
    details.index = 7;
    details.can.params.bit_timing = Some(KernelTiming {
        bitrate: 500_000,
        sample_point: 875,
        tq: 125,
        prop_seg: 2,
        phase_seg1: 4,
        phase_seg2: 1,
        sjw: 1,
        brp: 2,
    });
    let identity = ResourceId::new("can:path:test".to_owned());
    let baseline = fingerprint_for_identity(&details, identity.clone());

    let timing_mutations: [fn(&mut KernelTiming); 8] = [
        |timing: &mut KernelTiming| timing.bitrate += 1,
        |timing: &mut KernelTiming| timing.sample_point += 1,
        |timing: &mut KernelTiming| timing.tq += 1,
        |timing: &mut KernelTiming| timing.prop_seg += 1,
        |timing: &mut KernelTiming| timing.phase_seg1 += 1,
        |timing: &mut KernelTiming| timing.phase_seg2 += 1,
        |timing: &mut KernelTiming| timing.sjw += 1,
        |timing: &mut KernelTiming| timing.brp += 1,
    ];
    for mutate in timing_mutations {
        let mut changed = details.copy();
        mutate(
            changed
                .can
                .params
                .bit_timing
                .as_mut()
                .expect("nominal timing"),
        );
        assert!(!fingerprint_for_identity(&changed, identity.clone()).same(&baseline));
    }

    for mode in control_modes() {
        let mut changed = details.copy();
        let mut modes = ControlModes::new();
        modes.add(mode, true);
        changed.can.params.ctrl_mode = Some(modes);
        assert!(!fingerprint_for_identity(&changed, identity.clone()).same(&baseline));
    }

    let mut changed = details.copy();
    changed.can.params.termination = Some(120);
    assert!(!fingerprint_for_identity(&changed, identity.clone()).same(&baseline));

    changed = details.copy();
    changed.index += 1;
    assert!(!fingerprint_for_identity(&changed, identity.clone()).same(&baseline));

    changed = details.copy();
    changed.name = Some("renamed".to_owned());
    assert!(!fingerprint_for_identity(&changed, identity.clone()).same(&baseline));

    let other_identity = ResourceId::new("can:path:other".to_owned());
    assert!(!fingerprint_for_identity(&details, other_identity).same(&baseline));
    assert!(fingerprint_for_identity(&details, identity).same(&baseline));
}

#[test]
fn restore_omits_control_modes_without_successful_write_evidence() {
    let details = InterfaceDetails::new();
    let params = restore_params(&details, RestoreEvidence::none());

    assert!(params.ctrl_mode.is_none());
}

#[test]
fn configure_restore_evidence_only_marks_changed_control_modes() {
    let mut details = InterfaceDetails::new();
    let mut snapshot_modes = ControlModes::new();
    snapshot_modes.add(ControlMode::Loopback, true);
    details.can.params.ctrl_mode = Some(snapshot_modes);
    let restore_evidence = restore_evidence_for_configure(&details, &request());

    assert_eq!(
        [
            restore_evidence.fd,
            restore_evidence.listen_only,
            restore_evidence.loopback
        ],
        [false, false, true]
    );
}

#[test]
fn restore_only_targets_control_modes_with_support_evidence() {
    let mut details = InterfaceDetails::new();
    let mut snapshot_modes = ControlModes::new();
    for mode in control_modes() {
        snapshot_modes.add(mode, true);
    }
    details.can.params.ctrl_mode = Some(snapshot_modes);

    let modes = restore_params(
        &details,
        RestoreEvidence {
            fd: false,
            listen_only: false,
            loopback: true,
        },
    )
    .ctrl_mode
    .expect("changed control mode supplies support evidence");

    for (mode, expected) in [
        (ControlMode::Loopback, true),
        (ControlMode::ListenOnly, false),
        (ControlMode::TripleSampling, false),
        (ControlMode::OneShot, false),
        (ControlMode::BerrReporting, false),
        (ControlMode::Fd, false),
        (ControlMode::PresumeAck, false),
        (ControlMode::NonIso, false),
        (ControlMode::CcLen8Dlc, false),
    ] {
        assert_eq!(
            modes.has_mode(mode),
            expected,
            "restore must not target control modes Configure did not mutate",
        );
    }
}

#[test]
fn capabilities_require_kernel_and_nonvirtual_sysfs_evidence() {
    let mut details = InterfaceDetails::new();
    assert_eq!(capabilities_for_details(&details, false), (false, false));

    details.can.bit_timing_const = true;
    assert_eq!(capabilities_for_details(&details, false), (false, false));
    assert_eq!(capabilities_for_details(&details, true), (false, true));

    details.can.data_bit_timing_const = true;
    assert_eq!(capabilities_for_details(&details, true), (true, true));
}

#[test]
fn permission_errors_are_stable_and_resource_scoped() {
    let id = ResourceId::new("can:endpoint:can-test".to_owned());
    let error = map_io_error(
        "can.open",
        &IoError {
            kind: IoErrorKind::PermissionDenied,
            raw_os_error: Some(EPERM),
            message: "Operation not permitted (os error 1)".to_owned(),
        },
        "PermissionDenied",
    )
    .with_resource_id(id.clone());

    assert_eq!(error.name(), "runtime.transport.permission_denied");
    assert_eq!(error.category(), ErrorCategory::Conflict);
    assert_eq!(error.operation(), "can.open");
    assert!(!error.retryable());
    assert_eq!(error.platform_code(), Some("1"));
    assert_eq!(error.resource_id(), Some(&id));
}

fn virtual_metadata(name: &str) -> CanInterfaceMetadata {
    CanInterfaceMetadata {
        interface: name.to_owned(),
        serial: None,
        stable_path: None,
        topology: None,
        virtual_interface: true,
    }
}

#[test]
fn vcan_discovery_is_weak_and_does_not_advertise_configuration() {
    let mut details = InterfaceDetails::new();
    details.name = Some("shtest0".to_owned());
    details.can.bit_timing_const = true;
    let descriptor =
        descriptor_from_interface("shtest0", &virtual_metadata("shtest0"), Ok(details)).unwrap();

    assert_eq!(descriptor.quality, IdentityQuality::Weak);
    assert_eq!(descriptor.properties.get("virtual"), Some("true"));
    assert!(!descriptor.supports(Capability::CanConfigure));
}

fn no_expectation() -> CanLinkExpectation {
    CanLinkExpectation {
        mode: None,
        nominal_bitrate: None,
        data_bitrate: None,
        listen_only: None,
        loopback: None,
    }
}

#[test]
fn vcan_attach_without_kernel_timing_is_structured_and_resource_scoped() {
    let mut details = InterfaceDetails::new();
    details.name = Some("shtest0".to_owned());
    details.is_up = true;
    let id = ResourceId::new("can:endpoint:shtest0".to_owned());
    let error = match LinkLease::attach(
        Ok(ObservedInterface {
            details,
            metadata: virtual_metadata("shtest0"),
        }),
        &no_expectation(),
        &id,
    ) {
        Ok(_) => panic!("vcan without kernel timing must not fabricate active timing"),
        Err(error) => error,
    };

    assert_eq!(error.name(), "runtime.transport.unsupported_configuration");
    assert_eq!(error.category(), ErrorCategory::InvalidArgument);
    assert_eq!(error.operation(), "can.open");
    assert!(!error.retryable());
    assert_eq!(error.resource_id(), Some(&id));
}

#[test]
fn deleted_vcan_fails_with_the_canonical_resource_id() {
    let id = ResourceId::new("can:endpoint:shtest0".to_owned());
    let error = SocketCanAdapter::new()
        .select(&vec![], &id, false)
        .expect_err("deleted vcan must not open");

    assert_eq!(error.name(), "runtime.resource.not_found");
    assert_eq!(error.category(), ErrorCategory::NotFound);
    assert_eq!(error.operation(), "can.open");
    assert!(!error.retryable());
    assert_eq!(error.resource_id(), Some(&id));
}

#[test]
fn vcan_fd_loopback_uses_explicit_test_mode_without_timing_claims() {
    let id = ResourceId::new("can:endpoint:shtest0".to_owned());
    let frame = CanFrame::fd_data(CanId::extended(0x12345).unwrap(), vec![0x5a; 12], true, true)
        .expect("valid FD frame");
    assert_eq!(
        send_route(&frame, CanMode::Fd, &id).unwrap(),
        SendRoute::Fd
    );
    let echoed = received(
        Ok(SocketFrame::Fd {
            id: CanId::Extended(0x12345),
            data: vec![0x5a; 12],
            bitrate_switch: true,
            error_state_indicator: true,
        }),
        &id,
    )
    .unwrap();
    assert_eq!(echoed.as_ref().map(|received| &received.frame), Some(&frame));
    assert!(echoed.unwrap().timestamp.is_none());
}

#[test]
fn vcan_classic_loopback_filter_status_and_deletion_are_structured() {
    let id = ResourceId::new("can:endpoint:shtest0".to_owned());
    let accepted = CanFrame::classic_data(CanId::standard(0x123).unwrap(), vec![1, 2, 3]).unwrap();
    assert_eq!(
        send_route(&accepted, CanMode::Classic, &id).unwrap(),
        SendRoute::Classic
    );
    let mut details = InterfaceDetails::new();
    details.name = Some("shtest0".to_owned());
    details.can.state = Some(ControllerState::ErrorActive);
    details.can.berr_counter = Some(ErrorCounters { tx: 0, rx: 0 });
    let observed = || {
        Ok(ObservedInterface {
            details: details.copy(),
            metadata: virtual_metadata("shtest0"),
        })
    };
    let status = bus_status(observed(), &id).unwrap();
    assert_eq!(status.state, CanBusState::Active);
    assert!(status.tx_error_counter.is_none_or(|value| value == 0));
    assert!(status.rx_error_counter.is_none_or(|value| value == 0));

    let wrong = ResourceId::new("can:endpoint:identity-mismatch".to_owned());
    let identity_error =
        bus_status(observed(), &wrong).expect_err("status must reject a stale identity");
    assert_eq!(identity_error.name(), "runtime.resource.not_found");
    assert_eq!(identity_error.operation(), "can.status");
    assert_eq!(identity_error.resource_id(), Some(&wrong));

    let error = map_send_io_error(
        &IoError {
            kind: IoErrorKind::Other,
            raw_os_error: Some(19),
            message: "No such device (os error 19)".to_owned(),
        },
        "Uncategorized",
        &id,
    );
    assert_eq!(error.operation(), "can.send");
    assert_eq!(error.resource_id(), Some(&id));
}

#[test]
fn frames_are_routed_by_mode() {
    let id = ResourceId::new("can:endpoint:can0".to_owned());
    let fd = CanFrame::fd_data(CanId::standard(1).unwrap(), vec![0; 12], false, false).unwrap();
    assert!(send_route(&fd, CanMode::Classic, &id).is_err());
    let remote = CanFrame::classic_remote(CanId::standard(1).unwrap(), 2).unwrap();
    assert_eq!(
        send_route(&remote, CanMode::Fd, &id).unwrap(),
        SendRoute::Remote
    );
    assert_eq!(
        conversion_error(SendRoute::Remote, &id).resource_id(),
        Some(&id)
    );
    assert_eq!(receive_wait(5), 5);
    assert_eq!(receive_wait(u64::MAX), 100_000_000);
    assert!(received(
        Err(ReadFailure {
            error: IoError::new(IoErrorKind::WouldBlock, "would block"),
            kind_name: "WouldBlock".to_owned(),
        }),
        &id
    )
    .unwrap()
    .is_none());
    match from_socketcan_frame(SocketFrame::Error {
        bits: 0x41,
        data: vec![0; 8],
    })
    .unwrap()
    {
        CanFrame::Error { classes, .. } => {
            assert_eq!(
                classes,
                vec![CanErrorClass::TxTimeout, CanErrorClass::BusOff]
            )
        }
        _ => panic!("an error frame stays one"),
    }
}

fn real_metadata() -> CanInterfaceMetadata {
    CanInterfaceMetadata {
        interface: "can0".to_owned(),
        serial: Some("42".to_owned()),
        stable_path: None,
        topology: None,
        virtual_interface: false,
    }
}

fn observed(details: &InterfaceDetails) -> ObservedInterface {
    ObservedInterface {
        details: details.copy(),
        metadata: real_metadata(),
    }
}

fn named(mut details: InterfaceDetails) -> InterfaceDetails {
    details.name = Some("can0".to_owned());
    details.index = 3;
    details
}

#[test]
fn configured_links_are_given_back_as_they_were() {
    let id = ResourceId::new("can:serial:42".to_owned());
    let request = request();
    let mut before = named(configured_details(&CanConfigureConfig {
        nominal: CanBitTiming::new(250_000, Some(875), Some(2)).unwrap(),
        ..request
    }));
    before.can.params.restart_ms = Some(0);
    let mut snapshot = LinkSnapshot::take(observed(&before), &id).unwrap();
    let plan = configure_plan(snapshot.details(), &request);
    assert_eq!(plan[0], LinkAction::BringDown);
    assert_eq!(*plan.last().unwrap(), LinkAction::BringUp);
    snapshot
        .configured(
            &request,
            &ConfigureProgress {
                performed: plan.len(),
                failure: None,
            },
            &id,
        )
        .ok()
        .unwrap();
    let after = named(configured_details(&request));
    let verified = match verify_configured(Ok(observed(&after)), &request, &id) {
        Ok(verified) => verified,
        Err(error) => panic!("{}", error.debug_message()),
    };
    assert_eq!(verified.active.nominal.bitrate, 500_000);
    let mut lease = LinkLease::configured(snapshot, verified, &id);
    assert!(lease.holds_changes());
    match lease.close_plan(Ok(observed(&after))).unwrap() {
        CloseStep::Restore(plan) => assert!(!plan.is_empty()),
        CloseStep::Nothing => panic!("changes have to be taken back"),
    }
    let mut foreign = after.copy();
    foreign.can.params.termination = Some(120);
    assert!(lease.close_plan(Ok(observed(&foreign))).is_err());
    lease.close(Ok(()), Ok(observed(&before))).unwrap();
    assert!(!lease.holds_changes());
    assert!(matches!(
        lease.close_plan(Ok(observed(&before))).unwrap(),
        CloseStep::Nothing
    ));
}

#[test]
fn failed_changes_are_reported_with_their_rollback() {
    let id = ResourceId::new("can:serial:42".to_owned());
    let primary = map_netlink_error(
        "can.configure",
        &NetlinkFault::Refused {
            error: -EBUSY,
            message: "busy".to_owned(),
        },
        &id,
    );
    assert_eq!(primary.platform_code(), Some("16"));
    let name = primary.name();
    assert_eq!(rollback_after_failure(primary, Ok(()), &id).name(), name);
    let fingerprint = fingerprint_for_identity(
        &named(InterfaceDetails::new()),
        ResourceId::new("can:serial:43".to_owned()),
    );
    assert_eq!(
        verify_physical_identity(&fingerprint, &id, "can.close")
            .unwrap_err()
            .resource_id(),
        Some(&id)
    );
}

fn apply(details: &mut InterfaceDetails, action: &LinkAction) {
    match action {
        LinkAction::BringDown => details.is_up = false,
        LinkAction::BringUp => details.is_up = true,
        LinkAction::SetMtu(mtu) => details.mtu = Some(*mtu),
        LinkAction::SetParams(params) => {
            let held = &mut details.can.params;
            held.bit_timing = params.bit_timing.or(held.bit_timing);
            held.data_bit_timing = params.data_bit_timing.or(held.data_bit_timing);
            held.restart_ms = params.restart_ms.or(held.restart_ms);
            held.termination = params.termination.or(held.termination);
            if let Some(modes) = params.ctrl_mode {
                let flags = held.ctrl_mode.map_or(0, |modes| modes.flags);
                held.ctrl_mode = Some(ControlModes {
                    mask: modes.mask,
                    flags: (flags & !modes.mask) | (modes.flags & modes.mask),
                });
            }
        }
    }
}

fn drive(
    details: &mut InterfaceDetails,
    request: CanConfigureConfig,
    failing: &[usize],
) -> (Vec<LinkAction>, Result<LinkLease, robot_hal::error::HalError>) {
    let id = ResourceId::new("can:serial:42".to_owned());
    let mut actions = Vec::new();
    let mut step = configure(request, &id);
    loop {
        step = match step {
            ConfigureStep::Observe(waiting) => waiting.observed(Ok(observed(details))),
            ConfigureStep::Change(action, waiting) => {
                let number = actions.len();
                actions.push(action);
                if failing.contains(&number) {
                    waiting.changed(Err(NetlinkFault::Refused {
                        error: -EBUSY,
                        message: "busy".to_owned(),
                    }))
                } else {
                    apply(details, &action);
                    waiting.changed(Ok(()))
                }
            }
            ConfigureStep::Configured(lease) => return (actions, Ok(lease)),
            ConfigureStep::Failed(error) => return (actions, Err(error)),
        };
    }
}

fn slow_link() -> InterfaceDetails {
    let mut details = named(configured_details(&CanConfigureConfig {
        nominal: CanBitTiming::new(250_000, Some(875), Some(2)).unwrap(),
        ..request()
    }));
    details.can.params.restart_ms = Some(0);
    details
}

#[test]
fn a_link_that_keeps_what_it_is_given_is_configured() {
    let mut details = slow_link();
    let (actions, lease) = drive(&mut details, request(), &[]);
    assert_eq!(actions.len(), 4);
    let lease = lease.ok().unwrap();
    assert_eq!(lease.active().nominal.bitrate, 500_000);
    assert!(lease.holds_changes());
    assert!(details.is_up);
    assert_eq!(details.can.params.restart_ms, Some(100));
}

#[test]
fn a_failed_change_is_rolled_back() {
    let mut details = slow_link();
    let (actions, result) = drive(&mut details, request(), &[2]);
    let error = match result {
        Err(error) => error,
        Ok(_) => panic!("the change of the size fails"),
    };
    assert_eq!(error.name(), "runtime.transport.busy");
    assert_eq!(error.operation(), "can.configure");
    assert_eq!(actions.len(), 7);
    assert_eq!(actions[3], LinkAction::BringDown);
    assert_eq!(actions[6], LinkAction::BringUp);
    let id = ResourceId::new("can:serial:42".to_owned());
    assert!(fingerprint_for_identity(&details, id.copy())
        .same(&fingerprint_for_identity(&slow_link(), id)));
}

#[test]
fn a_first_change_that_fails_leaves_nothing_to_roll_back() {
    let mut details = slow_link();
    let (actions, result) = drive(&mut details, request(), &[0]);
    assert_eq!(actions, vec![LinkAction::BringDown]);
    assert_eq!(result.err().unwrap().name(), "runtime.transport.busy");
}

#[test]
fn a_failed_rollback_is_told() {
    let mut details = slow_link();
    let (_, result) = drive(&mut details, request(), &[2, 4]);
    let error = result.err().unwrap();
    assert_eq!(error.name(), "can.configuration.rollback_failed");
    assert_eq!(error.operation(), "can.configure");
    assert_eq!(
        error.debug_message(),
        "SocketCAN rollback failed after runtime.transport.busy: runtime.transport.busy"
    );
}

#[test]
fn timings_are_read_back_and_checked() {
    let timing = CanBitTiming::new(500_000, Some(875), Some(2)).unwrap();
    let kernel = to_socketcan_timing(&timing);
    assert_eq!(
        from_socketcan_timing(kernel, "can.open", "nominal").unwrap(),
        timing
    );
    let wide = KernelTiming {
        sjw: 0x1_0000,
        ..kernel
    };
    assert!(from_socketcan_timing(wide, "can.open", "nominal").is_err());
}

#[test]
fn full_queues_and_foreign_faults_are_told_apart() {
    let id = ResourceId::new("can:serial:42".to_owned());
    let full = map_send_io_error(
        &IoError {
            kind: IoErrorKind::Other,
            raw_os_error: Some(ENOBUFS),
            message: "No buffer space available".to_owned(),
        },
        "Uncategorized",
        &id,
    );
    assert_eq!(full.name(), "runtime.queue.full");
    assert!(full.retryable());
    let fault = map_backend_error(
        "can.receive",
        &BackendFault::InvalidFrame("short".to_owned()),
        &id,
    );
    assert_eq!(fault.resource_id(), Some(&id));
    assert_eq!(unavailable("can.enumerate").name(), "runtime.adapter.unavailable");
    assert_eq!(SocketCanAdapter::new().adapter_name(), "socketcan");
}

#[test]
fn closed_channels_refuse_everything() {
    let request = request();
    let mut channel = NativeSocketCanChannel::open(
        ResourceId::new("can:serial:42".to_owned()),
        active(&request),
    );
    assert_eq!(channel.active_config().nominal.bitrate, 500_000);
    channel.ensure_sockets("can.send").unwrap();
    channel.ensure_status().unwrap();
    assert!(channel.begin_close());
    channel.finish_close(Ok(())).unwrap();
    assert_eq!(
        channel.ensure_sockets("can.send").unwrap_err().name(),
        "runtime.session.closed"
    );
    assert!(!channel.begin_close());
}
