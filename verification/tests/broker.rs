use robot_hal::broker::manifest::{
    enabled_adapters, enabled_features, BrokerFeatures, BrokerManifest, BrokerRelease, BuildInfo,
    ManifestSchema, Target, TargetOs,
};
use robot_hal::broker::runtime::{build_runtime, AdapterChoice, StartFault};
use robot_hal::broker::serve::{
    check_endpoint_parent, connection_reports, pipe_name, signal_stream_closed,
    structured_error_fields, wait_for_either_shutdown_signal, ConnectionTable, MAX_CONNECTIONS,
};
use robot_hal::broker::token::{
    exact_token, normalize_open_error, validate_file, validate_parent, FileKind, FileMetadata,
    LinkErrors, StartupToken, TrustedParent, TrustedTokenFile,
};
use robot_hal::broker::windows_token::{
    open_directory, open_file, validate_private_security_descriptor, AccessEntry, AceType, OpenedEntry,
    SecurityReport, WindowsFileKind, WindowsIdentity, WindowsMetadata, WindowsTokenFile, REPARSE_POINT,
};
use robot_hal::error::{ErrorCategory, HalError, IoError, IoErrorKind};

fn no_features() -> BrokerFeatures {
    BrokerFeatures {
        serialport: false,
        pcan: false,
        socketcan: false,
        nusb: false,
        linux_gpio: false,
        windows_gpio: false,
        avfoundation: false,
        v4l2: false,
        mediafoundation: false,
        virtual_adapters: false,
    }
}

fn all_features() -> BrokerFeatures {
    BrokerFeatures {
        serialport: true,
        pcan: true,
        socketcan: true,
        nusb: true,
        linux_gpio: true,
        windows_gpio: true,
        avfoundation: true,
        v4l2: true,
        mediafoundation: true,
        virtual_adapters: false,
    }
}

fn target() -> Target {
    Target {
        triple: "x86_64-unknown-linux-gnu".to_owned(),
        os: "linux".to_owned(),
        arch: "x86_64".to_owned(),
    }
}

fn build(release: BrokerRelease, features: BrokerFeatures) -> BuildInfo {
    BuildInfo {
        release,
        features,
        target_os: TargetOs::Linux,
        target: target(),
    }
}

#[test]
fn manifest_manifest_is_deterministic_business_independent_and_hardware_free() {
    let manifest = BrokerManifest::current(build(BrokerRelease::Current, all_features()), b"abc");
    assert_eq!(manifest.schema, Some(ManifestSchema { major: 1 }));
    assert_eq!(manifest.wire.major, 1);
    assert_eq!(manifest.wire.minimum_minor, 0);
    assert_eq!(manifest.broker_version, "0.5.0-rc.1");
    assert_eq!(manifest.wire.maximum_minor, 3);
    assert_eq!(manifest.target, target());
    assert_eq!(
        manifest.enabled.adapters,
        ["linux-gpio", "nusb", "pcan", "serialport", "socketcan", "v4l2"]
    );
    assert_eq!(
        manifest.enabled.features,
        ["linux-gpio", "nusb", "pcan", "serialport", "socketcan", "v4l2"]
    );
    assert_eq!(manifest.required_vendor_runtime_libraries, ["PCAN-Basic"]);
    assert_eq!(manifest.msrv, "1.85");
    assert_eq!(manifest.artifact_checksum.algorithm, "sha256");
    assert_eq!(
        manifest.artifact_checksum.value,
        "ba7816bf8f01cfea414140de5dae2223b00361a396177a9cb410ff61f20015ad"
    );
    let lower = format!("{manifest:?}").to_ascii_lowercase();
    for forbidden in [
        "robot",
        "leader",
        "follower",
        "joint",
        "episode",
        "calibration",
        "teleoperation",
        "training",
        "inference",
        "dataset",
        "feetech",
        "damiao",
        "robstride",
        "b601",
        "motor",
    ] {
        assert!(
            !lower.contains(forbidden),
            "forbidden term in manifest: {forbidden}"
        );
    }

    let first = BrokerManifest::current(
        build(
            BrokerRelease::First,
            BrokerFeatures {
                virtual_adapters: true,
                ..no_features()
            },
        ),
        b"",
    );
    assert_eq!(first.schema, None);
    assert_eq!(first.broker_version, "0.2.0");
    assert_eq!(first.wire.maximum_minor, 2);
    assert_eq!(
        first.enabled.adapters,
        [
            "serialport",
            "virtual-can",
            "virtual-gpio",
            "virtual-serial",
            "virtual-usb",
        ]
    );
    assert_eq!(first.enabled.features, ["virtual-adapters"]);
    assert!(first.required_vendor_runtime_libraries.is_empty());
}

#[test]
fn enabled_lists_are_sorted() {
    for os in [
        TargetOs::Linux,
        TargetOs::Macos,
        TargetOs::Windows,
        TargetOs::Other,
    ] {
        for simulated in [false, true] {
            let features = BrokerFeatures {
                virtual_adapters: simulated,
                ..all_features()
            };
            for list in [
                enabled_adapters(BrokerRelease::Current, &features, os),
                enabled_features(BrokerRelease::Current, &features, os),
            ] {
                let mut sorted = list.clone();
                sorted.sort_unstable();
                assert_eq!(list, sorted);
            }
        }
    }
    assert!(enabled_adapters(BrokerRelease::Current, &all_features(), TargetOs::Macos)
        .contains(&"avfoundation"));
    assert!(
        enabled_adapters(BrokerRelease::Current, &all_features(), TargetOs::Windows)
            .contains(&"mediafoundation")
    );
}

#[test]
fn virtual_adapter_feature_registers_the_broker_camera() {
    let plan = match build_runtime(
        &BrokerFeatures {
            virtual_adapters: true,
            ..all_features()
        },
        TargetOs::Linux,
        false,
        Ok(()),
    ) {
        Ok(plan) => plan,
        Err(_) => panic!("virtual broker runtime builds"),
    };
    let cameras: Vec<AdapterChoice> = plan
        .adapters
        .iter()
        .copied()
        .filter(|choice| choice.is_camera())
        .collect();

    assert_eq!(cameras.len(), 1);
    assert_eq!(cameras[0].resource(), Some("camera:virtual:broker-app"));
    assert_eq!(AdapterChoice::VirtualGpio.line_count(), Some(2));
    assert_eq!(cameras[0].line_count(), None);
}

fn load_error() -> HalError {
    HalError::fixed(
        "can.adapter.unavailable",
        ErrorCategory::Unavailable,
        "can.adapter.load",
        false,
        "libpcanbasic.so was not found",
    )
}

#[test]
fn required_adapters_decide_whether_a_broker_starts() {
    let features = BrokerFeatures {
        pcan: true,
        ..no_features()
    };
    let plan = match build_runtime(&features, TargetOs::Linux, false, Err(load_error())) {
        Ok(plan) => plan,
        Err(_) => panic!("an optional adapter does not stop the broker"),
    };
    assert!(plan.adapters.is_empty());
    assert_eq!(plan.load_error.unwrap().name, "can.adapter.unavailable");
    assert!(matches!(
        build_runtime(&features, TargetOs::Linux, true, Err(load_error())),
        Err(StartFault::Load(_))
    ));
    assert!(matches!(
        build_runtime(&no_features(), TargetOs::Linux, true, Ok(())),
        Err(StartFault::NotBuilt)
    ));
    match build_runtime(&features, TargetOs::Linux, true, Ok(())) {
        Ok(plan) => assert_eq!(plan.adapters, vec![AdapterChoice::Pcan]),
        Err(_) => panic!("a loaded adapter is registered"),
    }
}

#[test]
fn either_shutdown_signal_accepts_the_second_signal() {
    assert_eq!(
        wait_for_either_shutdown_signal(None, Some(Ok(()))),
        Some(Ok(()))
    );
    assert_eq!(wait_for_either_shutdown_signal(None, None), None);
}

#[test]
fn either_shutdown_signal_propagates_listener_failure() {
    let error = wait_for_either_shutdown_signal(
        Some(Err(IoError::new(IoErrorKind::Other, "listener failed"))),
        None,
    )
    .unwrap()
    .unwrap_err();

    assert_eq!(error.message, "listener failed");
    assert_eq!(
        signal_stream_closed(true).message,
        "Ctrl-Break signal stream closed"
    );
}

#[test]
fn structured_connection_logging_excludes_diagnostics_and_secrets() {
    let error = HalError::fixed(
        "runtime.protocol.authentication_failed",
        ErrorCategory::Conflict,
        "runtime.protocol.handshake",
        false,
        "secret-token-material",
    );

    let fields = structured_error_fields("connection", &error);

    assert_eq!(fields.kind, "connection");
    assert_eq!(fields.name, "runtime.protocol.authentication_failed");
    assert_eq!(fields.operation, "runtime.protocol.handshake");
    assert_eq!(fields.category, ErrorCategory::Conflict);
    assert!(!fields.retryable);
    assert!(!format!("{fields:?}").contains("secret-token-material"));
    let reports = connection_reports(Some(&error), Some(&error));
    assert_eq!(reports.len(), 2);
    assert_eq!(reports[1].kind, "cleanup");
    assert!(connection_reports(None, None).is_empty());
}

#[test]
fn executable_connection_churn_keeps_retained_tasks_bounded() {
    let mut connections = ConnectionTable::new(2);
    for round in 0..20 {
        let served = connections.accept();
        assert_eq!(served, round % 4 != 2);
        if round % 4 == 3 || !served {
            connections.finished();
        }
        if round % 4 == 3 {
            connections.finished();
        }
    }
    assert!(connections.max_retained_tasks() <= 2);
    assert_eq!(connections.active(), 0);
    assert_eq!(MAX_CONNECTIONS, 64);
}

#[test]
fn endpoints_need_a_private_directory() {
    assert!(check_endpoint_parent(Some(0o40700)).is_ok());
    assert_eq!(
        check_endpoint_parent(Some(0o40750)).unwrap_err().kind(),
        IoErrorKind::PermissionDenied
    );
    assert_eq!(
        check_endpoint_parent(None).unwrap_err().kind(),
        IoErrorKind::InvalidInput
    );
    assert_eq!(pipe_name(Some("pipe")).unwrap(), "pipe");
    assert!(pipe_name(None).is_err());
}

fn parent() -> FileMetadata {
    FileMetadata {
        kind: FileKind::Directory,
        mode: 0o40700,
        device: 1,
        inode: 10,
        owner: 1000,
        links: 2,
    }
}

fn token_file() -> FileMetadata {
    FileMetadata {
        kind: FileKind::RegularFile,
        mode: 0o100600,
        device: 1,
        inode: 11,
        owner: 1000,
        links: 1,
    }
}

/// What reading a token file does, given what the system reports of it on the way. `Ok` means that
/// the file was removed.
fn read_and_remove_token(
    parent: FileMetadata,
    path: FileMetadata,
    bytes: &[u8],
    path_again: FileMetadata,
) -> Result<StartupToken, IoError> {
    let trusted_parent = TrustedParent::accept(Some(&parent))?;
    trusted_parent.check_path(&path)?;
    let trusted: TrustedTokenFile = trusted_parent.open(&path, &path)?;
    let token = exact_token(bytes)?;
    trusted.confirm_parent(&parent)?;
    trusted.confirm_deletion(&parent, &path_again)?;
    Ok(token)
}

#[test]
fn main_exact_token_is_read_then_only_that_file_is_removed() {
    let token =
        read_and_remove_token(parent(), token_file(), &[0x33_u8; 32], token_file()).unwrap();
    assert_eq!(token.expose_bytes(), &[0x33_u8; 32]);
}

#[test]
fn main_invalid_token_length_is_rejected_without_deleting_the_file() {
    let error = read_and_remove_token(parent(), token_file(), &[0x44_u8; 33], token_file())
        .err()
        .expect("invalid token length must fail");
    assert_eq!(error.kind(), IoErrorKind::InvalidData);
    let short = exact_token(&[0x44_u8; 31])
        .err()
        .expect("invalid token length must fail");
    assert_eq!(short.kind(), IoErrorKind::UnexpectedEof);
}

#[test]
fn token_symlink_is_rejected_without_deleting_target() {
    let link = FileMetadata {
        kind: FileKind::SymbolicLink,
        ..token_file()
    };
    assert_eq!(
        read_and_remove_token(parent(), link, &[0x55_u8; 32], token_file())
            .err()
            .expect("symlink token must fail")
            .kind(),
        IoErrorKind::PermissionDenied
    );
    let codes = LinkErrors {
        too_many_links: 31,
        too_many_symbolic_links: 40,
    };
    let refused = IoError {
        kind: IoErrorKind::Other,
        raw_os_error: Some(40),
        message: "too many levels of symbolic links".to_owned(),
    };
    assert_eq!(
        normalize_open_error(refused, codes).kind(),
        IoErrorKind::PermissionDenied
    );
    let missing = IoError {
        kind: IoErrorKind::NotFound,
        raw_os_error: Some(2),
        message: "no such file".to_owned(),
    };
    assert_eq!(
        normalize_open_error(missing, codes).kind(),
        IoErrorKind::NotFound
    );
}

#[test]
fn publicly_readable_token_file_is_rejected_without_deletion() {
    let public = FileMetadata {
        mode: 0o100644,
        ..token_file()
    };
    assert_eq!(
        read_and_remove_token(parent(), public, &[0x66_u8; 32], public)
            .err()
            .expect("public token mode must fail")
            .kind(),
        IoErrorKind::PermissionDenied
    );
}

#[test]
fn token_in_public_parent_directory_is_rejected_without_deletion() {
    let public = FileMetadata {
        mode: 0o40755,
        ..parent()
    };
    assert_eq!(
        read_and_remove_token(public, token_file(), &[0x77_u8; 32], token_file())
            .err()
            .expect("public token parent must fail")
            .kind(),
        IoErrorKind::PermissionDenied
    );
}

#[test]
fn pathname_replacement_is_rejected_without_deleting_replacement() {
    let replacement = FileMetadata {
        inode: 12,
        ..token_file()
    };
    let error = read_and_remove_token(parent(), token_file(), &[0x11_u8; 32], replacement)
        .err()
        .expect("a replaced file must not be deleted");
    assert_eq!(error.kind(), IoErrorKind::PermissionDenied);
    assert_eq!(error.message, "token path changed before deletion");
}

#[test]
fn token_files_are_checked_in_order() {
    assert_eq!(
        validate_parent(&token_file()).unwrap_err().message,
        "token parent must be a real directory"
    );
    let foreign = FileMetadata {
        owner: 1001,
        ..token_file()
    };
    assert_eq!(
        validate_file(&foreign, 1000).unwrap_err().message,
        "token file and private parent must have the same owner"
    );
    let linked = FileMetadata {
        links: 2,
        ..token_file()
    };
    assert_eq!(
        validate_file(&linked, 1000).unwrap_err().message,
        "token file must have exactly one hard link"
    );
    let unreadable = FileMetadata {
        mode: 0o100200,
        ..token_file()
    };
    assert!(validate_file(&unreadable, 1000).is_err());
    assert_eq!(
        TrustedParent::accept(None).unwrap_err().message,
        "token file must have a private parent directory"
    );
}

const USER: &str = "S-1-5-21-1-2-3-1001";

fn allows(sid: &str) -> Option<AccessEntry> {
    Some(AccessEntry {
        ace_type: AceType::AccessAllowed,
        inherit_only: false,
        sid: Some(sid.to_owned()),
        effective_rights: Ok(0x1f01ff),
    })
}

#[test]
fn security_descriptor_rejects_owner_other_than_current_user() {
    let report = SecurityReport {
        owner: Some("S-1-5-18".to_owned()),
        dacl: Some(vec![allows(USER)]),
    };
    assert_eq!(
        validate_private_security_descriptor(&report, USER)
            .unwrap_err()
            .kind(),
        IoErrorKind::PermissionDenied
    );
}

#[test]
fn security_descriptor_rejects_missing_dacl() {
    let report = SecurityReport {
        owner: Some(USER.to_owned()),
        dacl: None,
    };
    assert_eq!(
        validate_private_security_descriptor(&report, USER)
            .unwrap_err()
            .kind(),
        IoErrorKind::PermissionDenied
    );
}

#[test]
fn security_descriptor_rejects_access_for_untrusted_principal() {
    let report = SecurityReport {
        owner: Some(USER.to_owned()),
        dacl: Some(vec![allows(USER), allows("S-1-1-0")]),
    };
    let error = validate_private_security_descriptor(&report, USER).unwrap_err();
    assert_eq!(error.kind(), IoErrorKind::PermissionDenied);
    assert_eq!(
        error.message,
        "token file and parent grant access to an untrusted principal"
    );
}

#[test]
fn security_descriptor_allows_user_system_and_administrators() {
    let report = SecurityReport {
        owner: Some(USER.to_owned()),
        dacl: Some(vec![
            allows(USER),
            allows("S-1-5-18"),
            allows("S-1-5-32-544"),
            allows("S-1-3-4"),
        ]),
    };
    validate_private_security_descriptor(&report, USER).unwrap();
}

#[test]
fn access_entries_that_cannot_be_read_fail_closed() {
    let report = |entry: Option<AccessEntry>| SecurityReport {
        owner: Some(USER.to_owned()),
        dacl: Some(vec![entry]),
    };
    assert!(validate_private_security_descriptor(&report(None), USER).is_err());
    let nameless = AccessEntry {
        sid: None,
        ..allows(USER).unwrap()
    };
    assert!(validate_private_security_descriptor(&report(Some(nameless)), USER).is_err());
    let unknown = AccessEntry {
        effective_rights: Err(IoError::new(IoErrorKind::Other, "lookup failed")),
        ..allows("S-1-1-0").unwrap()
    };
    assert_eq!(
        validate_private_security_descriptor(&report(Some(unknown)), USER)
            .unwrap_err()
            .message,
        "lookup failed"
    );
    let denied = AccessEntry {
        ace_type: AceType::Other,
        ..allows("S-1-1-0").unwrap()
    };
    assert!(validate_private_security_descriptor(&report(Some(denied)), USER).is_ok());
    for ace_type in [
        AceType::AccessAllowedCallback,
        AceType::AccessAllowedCallbackObject,
        AceType::AccessAllowedObject,
    ] {
        let allowed = AccessEntry {
            ace_type,
            ..allows("S-1-1-0").unwrap()
        };
        assert!(validate_private_security_descriptor(&report(Some(allowed)), USER).is_err());
    }
}

#[test]
fn windows_token_files_stay_the_same_until_they_are_deleted() {
    let identity = WindowsIdentity {
        attributes: 0x20,
        created: 1,
        modified: 2,
        size: 32,
    };
    let directory = WindowsMetadata {
        kind: WindowsFileKind::Directory,
        identity,
    };
    let file = WindowsMetadata {
        kind: WindowsFileKind::RegularFile,
        identity,
    };
    let trusted =
        WindowsTokenFile::open(Some(&entry(directory)), &entry(file), USER).unwrap();
    let changed = WindowsMetadata {
        identity: WindowsIdentity {
            modified: 3,
            ..identity
        },
        ..file
    };
    let reparse = WindowsMetadata {
        identity: WindowsIdentity {
            attributes: REPARSE_POINT,
            ..identity
        },
        ..file
    };
    assert!(open_file(&file, &changed).is_err());
    assert!(open_file(&reparse, &reparse).is_err());
    assert!(open_directory(&file, &file).is_err());
    assert!(trusted.confirm_parent(&entry(directory)).is_ok());
    assert!(trusted
        .confirm_deletion(&entry(directory), &entry(file))
        .is_ok());
    let replaced = OpenedEntry {
        path: changed,
        ..entry(file)
    };
    assert_eq!(
        trusted
            .confirm_deletion(&entry(directory), &replaced)
            .unwrap_err()
            .message,
        "token path changed before deletion"
    );
    let exposed = OpenedEntry {
        security: Ok(SecurityReport {
            owner: Some(USER.to_owned()),
            dacl: Some(vec![allows("S-1-1-0")]),
        }),
        ..entry(file)
    };
    assert!(trusted.confirm_deletion(&entry(directory), &exposed).is_err());
}

fn entry(metadata: WindowsMetadata) -> OpenedEntry {
    OpenedEntry {
        path: metadata,
        opened: metadata,
        security: Ok(SecurityReport {
            owner: Some(USER.to_owned()),
            dacl: Some(vec![allows(USER)]),
        }),
    }
}

#[test]
fn windows_token_files_are_trusted_only_where_every_check_passes() {
    let identity = WindowsIdentity {
        attributes: 0x20,
        created: 1,
        modified: 2,
        size: 32,
    };
    let directory = WindowsMetadata {
        kind: WindowsFileKind::Directory,
        identity,
    };
    let file = WindowsMetadata {
        kind: WindowsFileKind::RegularFile,
        identity,
    };
    let message = |parent: Option<OpenedEntry>, file: OpenedEntry| {
        WindowsTokenFile::open(parent.as_ref(), &file, USER)
            .unwrap_err()
            .message
    };
    assert_eq!(
        message(None, entry(file)),
        "token file must have a private parent directory"
    );
    assert_eq!(
        message(Some(entry(file)), entry(file)),
        "token parent must be a non-reparse private directory"
    );
    let unowned = |metadata: WindowsMetadata| OpenedEntry {
        security: Ok(SecurityReport {
            owner: None,
            dacl: None,
        }),
        ..entry(metadata)
    };
    assert_eq!(
        message(Some(unowned(directory)), entry(directory)),
        "token file and parent must be owned by the current user"
    );
    assert_eq!(
        message(Some(entry(directory)), entry(directory)),
        "token path must name a regular non-reparse file"
    );
    assert_eq!(
        message(Some(entry(directory)), unowned(file)),
        "token file and parent must be owned by the current user"
    );
    let unknown = OpenedEntry {
        security: Err(IoError::new(IoErrorKind::Other, "lookup failed")),
        ..entry(file)
    };
    assert_eq!(message(Some(entry(directory)), unknown), "lookup failed");
}
