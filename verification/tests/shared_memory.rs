use robot_hal::camera::frame_format::{CameraFormat, CameraLimits, CameraPixelFormat};
use robot_hal::error::{ErrorCategory, IoError, IoErrorKind};
use robot_hal::shared_memory::config::RingConfig;
use robot_hal::shared_memory::header::HEADER_SLOT_COUNT;
use robot_hal::shared_memory::layout::{
    align_up, validate_planes, FrameMetadata, PixelFormat, PlaneLayout, SlotState,
};
use robot_hal::shared_memory::mapping::{
    mapping_name, MappingDescriptor, MappingIdentity, MappingToken,
};
use robot_hal::shared_memory::platform::{
    advance_mapping, advance_section, begin_section, check_interior_nul, lock_name, lock_path,
    section_length, section_query_error, split_section_length, try_lock, try_lock_for_teardown,
    unlink_result, validate_mapping_name, validate_section_length, verify_object,
    verify_object_length, verify_private_lock_file, FileFacts, Held, HeldHandles, LockAction,
    MappingAction, MappingPurpose, MappingStage, SectionAction, SectionOutcome, SectionPurpose,
    SectionStage, StageOutcome, WaitStatus, STATUS_ACCESS_DENIED,
};
use robot_hal::shared_memory::reader::ReadOnlyMapping;
use robot_hal::shared_memory::ring::BrokerMapping;
use robot_hal::shared_memory::slots::{store_field, SlotField};

fn limits() -> CameraLimits {
    CameraLimits {
        max_width: 4096,
        max_height: 2160,
        max_frame_bytes: 16 * 1024 * 1024,
        min_slot_count: 3,
        max_slot_count: 8,
    }
}

fn config() -> RingConfig {
    RingConfig::new(
        &limits(),
        CameraFormat::new(&limits(), CameraPixelFormat::Yuyv, 2, 2).unwrap(),
        4,
        64,
    )
    .unwrap()
}

fn metadata(sequence: u64, generation: u64) -> FrameMetadata {
    FrameMetadata::new(
        &limits(),
        PixelFormat::Yuyv,
        2,
        2,
        sequence,
        generation,
        123,
        0,
        vec![PlaneLayout::new(0, 8, 4).unwrap()],
    )
    .unwrap()
}

fn create() -> (BrokerMapping, Vec<u8>) {
    let config = config();
    let descriptor = MappingDescriptor::generate(config.total_length()).unwrap();
    let mut region = vec![0_u8; config.total_length()];
    let broker = BrokerMapping::create(limits(), config, descriptor, &mut region);
    (broker, region)
}

#[test]
fn acquires_a_broker_pinned_zero_copy_frame() {
    let (mut broker, mut region) = create();
    broker
        .writer()
        .publish(&mut region, &metadata(1, 1), &[1; 8])
        .unwrap();

    let frame = broker.acquire(&mut region).unwrap().unwrap();
    assert_eq!(frame.payload(), &[1; 8]);
    assert_eq!(frame.metadata().sequence(), 1);
}

#[test]
fn independently_reopened_mapping_only_returns_an_owned_copy() {
    let (mut broker, mut region) = create();
    let descriptor = broker.descriptor().copy();
    broker
        .writer()
        .publish(&mut region, &metadata(1, 1), &[1; 8])
        .unwrap();

    let client = ReadOnlyMapping::open(limits(), &region, &descriptor).unwrap();
    let lease = broker.next_frame_lease(&mut region).unwrap().unwrap();
    let frame = client.copy(&region, lease).unwrap().unwrap();
    assert_eq!(frame.payload(), &[1; 8]);
    assert_eq!(frame.metadata().sequence(), 1);
    broker.release_pin(&mut region).unwrap();
}

#[test]
fn an_open_reader_rejects_a_frame_lease_after_the_broker_closes() {
    let (mut broker, mut region) = create();
    let descriptor = broker.descriptor().copy();
    broker
        .writer()
        .publish(&mut region, &metadata(1, 1), &[1; 8])
        .unwrap();

    let client = ReadOnlyMapping::open(limits(), &region, &descriptor).unwrap();
    let lease = broker.next_frame_lease(&mut region).unwrap().unwrap();
    broker.close(&mut region, Ok(())).unwrap();

    assert!(client.copy(&region, lease).unwrap().is_none());
}

#[test]
fn rejects_bad_capability_token() {
    let (broker, region) = create();
    let mut descriptor = broker.descriptor().copy();
    descriptor.replace_token(MappingToken::generate().unwrap());

    assert!(ReadOnlyMapping::open(limits(), &region, &descriptor).is_err());
}

#[test]
fn rejects_malformed_header_and_unaligned_slot_stride() {
    let (broker, mut region) = create();
    region[0] = 0;
    assert!(broker.validated_header(&region).is_err());

    let error = match RingConfig::new(
        &limits(),
        CameraFormat::new(&limits(), CameraPixelFormat::Yuyv, 2, 2).unwrap(),
        4,
        7,
    ) {
        Ok(_) => panic!("a payload that cannot hold a frame is refused"),
        Err(error) => error,
    };
    assert_eq!(error.category(), ErrorCategory::InvalidArgument);
}

#[test]
fn rejects_plane_escaping_payload_and_generation_mismatch() {
    let (mut broker, mut region) = create();
    let escaping = FrameMetadata::new(
        &limits(),
        PixelFormat::Yuyv,
        2,
        2,
        1,
        1,
        1,
        0,
        vec![PlaneLayout::new(4, 8, 4).unwrap()],
    )
    .unwrap();
    assert!(broker
        .writer()
        .publish(&mut region, &escaping, &[1; 8])
        .is_err());

    broker
        .writer()
        .publish(&mut region, &metadata(2, 5), &[2; 8])
        .unwrap();
    let mut client = ReadOnlyMapping::open(limits(), &region, broker.descriptor()).unwrap();
    client.expect_generation(u64::MAX);
    let lease = broker.next_frame_lease(&mut region).unwrap().unwrap();
    assert!(client.copy(&region, lease).unwrap().is_none());
}

#[test]
fn detects_torn_publication() {
    let (mut broker, mut region) = create();
    broker
        .writer()
        .publish(&mut region, &metadata(1, 1), &[1; 8])
        .unwrap();
    store_field(
        broker.config(),
        &mut region,
        0,
        SlotField::State,
        SlotState::Writing.raw(),
    );
    assert!(broker.next_frame_lease(&mut region).unwrap().is_none());
}

#[test]
fn latest_wins_releases_previous_pin_and_counts_drops_when_all_slots_are_pinned() {
    let (mut broker, mut region) = create();
    for sequence in 1..=4_u64 {
        broker
            .writer()
            .publish(
                &mut region,
                &metadata(sequence, sequence),
                &[sequence as u8; 8],
            )
            .unwrap();
    }

    let frame = broker.acquire(&mut region).unwrap().unwrap();
    assert_eq!(frame.metadata().sequence(), 4);
    drop(frame);
    broker
        .writer()
        .publish(&mut region, &metadata(5, 5), &[5; 8])
        .unwrap();
    let frame = broker.acquire(&mut region).unwrap().unwrap();
    assert_eq!(frame.metadata().sequence(), 5);
    drop(frame);

    for index in 0..4 {
        store_field(
            broker.config(),
            &mut region,
            index,
            SlotField::State,
            SlotState::Pinned.raw(),
        );
    }
    assert!(broker
        .writer()
        .publish(&mut region, &metadata(6, 6), &[6; 8])
        .is_ok());
    assert_eq!(broker.dropped_count(&region), 2);
}

#[test]
fn validates_mapping_total_length_overflow() {
    assert!(RingConfig::new(
        &limits(),
        CameraFormat::new(&limits(), CameraPixelFormat::Mjpeg, 4096, 2160).unwrap(),
        8,
        usize::MAX,
    )
    .is_err());
}

#[test]
fn close_waits_for_a_reader_then_unlinks_the_mapping() {
    let (mut broker, mut region) = create();
    let descriptor = broker.descriptor().copy();
    broker
        .writer()
        .publish(&mut region, &metadata(1, 1), &[1; 8])
        .unwrap();
    let lease = broker.next_frame_lease(&mut region).unwrap().unwrap();
    let reader = ReadOnlyMapping::open(limits(), &region, &descriptor).unwrap();

    // While a reader holds the lock, a wait for it times out.
    assert!(matches!(
        try_lock(WaitStatus::Timeout),
        LockAction::Fail(error) if error.kind() == IoErrorKind::WouldBlock
    ));
    assert!(matches!(try_lock(WaitStatus::Object), LockAction::Proceed));
    broker.close(&mut region, Ok(())).unwrap();
    assert!(reader.copy(&region, lease).unwrap().is_none());
    assert!(ReadOnlyMapping::open(limits(), &region, &descriptor).is_err());
    assert!(broker.next_frame_lease(&mut region).unwrap().is_none());
}

#[test]
fn a_ring_longer_than_the_mapping_is_rejected() {
    let small = RingConfig::new(
        &limits(),
        CameraFormat::new(&limits(), CameraPixelFormat::Yuyv, 2, 2).unwrap(),
        4,
        64,
    )
    .unwrap();
    assert_eq!(small.slot_stride(), 192);
    assert_eq!(small.total_length(), 960);
    let descriptor = MappingDescriptor::generate(960).unwrap();
    let mut region = vec![0_u8; 960];
    let broker = BrokerMapping::create(limits(), small, descriptor, &mut region);
    let reader = ReadOnlyMapping::open(limits(), &region, broker.descriptor()).unwrap();
    assert_eq!(reader.header().config().total_length(), region.len());

    // The header claims a slot more than the mapping holds.
    region[HEADER_SLOT_COUNT] = 5;
    let error = match ReadOnlyMapping::open(limits(), &region, broker.descriptor()) {
        Ok(_) => panic!("the ring would reach beyond the mapping"),
        Err(error) => error,
    };
    assert_eq!(error.operation(), "shared_memory.open");
    assert_eq!(
        error.debug_message(),
        "mapping total length does not match its descriptor"
    );
    // A ring with a slot fewer lies inside.
    region[HEADER_SLOT_COUNT] = 3;
    let reader = ReadOnlyMapping::open(limits(), &region, broker.descriptor()).unwrap();
    assert_eq!(reader.header().config().total_length(), 768);
    assert_eq!(
        reader.header().identity(),
        broker.descriptor().mapping_identity()
    );
}

#[test]
fn a_close_that_failed_changes_nothing() {
    let (mut broker, mut region) = create();
    broker
        .writer()
        .publish(&mut region, &metadata(1, 1), &[1; 8])
        .unwrap();
    let lease = broker.next_frame_lease(&mut region).unwrap().unwrap();
    let reader = ReadOnlyMapping::open(limits(), &region, broker.descriptor()).unwrap();
    let before = region.clone();
    let error = broker
        .close(&mut region, Err(failure(IoErrorKind::PermissionDenied)))
        .unwrap_err();
    assert_eq!(error.operation(), "shared_memory.close");
    assert_eq!(region, before);
    assert_eq!(
        reader.copy(&region, lease).unwrap().unwrap().payload(),
        &[1; 8]
    );
    broker.close(&mut region, Ok(())).unwrap();
    assert!(reader.copy(&region, lease).unwrap().is_none());
    broker
        .close(&mut region, Err(failure(IoErrorKind::Other)))
        .unwrap();
}

#[test]
fn a_descriptor_is_shown_without_its_capability() {
    let mut identity = [0; 32];
    identity[1] = 255;
    let shown = |token: u8| {
        MappingDescriptor::new(
            "/robot-hal-000000000000000000".to_owned(),
            MappingIdentity::from_bytes(identity),
            MappingToken::from_bytes([token; 32]),
            960,
        )
        .redacted()
    };
    assert_eq!(
        shown(0x5a),
        "MappingDescriptor { mapping_name: \"/robot-hal-000000000000000000\", \
         mapping_identity: MappingIdentity([0, 255, 0, 0, 0, 0, 0, 0, 0, 0, 0, 0, 0, 0, 0, 0, \
         0, 0, 0, 0, 0, 0, 0, 0, 0, 0, 0, 0, 0, 0, 0, 0]), capability_token: \"REDACTED\", \
         total_length: 960 }"
    );
    assert_eq!(shown(1), shown(2));
}

#[test]
fn sections_are_created_step_by_step() {
    let name = mapping_name(&[7; 9]);
    assert_eq!(
        begin_section(SectionPurpose::Create, &name, 4096),
        SectionAction::Perform(SectionStage::Protect)
    );
    let steps = [
        (SectionStage::Protect, Some(SectionStage::Section)),
        (SectionStage::Section, Some(SectionStage::Mutex)),
        (SectionStage::Mutex, Some(SectionStage::View)),
        (SectionStage::View, None),
    ];
    for (stage, next) in steps {
        assert_eq!(
            advance_section(SectionPurpose::Create, stage, SectionOutcome::Done, 4096),
            match next {
                Some(next) => SectionAction::Perform(next),
                None => SectionAction::Complete,
            }
        );
    }
    match advance_section(
        SectionPurpose::Create,
        SectionStage::Protect,
        SectionOutcome::Done,
        0,
    ) {
        SectionAction::Abandon(held, error) => {
            assert_eq!(held, handles(false, false));
            assert_eq!(error.kind(), IoErrorKind::InvalidInput);
        }
        _ => panic!("a section has a length"),
    }
    assert!(matches!(
        begin_section(SectionPurpose::Create, "other", 4096),
        SectionAction::Abandon(_, _)
    ));
}

#[test]
fn existing_sections_and_mutexes_are_collisions() {
    for (stage, held) in [
        (SectionStage::Section, handles(false, true)),
        (SectionStage::Mutex, handles(true, true)),
    ] {
        match advance_section(SectionPurpose::Create, stage, SectionOutcome::Existing, 4096) {
            SectionAction::Abandon(abandoned, error) => {
                assert_eq!(abandoned, held);
                assert_eq!(error.kind(), IoErrorKind::AlreadyExists);
                assert_eq!(error.message, "named shared mapping already exists");
            }
            _ => panic!("an existing object must not be used"),
        }
    }
    for (stage, held) in [
        (SectionStage::Section, handles(false, false)),
        (SectionStage::Mutex, handles(false, true)),
        (SectionStage::View, handles(true, true)),
    ] {
        assert_eq!(
            advance_section(
                SectionPurpose::Create,
                stage,
                SectionOutcome::Failed(failure(IoErrorKind::Other)),
                4096,
            ),
            SectionAction::Abandon(held, failure(IoErrorKind::Other))
        );
    }
}

#[test]
fn sections_are_opened_only_where_they_are_long_enough() {
    let name = mapping_name(&[7; 9]);
    assert_eq!(
        begin_section(SectionPurpose::Open, &name, 4096),
        SectionAction::Perform(SectionStage::Section)
    );
    match begin_section(SectionPurpose::Open, "other", 0) {
        SectionAction::Abandon(_, error) => assert_eq!(error.kind(), IoErrorKind::InvalidData),
        _ => panic!("nothing cannot be mapped"),
    }
    assert_eq!(
        advance_section(
            SectionPurpose::Open,
            SectionStage::Section,
            SectionOutcome::Done,
            4096,
        ),
        SectionAction::Perform(SectionStage::Query)
    );
    let queried = |status: i32, maximum_size: i64| {
        advance_section(
            SectionPurpose::Open,
            SectionStage::Query,
            SectionOutcome::Queried {
                status,
                maximum_size,
            },
            4096,
        )
    };
    assert_eq!(queried(0, 8192), SectionAction::Perform(SectionStage::Mutex));
    for (status, size, kind) in [
        (0, 4095, IoErrorKind::InvalidData),
        (0, 0, IoErrorKind::InvalidData),
        (STATUS_ACCESS_DENIED, 8192, IoErrorKind::PermissionDenied),
        (-1, 8192, IoErrorKind::Other),
    ] {
        match queried(status, size) {
            SectionAction::Abandon(held, error) => {
                assert_eq!(held, handles(false, true));
                assert_eq!(error.kind(), kind);
            }
            _ => panic!("the section is not long enough"),
        }
    }
}

fn handles(lock: bool, section: bool) -> HeldHandles {
    HeldHandles { lock, section }
}

#[test]
fn rejects_non_basename_shared_memory_names() {
    for name in [
        "robot-hal-invalid",
        "/robot-hal/nested",
        "/robot-hal-../escape",
    ] {
        assert!(lock_path(name).is_err());
    }
}

fn failure(kind: IoErrorKind) -> IoError {
    IoError::new(kind, "scripted failure")
}

fn facts(size: i64) -> FileFacts {
    FileFacts {
        regular: true,
        owner: 1000,
        mode: 0o600,
        links: 1,
        size,
    }
}

#[test]
fn lock_creation_failure_removes_shared_memory_object() {
    let action = advance_mapping(
        MappingPurpose::Create {
            mode_is_fixed: false,
        },
        MappingStage::Lock,
        StageOutcome::Failed(failure(IoErrorKind::AlreadyExists)),
        1000,
        4096,
    );
    match action {
        MappingAction::Abandon(held, error) => {
            assert_eq!(
                held,
                Held {
                    address: true,
                    object: true,
                    name: true,
                }
            );
            assert_eq!(error.kind(), IoErrorKind::AlreadyExists);
        }
        _ => panic!("a mapping without its lock must be abandoned"),
    }
}

#[test]
fn refuses_symbolic_link_as_client_lock_file() {
    let link = FileFacts {
        regular: false,
        ..facts(0)
    };
    assert!(verify_private_lock_file(link, 1000).is_err());
}

#[test]
fn create_rejects_an_existing_mapping_name() {
    match advance_mapping(
        MappingPurpose::Create {
            mode_is_fixed: false,
        },
        MappingStage::Open,
        StageOutcome::Failed(failure(IoErrorKind::AlreadyExists)),
        1000,
        4096,
    ) {
        MappingAction::Abandon(held, error) => {
            assert_eq!(
                held,
                Held {
                    address: false,
                    object: false,
                    name: false,
                }
            );
            assert_eq!(error.kind(), IoErrorKind::AlreadyExists);
        }
        _ => panic!("existing names must be rejected"),
    }
}

#[test]
fn create_rejects_a_zero_length_section() {
    let error = split_section_length(0).unwrap_err();
    assert_eq!(error.kind(), IoErrorKind::InvalidInput);
}

#[test]
fn read_only_open_rejects_a_request_larger_than_the_section() {
    let error = validate_section_length(Ok(4096), 8192).unwrap_err();
    assert_eq!(error.kind(), IoErrorKind::InvalidData);
}

#[test]
fn query_failure_is_not_disguised_as_an_invalid_section_length() {
    let error = validate_section_length(
        Err(IoError::new(
            IoErrorKind::PermissionDenied,
            "section query denied",
        )),
        4096,
    )
    .unwrap_err();

    assert_eq!(error.kind(), IoErrorKind::PermissionDenied);
}

#[test]
fn reader_lock_contention_is_non_blocking_and_unlock_restores_progress() {
    match try_lock(WaitStatus::Timeout) {
        LockAction::Fail(error) => assert_eq!(error.kind(), IoErrorKind::WouldBlock),
        _ => panic!("a held lock must not block"),
    }
    assert!(matches!(try_lock(WaitStatus::Object), LockAction::Proceed));
}

#[test]
fn abandoned_mutex_is_released_while_still_failing_closed() {
    match try_lock(WaitStatus::Abandoned) {
        LockAction::ReleaseThenFail(error) => assert_eq!(error.kind(), IoErrorKind::Other),
        _ => panic!("an abandoned lock must be released and fail"),
    }
}

#[test]
fn teardown_lock_keeps_abandoned_ownership_until_unlocked() {
    assert!(matches!(
        try_lock_for_teardown(WaitStatus::Abandoned),
        LockAction::Proceed
    ));
    match try_lock_for_teardown(WaitStatus::Timeout) {
        LockAction::Fail(error) => assert_eq!(error.kind(), IoErrorKind::WouldBlock),
        _ => panic!("a held lock must not block"),
    }
}

#[test]
fn lock_name_is_private_and_mapping_name_validation_rejects_malformed_input() {
    let lock = lock_name("/robot-hal-0123456789abcdef12").unwrap();
    assert_ne!(lock, "/robot-hal-0123456789abcdef12");
    for name in [
        "robot-hal-0123456789abcdef12",
        "/robot-hal-0123456789abcdef1",
        "/robot-hal-0123456789abcdef1z",
        "/robot-hal-0123456789abcdef12\\nested",
    ] {
        assert!(lock_name(name).is_err(), "{name}");
        assert!(unlink_result(name, Ok(()), Ok(())).is_err(), "{name}");
    }
}

#[test]
fn object_and_lock_file_have_to_be_private() {
    assert!(verify_object(facts(4096), 1000).is_ok());
    assert!(verify_object(facts(4096), 1001).is_err());
    assert!(verify_object(
        FileFacts {
            mode: 0o644,
            ..facts(4096)
        },
        1000
    )
    .is_err());
    assert!(verify_private_lock_file(facts(0), 1000).is_ok());
    assert!(verify_private_lock_file(
        FileFacts {
            links: 2,
            ..facts(0)
        },
        1000
    )
    .is_err());
    assert!(verify_object_length(facts(4096), 4096).is_ok());
    assert!(verify_object_length(facts(4095), 4096).is_err());
    assert!(verify_object_length(facts(-1), 4096).is_err());
}

#[test]
fn mapping_is_built_stage_by_stage() {
    let purpose = MappingPurpose::Create {
        mode_is_fixed: false,
    };
    let mut stage = MappingStage::Open;
    let mut performed = vec![stage];
    for _ in 0..10 {
        let outcome = if stage == MappingStage::Inspect {
            StageOutcome::Facts(facts(4096))
        } else {
            StageOutcome::Done
        };
        match advance_mapping(purpose, stage, outcome, 1000, 4096) {
            MappingAction::Perform(next) => {
                stage = next;
                performed.push(next);
            }
            MappingAction::Complete => break,
            MappingAction::Abandon(_, error) => panic!("{error:?}"),
        }
    }
    assert_eq!(*performed.last().unwrap(), MappingStage::Lock);
    assert!(performed.contains(&MappingStage::MapView));
    assert!(performed.contains(&MappingStage::Resize));
}

#[test]
fn names_with_a_nul_are_refused() {
    assert!(check_interior_nul("/robot-hal-0123456789abcdef12").is_ok());
    assert!(check_interior_nul("/robot\0hal").is_err());
}

#[test]
fn section_queries_are_told_apart() {
    assert_eq!(section_length(0, 4096).unwrap(), 4096);
    assert_eq!(
        section_length(0, -1).unwrap_err().kind(),
        IoErrorKind::InvalidData
    );
    assert_eq!(
        section_query_error(STATUS_ACCESS_DENIED).kind(),
        IoErrorKind::PermissionDenied
    );
    assert_eq!(split_section_length(4096).unwrap(), (0, 4096));
}

#[test]
fn generated_names_are_valid_and_secrets_differ() {
    let first = MappingDescriptor::generate(4096).unwrap();
    let second = MappingDescriptor::generate(4096).unwrap();
    assert!(validate_mapping_name(first.mapping_name()).is_ok());
    assert_ne!(first.mapping_name(), second.mapping_name());
    assert_ne!(first.token().hash(), second.token().hash());
    assert_eq!(mapping_name(&[0x0f, 0xa0]), "/robot-hal-0fa0");
}

#[test]
fn token_hash_is_sha256_and_the_secret_is_redacted() {
    let token = MappingToken::from_bytes([0; 32]);
    assert_eq!(
        token.hash()[..4],
        [0x66, 0x68, 0x7a, 0xad],
        "SHA-256 of 32 zero bytes starts with 66687aad"
    );
    assert!(!token.redacted().contains("00"));
    assert_eq!(MappingIdentity::from_bytes([7; 32]).bytes(), &[7; 32]);
}

#[test]
fn frames_are_read_back_as_published() {
    let (mut broker, mut region) = create();
    let payload = [9, 8, 7, 6, 5, 4, 3, 2];
    broker
        .writer()
        .publish(&mut region, &metadata(11, 3), &payload)
        .unwrap();
    let frame = broker.acquire(&mut region).unwrap().unwrap();
    assert_eq!(frame.payload(), &payload);
    assert_eq!(frame.metadata().generation(), 3);
    assert_eq!(frame.metadata().monotonic_timestamp_ns(), 123);
    assert_eq!(frame.metadata().planes()[0].length(), 8);
    assert_eq!(frame.metadata().planes()[0].stride(), 4);
}

#[test]
fn published_frames_spare_the_pinned_slot() {
    let (mut broker, mut region) = create();
    broker
        .writer()
        .publish(&mut region, &metadata(1, 1), &[1; 8])
        .unwrap();
    let lease = broker.next_frame_lease(&mut region).unwrap().unwrap();
    for sequence in 2..=9_u64 {
        broker
            .writer()
            .publish(&mut region, &metadata(sequence, sequence), &[2; 8])
            .unwrap();
    }
    let client = ReadOnlyMapping::open(limits(), &region, broker.descriptor()).unwrap();
    assert_eq!(
        client.copy(&region, lease).unwrap().unwrap().payload(),
        &[1; 8]
    );
}

#[test]
fn planes_have_to_cover_the_format() {
    let nv12 = vec![
        PlaneLayout::new(0, 8, 4).unwrap(),
        PlaneLayout::new(8, 4, 4).unwrap(),
    ];
    assert!(validate_planes(PixelFormat::Nv12, 4, 2, &nv12, 12).is_ok());
    assert!(validate_planes(PixelFormat::Nv12, 4, 2, &nv12, 11).is_err());
    let overlapping = vec![
        PlaneLayout::new(0, 8, 4).unwrap(),
        PlaneLayout::new(7, 4, 4).unwrap(),
    ];
    assert!(validate_planes(PixelFormat::Nv12, 4, 2, &overlapping, 12).is_err());
    assert!(validate_planes(PixelFormat::Nv12, 4, 2, &vec![nv12[0]], 12).is_err());
    assert!(PlaneLayout::new(0, 0, 4).is_err());
    assert!(PlaneLayout::new(usize::MAX, 1, 1).is_err());
}

#[test]
fn codes_are_taken_apart_as_they_are_made() {
    for format in [PixelFormat::Nv12, PixelFormat::Yuyv, PixelFormat::Mjpeg] {
        assert_eq!(PixelFormat::from_raw(format.raw()).unwrap(), format);
    }
    assert!(PixelFormat::from_raw(4).is_err());
    for state in [
        SlotState::Free,
        SlotState::Writing,
        SlotState::Ready,
        SlotState::Pinned,
    ] {
        assert_eq!(SlotState::from_raw(state.raw()).unwrap(), state);
    }
    assert!(SlotState::from_raw(9).is_err());
    assert_eq!(align_up(65, 64).unwrap(), 128);
    assert_eq!(align_up(64, 64).unwrap(), 64);
}
