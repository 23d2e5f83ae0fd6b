use robot_hal::camera::avfoundation;
use robot_hal::camera::avfoundation::{AvFoundationAdapter, AvFoundationSession};
use robot_hal::camera::backend::{encode_resource_id, CameraBackend};
use robot_hal::camera::claims::ClaimSet;
use robot_hal::camera::frame_format::{CameraFormat, CameraLimits, CameraPixelFormat};
use robot_hal::camera::mediafoundation;
use robot_hal::camera::mediafoundation::MediaFoundationAdapter;
use robot_hal::camera::session::{CameraSession, CaptureReply, CaptureWorker, JoinEnd};
use robot_hal::camera::v4l2;
use robot_hal::camera::v4l2::V4l2Adapter;
use robot_hal::camera::wait::{after_wait, bounded_wait, WaitResult, WaitStep};
use robot_hal::error::{IoError, IoErrorKind};
use robot_hal::resource::{Capability, IdentityQuality, ResourceId};

#[derive(Debug, PartialEq, Eq)]
enum WaitError {
    TimedOut,
}

/// Drives the steps of a wait against a simulated clock in nanoseconds.
fn wait_until<T>(
    deadline: u64,
    maximum_wait: u64,
    mut shutdown_requested: impl FnMut() -> bool,
    mut wait_once: impl FnMut(u64) -> Result<T, WaitError>,
) -> Result<WaitResult<T>, WaitError> {
    let mut now: u64 = 0;
    loop {
        match bounded_wait(
            shutdown_requested(),
            deadline.saturating_sub(now),
            maximum_wait,
        ) {
            WaitStep::Shutdown => return Ok(WaitResult::Shutdown),
            WaitStep::TimedOut => return Ok(WaitResult::TimedOut),
            WaitStep::Wait(time) => {
                now += time;
                let result = wait_once(time);
                let is_timeout = matches!(result, Err(WaitError::TimedOut));
                if let Some(ended) = after_wait(result, is_timeout) {
                    return ended;
                }
            }
        }
    }
}

const MILLISECOND: u64 = 1_000_000;

#[test]
fn capture_deadline_bounds_each_native_wait() {
    let result = wait_until(
        7 * MILLISECOND,
        2 * MILLISECOND,
        || false,
        |wait_for| -> Result<(), WaitError> {
            assert!(
                wait_for <= 7 * MILLISECOND,
                "native wait must never exceed the capture deadline"
            );
            Err(WaitError::TimedOut)
        },
    );

    assert_eq!(result, Ok(WaitResult::<()>::TimedOut));
}

#[test]
fn shutdown_preempts_a_stalled_capture_without_waiting_for_its_deadline() {
    let waits = std::cell::Cell::new(0);
    let result = wait_until(
        30_000 * MILLISECOND,
        2 * MILLISECOND,
        || waits.get() == 1,
        |_| -> Result<(), WaitError> {
            waits.set(waits.get() + 1);
            Err(WaitError::TimedOut)
        },
    );

    assert_eq!(waits.get(), 1);
    assert_eq!(result, Ok(WaitResult::<()>::Shutdown));
}

#[test]
fn a_timed_out_capture_does_not_poison_the_next_capture() {
    let first = wait_until(
        0,
        2 * MILLISECOND,
        || false,
        |_| -> Result<(), WaitError> { Err(WaitError::TimedOut) },
    );
    assert_eq!(first, Ok(WaitResult::<()>::TimedOut));

    let second = wait_until(
        1_000 * MILLISECOND,
        2 * MILLISECOND,
        || false,
        |_| -> Result<u8, WaitError> { Ok(42) },
    );
    assert_eq!(second, Ok(WaitResult::Ready(42)));
}

fn limits() -> CameraLimits {
    CameraLimits {
        max_width: 4096,
        max_height: 2160,
        max_frame_bytes: 16 * 1024 * 1024,
        min_slot_count: 3,
        max_slot_count: 8,
    }
}

fn format(pixel_format: CameraPixelFormat, width: u32, height: u32) -> CameraFormat {
    CameraFormat::new(&limits(), pixel_format, width, height).unwrap()
}

fn id(text: &str) -> ResourceId {
    ResourceId::new(text.to_owned())
}

#[test]
fn resource_id_percent_encodes_avfoundation_unique_id() {
    assert_eq!(
        encode_resource_id(CameraBackend::AvFoundation, "FaceTime HD Camera:ABC/123")
            .expect("valid unique ID")
            .as_str(),
        "camera:avfoundation:FaceTime%20HD%20Camera%3AABC%2F123"
    );
}

#[test]
fn resource_id_rejects_empty_avfoundation_unique_id() {
    let error = encode_resource_id(CameraBackend::AvFoundation, "")
        .expect_err("empty native ID is not a stable identity");
    assert_eq!(error.name(), "runtime.resource.invalid");
}

#[test]
fn resource_id_percent_encodes_media_foundation_symbolic_link() {
    assert_eq!(
        encode_resource_id(
            CameraBackend::MediaFoundation,
            r"\\?\usb#vid_1234&pid_5678#camera/0"
        )
        .expect("valid symbolic link")
        .as_str(),
        "camera:mediafoundation:%5C%5C%3F%5Cusb%23vid_1234%26pid_5678%23camera%2F0"
    );
}

#[test]
fn resource_id_rejects_empty_media_foundation_symbolic_link() {
    assert_eq!(
        encode_resource_id(CameraBackend::MediaFoundation, "")
            .expect_err("empty link is not a stable identity")
            .name(),
        "runtime.resource.invalid"
    );
}

#[test]
fn resource_id_percent_encodes_v4l2_identity_evidence() {
    assert_eq!(
        encode_resource_id(CameraBackend::V4l2, "serial:ACME Camera/123")
            .unwrap()
            .as_str(),
        "camera:v4l2:serial%3AACME%20Camera%2F123"
    );
}

#[test]
fn resource_id_rejects_empty_v4l2_identity_evidence() {
    assert_eq!(
        encode_resource_id(CameraBackend::V4l2, "")
            .unwrap_err()
            .name(),
        "runtime.resource.invalid"
    );
}

#[test]
fn non_macos_calls_are_stably_unavailable_without_discovery() {
    let adapter = AvFoundationAdapter::new();
    assert_eq!(
        adapter
            .enumerate(None)
            .expect_err("AVFoundation must not probe a non-macOS host")
            .name(),
        "runtime.adapter.unavailable"
    );
    assert_eq!(
        adapter
            .select(
                None,
                &id("camera:avfoundation:test"),
                &format(CameraPixelFormat::Nv12, 640, 480),
                &limits(),
            )
            .expect_err("AVFoundation must not probe a non-macOS host")
            .name(),
        "runtime.adapter.unavailable"
    );
}

#[test]
fn non_windows_calls_are_stably_unavailable_without_discovery() {
    let adapter = MediaFoundationAdapter::new();
    assert_eq!(
        adapter
            .enumerate(None)
            .expect_err("Media Foundation must not probe a non-Windows host")
            .name(),
        "runtime.adapter.unavailable"
    );
    let mut claims = ClaimSet::new();
    let error = match adapter.open(
        &mut claims,
        None,
        &id("camera:mediafoundation:test"),
        format(CameraPixelFormat::Nv12, 640, 480),
        &limits(),
    ) {
        Ok(_) => panic!("Media Foundation must not probe a non-Windows host"),
        Err(error) => error,
    };
    assert_eq!(error.name(), "runtime.adapter.unavailable");
    assert_eq!(
        error.resource_id().unwrap().as_str(),
        "camera:mediafoundation:test"
    );
}

#[test]
fn non_linux_calls_are_stably_unavailable_without_discovery() {
    let adapter = V4l2Adapter::new();
    assert_eq!(
        adapter
            .enumerate(None)
            .expect_err("V4L2 must not probe a non-Linux host")
            .name(),
        "runtime.adapter.unavailable"
    );
    let mut claims = ClaimSet::new();
    let error = match adapter.open(
        &mut claims,
        None,
        &id("camera:v4l2:test"),
        format(CameraPixelFormat::Nv12, 640, 480),
        &limits(),
    ) {
        Ok(_) => panic!("V4L2 must not probe a non-Linux host"),
        Err(error) => error,
    };
    assert_eq!(error.name(), "runtime.adapter.unavailable");
}

#[test]
fn timed_out_close_quarantines_the_claim_until_the_worker_exits() {
    let resource_id = id("camera:v4l2:teardown-test");
    let mut claims = ClaimSet::new();
    let mut session = CameraSession::claim(
        &mut claims,
        CameraBackend::V4l2,
        &resource_id,
        format(CameraPixelFormat::Yuyv, 640, 480),
    )
    .unwrap();
    assert!(session.begin_close());
    let error = session
        .finish_close(&mut claims, JoinEnd::TimedOut)
        .unwrap_err();
    assert_eq!(error.name(), "runtime.transport.timeout");
    assert_eq!(error.operation(), "camera.close");
    assert!(
        claims.contains(&resource_id),
        "a second open must conflict while a timed-out V4L2 worker owns the device"
    );
    session.worker_exited(&mut claims);
    assert!(
        !claims.contains(&resource_id),
        "the claim must release only after the old V4L2 worker exits"
    );
}

#[test]
fn close_timeout_quarantines_the_claim_until_the_native_worker_exits() {
    let resource_id = id("camera:avfoundation:teardown-test");
    let mut claims = ClaimSet::new();
    let mut session = CameraSession::claim(
        &mut claims,
        CameraBackend::AvFoundation,
        &resource_id,
        format(CameraPixelFormat::Nv12, 640, 480),
    )
    .unwrap();
    assert!(session.begin_close());
    assert!(session
        .finish_close(&mut claims, JoinEnd::TimedOut)
        .is_err());
    assert!(
        claims.contains(&resource_id),
        "a second session must not open while the timed-out native worker can own the camera"
    );
    session.worker_exited(&mut claims);
    assert!(
        !claims.contains(&resource_id),
        "claim must be released only after the native worker exits"
    );
}

#[test]
fn lib_dropping_a_quarantined_session_keeps_its_claim() {
    for name in [
        "camera:v4l2:quarantined-drop",
        "camera:avfoundation:quarantined-drop",
    ] {
        let resource_id = id(name);
        let mut claims = ClaimSet::new();
        assert!(claims.claim(&resource_id));

        claims.release_claim_after_drop(&resource_id, true);

        assert!(
            claims.contains(&resource_id),
            "Drop must not reopen a resource while its reaper owns the claim"
        );
        claims.release_claim_after_drop(&resource_id, false);
        assert!(!claims.contains(&resource_id));
    }
}

#[test]
fn dropped_sessions_give_back_or_wait() {
    let mut claims = ClaimSet::new();
    let first = id("camera:v4l2:a");
    let session = CameraSession::claim(
        &mut claims,
        CameraBackend::V4l2,
        &first,
        format(CameraPixelFormat::Yuyv, 640, 480),
    )
    .unwrap();
    assert!(session.dropped(&mut claims).is_none());
    assert!(!claims.contains(&first));

    let second = id("camera:mediafoundation:b");
    let session = CameraSession::claim(
        &mut claims,
        CameraBackend::MediaFoundation,
        &second,
        format(CameraPixelFormat::Yuyv, 640, 480),
    )
    .unwrap();
    let mut waiting = session.dropped(&mut claims).unwrap();
    assert!(claims.contains(&second));
    waiting.worker_exited(&mut claims);
    assert!(!claims.contains(&second));
}

#[test]
fn camera_in_use_conflicts_and_controls_are_refused() {
    let mut claims = ClaimSet::new();
    let resource_id = id("camera:mediafoundation:c");
    let requested = format(CameraPixelFormat::Nv12, 640, 480);
    let mut session = CameraSession::claim(
        &mut claims,
        CameraBackend::MediaFoundation,
        &resource_id,
        requested,
    )
    .unwrap();
    let conflict = match CameraSession::claim(
        &mut claims,
        CameraBackend::MediaFoundation,
        &resource_id,
        requested,
    ) {
        Ok(_) => panic!("a camera in use must conflict"),
        Err(error) => error,
    };
    assert_eq!(conflict.name(), "runtime.adapter.conflict");
    assert_eq!(session.format(), requested);
    assert_eq!(
        session.control("camera.controls").name(),
        "camera.control.unsupported"
    );
    assert_eq!(
        session.capture(CaptureReply::TimedOut).unwrap_err().name(),
        "runtime.transport.timeout"
    );
    assert_eq!(
        session.capture(CaptureReply::Refused).unwrap_err().name(),
        "runtime.session.closed"
    );
    assert!(session.begin_close());
    assert!(!session.begin_close());
    assert_eq!(
        session.ensure_open("camera.capture").unwrap_err().name(),
        "runtime.session.closed"
    );
    assert_eq!(
        session.control("camera.control.get").name(),
        "runtime.session.closed"
    );
    let error = session
        .finish_close(&mut claims, JoinEnd::Panicked)
        .unwrap_err();
    assert_eq!(
        error.debug_message(),
        "Media Foundation error: Media Foundation worker panicked"
    );
    assert!(!claims.contains(&resource_id));
}

#[test]
fn worker_that_does_not_start_gives_the_camera_back() {
    let mut claims = ClaimSet::new();
    let resource_id = id("camera:v4l2:d");
    let session = CameraSession::claim(
        &mut claims,
        CameraBackend::V4l2,
        &resource_id,
        format(CameraPixelFormat::Yuyv, 640, 480),
    )
    .unwrap();
    let error = match session.started(&mut claims, None) {
        Ok(_) => panic!("a worker that went away has not started"),
        Err(error) => error,
    };
    assert_eq!(
        error.debug_message(),
        "V4L2 error: V4L2 capture worker exited before setup"
    );
    assert!(!claims.contains(&resource_id));
}

#[test]
fn worker_numbers_only_frames() {
    let mut worker = CaptureWorker::new(CameraBackend::V4l2, id("camera:v4l2:e"));
    assert_eq!(worker.next_sequence(), 1);
    let timed_out = worker.finish(Ok(WaitResult::TimedOut)).unwrap();
    assert_eq!(timed_out.unwrap_err().name(), "runtime.transport.timeout");
    assert_eq!(worker.next_sequence(), 1);
    let frame = yuyv_frame(worker.next_sequence());
    assert!(worker
        .finish(Ok(WaitResult::Ready(frame)))
        .unwrap()
        .is_ok());
    assert_eq!(worker.next_sequence(), 2);
    assert!(worker.finish(Ok(WaitResult::Shutdown)).is_none());
}

fn yuyv_frame(sequence: u64) -> robot_hal::camera::frame::CameraFrame {
    let bytes = [7_u8; 16];
    v4l2::capture_one(
        &v4l2::NativeBuffer {
            mapped: &bytes,
            bytes_used: 8,
            corrupt: false,
        },
        &format(CameraPixelFormat::Yuyv, 2, 2),
        &limits(),
        4,
        sequence,
        99,
        &id("camera:v4l2:e"),
    )
    .unwrap()
}

#[test]
fn serial_identity_is_strong_and_distinct_from_transient_endpoint() {
    let evidence = v4l2::identity_from_serial_or_sysfs_path(
        "ACME-CAM-42",
        "/devices/usb1/1-1/video4linux/video0",
    )
    .expect("serial evidence produces identity");
    assert_eq!(evidence.value, "serial:ACME-CAM-42");
    assert_eq!(evidence.source, "sysfs.serial");
    assert_eq!(evidence.quality, IdentityQuality::Strong);
}

#[test]
fn sysfs_unique_path_evidence_is_medium_without_serial() {
    let evidence =
        v4l2::identity_from_serial_or_sysfs_path("", "/devices/virtual/video4linux/video0")
            .expect("canonical sysfs path produces identity");
    assert_eq!(evidence.value, "sysfs:/devices/virtual/video4linux/video0");
    assert_eq!(evidence.source, "sysfs.canonical_device_path");
    assert_eq!(evidence.quality, IdentityQuality::Medium);
}

#[test]
fn empty_identity_evidence_fails_closed() {
    assert!(v4l2::identity_from_serial_or_sysfs_path("", "").is_none());
    assert_eq!(
        v4l2::identity_evidence(&vec![], "").unwrap_err().name(),
        "camera.frame.invalid"
    );
}

#[test]
fn identity_is_searched_upwards() {
    let levels = vec![
        v4l2::SysfsLevel {
            path: "/sys/devices/usb1/1-1/1-1:1.0".to_owned(),
            serial: None,
        },
        v4l2::SysfsLevel {
            path: "/sys/devices/usb1/1-1".to_owned(),
            serial: Some(" 0042\n".to_owned()),
        },
    ];
    assert_eq!(
        v4l2::identity_evidence(&levels, "/sys/devices/usb1/1-1/1-1:1.0")
            .unwrap()
            .value,
        "serial:0042"
    );
    assert_eq!(
        v4l2::identity_evidence(&vec![], "/sys/devices/x")
            .unwrap()
            .value,
        "sysfs:/sys/devices/x"
    );
}

#[test]
fn video_endpoints_are_recognised() {
    assert!(v4l2::is_video_endpoint("video0"));
    assert!(v4l2::is_video_endpoint("video12"));
    assert!(v4l2::is_video_endpoint("video"));
    assert!(!v4l2::is_video_endpoint("video0a"));
    assert!(!v4l2::is_video_endpoint("vide0"));
    assert!(!v4l2::is_video_endpoint("media0"));
}

fn v4l2_device(capture: bool) -> v4l2::DeviceReport {
    v4l2::DeviceReport {
        endpoint: "/dev/video0".to_owned(),
        video_capture: capture,
        streaming: true,
        driver: "uvcvideo".to_owned(),
        card: "ACME".to_owned(),
        bus: "usb-1".to_owned(),
        evidence: v4l2::identity_from_serial_or_sysfs_path("42", "").unwrap(),
    }
}

#[test]
fn only_capturing_devices_are_described() {
    let adapter = V4l2Adapter::new();
    assert_eq!(adapter.adapter_name(), "v4l2");
    let descriptors = adapter
        .enumerate(Some(vec![v4l2_device(false), v4l2_device(true)]))
        .unwrap();
    assert_eq!(descriptors.len(), 1);
    assert_eq!(descriptors[0].id().as_str(), "camera:v4l2:serial%3A42");
    assert_eq!(
        descriptors[0].properties.get("camera.identity_evidence"),
        Some("serial:42")
    );
    assert!(descriptors[0].supports(Capability::CameraCapture));
    let mut claims = ClaimSet::new();
    let (descriptor, _session) = adapter
        .open(
            &mut claims,
            Some(Ok(descriptors)),
            &id("camera:v4l2:serial%3A42"),
            format(CameraPixelFormat::Yuyv, 640, 480),
            &limits(),
        )
        .unwrap();
    assert_eq!(descriptor.endpoint, "/dev/video0");
    assert!(claims.contains(&id("camera:v4l2:serial%3A42")));
}

#[test]
fn v4l2_formats_have_to_be_exact() {
    let resource = id("camera:v4l2:f");
    let requested = format(CameraPixelFormat::Yuyv, 640, 480);
    let exact = v4l2::DeviceFormat {
        width: 640,
        height: 480,
        fourcc: v4l2::fourcc(CameraPixelFormat::Yuyv),
        stride: 1280,
        size: 640 * 480 * 2,
    };
    assert_eq!(exact.fourcc, *b"YUYV");
    assert_eq!(v4l2::fourcc(CameraPixelFormat::Nv12), *b"NV12");
    assert_eq!(v4l2::fourcc(CameraPixelFormat::Mjpeg), *b"MJPG");
    assert!(v4l2::ensure_exact_format(&requested, &exact, &limits(), &resource).is_ok());
    for wrong in [
        v4l2::DeviceFormat { width: 641, ..exact },
        v4l2::DeviceFormat {
            height: 481,
            ..exact
        },
        v4l2::DeviceFormat {
            fourcc: *b"NV12",
            ..exact
        },
        v4l2::DeviceFormat {
            stride: 1279,
            ..exact
        },
        v4l2::DeviceFormat {
            size: u32::MAX,
            ..exact
        },
    ] {
        assert_eq!(
            v4l2::ensure_exact_format(&requested, &wrong, &limits(), &resource)
                .unwrap_err()
                .name(),
            "camera.format.unsupported"
        );
    }
}

#[test]
fn v4l2_payloads_are_bounded() {
    let resource = id("camera:v4l2:g");
    let requested = format(CameraPixelFormat::Nv12, 4, 2);
    let frame = |bytes_used: u32, corrupt: bool| {
        let bytes = [1_u8; 16];
        v4l2::capture_one(
            &v4l2::NativeBuffer {
                mapped: &bytes,
                bytes_used,
                corrupt,
            },
            &requested,
            &limits(),
            4,
            5,
            u128::MAX,
            &resource,
        )
    };
    let captured = frame(12, false).unwrap();
    assert_eq!(captured.planes.len(), 2);
    assert_eq!(captured.planes[0].length, 8);
    assert_eq!(captured.planes[1].offset, 8);
    assert_eq!(captured.planes[1].length, 4);
    assert_eq!(captured.timestamp_ns, u64::MAX);
    assert_eq!(captured.clock_domain, "v4l2.receipt.monotonic");
    assert_eq!(captured.payload.len(), 12);
    assert_eq!(
        frame(0, false).unwrap_err().debug_message(),
        "V4L2 frame payload exceeds negotiated or mapped bounds"
    );
    assert_eq!(
        frame(17, false).unwrap_err().debug_message(),
        "V4L2 frame payload exceeds negotiated or mapped bounds"
    );
    assert_eq!(
        frame(11, false).unwrap_err().debug_message(),
        "V4L2 NV12 payload is shorter than its format"
    );
    assert_eq!(
        frame(12, true).unwrap_err().debug_message(),
        "V4L2 error: V4L2 returned a corrupt frame"
    );
}

#[test]
fn v4l2_read_failures_are_told_apart() {
    let resource = id("camera:v4l2:h");
    let timeout = v4l2::read_failure(
        &IoError::new(IoErrorKind::TimedOut, "poll timed out"),
        &resource,
    );
    assert!(v4l2::is_timeout(&timeout));
    let other = v4l2::read_failure(&IoError::new(IoErrorKind::Other, "gone"), &resource);
    assert!(!v4l2::is_timeout(&other));
    assert_eq!(other.debug_message(), "V4L2 error: gone");
    let stopped = v4l2::after_stop(Err(timeout), Err("busy".to_owned()), &resource);
    assert_eq!(stopped.unwrap_err().debug_message(), "V4L2 error: busy");
}

#[test]
fn media_foundation_describes_and_negotiates_exactly() {
    let adapter = MediaFoundationAdapter::new();
    assert_eq!(adapter.adapter_name(), "mediafoundation");
    let descriptors = adapter
        .enumerate(Some(vec!["link-1".to_owned(), "link-2".to_owned()]))
        .unwrap();
    assert_eq!(descriptors[1].id().as_str(), "camera:mediafoundation:link-2");
    assert_eq!(descriptors[1].quality, IdentityQuality::Medium);
    assert_eq!(
        adapter
            .enumerate(Some(vec!["link-1".to_owned(), String::new()]))
            .unwrap_err()
            .debug_message(),
        "Media Foundation camera symbolic link must not be empty"
    );
    let resource = id("camera:mediafoundation:link-1");
    let requested = format(CameraPixelFormat::Nv12, 640, 480);
    let exact = mediafoundation::MediaType {
        major: Some(mediafoundation::VIDEO_MEDIA_TYPE),
        subtype: Some(mediafoundation::mf_subtype(CameraPixelFormat::Nv12)),
        dimensions: Some((640_u64 << 32) | 480),
        stride: Some(640),
    };
    assert_eq!(
        mediafoundation::configure_exact(Ok(()), Ok(()), Some(exact), &requested, &resource)
            .unwrap(),
        640
    );
    for wrong in [
        mediafoundation::MediaType {
            major: None,
            ..exact
        },
        mediafoundation::MediaType {
            subtype: Some(mediafoundation::mf_subtype(CameraPixelFormat::Yuyv)),
            ..exact
        },
        mediafoundation::MediaType {
            dimensions: Some((480_u64 << 32) | 640),
            ..exact
        },
        mediafoundation::MediaType {
            stride: Some(639),
            ..exact
        },
    ] {
        assert!(
            mediafoundation::ensure_exact_media_type(&wrong, &requested, &resource).is_err()
        );
    }
    assert_eq!(
        mediafoundation::configure_exact(
            Ok(()),
            Err("refused".to_owned()),
            Some(exact),
            &requested,
            &resource
        )
        .unwrap_err()
        .name(),
        "camera.format.unsupported"
    );
    assert_eq!(
        mediafoundation::configure_exact(
            Err("out of memory".to_owned()),
            Ok(()),
            Some(exact),
            &requested,
            &resource
        )
        .unwrap_err()
        .debug_message(),
        "Media Foundation error: out of memory"
    );
    assert_eq!(mediafoundation::frame_size(3, 5), 0x3_0000_0005);
    assert_eq!(
        mediafoundation::activation(&vec!["a".to_owned(), "b".to_owned()], "b").unwrap(),
        1
    );
    assert!(mediafoundation::activation(&vec![], "b").is_err());
}

#[test]
fn media_foundation_samples_become_frames() {
    let resource = id("camera:mediafoundation:link-1");
    let requested = format(CameraPixelFormat::Yuyv, 2, 2);
    let bytes = [3_u8; 8];
    let convert = |bytes: Option<&[u8]>, maximum: u32, unlocked: Result<(), String>| {
        mediafoundation::frame_from_sample(
            bytes,
            maximum,
            unlocked,
            &requested,
            &limits(),
            4,
            2,
            17,
            &resource,
        )
    };
    let frame = convert(Some(&bytes), 8, Ok(())).unwrap();
    assert_eq!(frame.payload, vec![3; 8]);
    assert_eq!(frame.sequence, 2);
    assert_eq!(frame.timestamp_ns, 17);
    assert_eq!(frame.planes[0].length, 8);
    let outside = "Media Foundation sample payload is outside the public bound";
    assert_eq!(
        convert(None, 8, Ok(())).unwrap_err().debug_message(),
        outside
    );
    assert_eq!(
        convert(Some(&bytes), 7, Ok(())).unwrap_err().debug_message(),
        outside
    );
    assert_eq!(
        convert(Some(&bytes[..7]), 8, Ok(()))
            .unwrap_err()
            .debug_message(),
        "Media Foundation sample is shorter than negotiated layout"
    );
    assert_eq!(
        convert(Some(&bytes), 8, Err("stuck".to_owned()))
            .unwrap_err()
            .debug_message(),
        "Media Foundation error: stuck"
    );
}

#[test]
fn media_foundation_waits_in_steps() {
    let resource = id("camera:mediafoundation:link-1");
    assert!(matches!(
        mediafoundation::capture_step(true, 5, &resource),
        mediafoundation::CaptureStep::Fail(error) if error.name() == "runtime.session.closed"
    ));
    assert!(matches!(
        mediafoundation::capture_step(false, 0, &resource),
        mediafoundation::CaptureStep::Flush
    ));
    assert!(matches!(
        mediafoundation::capture_step(false, 50 * MILLISECOND, &resource),
        mediafoundation::CaptureStep::Wait(time) if time == 20 * MILLISECOND
    ));
    assert_eq!(
        mediafoundation::after_flush(Ok(()), &resource).name(),
        "runtime.transport.timeout"
    );
    assert!(matches!(
        mediafoundation::on_notification(
            mediafoundation::SampleNotification::Sample { present: false },
            &resource
        ),
        mediafoundation::SampleStep::Fail(_)
    ));
    assert!(matches!(
        mediafoundation::on_notification(
            mediafoundation::SampleNotification::Nothing,
            &resource
        ),
        mediafoundation::SampleStep::Wait
    ));
    assert_eq!(
        mediafoundation::worker_step(false, mediafoundation::Received::Capture),
        mediafoundation::WorkerStep::Capture
    );
    assert_eq!(
        mediafoundation::worker_step(true, mediafoundation::Received::Capture),
        mediafoundation::WorkerStep::Stop
    );
}

fn av_device() -> avfoundation::DeviceReport {
    avfoundation::DeviceReport {
        unique_id: "0x42".to_owned(),
        name: "FaceTime".to_owned(),
        model_id: "M1".to_owned(),
    }
}

fn native_frame(width: usize) -> avfoundation::NativeFrame {
    avfoundation::NativeFrame {
        pixel_format: avfoundation::BI_PLANAR_VIDEO_RANGE,
        width,
        height: 2,
        planes: vec![
            avfoundation::NativePlane {
                bytes: vec![1; 8],
                stride: 4,
            },
            avfoundation::NativePlane {
                bytes: vec![2; 4],
                stride: 4,
            },
        ],
        timestamp_ns: 77,
    }
}

#[test]
fn physical_camera_hot_unplug_becomes_terminal_then_reopens() {
    let mut claims = ClaimSet::new();
    let resource = id("camera:avfoundation:0x42");
    let requested = format(CameraPixelFormat::Nv12, 4, 2);
    let mut session =
        AvFoundationSession::open(&mut claims, &resource, requested, Ok(()), true).unwrap();
    let mut frames = avfoundation::FrameState::new();
    frames.deliver(native_frame(4));
    assert!(matches!(
        session.capture_into(&mut frames, true, 0, 5),
        avfoundation::CaptureStep::Publish(_)
    ));
    let unplugged = match session.capture_into(&mut frames, false, 0, 5) {
        avfoundation::CaptureStep::Fail(error) => error,
        _ => panic!("a disconnected camera must end the session"),
    };
    assert_eq!(unplugged.name(), "camera.session.unplugged");
    assert_eq!(unplugged.resource_id(), Some(&resource));
    let still_unplugged = match session.capture_into(&mut frames, true, 0, 5) {
        avfoundation::CaptureStep::Fail(error) => error,
        _ => panic!("an unplugged session must stay terminal"),
    };
    assert_eq!(still_unplugged.name(), "camera.session.unplugged");
    assert!(session.close(&mut frames, &mut claims));
    assert!(AvFoundationSession::open(&mut claims, &resource, requested, Ok(()), true).is_ok());
}

#[test]
fn avfoundation_publishes_exact_frames_into_a_sink() {
    let mut claims = ClaimSet::new();
    let resource = id("camera:avfoundation:0x42");
    let requested = format(CameraPixelFormat::Nv12, 4, 2);
    let mut session =
        AvFoundationSession::open(&mut claims, &resource, requested, Ok(()), true).unwrap();
    assert_eq!(session.format(), requested);
    assert_eq!(session.capture().name(), "runtime.transport.unavailable");
    assert_eq!(
        session.control("camera.controls").name(),
        "camera.control.unsupported"
    );
    let mut frames = avfoundation::FrameState::new();
    assert!(matches!(
        session.capture_into(&mut frames, true, 0, 5),
        avfoundation::CaptureStep::Sleep(1_000_000)
    ));
    assert!(matches!(
        session.capture_into(&mut frames, true, 5, 5),
        avfoundation::CaptureStep::Fail(error) if error.name() == "runtime.transport.timeout"
    ));
    frames.deliver(native_frame(4));
    frames.deliver(native_frame(4));
    frames.lose();
    let frame = match session.capture_into(&mut frames, true, 0, 5) {
        avfoundation::CaptureStep::Publish(frame) => frame,
        _ => panic!("a waiting frame must be published"),
    };
    assert_eq!(frame.sequence, 1);
    assert_eq!(frame.dropped_count, 2);
    assert_eq!(frame.timestamp_ns, 77);
    assert_eq!(frame.payload.len(), 12);
    assert_eq!(frame.planes[1].offset, 8);
    frames.deliver(native_frame(6));
    assert!(matches!(
        session.capture_into(&mut frames, true, 0, 5),
        avfoundation::CaptureStep::Fail(error) if error.name() == "camera.format.unsupported"
    ));
    let conflict = AvFoundationSession::open(&mut claims, &resource, requested, Ok(()), true)
        .err()
        .expect("a second open must conflict until the first session closes");
    assert_eq!(conflict.name(), "runtime.adapter.conflict");
    session.close(&mut frames, &mut claims);
    let mjpeg = format(CameraPixelFormat::Mjpeg, 1920, 1080);
    let refused = AvFoundationSession::open(&mut claims, &resource, mjpeg, Ok(()), true)
        .err()
        .expect("MJPEG must fail closed");
    assert_eq!(refused.name(), "camera.format.unsupported");
    assert!(!claims.contains(&resource));
}

#[test]
fn avfoundation_checks_the_selected_device() {
    let descriptor = avfoundation::descriptor_from_device(&av_device()).unwrap();
    assert_eq!(descriptor.endpoint, "avfoundation://device/0x42");
    assert_eq!(descriptor.quality, IdentityQuality::Strong);
    let requested = format(CameraPixelFormat::Yuyv, 640, 480);
    let device = avfoundation::SelectedDevice {
        present: true,
        connected: true,
        unique_id: "0x42".to_owned(),
        video_media: true,
        authorized: true,
        active: avfoundation::ActiveFormat {
            subtype: avfoundation::PACKED_YUVS,
            width: 640,
            height: 480,
        },
    };
    assert!(avfoundation::check_device(&descriptor, &device, &requested).is_ok());
    let refused = |device: avfoundation::SelectedDevice| {
        avfoundation::check_device(&descriptor, &device, &requested)
            .unwrap_err()
            .debug_message()
            .to_owned()
    };
    assert_eq!(
        refused(avfoundation::SelectedDevice {
            present: false,
            ..device.clone()
        }),
        "AVFoundation error: selected camera disappeared"
    );
    assert_eq!(
        refused(avfoundation::SelectedDevice {
            unique_id: "0x43".to_owned(),
            ..device.clone()
        }),
        "AVFoundation error: selected camera identity changed"
    );
    assert_eq!(
        refused(avfoundation::SelectedDevice {
            authorized: false,
            ..device.clone()
        }),
        "camera permission is not authorized"
    );
    assert_eq!(avfoundation::plane_extent(4, 3), Some(12));
    assert_eq!(avfoundation::plane_extent(4, 0), None);
    assert_eq!(avfoundation::plane_extent(usize::MAX, 2), None);
}

#[test]
fn camera_formats_are_bounded() {
    assert!(CameraFormat::new(&limits(), CameraPixelFormat::Nv12, 3, 2).is_err());
    assert!(CameraFormat::new(&limits(), CameraPixelFormat::Yuyv, 0, 2).is_err());
    assert!(CameraFormat::new(&limits(), CameraPixelFormat::Yuyv, 4097, 2).is_err());
    assert_eq!(
        format(CameraPixelFormat::Nv12, 4, 2)
            .worst_case_frame_bytes(&limits())
            .unwrap(),
        12
    );
    assert_eq!(
        format(CameraPixelFormat::Yuyv, 4, 2)
            .worst_case_frame_bytes(&limits())
            .unwrap(),
        16
    );
}
