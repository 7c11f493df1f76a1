use presence_daemon::actors::ingress::screen_dmabuf::{
    modifier_halves, DmabufAction, DmabufCapture, DmabufGlobal, DmabufGlobals, DmabufStage,
};
use presence_daemon::actors::ingress::screen_wlr::{
    refusal, shm_to_rgba, BufferSpec, Captor, CaptureAction, CaptureGlobal, CaptureGlobals,
    CaptureStage, FrameEvent, ShmCapture, SHM_ARGB8888,
};
use presence_daemon::actors::ingress::{DmabufPlane, DRM_FORMAT_MOD_INVALID, DRM_FORMAT_XRGB8888};

const SPEC: BufferSpec = BufferSpec { width: 2, height: 2, stride: 12, format: 1 };

fn offer(format: Option<u32>) -> FrameEvent {
    FrameEvent::Buffer { format, width: 2, height: 2, stride: 12 }
}

#[test]
fn shm_globals_are_bound_at_capped_versions() {
    let mut globals = CaptureGlobals::new();
    assert_eq!(globals.complete().unwrap_err(), "compositor advertised no wl_output");
    let bind = globals.advertise("wl_output", 9).unwrap();
    assert_eq!((bind.global, bind.version), (CaptureGlobal::Output, 4));
    assert!(globals.advertise("wl_output", 4).is_none());
    assert_eq!(globals.complete().unwrap_err(), "compositor has no wl_shm");
    assert_eq!(globals.advertise("wl_shm", 2).unwrap().version, 1);
    assert_eq!(
        globals.complete().unwrap_err(),
        "compositor doesn't implement wlr-screencopy-unstable-v1 (not a wlroots compositor?)"
    );
    assert_eq!(globals.advertise("zwlr_screencopy_manager_v1", 2).unwrap().version, 2);
    assert!(globals.advertise("zwlr_screencopy_manager_v1", 3).is_some());
    assert!(globals.advertise("wl_seat", 7).is_none());
    assert!(globals.complete().is_ok());
}

#[test]
fn a_frame_is_offered_copied_and_read() {
    let mut capture = ShmCapture::new(Captor::Client);
    capture.begin();
    assert_eq!(capture.after_round_trip(), CaptureAction::RoundTrip);
    capture.event(offer(Some(1)));
    capture.event(FrameEvent::LinuxDmabuf { format: 1, width: 9, height: 9 });
    capture.event(FrameEvent::BufferDone);
    assert_eq!(capture.after_round_trip(), CaptureAction::Copy { spec: SPEC, size: 24 });
    assert_eq!(capture.after_round_trip(), CaptureAction::RoundTrip);
    capture.event(FrameEvent::Flags { y_invert: Some(true) });
    capture.event(FrameEvent::Flags { y_invert: None });
    capture.event(FrameEvent::Ready);
    assert_eq!(capture.after_round_trip(), CaptureAction::Read { spec: SPEC, y_invert: true });
    assert_eq!(capture.stage, CaptureStage::Idle);
    capture.begin();
    assert!(!capture.state.y_invert && !capture.state.ready && capture.state.spec.is_none());
}

#[test]
fn the_client_takes_a_lone_offer_after_nine_trips() {
    let mut capture = ShmCapture::new(Captor::Client);
    capture.begin();
    capture.event(offer(None));
    for _ in 0..8 {
        assert_eq!(capture.after_round_trip(), CaptureAction::RoundTrip);
    }
    match capture.after_round_trip() {
        CaptureAction::Copy { spec, .. } => assert_eq!(spec.format, SHM_ARGB8888),
        other => panic!("expected a copy, got {other:?}"),
    }
}

#[test]
fn the_overlay_waits_for_the_end_of_the_offers() {
    let mut capture = ShmCapture::new(Captor::Overlay);
    capture.begin();
    capture.event(offer(Some(0)));
    for _ in 0..31 {
        assert_eq!(capture.after_round_trip(), CaptureAction::RoundTrip);
    }
    assert!(matches!(capture.after_round_trip(), CaptureAction::Copy { .. }));
    for _ in 0..23 {
        assert_eq!(capture.after_round_trip(), CaptureAction::RoundTrip);
    }
    assert_eq!(capture.after_round_trip(), CaptureAction::Nothing);
}

#[test]
fn captures_without_an_offer_or_an_end_come_to_nothing() {
    let mut capture = ShmCapture::new(Captor::Client);
    capture.begin();
    for _ in 0..31 {
        assert_eq!(capture.after_round_trip(), CaptureAction::RoundTrip);
    }
    let action = capture.after_round_trip();
    assert_eq!(action, CaptureAction::NoBuffer);
    assert_eq!(refusal(action), Some("compositor never sent a 'buffer' event"));

    capture.begin();
    capture.event(offer(Some(0)));
    capture.event(FrameEvent::BufferDone);
    capture.after_round_trip();
    for _ in 0..31 {
        assert_eq!(capture.after_round_trip(), CaptureAction::RoundTrip);
    }
    let action = capture.after_round_trip();
    assert_eq!(action, CaptureAction::Unfinished);
    assert_eq!(refusal(action), Some("frame neither ready nor failed after copy"));

    capture.begin();
    capture.event(FrameEvent::Failed);
    assert_eq!(capture.after_round_trip(), CaptureAction::Nothing);
    assert_eq!(refusal(CaptureAction::Nothing), None);
}

#[test]
fn a_frame_both_ready_and_failed_is_read_by_the_overlay_alone() {
    for (captor, read) in [(Captor::Client, false), (Captor::Overlay, true)] {
        let mut capture = ShmCapture::new(captor);
        capture.begin();
        capture.event(offer(Some(0)));
        capture.event(FrameEvent::BufferDone);
        capture.after_round_trip();
        capture.event(FrameEvent::Ready);
        capture.event(FrameEvent::Failed);
        assert_eq!(matches!(capture.after_round_trip(), CaptureAction::Read { .. }), read);
    }
}

#[test]
fn failed_round_trips_are_named() {
    let mut capture = ShmCapture::new(Captor::Client);
    capture.begin();
    assert_eq!(capture.abandon("x"), "roundtrip while awaiting buffer spec failed: x");
    capture.begin();
    capture.event(offer(Some(0)));
    capture.event(FrameEvent::BufferDone);
    capture.after_round_trip();
    assert_eq!(capture.abandon("x"), "roundtrip while awaiting ready/failed failed: x");
    let mut own = ShmCapture::new(Captor::Overlay);
    own.begin();
    assert_eq!(own.abandon("x"), "screencopy buffer roundtrip: x");
}

#[test]
fn pixels_are_turned_round_and_rows_mirrored() {
    // Two rows of two pixels, twelve bytes apart; a pixel is B, G, R, A.
    let src: Vec<u8> = (0..24).collect();
    let opaque = shm_to_rgba(&src, SPEC, false);
    assert_eq!((opaque.width, opaque.height), (2, 2));
    assert_eq!(
        opaque.rgba,
        vec![2, 1, 0, 255, 6, 5, 4, 255, 14, 13, 12, 255, 18, 17, 16, 255]
    );
    let alpha = BufferSpec { format: SHM_ARGB8888, ..SPEC };
    let mirrored = shm_to_rgba(&src, alpha, true);
    assert_eq!(
        mirrored.rgba,
        vec![14, 13, 12, 15, 18, 17, 16, 19, 2, 1, 0, 3, 6, 5, 4, 7]
    );
    let empty = BufferSpec { width: 0, ..SPEC };
    assert!(shm_to_rgba(&[], empty, false).rgba.is_empty());
}

#[test]
fn dmabuf_globals_are_bound_once() {
    let mut globals = DmabufGlobals::new();
    assert_eq!(globals.complete().unwrap_err(), "compositor advertised no wl_output");
    globals.advertise("wl_output", 1).unwrap();
    assert_eq!(
        globals.complete().unwrap_err(),
        "compositor doesn't implement wlr-screencopy-unstable-v1"
    );
    globals.advertise("zwlr_screencopy_manager_v1", 3).unwrap();
    assert!(globals.advertise("zwlr_screencopy_manager_v1", 3).is_none());
    assert_eq!(
        globals.complete().unwrap_err(),
        "compositor doesn't implement zwp_linux_dmabuf_v1 (dmabuf screencopy not supported)"
    );
    let bind = globals.advertise("zwp_linux_dmabuf_v1", 5).unwrap();
    assert_eq!((bind.global, bind.version), (DmabufGlobal::LinuxDmabuf, 3));
    assert!(globals.complete().is_ok());
}

fn offered() -> DmabufCapture {
    let mut capture = DmabufCapture::new();
    capture.begin();
    capture.event(FrameEvent::LinuxDmabuf { format: DRM_FORMAT_XRGB8888, width: 8, height: 4 });
    capture.event(FrameEvent::BufferDone);
    capture
}

#[test]
fn a_dmabuf_frame_is_allocated_created_copied_and_described() {
    let mut capture = offered();
    match capture.after_round_trip() {
        DmabufAction::Allocate { width, height, format } => {
            assert_eq!((width, height, format), (8, 4, DRM_FORMAT_XRGB8888))
        }
        other => panic!("expected an allocation, got {other:?}"),
    }
    match capture.allocated(Ok((32, 0x0123_4567_89ab_cdef))) {
        DmabufAction::Create { buffer, modifier_high, modifier_low } => {
            assert_eq!(buffer.stride, 32);
            assert_eq!((modifier_high, modifier_low), (0x0123_4567, 0x89ab_cdef));
        }
        other => panic!("expected a creation, got {other:?}"),
    }
    assert!(matches!(capture.after_round_trip(), DmabufAction::Copy));
    assert!(matches!(capture.after_round_trip(), DmabufAction::RoundTrip));
    capture.event(FrameEvent::Ready);
    assert!(matches!(capture.after_round_trip(), DmabufAction::TakeDescriptor));
    match capture.described(Ok(77)) {
        DmabufAction::Frame(frame) => {
            assert_eq!((frame.width, frame.height), (8, 4));
            assert_eq!(frame.drm_format, DRM_FORMAT_XRGB8888);
            assert_eq!(frame.modifier, 0x0123_4567_89ab_cdef);
            assert_eq!(
                frame.planes,
                vec![DmabufPlane { fd: 77, stride: 32, offset: 0, plane_index: 0 }]
            );
            assert!(frame.frame_ready_for_import());
        }
        other => panic!("expected a frame, got {other:?}"),
    }
    assert_eq!(capture.stage, DmabufStage::Idle);
}

#[test]
fn no_modifier_means_linear() {
    assert_eq!(modifier_halves(DRM_FORMAT_MOD_INVALID), (0, 0));
    assert_eq!(modifier_halves(0xffff_ffff_0000_0001), (0xffff_ffff, 1));
    let mut capture = offered();
    capture.after_round_trip();
    capture.allocated(Ok((32, DRM_FORMAT_MOD_INVALID)));
    capture.after_round_trip();
    capture.event(FrameEvent::Ready);
    capture.after_round_trip();
    match capture.described(Ok(1)) {
        DmabufAction::Frame(frame) => assert_eq!(frame.modifier, 0),
        other => panic!("expected a frame, got {other:?}"),
    }
}

fn refused(action: DmabufAction) -> (bool, String) {
    match action {
        DmabufAction::Refused { release, message } => (release, message),
        other => panic!("expected a refusal, got {other:?}"),
    }
}

#[test]
fn dmabuf_captures_can_come_to_nothing() {
    let mut capture = DmabufCapture::new();
    capture.begin();
    for _ in 0..31 {
        assert!(matches!(capture.after_round_trip(), DmabufAction::RoundTrip));
    }
    assert_eq!(
        refused(capture.after_round_trip()),
        (
            false,
            "compositor didn't send linux_dmabuf event (dmabuf screencopy not supported for this output)"
                .to_string()
        )
    );

    let mut capture = offered();
    capture.after_round_trip();
    assert_eq!(
        refused(capture.allocated(Err("gbm_bo_create returned null".to_string()))),
        (false, "gbm_bo_create returned null".to_string())
    );

    let mut capture = offered();
    capture.after_round_trip();
    capture.allocated(Ok((32, 0)));
    capture.creation_failed();
    assert!(matches!(capture.after_round_trip(), DmabufAction::Nothing { release: false }));

    let mut capture = offered();
    capture.after_round_trip();
    capture.allocated(Ok((32, 0)));
    capture.after_round_trip();
    for _ in 0..31 {
        assert!(matches!(capture.after_round_trip(), DmabufAction::RoundTrip));
    }
    assert_eq!(
        refused(capture.after_round_trip()),
        (true, "screencopy frame never became ready".to_string())
    );

    let mut capture = offered();
    capture.event(FrameEvent::Failed);
    assert!(matches!(capture.after_round_trip(), DmabufAction::Nothing { release: false }));

    let mut capture = offered();
    capture.after_round_trip();
    capture.allocated(Ok((32, 0)));
    capture.after_round_trip();
    capture.event(FrameEvent::Failed);
    assert!(matches!(capture.after_round_trip(), DmabufAction::Nothing { release: true }));

    let mut capture = offered();
    assert_eq!(capture.abandon("x"), "screencopy buffer roundtrip: x");
}
