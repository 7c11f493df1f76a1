use presence_daemon::actors::gpu_layout::{FLAG_ACTIVE, FLAG_TEXTURED_BILLBOARD};
use presence_daemon::actors::ingress::{
    frame_to_billboard, pack_padding, DmabufFrame, DmabufPlane, FrameSource, IngressActor,
    IngressFrame, DRM_FORMAT_ABGR8888, DRM_FORMAT_ARGB8888, DRM_FORMAT_MOD_INVALID,
    DRM_FORMAT_XBGR8888, DRM_FORMAT_XRGB8888,
};

fn bits<const N: usize>(v: [f32; N]) -> [u32; N] {
    v.map(f32::to_bits)
}

fn synthetic_frame(width: u32, height: u32) -> IngressFrame {
    IngressFrame { width, height, rgba: vec![0u8; (width * height * 4) as usize] }
}

#[test]
fn padding_round_trips_density_and_layer() {
    let packed = pack_padding(200, 4321);
    assert_eq!(packed & 0xFF, 200);
    assert_eq!((packed >> 16) & 0xFFFF, 4321);
}

#[test]
fn padding_leaves_the_middle_byte_alone() {
    assert_eq!(pack_padding(255, 65535), 0xffff_00ff);
    assert_eq!(pack_padding(0, 0), 0);
}

#[test]
fn billboard_carries_aspect_ratio_and_flags() {
    // A 1920x1080 screen capture -> aspect ratio 16:9.
    let frame = synthetic_frame(1920, 1080);
    let gpu = frame_to_billboard(
        &frame,
        bits([0.0, 0.0, 2.0]),
        bits([1.0, 0.0, 0.0, 0.0]),
        0.6f32.to_bits(),
        99,
        42,
        3,
    );
    let aspect = f32::from_bits(gpu.color[3]);
    assert!((aspect - 1920.0 / 1080.0).abs() < 1e-4, "aspect ratio, got {}", aspect);
    assert_eq!(aspect, 1920.0 / 1080.0);
    assert_eq!(gpu.flags & FLAG_ACTIVE, FLAG_ACTIVE);
    assert_eq!(gpu.flags & FLAG_TEXTURED_BILLBOARD, FLAG_TEXTURED_BILLBOARD);
    assert_eq!(gpu.position_and_confidence, bits([0.0, 0.0, 2.0, 0.6]));
    assert_eq!(gpu.owner_id, 99);
    assert_eq!(gpu.last_visible_frame, 42);
    assert_eq!((gpu.padding >> 16) & 0xFFFF, 3);
}

#[test]
fn aspect_ratios_are_those_of_float_division() {
    let sizes = [(1u32, 3u32), (640, 480), (3840, 1600), (0, 7), (7, 0), (1, 1), (65535, 2), (2, 65535)];
    for (w, h) in sizes {
        let frame = IngressFrame { width: w, height: h, rgba: Vec::new() };
        let gpu = frame_to_billboard(&frame, [0; 3], [0; 4], 0, 0, 0, 0);
        let expected = w as f32 / h.max(1) as f32;
        assert_eq!(gpu.color[3], expected.to_bits(), "{w}x{h}");
    }
}

#[test]
fn huge_aspect_ratios_are_those_of_float_division() {
    let sizes = [(u32::MAX, 1u32), (u32::MAX, u32::MAX), (16_777_217, 3), (16_777_219, 16_777_217), (1, u32::MAX)];
    for (w, h) in sizes {
        let frame = IngressFrame { width: w, height: h, rgba: Vec::new() };
        let gpu = frame_to_billboard(&frame, [0; 3], [0; 4], 0, 0, 0, 0);
        let expected = w as f32 / h as f32;
        assert_eq!(gpu.color[3], expected.to_bits(), "{w}x{h}");
    }
}

#[test]
fn ingress_actor_tracks_named_slots_and_refreshes_last_visible_frame() {
    let mut ingress = IngressActor::new();
    let frame = synthetic_frame(640, 480);
    let identity = bits([1.0, 0.0, 0.0, 0.0]);
    ingress.update_slot("webcam", &frame, [0; 3], identity, 0.3f32.to_bits(), 1, 10, 0);
    assert_eq!(ingress.get("webcam").unwrap().last_visible_frame, 10);

    ingress.update_slot("webcam", &frame, [0; 3], identity, 0.3f32.to_bits(), 1, 11, 0);
    assert_eq!(ingress.get("webcam").unwrap().last_visible_frame, 11);

    assert!(ingress.get("screen").is_none());
    assert_eq!(ingress.slot_names().iter().count(), 1);
    assert_eq!(ingress.slot_names()[0], "webcam");
}

fn dmabuf(drm_format: u32, modifier: u64, planes: usize) -> DmabufFrame {
    DmabufFrame {
        width: 4,
        height: 2,
        drm_format,
        modifier,
        planes: (0..planes)
            .map(|k| DmabufPlane { fd: 5, stride: 16, offset: 0, plane_index: k as u32 })
            .collect(),
    }
}

#[test]
fn only_formats_without_alpha_are_opaque() {
    assert!(dmabuf(DRM_FORMAT_XRGB8888, 0, 1).opaque_alpha());
    assert!(dmabuf(DRM_FORMAT_XBGR8888, 0, 1).opaque_alpha());
    assert!(!dmabuf(DRM_FORMAT_ARGB8888, 0, 1).opaque_alpha());
    assert!(!dmabuf(DRM_FORMAT_ABGR8888, 0, 1).opaque_alpha());
    assert!(!dmabuf(0, 0, 1).opaque_alpha());
}

#[test]
fn frames_without_plane_size_or_modifier_are_not_ready() {
    assert!(dmabuf(DRM_FORMAT_XRGB8888, 0, 1).frame_ready_for_import());
    assert!(!dmabuf(DRM_FORMAT_XRGB8888, 0, 0).frame_ready_for_import());
    assert!(!dmabuf(DRM_FORMAT_XRGB8888, DRM_FORMAT_MOD_INVALID, 1).frame_ready_for_import());
    let mut flat = dmabuf(DRM_FORMAT_XRGB8888, 0, 1);
    flat.height = 0;
    assert!(!flat.frame_ready_for_import());
}

#[test]
fn fourcc_codes_spell_their_names() {
    assert_eq!(DRM_FORMAT_XRGB8888.to_le_bytes(), *b"XR24");
    assert_eq!(DRM_FORMAT_ARGB8888.to_le_bytes(), *b"AR24");
    assert_eq!(DRM_FORMAT_XBGR8888.to_le_bytes(), *b"XB24");
    assert_eq!(DRM_FORMAT_ABGR8888.to_le_bytes(), *b"AB24");
}

struct Still;

impl FrameSource for Still {
    fn next_frame(&mut self) -> Result<Option<IngressFrame>, String> {
        Ok(Some(synthetic_frame(2, 2)))
    }
}

#[test]
fn a_source_feeds_a_slot() {
    let mut source = Still;
    let mut ingress = IngressActor::new();
    let frame = source.next_frame().unwrap().unwrap();
    ingress.update_slot("screen", &frame, [0; 3], [0; 4], 0, 7, 1, 9);
    assert_eq!(ingress.get("screen").unwrap().padding, pack_padding(255, 9));
}
