use presence_daemon::actors::ingress::screen_dmabuf::{DmabufAction, DmabufCapture};
use presence_daemon::actors::ingress::screen_wlr::FrameEvent;
use presence_daemon::actors::ingress::{
    DmabufFrame, DmabufPlane, DRM_FORMAT_ABGR8888, DRM_FORMAT_ARGB8888, DRM_FORMAT_MOD_INVALID,
    DRM_FORMAT_XBGR8888, DRM_FORMAT_XRGB8888,
};
use presence_daemon::vulkan::{
    choose_memory_type, drm_to_vk_format, graphics_family, instance_extensions,
    pick_physical_device, DeviceInfo, DeviceKind, DmabufImport, Extension, ImportAction,
    ImportEvent, InitAction, InitEvent, VkFormat, VulkanContext, VulkanInit,
};

fn s(text: &str) -> String {
    text.to_string()
}

#[test]
fn drm_formats_have_their_image_formats() {
    assert_eq!(drm_to_vk_format(DRM_FORMAT_XRGB8888), VkFormat::B8G8R8A8Unorm);
    assert_eq!(drm_to_vk_format(DRM_FORMAT_ARGB8888), VkFormat::B8G8R8A8Unorm);
    assert_eq!(drm_to_vk_format(DRM_FORMAT_XBGR8888), VkFormat::R8G8B8A8Unorm);
    assert_eq!(drm_to_vk_format(DRM_FORMAT_ABGR8888), VkFormat::R8G8B8A8Unorm);
    assert_eq!(drm_to_vk_format(0x3231_564e), VkFormat::Undefined);
}

#[test]
fn the_first_fitting_memory_type_is_taken() {
    assert_eq!(choose_memory_type(&[1, 6, 7], 0b110, 0), Some(1));
    assert_eq!(choose_memory_type(&[1, 6, 7], 0b111, 7), Some(2));
    assert_eq!(choose_memory_type(&[1, 6, 7], 0b011, 7), None);
    assert_eq!(choose_memory_type(&[1, 6, 7], 0b1000, 0), None);
    assert_eq!(choose_memory_type(&[0; 32], 1 << 31, 0), Some(31));
    assert_eq!(choose_memory_type(&[], u32::MAX, 0), None);
}

#[test]
fn the_first_drawing_family_is_taken() {
    assert_eq!(graphics_family(&[2, 6, 7, 1]), Some(2));
    assert_eq!(graphics_family(&[2, 6]), None);
    assert_eq!(graphics_family(&[]), None);
}

fn device(kind: DeviceKind, family: Option<u32>, presentable: Option<bool>) -> DeviceInfo {
    DeviceInfo { kind, graphics_family: family, presentable, name: format!("{kind:?}") }
}

#[test]
fn discrete_devices_come_first() {
    let all = [
        device(DeviceKind::Cpu, Some(0), None),
        device(DeviceKind::Integrated, Some(0), None),
        device(DeviceKind::Discrete, Some(1), None),
        device(DeviceKind::Discrete, Some(2), None),
        device(DeviceKind::Virtual, Some(0), None),
    ];
    assert_eq!(pick_physical_device(&all), Ok(2));
    let blind = [
        device(DeviceKind::Discrete, None, None),
        device(DeviceKind::Discrete, Some(0), Some(false)),
        device(DeviceKind::Other, Some(0), Some(true)),
    ];
    assert_eq!(pick_physical_device(&blind), Ok(2));
    assert_eq!(
        pick_physical_device(&blind[..2]).unwrap_err(),
        "no Vulkan physical device with a graphics queue family"
    );
}

#[test]
fn surfaces_need_their_extensions() {
    assert!(instance_extensions(false).is_empty());
    let names: Vec<&str> = instance_extensions(true).iter().map(|e| e.name()).collect();
    assert_eq!(names, ["VK_KHR_surface", "VK_KHR_wayland_surface"]);
}

fn context(init: &mut VulkanInit, available: &[&str]) -> (Vec<&'static str>, VulkanContext) {
    init.step(InitEvent::Done);
    init.step(InitEvent::Done);
    if init.wayland {
        init.step(InitEvent::Done);
    }
    init.step(InitEvent::Devices(vec![
        device(DeviceKind::Integrated, Some(3), None),
        device(DeviceKind::Cpu, Some(0), None),
    ]));
    let available = available.iter().map(|name| s(name)).collect();
    let enabled = match init.step(InitEvent::Extensions(available)) {
        InitAction::CreateDevice { device, family, extensions } => {
            assert_eq!((device, family), (0, 3));
            extensions.iter().map(|e| e.name()).collect()
        }
        other => panic!("expected a device, got {other:?}"),
    };
    match init.step(InitEvent::Done) {
        InitAction::Ready(context) => (enabled, context),
        other => panic!("expected a context, got {other:?}"),
    }
}

#[test]
fn zero_copy_needs_all_three_extensions() {
    let all = [
        "VK_KHR_swapchain",
        "VK_KHR_external_memory_fd",
        "VK_EXT_external_memory_dma_buf",
        "VK_EXT_image_drm_format_modifier",
    ];
    let (enabled, ctx) = context(&mut VulkanInit::begin(true).0, &all);
    assert_eq!(enabled, all);
    assert!(ctx.supports_zero_copy_capture());
    assert_eq!((ctx.graphics_queue_family, ctx.device_name.as_str()), (3, "Integrated"));

    let (enabled, ctx) = context(&mut VulkanInit::begin(false).0, &all[..3]);
    assert_eq!(enabled, all[1..3]);
    assert!(ctx.supports_dma_buf_import && !ctx.supports_zero_copy_capture());

    let (enabled, ctx) = context(&mut VulkanInit::begin(true).0, &[all[1], all[3]]);
    assert_eq!(enabled, [all[0], all[3]]);
    assert!(!ctx.supports_dma_buf_import && !ctx.supports_zero_copy_capture());
}

fn refused(action: InitAction) -> (bool, bool, String) {
    match action {
        InitAction::Refused { destroy_surface, destroy_instance, message } => {
            (destroy_surface, destroy_instance, message)
        }
        other => panic!("expected a refusal, got {other:?}"),
    }
}

#[test]
fn bringing_up_can_fail_at_every_call() {
    let fail = || InitEvent::Failed(s("why"));
    let (mut init, first) = VulkanInit::begin(true);
    assert!(matches!(first, InitAction::LoadLoader));
    assert_eq!(
        refused(init.step(fail())),
        (false, false, s("no Vulkan loader found on this system: why"))
    );
    let expected = [
        "vkCreateInstance failed: why",
        "vkCreateWaylandSurfaceKHR failed: why",
        "failed to enumerate physical devices: why",
    ];
    for (k, message) in expected.iter().enumerate() {
        let (mut init, _) = VulkanInit::begin(true);
        for _ in 0..=k {
            init.step(InitEvent::Done);
        }
        assert_eq!(refused(init.step(fail())).2, *message);
    }
    let (mut init, _) = VulkanInit::begin(false);
    init.step(InitEvent::Done);
    init.step(InitEvent::Done);
    init.step(InitEvent::Devices(vec![device(DeviceKind::Cpu, Some(0), None)]));
    assert_eq!(refused(init.step(fail())).2, "failed to enumerate device extensions: why");
    let (mut init, _) = VulkanInit::begin(false);
    init.step(InitEvent::Done);
    init.step(InitEvent::Done);
    init.step(InitEvent::Devices(vec![device(DeviceKind::Cpu, Some(0), None)]));
    init.step(InitEvent::Extensions(Vec::new()));
    assert_eq!(refused(init.step(fail())).2, "vkCreateDevice failed: why");
}

#[test]
fn without_devices_surface_and_instance_are_destroyed() {
    for wayland in [false, true] {
        let (mut init, _) = VulkanInit::begin(wayland);
        init.step(InitEvent::Done);
        init.step(InitEvent::Done);
        if wayland {
            init.step(InitEvent::Done);
        }
        assert_eq!(
            refused(init.step(InitEvent::Devices(Vec::new()))),
            (wayland, true, s("no Vulkan-capable physical devices found"))
        );
    }
    let (mut init, _) = VulkanInit::begin(false);
    init.step(InitEvent::Done);
    init.step(InitEvent::Done);
    assert_eq!(
        refused(init.step(InitEvent::Devices(vec![device(DeviceKind::Cpu, None, None)]))).2,
        "no Vulkan physical device with a graphics queue family"
    );
}

fn frame(drm_format: u32, modifier: u64, planes: usize) -> DmabufFrame {
    DmabufFrame {
        width: 8,
        height: 4,
        drm_format,
        modifier,
        planes: (0..planes)
            .map(|k| DmabufPlane { fd: 40 + k as i32, stride: 32, offset: 6, plane_index: k as u32 })
            .collect(),
    }
}

#[test]
fn frames_that_cannot_be_imported_are_refused() {
    let x = DRM_FORMAT_XRGB8888;
    let err = |f: DmabufFrame, can: bool| DmabufImport::begin(&f, can, &[5, 6]).unwrap_err();
    assert_eq!(
        err(frame(x, 0, 1), false),
        "VK_KHR_external_memory_fd not enabled — cannot import dmabuf"
    );
    assert_eq!(err(frame(x, 0, 0), true), "dmabuf frame not ready (no planes)");
    assert_eq!(
        err(frame(x, DRM_FORMAT_MOD_INVALID, 1), true),
        "dmabuf frame not ready (no planes)"
    );
    assert_eq!(err(frame(0x0003_abcd, 0, 1), true), "unsupported DRM format 0x0003ABCD");
    assert_eq!(err(frame(x, 0, 3), true), "multi-plane import not supported (got 3 planes)");
    assert_eq!(
        err(frame(x, 0xab, 1), true),
        "DRM modifier 0x00000000000000AB not importable for format 0x34325258"
    );
    assert!(DmabufImport::begin(&frame(x, 6, 1), true, &[5, 6]).is_ok());
}

#[test]
fn captured_frames_are_accepted() {
    let mut capture = DmabufCapture::new();
    capture.begin();
    capture.event(FrameEvent::LinuxDmabuf { format: DRM_FORMAT_ARGB8888, width: 8, height: 4 });
    capture.event(FrameEvent::BufferDone);
    capture.after_round_trip();
    capture.allocated(Ok((32, DRM_FORMAT_MOD_INVALID)));
    capture.after_round_trip();
    capture.event(FrameEvent::Ready);
    capture.after_round_trip();
    match capture.described(Ok(9)) {
        DmabufAction::Frame(frame) => match DmabufImport::begin(&frame, true, &[7, 0]) {
            Ok((_, ImportAction::CreateImage(image))) => {
                assert_eq!((image.format, image.modifier), (VkFormat::B8G8R8A8Unorm, 0));
                assert_eq!((image.fd, image.stride, image.offset), (9, 32, 0));
                assert!(!image.opaque_alpha);
            }
            other => panic!("expected an image, got {other:?}"),
        },
        other => panic!("expected a frame, got {other:?}"),
    }
}

fn begun() -> DmabufImport {
    DmabufImport::begin(&frame(DRM_FORMAT_XBGR8888, 5, 1), true, &[5]).unwrap().0
}

#[test]
fn a_frame_is_imported_call_by_call() {
    let types = [1, 7, 0];
    let (mut import, first) =
        DmabufImport::begin(&frame(DRM_FORMAT_XBGR8888, 5, 1), true, &[5]).unwrap();
    let image = match first {
        ImportAction::CreateImage(image) => image,
        other => panic!("expected an image, got {other:?}"),
    };
    assert_eq!((image.format, image.width, image.height), (VkFormat::R8G8B8A8Unorm, 8, 4));
    assert_eq!((image.modifier, image.fd, image.stride, image.offset), (5, 40, 32, 6));
    assert!(image.opaque_alpha);
    assert!(matches!(import.step(ImportEvent::Done, &types), ImportAction::QueryRequirements));
    let needs = ImportEvent::Requirements { type_bits: 0b110, size: 4096 };
    assert!(matches!(import.step(needs, &types), ImportAction::QueryFdTypes));
    let types_known = ImportEvent::FdTypes { type_bits: 0b101 };
    assert!(matches!(import.step(types_known, &types), ImportAction::DuplicateFd));
    match import.step(ImportEvent::Done, &types) {
        ImportAction::Allocate { size, memory_type } => assert_eq!((size, memory_type), (4096, 2)),
        other => panic!("expected an allocation, got {other:?}"),
    }
    assert!(matches!(import.step(ImportEvent::Done, &types), ImportAction::Bind));
    assert!(matches!(import.step(ImportEvent::Done, &types), ImportAction::CreateView));
    match import.step(ImportEvent::Done, &types) {
        ImportAction::Imported(done) => assert_eq!(done, image),
        other => panic!("expected an imported image, got {other:?}"),
    }
}

fn released(action: ImportAction) -> (bool, bool, bool, String) {
    match action {
        ImportAction::Refused { free_memory, destroy_image, close_copy, message } => {
            (free_memory, destroy_image, close_copy, message)
        }
        other => panic!("expected a refusal, got {other:?}"),
    }
}

#[test]
fn failed_imports_release_what_exists() {
    let fail = || ImportEvent::Failed(s("why"));
    let mut import = begun();
    assert_eq!(
        released(import.step(fail(), &[])),
        (false, false, false, s("vkCreateImage (dmabuf) failed: why"))
    );
    let needs = || ImportEvent::Requirements { type_bits: 0b10, size: 1 };
    let mut import = begun();
    import.step(ImportEvent::Done, &[]);
    import.step(needs(), &[]);
    assert_eq!(
        released(import.step(fail(), &[])),
        (false, true, false, s("vkGetMemoryFdPropertiesKHR failed: why"))
    );
    let mut import = begun();
    import.step(ImportEvent::Done, &[]);
    import.step(needs(), &[]);
    assert_eq!(
        released(import.step(ImportEvent::FdTypes { type_bits: 0b01 }, &[7, 7])),
        (false, true, false, s("no compatible Vulkan memory type for dmabuf fd"))
    );
    let mut import = begun();
    import.step(ImportEvent::Done, &[]);
    import.step(needs(), &[]);
    assert_eq!(
        released(import.step(ImportEvent::FdTypes { type_bits: 0b10 }, &[7])),
        (false, true, false, s("no suitable memory type for dmabuf import"))
    );
    let late = [
        (false, true, false, "dup of dmabuf fd failed: why"),
        (false, true, true, "vkAllocateMemory (dmabuf) failed: why"),
        (true, true, false, "vkBindImageMemory (dmabuf) failed: why"),
        (true, true, false, "vkCreateImageView (dmabuf) failed: why"),
    ];
    for (k, (memory, image, copy, message)) in late.iter().enumerate() {
        let mut import = begun();
        import.step(ImportEvent::Done, &[]);
        import.step(needs(), &[]);
        import.step(ImportEvent::FdTypes { type_bits: 0b10 }, &[7, 7]);
        for _ in 0..k {
            import.step(ImportEvent::Done, &[]);
        }
        assert_eq!(released(import.step(fail(), &[])), (*memory, *image, *copy, s(message)));
    }
}
