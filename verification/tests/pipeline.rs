use presence_daemon::actors::gpu_layout::{
    identity_dual_quat, AnimatedSplatGpu, ProjectedSplatGpu, ProjectionUniformsGpu,
};
use presence_daemon::pipeline::{
    buffer_memory_type, buffer_size, buffer_usage, dispatch_commands, inactive_splat, shader_code,
    stage_bindings, teardown, tick_calls, workgroup_count, BufferId, BufferUsage, BufferWrite,
    PipelineCall, PipelineFault, PipelineObject, SplatPipeline, Stage, TickCommand,
};

fn splat(owner_id: u32) -> AnimatedSplatGpu {
    AnimatedSplatGpu { owner_id, ..inactive_splat() }
}

fn word(w: &BufferWrite, at: usize) -> u32 {
    let b = &w.bytes;
    u32::from_le_bytes([b[at], b[at + 1], b[at + 2], b[at + 3]])
}

#[test]
fn work_groups_cover_every_lane() {
    assert_eq!(workgroup_count(0, 256), 0);
    assert_eq!(workgroup_count(64, 256), 1);
    assert_eq!(workgroup_count(256, 256), 1);
    assert_eq!(workgroup_count(257, 256), 2);
    assert_eq!(workgroup_count(u32::MAX, 1), u32::MAX);
    assert_eq!(workgroup_count(u32::MAX, u32::MAX), 1);
}

#[test]
fn splats_go_to_their_slot_and_no_further() {
    let (pipeline, _) = SplatPipeline::new(4);
    assert_eq!(pipeline.capacity(), 4);
    let w = pipeline.write_splat(3, &splat(77)).unwrap();
    assert_eq!((w.buffer, w.offset, w.bytes.len()), (BufferId::DynamicSplats, 288, 96));
    assert_eq!(word(&w, 80), 77);
    assert_eq!(
        pipeline.write_splat(4, &splat(77)).unwrap_err(),
        "[pipeline] write_splat index 4 out of range (capacity 4) — skipped"
    );
    assert!(pipeline.write_splat(u32::MAX, &splat(77)).is_err());
}

#[test]
fn bones_past_the_palette_pose_the_last_one() {
    let (pipeline, _) = SplatPipeline::new(1);
    assert_eq!(pipeline.write_bone(2, identity_dual_quat()).0.offset, 64);
    assert_eq!(pipeline.write_bone(63, identity_dual_quat()).0.offset, 63 * 32);
    assert_eq!(pipeline.write_bone(64, identity_dual_quat()).0.offset, 63 * 32);
    assert_eq!(pipeline.write_bone(u32::MAX, identity_dual_quat()).0.offset, 63 * 32);
    assert!(pipeline.write_bone(63, identity_dual_quat()).1.is_none());
    assert_eq!(
        pipeline.write_bone(64, identity_dual_quat()).1.as_deref(),
        Some("[pipeline] write_bone index 64 >= 64 — clamped")
    );
}

#[test]
fn uniforms_carry_the_capacity_of_the_buffers() {
    let (pipeline, _) = SplatPipeline::new(9);
    let uniforms = ProjectionUniformsGpu::new(identity_dual_quat(), [1, 2], [3, 4], [5, 6], 7, 1234, 8);
    let w = pipeline.set_projection_uniforms(uniforms);
    assert_eq!(w.buffer, BufferId::ProjectionUniforms);
    assert_eq!(word(&w, 60), 9);
    assert_eq!(word(&w, 64), 8);
}

#[test]
fn a_tick_resets_the_eviction_list() {
    let (pipeline, _) = SplatPipeline::new(9);
    let writes = pipeline.tick(5, 600);
    assert_eq!(writes.len(), 2);
    assert_eq!(writes[0].buffer, BufferId::EvictionUniforms);
    assert_eq!((word(&writes[0], 0), word(&writes[0], 4), word(&writes[0], 8)), (9, 5, 600));
    assert_eq!(writes[1].buffer, BufferId::EvictedTextures);
    assert_eq!(writes[1].bytes, vec![0, 0, 0, 0]);
    assert_eq!(
        tick_calls(),
        vec![PipelineFault::ResetFences, PipelineFault::QueueSubmit, PipelineFault::WaitForFences]
    );
}

#[test]
fn results_are_read_back() {
    let (pipeline, _) = SplatPipeline::new(2);
    let mut bytes = vec![0u8; 96];
    bytes[48 + 12..48 + 16].copy_from_slice(&2.0f32.to_le_bytes());
    bytes[48 + 16] = 5;
    let projected = pipeline.read_projected(&bytes);
    assert_eq!(projected.len(), 2);
    assert_eq!(projected[0].splat_id, 0);
    assert_eq!(f32::from_bits(projected[1].depth), 2.0);
    assert_eq!(projected[1].splat_id, 5);
    assert_eq!(pipeline.evicted_texture_count(&[7, 0, 0, 0]), 7);
    assert_eq!(pipeline.evicted_texture_count(&[0, 1, 0, 0]), 256);
    assert_eq!(pipeline.evicted_texture_count(&[1, 1, 0, 0]), 256);
}

#[test]
fn the_start_up_check_stores_a_camera_and_a_splat() {
    let (pipeline, _) = SplatPipeline::new(256);
    let writes = pipeline.smoke_writes();
    assert_eq!(writes.len(), 2);
    let f = |at: usize| f32::from_bits(word(&writes[0], at));
    assert_eq!((f(0), f(4), f(16)), (1.0, 0.0, 0.0));
    assert_eq!((f(32), f(36), f(40), f(44)), (800.0, 800.0, 640.0, 360.0));
    assert_eq!((f(48), f(52), f(56)), (1280.0, 720.0, 0.05));
    assert_eq!((word(&writes[0], 60), word(&writes[0], 64)), (256, 1));
    let g = |at: usize| f32::from_bits(word(&writes[1], at));
    assert_eq!((g(0), g(4), g(8), g(12)), (0.0, 0.0, 2.0, 1.0));
    assert_eq!((g(16), g(32), g(36), g(44)), (1.0, 1.0, 0.0, 1.0));
    assert_eq!((g(64), word(&writes[1], 80), word(&writes[1], 84)), (1.0, 1, 1));
    assert_eq!((word(&writes[1], 88), word(&writes[1], 92)), (1, 255));
    assert_eq!(SplatPipeline::new(0).0.smoke_writes().len(), 1);
}

fn projected(depth: f32) -> ProjectedSplatGpu {
    ProjectedSplatGpu {
        screen_center: [0, 0],
        radius_pixels: 0,
        depth: depth.to_bits(),
        splat_id: 0,
        color: [0; 4],
    }
}

#[test]
fn the_start_up_check_fails_below_a_depth_of_one() {
    let (pipeline, _) = SplatPipeline::new(1);
    for depth in [2.0, 1.0, f32::INFINITY, f32::NAN] {
        let w = pipeline.smoke_verdict(&[projected(depth)]).unwrap();
        assert_eq!((w.buffer, w.offset), (BufferId::DynamicSplats, 0));
        assert_eq!(w.bytes, inactive_splat().to_bytes());
    }
    for depth in [0.0, -0.0, 0.999_999_94, -5.0, f32::NEG_INFINITY, f32::MIN_POSITIVE] {
        assert_eq!(pipeline.smoke_verdict(&[projected(depth)]).unwrap_err(), projected(depth));
    }
}

#[test]
fn buffers_have_their_sizes_and_first_contents() {
    let (pipeline, _) = SplatPipeline::new(3);
    assert_eq!(buffer_size(BufferId::DynamicSplats, 3), 288);
    assert_eq!(buffer_size(BufferId::BonePalette, 3), 2048);
    assert_eq!(buffer_size(BufferId::ProjectedOutput, 3), 144);
    assert_eq!(buffer_size(BufferId::ProjectionUniforms, 3), 80);
    assert_eq!(buffer_size(BufferId::EvictionUniforms, 3), 16);
    assert_eq!(buffer_size(BufferId::EvictedTextures, 3), 1028);
    assert_eq!(pipeline.initial_write(BufferId::DynamicSplats).unwrap().bytes, vec![0u8; 288]);
    let bones = pipeline.initial_write(BufferId::BonePalette).unwrap();
    assert_eq!(bones.bytes, identity_dual_quat().to_bytes().repeat(64));
    assert_eq!(pipeline.initial_write(BufferId::EvictedTextures).unwrap().bytes, vec![0u8; 4]);
    assert!(pipeline.initial_write(BufferId::ProjectedOutput).is_none());
    assert_eq!(buffer_usage(BufferId::EvictionUniforms), BufferUsage::Uniform);
    assert_eq!(buffer_usage(BufferId::EvictedTextures), BufferUsage::Storage);
}

#[test]
fn the_set_up_binds_what_it_made() {
    let (_, calls) = SplatPipeline::new(300);
    assert_eq!(calls.len(), 32);
    assert_eq!(
        calls[0],
        PipelineCall::CreateBuffer {
            buffer: BufferId::DynamicSplats,
            size: 28_800,
            usage: BufferUsage::Storage
        }
    );
    assert!(calls.contains(&PipelineCall::RecordDispatch { workgroups: 2 }));
    assert!(calls.contains(&PipelineCall::BindBuffer {
        stage: Stage::Eviction,
        binding: 2,
        buffer: BufferId::EvictedTextures,
        range: 1028
    }));
    assert_eq!(stage_bindings(Stage::Projection).len(), 4);
    assert_eq!(stage_bindings(Stage::Eviction)[1], BufferId::DynamicSplats);
    let mut uniform = 0;
    let mut storage = 0;
    for stage in [Stage::Projection, Stage::Eviction] {
        for buffer in stage_bindings(stage) {
            match buffer_usage(buffer) {
                BufferUsage::Uniform => uniform += 1,
                BufferUsage::Storage => storage += 1,
            }
        }
    }
    assert!(calls.contains(&PipelineCall::CreateDescriptorPool {
        uniform_buffers: uniform,
        storage_buffers: storage,
        max_sets: 2
    }));
}

#[test]
fn a_barrier_stands_between_the_stages() {
    let commands = dispatch_commands(3);
    assert_eq!(
        commands,
        vec![
            TickCommand::BindStage { stage: Stage::Projection },
            TickCommand::Dispatch { workgroups: 3 },
            TickCommand::Barrier,
            TickCommand::BindStage { stage: Stage::Eviction },
            TickCommand::Dispatch { workgroups: 3 },
        ]
    );
}

#[test]
fn teardown_names_every_object_once() {
    let objects = teardown();
    assert_eq!(objects.len(), 15);
    for (i, a) in objects.iter().enumerate() {
        assert!(!objects[i + 1..].contains(a));
    }
    assert_eq!(objects[0], PipelineObject::Fence);
    assert_eq!(objects[14], PipelineObject::Buffer { buffer: BufferId::EvictedTextures });
}

#[test]
fn failures_are_named() {
    assert_eq!(PipelineFault::CreateBuffer.failure("OOM"), "vkCreateBuffer failed: OOM");
    assert_eq!(
        PipelineFault::AllocateMemory { bytes: 288 }.failure("OOM"),
        "vkAllocateMemory failed (288 bytes): OOM"
    );
    assert_eq!(
        PipelineFault::CreateSetLayout { stage: Stage::Eviction }.failure("x"),
        "vkCreateDescriptorSetLayout (eviction) failed: x"
    );
    assert_eq!(PipelineFault::WaitForFences.failure("lost"), "vkWaitForFences failed: lost");
}

#[test]
fn buffers_want_coherent_host_memory() {
    assert_eq!(buffer_memory_type(&[1, 2, 6, 7], 0b1111), Ok(2));
    assert_eq!(buffer_memory_type(&[1, 2, 6, 7], 0b1011), Ok(3));
    assert_eq!(
        buffer_memory_type(&[1, 2, 4], 0b111).unwrap_err(),
        "no HOST_VISIBLE|HOST_COHERENT memory type supports this buffer"
    );
}

#[test]
fn shader_words_come_in_either_byte_order() {
    let little = [0x03, 0x02, 0x23, 0x07, 0x00, 0x00, 0x01, 0x00];
    let big = [0x07, 0x23, 0x02, 0x03, 0x00, 0x01, 0x00, 0x00];
    assert_eq!(shader_code(&little).unwrap(), vec![0x0723_0203, 0x0001_0000]);
    assert_eq!(shader_code(&big).unwrap(), vec![0x0723_0203, 0x0001_0000]);
}

#[test]
fn bytes_that_are_no_shader_are_refused() {
    assert_eq!(
        shader_code(&[3, 2, 0x23]).unwrap_err(),
        "SPIR-V embedded in the binary is malformed: input length not divisible by 4"
    );
    assert_eq!(
        shader_code(&[]).unwrap_err(),
        "SPIR-V embedded in the binary is malformed: input missing SPIR-V magic number"
    );
    assert_eq!(
        shader_code(&[1, 2, 3, 4]).unwrap_err(),
        "SPIR-V embedded in the binary is malformed: input missing SPIR-V magic number"
    );
}
