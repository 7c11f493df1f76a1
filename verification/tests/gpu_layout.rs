use presence_daemon::actors::gpu_layout::{
    identity_dual_quat, to_gpu_splat, AnimatedSplatGpu, DualQuatGpu, EvictionUniformsGpu,
    ProjectedSplatGpu, ProjectionUniformsGpu, ANIMATED_SPLAT_BYTES, DUAL_QUAT_BYTES, FLAG_ACTIVE,
    FLAG_SOFT_GAUSSIAN_FALLOFF, FLAG_TEXTURED_BILLBOARD, MAX_BONES, MAX_EVICTIONS_PER_FRAME,
    PROJECTED_SPLAT_BYTES, PROJECTION_UNIFORMS_BYTES,
};
use presence_daemon::actors::scene_memory::{GaussianSplat, SkinningWeights};

fn bits<const N: usize>(v: [f32; N]) -> [u32; N] {
    v.map(f32::to_bits)
}

/// The offset at which a word occurs in the bytes of a record.
fn offset_of(bytes: &[u8], word: u32) -> usize {
    let mut found = Vec::new();
    for k in 0..bytes.len() / 4 {
        let w = [bytes[4 * k], bytes[4 * k + 1], bytes[4 * k + 2], bytes[4 * k + 3]];
        if u32::from_le_bytes(w) == word {
            found.push(4 * k);
        }
    }
    assert_eq!(found.len(), 1, "word {word:#x} should occur once");
    found[0]
}

#[test]
fn dual_quat_gpu_is_32_bytes() {
    let q = DualQuatGpu { real: [11, 12, 13, 14], dual: [21, 22, 23, 24] };
    let bytes = q.to_bytes();
    assert_eq!(bytes.len(), 32);
    assert_eq!(DUAL_QUAT_BYTES, 32);
    assert_eq!(offset_of(&bytes, 11), 0);
    assert_eq!(offset_of(&bytes, 21), 16);
}

#[test]
fn projection_uniforms_offsets_match_std140() {
    let u = ProjectionUniformsGpu::new(
        DualQuatGpu { real: [1, 2, 3, 4], dual: [5, 6, 7, 8] },
        [101, 102],
        [103, 104],
        [105, 106],
        107,
        108,
        109,
    );
    let bytes = u.to_bytes();
    assert_eq!(offset_of(&bytes, 1), 0);
    assert_eq!(offset_of(&bytes, 101), 32);
    assert_eq!(offset_of(&bytes, 103), 40);
    assert_eq!(offset_of(&bytes, 105), 48);
    assert_eq!(offset_of(&bytes, 107), 56);
    assert_eq!(offset_of(&bytes, 108), 60);
    assert_eq!(offset_of(&bytes, 109), 64);
    assert_eq!(bytes.len(), 80);
    assert_eq!(PROJECTION_UNIFORMS_BYTES, 80);
    assert_eq!(&bytes[68..], &[0u8; 12]);
}

#[test]
fn eviction_uniforms_offsets_match_std140() {
    let bytes = EvictionUniformsGpu::new(31, 32, 33).to_bytes();
    assert_eq!(offset_of(&bytes, 31), 0);
    assert_eq!(offset_of(&bytes, 32), 4);
    assert_eq!(offset_of(&bytes, 33), 8);
    assert_eq!(bytes.len(), 16);
}

#[test]
fn projected_splat_offsets_match_std430_array_element_rules() {
    let mut bytes = Vec::new();
    for k in 0..24u32 {
        bytes.extend_from_slice(&(100 + k).to_le_bytes());
    }
    let p = ProjectedSplatGpu::from_bytes(&bytes, 0);
    assert_eq!(p.screen_center[0], 100 + 0 / 4);
    assert_eq!(p.screen_center[1], 101);
    assert_eq!(p.radius_pixels, 100 + 8 / 4);
    assert_eq!(p.depth, 100 + 12 / 4);
    assert_eq!(p.splat_id, 100 + 16 / 4);
    assert_eq!(p.color, [100 + 32 / 4, 109, 110, 111]);
    assert_eq!(PROJECTED_SPLAT_BYTES, 48);
    assert_eq!(ProjectedSplatGpu::from_bytes(&bytes, 48).screen_center, [112, 113]);
}

#[test]
fn matches_std430_size() {
    let splat = AnimatedSplatGpu {
        position_and_confidence: [1, 2, 3, 4],
        rotation: [5, 6, 7, 8],
        color: [9, 10, 11, 12],
        joint_ids: [13, 14, 15, 16],
        weights: [17, 18, 19, 20],
        owner_id: 21,
        last_visible_frame: 22,
        flags: 23,
        padding: 24,
    };
    let bytes = splat.to_bytes();
    assert_eq!(bytes.len(), 96);
    assert_eq!(ANIMATED_SPLAT_BYTES, 96);
    for k in 0..24u32 {
        assert_eq!(offset_of(&bytes, k + 1), 4 * k as usize);
    }
}

#[test]
fn rigid_default_binds_to_bone_zero() {
    let splat = GaussianSplat {
        position: bits([1.0, 2.0, 3.0]),
        scale: bits([1.0, 1.0, 1.0]),
        rotation: bits([1.0, 0.0, 0.0, 0.0]),
        color: bits([1.0, 0.0, 0.0, 1.0]),
    };
    let gpu = to_gpu_splat(&splat, None, 42, 100, 255);
    assert_eq!(gpu.joint_ids, [0, 0, 0, 0]);
    assert_eq!(gpu.weights, bits([1.0, 0.0, 0.0, 0.0]));
    assert_eq!(gpu.owner_id, 42);
    assert_eq!(gpu.last_visible_frame, 100);
    assert_eq!(gpu.flags & FLAG_ACTIVE, FLAG_ACTIVE);
    assert_eq!(gpu.padding, 255);
    assert_eq!(gpu.position_and_confidence, bits([1.0, 2.0, 3.0, 1.0]));
    assert_eq!(gpu.rotation, bits([1.0, 0.0, 0.0, 0.0]));
    assert_eq!(gpu.color, bits([1.0, 0.0, 0.0, 1.0]));
}

#[test]
fn carries_real_skinning_through() {
    let splat = GaussianSplat {
        position: bits([0.0, 0.0, 0.0]),
        scale: bits([1.0, 1.0, 1.0]),
        rotation: bits([1.0, 0.0, 0.0, 0.0]),
        color: bits([1.0, 1.0, 1.0, 1.0]),
    };
    let skin = SkinningWeights {
        bone_indices: [3, 7, 0, 0],
        bone_weights: bits([0.6, 0.4, 0.0, 0.0]),
    };
    let gpu = to_gpu_splat(&splat, Some(&skin), 1, 0, 255);
    assert_eq!(gpu.joint_ids, [3, 7, 0, 0]);
    assert_eq!(gpu.weights, bits([0.6, 0.4, 0.0, 0.0]));
}

#[test]
fn constants_of_the_shaders() {
    assert_eq!(FLAG_ACTIVE, 0x1);
    assert_eq!(FLAG_TEXTURED_BILLBOARD, 0x2);
    assert_eq!(FLAG_SOFT_GAUSSIAN_FALLOFF, 0x4);
    assert_eq!(MAX_EVICTIONS_PER_FRAME, 256);
    assert_eq!(MAX_BONES, 64);
    assert_eq!(identity_dual_quat().real, bits([1.0, 0.0, 0.0, 0.0]));
    assert_eq!(identity_dual_quat().dual, bits([0.0, 0.0, 0.0, 0.0]));
}
