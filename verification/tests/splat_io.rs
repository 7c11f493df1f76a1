use presence_daemon::actors::scene_memory::GaussianSplat;
use presence_daemon::actors::splat_io::{
    find_end_header, load_by_extension, load_ply, load_splat, parse_header, ply_type_size,
    PlyVertex, SplatFile,
};

fn push_f32(buf: &mut Vec<u8>, v: f32) {
    buf.extend_from_slice(&v.to_le_bytes());
}

fn floats<const N: usize>(v: [u32; N]) -> [f32; N] {
    v.map(f32::from_bits)
}

/// R S Sᵗ Rᵗ as its upper triangle.
fn covariance(scale: [f32; 3], rot: [f32; 4]) -> [f32; 6] {
    let (w, x, y, z) = (rot[0], rot[1], rot[2], rot[3]);
    let norm = (w * w + x * x + y * y + z * z).sqrt().max(1e-8);
    let (w, x, y, z) = (w / norm, x / norm, y / norm, z / norm);
    let r = [
        [1.0 - 2.0 * (y * y + z * z), 2.0 * (x * y - w * z), 2.0 * (x * z + w * y)],
        [2.0 * (x * y + w * z), 1.0 - 2.0 * (x * x + z * z), 2.0 * (y * z - w * x)],
        [2.0 * (x * z - w * y), 2.0 * (y * z + w * x), 1.0 - 2.0 * (x * x + y * y)],
    ];
    let mut cov = [[0.0f32; 3]; 3];
    for i in 0..3 {
        for j in 0..3 {
            for k in 0..3 {
                cov[i][j] += scale[k] * scale[k] * r[i][k] * r[j][k];
            }
        }
    }
    [cov[0][0], cov[0][1], cov[0][2], cov[1][1], cov[1][2], cov[2][2]]
}

/// The splat that a stored vertex stands for.
fn decode(v: &PlyVertex) -> GaussianSplat {
    let dc = floats(v.dc).map(|c| (0.5 + 0.282_094_79 * c).clamp(0.0, 1.0));
    let opacity = 1.0 / (1.0 + (-f32::from_bits(v.opacity)).exp());
    GaussianSplat {
        position: v.position,
        scale: floats(v.log_scale).map(|s| s.exp().to_bits()),
        rotation: v.rotation,
        color: [dc[0].to_bits(), dc[1].to_bits(), dc[2].to_bits(), opacity.to_bits()],
    }
}

#[test]
fn splat_round_trip() {
    // One record: position (1,2,3), scale (0.5,0.5,0.5), color
    // (255,0,0,255) = opaque red, identity rotation (w=1,x=y=z=0).
    let mut buf = Vec::new();
    push_f32(&mut buf, 1.0);
    push_f32(&mut buf, 2.0);
    push_f32(&mut buf, 3.0);
    push_f32(&mut buf, 0.5);
    push_f32(&mut buf, 0.5);
    push_f32(&mut buf, 0.5);
    buf.extend_from_slice(&[255, 0, 0, 255]);
    // identity quat (w,x,y,z) = (1,0,0,0) -> bytes = 128 + 128*q, clamped to u8
    buf.extend_from_slice(&[255, 128, 128, 128]);
    assert_eq!(buf.len(), 32);

    let splats = load_splat(&buf).expect("should parse one record");
    assert_eq!(splats.len(), 1);
    let s = &splats[0];
    let scale = floats(s.scale);
    let color = floats(s.color);
    assert_eq!(floats(s.position), [1.0, 2.0, 3.0]);
    assert!((scale[0] - 0.5).abs() < 1e-3, "scale should round-trip as linear 0.5, got {}", scale[0]);
    assert!((color[0] - 1.0).abs() < 1e-3, "red channel should be ~1.0, got {}", color[0]);
    assert!((color[1]).abs() < 1e-3, "green channel should be ~0.0");
    let cov = covariance(scale, floats(s.rotation));
    assert!((cov[0] - 0.25).abs() < 1e-3, "cov_xx, got {}", cov[0]);
    assert!((cov[3] - 0.25).abs() < 1e-3, "cov_yy, got {}", cov[3]);
    assert!((cov[5] - 0.25).abs() < 1e-3, "cov_zz, got {}", cov[5]);
    assert!(cov[1].abs() < 1e-3, "cov_xy should be ~0 for identity rotation");
}

#[test]
fn splat_rejects_bad_size() {
    let bad = vec![0u8; 31];
    assert!(load_splat(&bad).is_err());
    assert_eq!(
        load_splat(&bad).unwrap_err(),
        ".splat file size 31 isn't a multiple of the 32-byte record size"
    );
}

#[test]
fn every_color_and_rotation_byte_decodes_as_float_division() {
    for b in 0..=255u8 {
        let mut buf = vec![0u8; 24];
        buf.extend_from_slice(&[b, 0, 0, b]);
        buf.extend_from_slice(&[b, b, 128, 0]);
        let s = load_splat(&buf).unwrap()[0];
        assert_eq!(s.color[0], (b as f32 / 255.0).to_bits());
        assert_eq!(s.color[3], (b as f32 / 255.0).to_bits());
        assert_eq!(s.rotation[0], ((b as f32 - 128.0) / 128.0).to_bits());
        assert_eq!(s.rotation[1], ((b as f32 - 128.0) / 128.0).to_bits());
        assert_eq!(s.rotation[2], 0.0f32.to_bits());
        assert_eq!(s.rotation[3], (-1.0f32).to_bits());
    }
}

#[test]
fn splat_files_concatenate() {
    let a: Vec<u8> = (0..64).collect();
    let b: Vec<u8> = (100..132).collect();
    let mut both = a.clone();
    both.extend_from_slice(&b);
    let mut expected = load_splat(&a).unwrap();
    expected.extend(load_splat(&b).unwrap());
    assert_eq!(load_splat(&both).unwrap(), expected);
    assert!(load_splat(&[]).unwrap().is_empty());
}

const HEADER: &str = "ply\nformat binary_little_endian 1.0\nelement vertex 1\n\
     property float x\nproperty float y\nproperty float z\n\
     property float nx\nproperty float ny\nproperty float nz\n\
     property float f_dc_0\nproperty float f_dc_1\nproperty float f_dc_2\n\
     property float opacity\n\
     property float scale_0\nproperty float scale_1\nproperty float scale_2\n\
     property float rot_0\nproperty float rot_1\nproperty float rot_2\nproperty float rot_3\n\
     end_header\n";

#[test]
fn ply_round_trip_minimal() {
    let mut buf = HEADER.as_bytes().to_vec();
    // x,y,z
    push_f32(&mut buf, 4.0);
    push_f32(&mut buf, 5.0);
    push_f32(&mut buf, 6.0);
    // nx,ny,nz (unused, present to prove we correctly skip fields)
    push_f32(&mut buf, 0.0);
    push_f32(&mut buf, 0.0);
    push_f32(&mut buf, 0.0);
    // f_dc_0..2: 0.0 DC -> should decode to mid-gray (0.5) before clamping
    push_f32(&mut buf, 0.0);
    push_f32(&mut buf, 0.0);
    push_f32(&mut buf, 0.0);
    // opacity: large positive logit -> sigmoid ~1.0
    push_f32(&mut buf, 10.0);
    // scale_0..2: log(1.0) = 0.0 -> exp -> 1.0
    push_f32(&mut buf, 0.0);
    push_f32(&mut buf, 0.0);
    push_f32(&mut buf, 0.0);
    // rot_0..3: identity quaternion (w,x,y,z)
    push_f32(&mut buf, 1.0);
    push_f32(&mut buf, 0.0);
    push_f32(&mut buf, 0.0);
    push_f32(&mut buf, 0.0);

    let vertices = load_ply(&buf).expect("should parse one vertex");
    assert_eq!(vertices.len(), 1);
    let s = decode(&vertices[0]);
    let scale = floats(s.scale);
    let color = floats(s.color);
    assert_eq!(floats(s.position), [4.0, 5.0, 6.0]);
    assert!((scale[0] - 1.0).abs() < 1e-3, "log-scale 0.0 should exponentiate to 1.0, got {}", scale[0]);
    assert!((color[0] - 0.5).abs() < 1e-3, "DC=0 should decode near mid-gray, got {}", color[0]);
    assert!(color[3] > 0.99, "large positive logit should sigmoid near 1.0, got {}", color[3]);
    // identity rotation, scale 1.0 -> covariance is the identity matrix
    let cov = covariance(scale, floats(s.rotation));
    assert!((cov[0] - 1.0).abs() < 1e-3);
    assert!((cov[3] - 1.0).abs() < 1e-3);
    assert!((cov[5] - 1.0).abs() < 1e-3);
}

#[test]
fn ply_rejects_missing_property() {
    let header = "ply\nformat binary_little_endian 1.0\nelement vertex 1\n\
         property float x\nproperty float y\nproperty float z\nend_header\n";
    let buf = header.as_bytes().to_vec();
    assert!(load_ply(&buf).is_err(), "should reject a PLY missing scale/rot/opacity/f_dc");
    assert_eq!(load_ply(&buf).unwrap_err(), "PLY file is missing required property 'scale_0'");
}

fn body(words: u32) -> Vec<u8> {
    let mut buf = Vec::new();
    for k in 0..words {
        buf.extend_from_slice(&(1000 + k).to_le_bytes());
    }
    buf
}

#[test]
fn ply_words_come_from_their_offsets() {
    let mut buf = HEADER.replace("vertex 1", "vertex 2").into_bytes();
    buf.extend_from_slice(&body(34));
    let v = load_ply(&buf).unwrap();
    assert_eq!(v.len(), 2);
    assert_eq!(v[0].position, [1000, 1001, 1002]);
    assert_eq!(v[0].dc, [1006, 1007, 1008]);
    assert_eq!(v[0].opacity, 1009);
    assert_eq!(v[0].log_scale, [1010, 1011, 1012]);
    assert_eq!(v[0].rotation, [1013, 1014, 1015, 1016]);
    assert_eq!(v[1].position, [1017, 1018, 1019]);
    assert_eq!(v[1].rotation, [1030, 1031, 1032, 1033]);
}

#[test]
fn ply_skips_properties_of_every_width() {
    let text = HEADER
        .replace("property float nx", "property uchar nx")
        .replace("property float ny", "property double ny")
        .replace("property float nz", "property short nz");
    let mut buf = text.into_bytes();
    let at = buf.len();
    buf.extend_from_slice(&vec![0u8; 12 + 1 + 8 + 2 + 44]);
    buf[at + 23] = 0x78;
    buf[at + 24] = 0x56;
    let v = load_ply(&buf).unwrap();
    assert_eq!(v[0].dc[0], 0x5678);
}

#[test]
fn the_last_property_of_a_name_counts() {
    let text = HEADER.replace("property float nx", "property float x");
    let mut buf = text.into_bytes();
    buf.extend_from_slice(&body(17));
    assert_eq!(load_ply(&buf).unwrap()[0].position, [1003, 1001, 1002]);
}

#[test]
fn ply_bytes_past_the_vertices_are_ignored() {
    let mut buf = HEADER.as_bytes().to_vec();
    buf.extend_from_slice(&body(40));
    assert_eq!(load_ply(&buf).unwrap().len(), 1);
}

fn refusal(header: &str, rest: &[u8]) -> String {
    let mut buf = header.as_bytes().to_vec();
    buf.extend_from_slice(rest);
    load_ply(&buf).unwrap_err()
}

#[test]
fn ply_refusals() {
    assert_eq!(refusal("ply\n", &[]), "no 'end_header' line found — not a PLY file?");
    assert_eq!(
        refusal(&HEADER.replace("binary_little_endian", "ascii"), &[]),
        "only 'binary_little_endian' PLY files are supported — ASCII/big-endian PLY isn't handled"
    );
    assert_eq!(
        refusal(&HEADER.replace("vertex 1", "vertex 0"), &[]),
        "no 'element vertex N' found (or N was 0)"
    );
    assert_eq!(
        refusal(&HEADER.replace("vertex 1", "vertex"), &[]),
        "no 'element vertex N' found (or N was 0)"
    );
    assert_eq!(refusal(&HEADER.replace("vertex 1", "vertex one"), &[]), "bad vertex count");
    assert_eq!(
        refusal(&HEADER.replace("property float nx", "property"), &body(16)[..60]),
        "PLY body is 60 bytes, expected at least 64 for 1 vertices at 64 bytes each"
    );
    assert_eq!(
        refusal(&HEADER.replace("property float nx", "property float"), &[]),
        "malformed property line"
    );
    assert_eq!(
        refusal(&HEADER.replace("property float nx", "property quad nx"), &[]),
        "unsupported PLY property type 'quad' (only scalar numeric types are handled — no list properties)"
    );
    assert_eq!(
        refusal(&HEADER.replace("property float nx", "property list uchar int nx"), &[]),
        "list properties (e.g. face indices) aren't supported — this loader is for splat point clouds, not meshes"
    );
    assert_eq!(
        refusal(HEADER, &[0u8; 67]),
        "PLY body is 67 bytes, expected at least 68 for 1 vertices at 68 bytes each"
    );
}

#[test]
fn ply_counts_too_large_for_the_machine_are_refused() {
    let count = usize::MAX;
    let needed = 68u128 * count as u128;
    assert_eq!(
        refusal(&HEADER.replace("vertex 1", &format!("vertex {count}")), &[0u8; 68]),
        format!("PLY body is 68 bytes, expected at least {needed} for {count} vertices at 68 bytes each")
    );
    assert_eq!(
        refusal(&HEADER.replace("vertex 1", &format!("vertex {count}0")), &[]),
        "bad vertex count"
    );
}

#[test]
fn ply_fields_must_lie_inside_the_record() {
    let text = HEADER.replace("property float rot_3", "property uchar rot_3");
    assert_eq!(
        refusal(&text, &[0u8; 65]),
        "PLY property 'rot_3' runs past the 65-byte record"
    );
}

#[test]
fn ply_header_must_be_text() {
    let mut buf = b"ply \xff\n".to_vec();
    buf.extend_from_slice(HEADER.as_bytes());
    assert_eq!(load_ply(&buf).unwrap_err(), "PLY header isn't valid UTF-8/ASCII");
}

#[test]
fn comments_and_other_elements_change_nothing() {
    let plain = parse_header(HEADER).unwrap();
    let noisy = HEADER
        .replace("element vertex", "comment property float q\r\n\tobj_info nothing\nelement vertex")
        .replace("end_header", "element face 3\nproperty list uchar int vertex_indices\nend_header");
    let parsed = parse_header(&noisy).unwrap();
    assert_eq!(parsed.vertex_count, plain.vertex_count);
    assert_eq!(parsed.properties.len(), plain.properties.len());
    assert!(parsed.binary_little_endian);
    assert_eq!(parsed.properties[16].name, "rot_3");
    assert_eq!(parsed.record_bytes(), 68);
    assert_eq!(parsed.offset("opacity"), Some(36));
    assert_eq!(parsed.offset("alpha"), None);
}

#[test]
fn the_first_end_header_counts() {
    assert_eq!(find_end_header(b"ab end_header\nend_header\n"), Some(14));
    assert_eq!(find_end_header(b"end_header"), None);
    assert_eq!(find_end_header(b"end_header\r\nend_heade"), None);
    assert_eq!(find_end_header(b"end_header\n"), Some(11));
    assert_eq!(find_end_header(b""), None);
}

#[test]
fn property_types_have_their_widths() {
    for ty in ["float", "float32", "int", "int32", "uint", "uint32"] {
        assert_eq!(ply_type_size(ty), Ok(4));
    }
    for ty in ["double", "float64"] {
        assert_eq!(ply_type_size(ty), Ok(8));
    }
    for ty in ["uchar", "uint8", "char", "int8"] {
        assert_eq!(ply_type_size(ty), Ok(1));
    }
    for ty in ["short", "int16", "ushort", "uint16"] {
        assert_eq!(ply_type_size(ty), Ok(2));
    }
    assert!(ply_type_size("Float").is_err());
    assert!(ply_type_size("").is_err());
}

#[test]
fn files_load_by_their_extension() {
    let record: Vec<u8> = (0..32).collect();
    match load_by_extension(Some("SPLAT"), &record) {
        Ok(SplatFile::Splats(splats)) => assert_eq!(splats, load_splat(&record).unwrap()),
        other => panic!("expected splats, got {other:?}"),
    }
    let mut ply = HEADER.as_bytes().to_vec();
    ply.extend_from_slice(&body(17));
    match load_by_extension(Some("ply"), &ply) {
        Ok(SplatFile::Vertices(v)) => assert_eq!(v.len(), 1),
        other => panic!("expected vertices, got {other:?}"),
    }
    assert_eq!(
        load_by_extension(Some("ply"), &record).unwrap_err(),
        "no 'end_header' line found — not a PLY file?"
    );
    assert_eq!(
        load_by_extension(Some("GLTF"), &record).unwrap_err(),
        "unsupported artifact extension '.gltf' — only .splat and .ply are handled"
    );
    assert_eq!(
        load_by_extension(None, &record).unwrap_err(),
        "artifact path has no file extension to dispatch on"
    );
}

fn file(properties: &[&str], vertices: &[Vec<u8>]) -> Vec<u8> {
    let mut header = format!(
        "ply\nformat binary_little_endian 1.0\nelement vertex {}\n",
        vertices.len()
    );
    for property in properties {
        if property.starts_with("comment") {
            header.push_str(&format!("{property}\n"));
        } else {
            header.push_str(&format!("property {property}\n"));
        }
    }
    header.push_str("end_header\n");
    let mut bytes = header.into_bytes();
    for vertex in vertices {
        bytes.extend_from_slice(vertex);
    }
    bytes
}

#[test]
fn layouts_load_alike() {
    let names = [
        "x", "y", "z", "scale_0", "scale_1", "scale_2", "rot_0", "rot_1", "rot_2", "rot_3",
        "opacity", "f_dc_0", "f_dc_1", "f_dc_2",
    ];
    let word = |vertex: u32, k: usize| (1000 * vertex + k as u32).to_le_bytes();
    let plain: Vec<String> = names.iter().map(|name| format!("float {name}")).collect();
    let plain: Vec<&str> = plain.iter().map(String::as_str).collect();
    let in_order = |v: u32| (0..14).flat_map(|k| word(v, k)).collect::<Vec<u8>>();
    let mut commented = plain.clone();
    commented.insert(2, "comment made by hand");
    let a = file(&commented, &[in_order(1), in_order(2)]);
    // The other way round, with a byte and a double that no splat needs.
    let mut other = vec!["uchar label"];
    other.extend(plain.iter().rev());
    other.insert(7, "double f_rest_0");
    other.insert(11, "comment made by hand");
    let turned = |v: u32| {
        let mut bytes = vec![9u8];
        for (n, k) in (0..14).rev().enumerate() {
            if n == 6 {
                bytes.extend_from_slice(&[7; 8]);
            }
            bytes.extend_from_slice(&word(v, k));
        }
        bytes
    };
    let b = file(&other, &[turned(1), turned(2)]);
    let (from_a, from_b) = (load_ply(&a).unwrap(), load_ply(&b).unwrap());
    assert_eq!(from_a.len(), 2);
    for (p, q) in from_a.iter().zip(&from_b) {
        assert_eq!((p.position, p.log_scale), (q.position, q.log_scale));
        assert_eq!((p.rotation, p.opacity, p.dc), (q.rotation, q.opacity, q.dc));
    }
    assert_eq!(from_b[1].position, [2000, 2001, 2002]);
    assert_eq!(from_b[1].dc, [2011, 2012, 2013]);
}
