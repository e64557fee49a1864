use pmx::binary_writer::BinaryWriter;
use pmx::pmx_types::{
    GroupMorph, MorphTypes, PMXBone, PMXFace, PMXIKLink, PMXMaterial, PMXMorph, PMXSphereMode,
    PMXToonMode, PMXVertex, PMXVertexWeight, UVMorph, BONE_FLAG_APPEND_TRANSLATE_MASK,
    BONE_FLAG_DEFORM_OUTER_PARENT_MASK, BONE_FLAG_IK_MASK, BONE_FLAG_TARGET_SHOW_MODE_MASK,
};

fn bytes_of(w: &BinaryWriter) -> Vec<u8> {
    w.as_bytes().to_vec()
}

#[test]
fn new_writer_is_empty() {
    let w = BinaryWriter::new();
    assert!(w.as_bytes().is_empty());
    assert!(w.into_bytes().is_empty());
}

#[test]
fn integers_are_little_endian() {
    let mut w = BinaryWriter::new();
    w.write_u8(0xab);
    w.write_i8(-2);
    w.write_u16(0x1234);
    w.write_i16(-2);
    w.write_u32(0xdeadbeef);
    w.write_i32(-2);
    assert_eq!(
        bytes_of(&w),
        vec![
            0xab, 0xfe, 0x34, 0x12, 0xfe, 0xff, 0xef, 0xbe, 0xad, 0xde, 0xfe, 0xff, 0xff, 0xff
        ]
    );
}

#[test]
fn floats_are_written_as_their_bits() {
    let mut w = BinaryWriter::new();
    w.write_f32(1.0f32.to_bits());
    w.write_vec2([0.5f32.to_bits(), (-2.0f32).to_bits()]);
    let mut expected = Vec::new();
    expected.extend_from_slice(&1.0f32.to_le_bytes());
    expected.extend_from_slice(&0.5f32.to_le_bytes());
    expected.extend_from_slice(&(-2.0f32).to_le_bytes());
    assert_eq!(bytes_of(&w), expected);
    assert_eq!(bytes_of(&w)[..4], [0x00, 0x00, 0x80, 0x3f]);
}

#[test]
fn vec3_and_vec4_are_consecutive_floats() {
    let mut w = BinaryWriter::new();
    w.write_vec3([1, 2, 3]);
    w.write_vec4([4, 5, 6, 0x01020304]);
    assert_eq!(
        bytes_of(&w),
        vec![
            1, 0, 0, 0, 2, 0, 0, 0, 3, 0, 0, 0, 4, 0, 0, 0, 5, 0, 0, 0, 6, 0, 0, 0, 4, 3, 2, 1
        ]
    );
}

#[test]
fn text_is_byte_length_then_utf8() {
    let mut w = BinaryWriter::new();
    w.write_text_buf("abc");
    assert_eq!(bytes_of(&w), vec![3, 0, 0, 0, b'a', b'b', b'c']);
    let mut w = BinaryWriter::new();
    w.write_text_buf("日本");
    let mut expected = vec![6, 0, 0, 0];
    expected.extend_from_slice("日本".as_bytes());
    assert_eq!(bytes_of(&w), expected);
    let mut w = BinaryWriter::new();
    w.write_text_buf("");
    assert_eq!(bytes_of(&w), vec![0, 0, 0, 0]);
}

#[test]
fn write_vec_appends_bytes_as_given() {
    let mut w = BinaryWriter::new();
    w.write_u8(9);
    w.write_vec(&[1, 2, 3]);
    w.write_vec(&[]);
    assert_eq!(bytes_of(&w), vec![9, 1, 2, 3]);
}

#[test]
fn vertex_index_sizes() {
    let mut w = BinaryWriter::new();
    w.write_vertex_index(1, 200);
    w.write_vertex_index(2, 0xbeef);
    w.write_vertex_index(4, -1);
    w.write_vertex_index(3, 7);
    w.write_vertex_index(0, 7);
    assert_eq!(bytes_of(&w), vec![200, 0xef, 0xbe, 0xff, 0xff, 0xff, 0xff]);
}

#[test]
fn sized_index_sizes() {
    let mut w = BinaryWriter::new();
    w.write_sized(1, -1);
    w.write_sized(2, -2);
    w.write_sized(4, 0x01020304);
    w.write_sized(8, 7);
    assert_eq!(bytes_of(&w), vec![0xff, 0xfe, 0xff, 4, 3, 2, 1]);
}

#[test]
fn narrowing_keeps_low_bytes() {
    let mut a = BinaryWriter::new();
    a.write_vertex_index(1, 0x1_2345);
    a.write_vertex_index(2, 0x1_2345);
    let mut b = BinaryWriter::new();
    b.write_sized(1, 0x1_2345);
    b.write_sized(2, 0x1_2345);
    assert_eq!(bytes_of(&a), vec![0x45, 0x45, 0x23]);
    assert_eq!(bytes_of(&a), bytes_of(&b));
}

#[test]
fn face_is_three_indices() {
    let mut w = BinaryWriter::new();
    w.write_face(2, PMXFace { vertices: [1, 2, 0x0304] });
    assert_eq!(bytes_of(&w), vec![1, 0, 2, 0, 4, 3]);
    let mut w = BinaryWriter::new();
    w.write_face(1, PMXFace { vertices: [1, 2, 3] });
    assert_eq!(bytes_of(&w).len(), 3);
}

fn material(toon_mode: PMXToonMode, sphere_mode: PMXSphereMode) -> PMXMaterial {
    PMXMaterial {
        name: "m".to_string(),
        english_name: String::new(),
        diffuse: [1, 1, 1, 1],
        specular: [2, 2, 2],
        specular_factor: 3,
        ambient: [4, 4, 4],
        draw_mode: 5,
        edge_color: [6, 6, 6, 6],
        edge_size: 7,
        texture_index: 8,
        sphere_mode_texture_index: -1,
        sphere_mode,
        toon_mode,
        toon_texture_index: 9,
        memo: "x".to_string(),
        num_face_vertices: 10,
    }
}

#[test]
fn material_layout_with_common_toon() {
    let mut w = BinaryWriter::new();
    w.write_pmx_material(2, material(PMXToonMode::Common, PMXSphereMode::Add));
    let b = bytes_of(&w);
    // texts 5 + 4, colours 16 + 12 + 4 + 12, draw mode 1, edge 16 + 4,
    // two texture indices 2 + 2, modes 1 + 1, shared toon index 1, memo 5, count 4
    assert_eq!(b.len(), 5 + 4 + 16 + 12 + 4 + 12 + 1 + 16 + 4 + 2 + 2 + 1 + 1 + 1 + 5 + 4);
    assert_eq!(b[..5], [1, 0, 0, 0, b'm']);
    assert_eq!(b[5..9], [0, 0, 0, 0]);
    let at = 9 + 16 + 12 + 4 + 12;
    assert_eq!(b[at], 5);
    let at = at + 1 + 16 + 4;
    assert_eq!(b[at..at + 4], [8, 0, 0xff, 0xff]);
    assert_eq!(b[at + 4], 2);
    assert_eq!(b[at + 5], 1);
    assert_eq!(b[at + 6], 9);
    assert_eq!(b[at + 7..at + 12], [1, 0, 0, 0, b'x']);
    assert_eq!(b[at + 12..], [10, 0, 0, 0]);
}

#[test]
fn material_separate_toon_uses_texture_index_size() {
    let mut w = BinaryWriter::new();
    w.write_pmx_material(4, material(PMXToonMode::Separate, PMXSphereMode::SubTexture));
    let b = bytes_of(&w);
    let at = 9 + 16 + 12 + 4 + 12 + 1 + 16 + 4 + 8;
    assert_eq!(b[at], 3);
    assert_eq!(b[at + 1], 0);
    assert_eq!(b[at + 2..at + 6], [9, 0, 0, 0]);
    let mut w = BinaryWriter::new();
    w.write_pmx_material(1, material(PMXToonMode::Separate, PMXSphereMode::Disabled));
    assert_eq!(bytes_of(&w)[9 + 16 + 12 + 4 + 12 + 1 + 16 + 4 + 2], 0);
}

fn vertex(weight_type: PMXVertexWeight) -> PMXVertex {
    PMXVertex {
        position: [1, 2, 3],
        norm: [4, 5, 6],
        uv: [7, 8],
        add_uv: [[9, 9, 9, 9], [10, 10, 10, 10], [11, 11, 11, 11], [12, 12, 12, 12]],
        weight_type,
        edge_mag: 13,
    }
}

#[test]
fn vertex_layout_per_weight_kind() {
    let cases = [
        (PMXVertexWeight::BDEF1(1), 0u8, 2usize),
        (PMXVertexWeight::BDEF2 { bone_index_1: 1, bone_index_2: 2, bone_weight_1: 3 }, 1, 8),
        (
            PMXVertexWeight::BDEF4 {
                bone_index_1: 1,
                bone_index_2: 2,
                bone_index_3: 3,
                bone_index_4: 4,
                bone_weight_1: 5,
                bone_weight_2: 6,
                bone_weight_3: 7,
                bone_weight_4: 8,
            },
            2,
            24,
        ),
        (
            PMXVertexWeight::SDEF {
                bone_index_1: 1,
                bone_index_2: 2,
                bone_weight_1: 3,
                sdef_c: [1, 1, 1],
                sdef_r0: [2, 2, 2],
                sdef_r1: [3, 3, 3],
            },
            3,
            44,
        ),
        (
            PMXVertexWeight::QDEF {
                bone_index_1: 1,
                bone_index_2: 2,
                bone_index_3: 3,
                bone_index_4: 4,
                bone_weight_1: 5,
                bone_weight_2: 6,
                bone_weight_3: 7,
                bone_weight_4: 8,
            },
            4,
            24,
        ),
    ];
    for (weight, code, weight_len) in cases {
        let mut w = BinaryWriter::new();
        w.write_pmx_vertex(2, vertex(weight), 2);
        let b = bytes_of(&w);
        assert_eq!(b.len(), 32 + 2 * 16 + 1 + weight_len + 4);
        assert_eq!(b[32..36], [9, 0, 0, 0]);
        assert_eq!(b[48..52], [10, 0, 0, 0]);
        assert_eq!(b[64], code);
        assert_eq!(b[65..67], [1, 0]);
        assert_eq!(b[b.len() - 4..], [13, 0, 0, 0]);
    }
}

#[test]
fn vertex_without_additional_uvs() {
    let mut w = BinaryWriter::new();
    w.write_pmx_vertex(0, vertex(PMXVertexWeight::BDEF1(-1)), 1);
    let b = bytes_of(&w);
    assert_eq!(b.len(), 32 + 1 + 1 + 4);
    assert_eq!(b[32], 0);
    assert_eq!(b[33], 0xff);
}

#[test]
fn ik_link_limits_only_when_enabled() {
    let mut w = BinaryWriter::new();
    w.write_ik_link(1, PMXIKLink { ik_bone_index: 5, enable_limit: 1, limit_min: [1, 2, 3], limit_max: [4, 5, 6] });
    assert_eq!(bytes_of(&w).len(), 1 + 1 + 24);
    let mut w = BinaryWriter::new();
    w.write_ik_link(1, PMXIKLink { ik_bone_index: 5, enable_limit: 2, limit_min: [1, 2, 3], limit_max: [4, 5, 6] });
    assert_eq!(bytes_of(&w), vec![5, 2]);
}

fn bone(boneflag: u16) -> PMXBone {
    PMXBone {
        name: "b".to_string(),
        english_name: String::new(),
        position: [1, 1, 1],
        parent: 2,
        deform_depth: 3,
        boneflag,
        offset: [4, 4, 4],
        child: 5,
        append_bone_index: 6,
        append_weight: 7,
        fixed_axis: [8, 8, 8],
        local_axis_x: [9, 9, 9],
        local_axis_z: [10, 10, 10],
        key_value: 11,
        ik_target_index: 12,
        ik_iter_count: 13,
        ik_limit: 14,
        ik_links: vec![
            PMXIKLink { ik_bone_index: 1, enable_limit: 0, limit_min: [0; 3], limit_max: [0; 3] },
            PMXIKLink { ik_bone_index: 2, enable_limit: 1, limit_min: [1; 3], limit_max: [2; 3] },
        ],
    }
}

#[test]
fn bone_with_no_flags_writes_offset_only() {
    let mut w = BinaryWriter::new();
    w.write_bone(2, bone(0));
    let b = bytes_of(&w);
    assert_eq!(b.len(), 5 + 4 + 12 + 2 + 4 + 2 + 12);
    assert_eq!(b[b.len() - 12..b.len() - 8], [4, 0, 0, 0]);
}

#[test]
fn bone_with_child_flag_writes_child_index() {
    let mut w = BinaryWriter::new();
    w.write_bone(2, bone(BONE_FLAG_TARGET_SHOW_MODE_MASK));
    let b = bytes_of(&w);
    assert_eq!(b.len(), 5 + 4 + 12 + 2 + 4 + 2 + 2);
    assert_eq!(b[b.len() - 4..b.len() - 2], [1, 0]);
    assert_eq!(b[b.len() - 2..], [5, 0]);
}

#[test]
fn bone_with_append_outer_parent_and_ik() {
    let mut w = BinaryWriter::new();
    w.write_bone(
        1,
        bone(BONE_FLAG_APPEND_TRANSLATE_MASK | BONE_FLAG_DEFORM_OUTER_PARENT_MASK | BONE_FLAG_IK_MASK),
    );
    let b = bytes_of(&w);
    let head = 5 + 4 + 12 + 1 + 4 + 2 + 12;
    assert_eq!(b[head], 6);
    assert_eq!(b[head + 1..head + 5], [7, 0, 0, 0]);
    assert_eq!(b[head + 5..head + 9], [11, 0, 0, 0]);
    let ik = head + 9;
    assert_eq!(b[ik], 12);
    assert_eq!(b[ik + 1..ik + 5], [13, 0, 0, 0]);
    assert_eq!(b[ik + 5..ik + 9], [14, 0, 0, 0]);
    assert_eq!(b[ik + 9..ik + 13], [2, 0, 0, 0]);
    assert_eq!(b[ik + 13..ik + 15], [1, 0]);
    assert_eq!(b[ik + 15..ik + 17], [2, 1]);
    assert_eq!(b.len(), ik + 17 + 24);
}

#[test]
fn morph_entries_follow_the_count() {
    let mut w = BinaryWriter::new();
    w.write_pmx_morph(
        2,
        1,
        1,
        4,
        PMXMorph {
            name: "g".to_string(),
            english_name: String::new(),
            category: 1,
            morph_type: 0,
            morph_data: vec![
                MorphTypes::Group(GroupMorph { index: 3, morph_factor: 5 }),
                MorphTypes::UV2(UVMorph { index: 7, offset: [1, 2, 3, 4] }),
            ],
        },
    );
    let b = bytes_of(&w);
    assert_eq!(b[..5], [1, 0, 0, 0, b'g']);
    assert_eq!(b[9..11], [1, 0]);
    assert_eq!(b[11..15], [2, 0, 0, 0]);
    assert_eq!(b[15..19], [3, 0, 0, 0]);
    assert_eq!(b[19..23], [5, 0, 0, 0]);
    assert_eq!(b[23..25], [7, 0]);
    assert_eq!(b.len(), 25 + 16);
}

#[test]
fn writes_append_to_what_was_written() {
    let mut w = BinaryWriter::new();
    w.write_u8(1);
    let before = bytes_of(&w);
    w.write_face(4, PMXFace { vertices: [0, 0, 0] });
    let after = bytes_of(&w);
    assert_eq!(after[..before.len()], before[..]);
    assert_eq!(after.len(), before.len() + 12);
}
