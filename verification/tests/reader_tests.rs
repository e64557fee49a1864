use pmx::binary_reader::BinaryReader;
use pmx::binary_writer::BinaryWriter;
use pmx::pmx_types::{
    MorphTypes, PMXBone, PMXFace, PMXIKLink, PMXMorph, PMXVertex, PMXVertexWeight, VertexMorph,
    BONE_FLAG_TARGET_SHOW_MODE_MASK,
};

#[test]
fn reads_integers_little_endian() {
    let mut r = BinaryReader::new(vec![0xab, 0xfe, 0x34, 0x12, 0xfe, 0xff, 0xff, 0xff, 0, 0, 0x80, 0x3f]);
    assert_eq!(r.read_u8(), Some(0xab));
    assert_eq!(r.read_signed(1), Some(-2));
    assert_eq!(r.read_u16(), Some(0x1234));
    assert_eq!(r.read_i32(), Some(-2));
    assert_eq!(r.read_f32(), Some(1.0f32.to_bits()));
    assert_eq!(r.remaining(), 0);
    assert_eq!(r.read_u8(), None);
}

#[test]
fn unsigned_and_signed_reads_of_the_same_bytes() {
    let mut r = BinaryReader::new(vec![0xff, 0xff]);
    assert_eq!(r.read_unsigned(2), Some(0xffff));
    let mut r = BinaryReader::new(vec![0xff, 0xff]);
    assert_eq!(r.read_signed(2), Some(-1));
    let mut r = BinaryReader::new(vec![0xff, 0xff]);
    assert_eq!(r.read_vertex_index(2), Some(65535));
    let mut r = BinaryReader::new(vec![0xff, 0xff]);
    assert_eq!(r.read_sized(2), Some(-1));
}

#[test]
fn invalid_index_size_reads_nothing() {
    let mut r = BinaryReader::new(vec![1, 2, 3]);
    assert_eq!(r.read_vertex_index(3), None);
    assert_eq!(r.read_sized(0), None);
    assert_eq!(r.remaining(), 3);
}

#[test]
fn short_input_fails_and_leaves_position() {
    let mut r = BinaryReader::new(vec![1, 2, 3]);
    assert_eq!(r.read_i32(), None);
    assert_eq!(r.remaining(), 3);
    assert_eq!(r.read_vec2(), None);
    assert_eq!(r.remaining(), 3);
    let mut r = BinaryReader::new(vec![1, 0, 2, 0, 3]);
    assert_eq!(r.read_face(2), None);
    assert_eq!(r.remaining(), 5);
    assert_eq!(r.read_face(1), Some(PMXFace { vertices: [1, 0, 2] }));
    assert_eq!(r.remaining(), 2);
}

#[test]
fn text_reads_and_failures() {
    let mut w = BinaryWriter::new();
    w.write_text_buf("héllo");
    let mut r = BinaryReader::new(w.into_bytes());
    assert_eq!(r.read_text_buf(), Some("héllo".to_string()));
    assert_eq!(r.remaining(), 0);

    let mut r = BinaryReader::new(vec![2, 0, 0, 0, 0xff, 0xfe]);
    assert_eq!(r.read_text_buf(), None);
    assert_eq!(r.remaining(), 6);

    let mut r = BinaryReader::new(vec![5, 0, 0, 0, b'a']);
    assert_eq!(r.read_text_buf(), None);
    assert_eq!(r.remaining(), 5);

    let mut r = BinaryReader::new(vec![0xff, 0xff, 0xff, 0xff]);
    assert_eq!(r.read_text_buf(), None);
    assert_eq!(r.read_count(), None);
    assert_eq!(r.remaining(), 4);
}

#[test]
fn unknown_mode_codes_fail() {
    let mut w = BinaryWriter::new();
    w.write_text_buf("");
    w.write_text_buf("");
    w.write_vec4([0; 4]);
    w.write_vec3([0; 3]);
    w.write_f32(0);
    w.write_vec3([0; 3]);
    w.write_u8(0);
    w.write_vec4([0; 4]);
    w.write_f32(0);
    w.write_sized(1, 0);
    w.write_sized(1, 0);
    w.write_u8(4);
    w.write_u8(0);
    w.write_sized(1, 0);
    w.write_text_buf("");
    w.write_i32(0);
    let bytes = w.into_bytes();
    let len = bytes.len();
    let mut r = BinaryReader::new(bytes);
    assert!(r.read_pmx_material(1).is_none());
    assert_eq!(r.remaining(), len);

    let mut r = BinaryReader::new(vec![0; 32].into_iter().chain(vec![5, 0, 0, 0, 0]).collect());
    assert!(r.read_pmx_vertex(0, 1).is_none());
    assert_eq!(r.remaining(), 37);
}

#[test]
fn unwritten_fields_read_as_zero() {
    let b = PMXBone {
        name: "n".to_string(),
        english_name: "e".to_string(),
        position: [1, 2, 3],
        parent: 0,
        deform_depth: 0,
        boneflag: BONE_FLAG_TARGET_SHOW_MODE_MASK,
        offset: [7, 7, 7],
        child: 2,
        append_bone_index: 3,
        append_weight: 4,
        fixed_axis: [5, 5, 5],
        local_axis_x: [6, 6, 6],
        local_axis_z: [7, 7, 7],
        key_value: 8,
        ik_target_index: 9,
        ik_iter_count: 10,
        ik_limit: 11,
        ik_links: vec![PMXIKLink { ik_bone_index: 0, enable_limit: 0, limit_min: [0; 3], limit_max: [0; 3] }],
    };
    let mut w = BinaryWriter::new();
    w.write_bone(1, b);
    let mut r = BinaryReader::new(w.into_bytes());
    let read = r.read_bone(1).unwrap();
    assert_eq!(read.child, 2);
    assert_eq!(read.offset, [0, 0, 0]);
    assert_eq!(read.append_bone_index, 0);
    assert_eq!(read.append_weight, 0);
    assert_eq!(read.fixed_axis, [0, 0, 0]);
    assert_eq!(read.local_axis_x, [0, 0, 0]);
    assert_eq!(read.key_value, 0);
    assert_eq!(read.ik_links, vec![]);
    assert_eq!(r.remaining(), 0);
}

#[test]
fn additional_uvs_beyond_the_count_read_as_zero() {
    let v = PMXVertex {
        position: [1, 2, 3],
        norm: [4, 5, 6],
        uv: [7, 8],
        add_uv: [[1; 4], [2; 4], [3; 4], [4; 4]],
        weight_type: PMXVertexWeight::BDEF1(1),
        edge_mag: 9,
    };
    let mut w = BinaryWriter::new();
    w.write_pmx_vertex(2, v, 1);
    let mut r = BinaryReader::new(w.into_bytes());
    let read = r.read_pmx_vertex(2, 1).unwrap();
    assert_eq!(read.add_uv, [[1; 4], [2; 4], [0; 4], [0; 4]]);
    assert_eq!(read.weight_type, PMXVertexWeight::BDEF1(1));
}

#[test]
fn morph_kind_decides_entry_layout() {
    let m = PMXMorph {
        name: "v".to_string(),
        english_name: String::new(),
        category: 2,
        morph_type: 1,
        morph_data: vec![MorphTypes::Vertex(VertexMorph { index: 3, offset: [1, 2, 3] })],
    };
    let mut w = BinaryWriter::new();
    w.write_pmx_morph(1, 1, 1, 1, m.clone());
    let bytes = w.into_bytes();
    let mut r = BinaryReader::new(bytes.clone());
    assert_eq!(r.read_pmx_morph(1, 1, 1, 1), Some(m));
    let mut changed = bytes;
    changed[5 + 4 + 1] = 9;
    let mut r = BinaryReader::new(changed);
    assert_eq!(r.read_pmx_morph(1, 1, 1, 1), None);
}

#[test]
fn index_roundtrip_in_each_size() {
    for (size, v) in [(1u8, 255i32), (2, 65535), (4, -5)] {
        let mut w = BinaryWriter::new();
        w.write_vertex_index(size, v);
        let mut r = BinaryReader::new(w.into_bytes());
        assert_eq!(r.read_vertex_index(size), Some(v));
    }
    for (size, v) in [(1u8, -128i32), (1, 127), (2, -32768), (4, i32::MIN)] {
        let mut w = BinaryWriter::new();
        w.write_sized(size, v);
        let mut r = BinaryReader::new(w.into_bytes());
        assert_eq!(r.read_sized(size), Some(v));
    }
}

#[test]
fn out_of_range_index_reads_back_wrapped() {
    let mut w = BinaryWriter::new();
    w.write_sized(1, 200);
    let mut r = BinaryReader::new(w.into_bytes());
    assert_eq!(r.read_sized(1), Some(-56));
}
