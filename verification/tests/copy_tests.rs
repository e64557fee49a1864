use pmx::binary_reader::BinaryReader;
use pmx::binary_writer::BinaryWriter;
use pmx::pmx_types::{
    BoneMorph, GroupMorph, MaterialMorph, MorphTypes, PMXBone, PMXFace, PMXIKLink, PMXMaterial,
    PMXMorph, PMXSphereMode, PMXToonMode, PMXVertex, PMXVertexWeight, UVMorph, Vec3, Vec4,
    VertexMorph, BONE_FLAG_IK_MASK, BONE_FLAG_LOCAL_AXIS_MASK, BONE_FLAG_TARGET_SHOW_MODE_MASK,
    BONE_FLAG_APPEND_ROTATE_MASK, BONE_FLAG_DEFORM_OUTER_PARENT_MASK, BONE_FLAG_FIXED_AXIS_MASK,
};

const S_VERTEX: u8 = 2;
const S_TEXTURE: u8 = 1;
const S_MATERIAL: u8 = 1;
const S_BONE: u8 = 2;
const S_MORPH: u8 = 1;
const ADDITIONAL_UVS: u8 = 1;

fn f(x: f32) -> u32 {
    x.to_bits()
}

fn v3(a: f32, b: f32, c: f32) -> Vec3 {
    [f(a), f(b), f(c)]
}

fn v4(a: f32, b: f32, c: f32, d: f32) -> Vec4 {
    [f(a), f(b), f(c), f(d)]
}

fn sample_vertices() -> Vec<PMXVertex> {
    let zero = [0u32; 4];
    vec![
        PMXVertex {
            position: v3(0.0, 1.0, 2.0),
            norm: v3(0.0, 0.0, 1.0),
            uv: [f(0.5), f(0.25)],
            add_uv: [v4(1.0, 2.0, 3.0, 4.0), zero, zero, zero],
            weight_type: PMXVertexWeight::BDEF1(3),
            edge_mag: f(1.0),
        },
        PMXVertex {
            position: v3(-1.0, 1.0, 2.0),
            norm: v3(0.0, 1.0, 0.0),
            uv: [f(0.0), f(1.0)],
            add_uv: [v4(0.0, 0.0, 0.0, 1.0), zero, zero, zero],
            weight_type: PMXVertexWeight::BDEF2 {
                bone_index_1: 0,
                bone_index_2: 1,
                bone_weight_1: f(0.75),
            },
            edge_mag: f(0.5),
        },
        PMXVertex {
            position: v3(3.0, -2.0, 0.5),
            norm: v3(1.0, 0.0, 0.0),
            uv: [f(1.0), f(1.0)],
            add_uv: [v4(0.1, 0.2, 0.3, 0.4), zero, zero, zero],
            weight_type: PMXVertexWeight::BDEF4 {
                bone_index_1: 0,
                bone_index_2: 1,
                bone_index_3: 2,
                bone_index_4: -1,
                bone_weight_1: f(0.4),
                bone_weight_2: f(0.3),
                bone_weight_3: f(0.3),
                bone_weight_4: f(0.0),
            },
            edge_mag: f(1.0),
        },
        PMXVertex {
            position: v3(3.0, 2.0, 0.5),
            norm: v3(1.0, 0.0, 0.0),
            uv: [f(0.3), f(0.7)],
            add_uv: [v4(0.0, 0.0, 0.0, 0.0), zero, zero, zero],
            weight_type: PMXVertexWeight::SDEF {
                bone_index_1: 1,
                bone_index_2: 2,
                bone_weight_1: f(0.6),
                sdef_c: v3(0.0, 1.0, 0.0),
                sdef_r0: v3(0.0, 1.5, 0.0),
                sdef_r1: v3(0.0, 0.5, 0.0),
            },
            edge_mag: f(1.0),
        },
        PMXVertex {
            position: v3(7.0, 2.0, 0.5),
            norm: v3(0.0, -1.0, 0.0),
            uv: [f(0.9), f(0.1)],
            add_uv: [v4(0.5, 0.5, 0.5, 0.5), zero, zero, zero],
            weight_type: PMXVertexWeight::QDEF {
                bone_index_1: 2,
                bone_index_2: 1,
                bone_index_3: 0,
                bone_index_4: 1,
                bone_weight_1: f(0.25),
                bone_weight_2: f(0.25),
                bone_weight_3: f(0.25),
                bone_weight_4: f(0.25),
            },
            edge_mag: f(2.0),
        },
    ]
}

fn sample_faces() -> Vec<PMXFace> {
    vec![
        PMXFace { vertices: [0, 1, 2] },
        PMXFace { vertices: [2, 3, 4] },
        PMXFace { vertices: [4, 65535, 0] },
    ]
}

fn sample_textures() -> Vec<String> {
    vec!["tex/body.png".to_string(), "tex/顔.png".to_string()]
}

fn sample_materials() -> Vec<PMXMaterial> {
    vec![
        PMXMaterial {
            name: "肌".to_string(),
            english_name: "skin".to_string(),
            diffuse: v4(1.0, 0.9, 0.8, 1.0),
            specular: v3(0.1, 0.1, 0.1),
            specular_factor: f(5.0),
            ambient: v3(0.5, 0.45, 0.4),
            draw_mode: 0x11,
            edge_color: v4(0.0, 0.0, 0.0, 1.0),
            edge_size: f(1.0),
            texture_index: 0,
            sphere_mode_texture_index: -1,
            sphere_mode: PMXSphereMode::Disabled,
            toon_mode: PMXToonMode::Common,
            toon_texture_index: 3,
            memo: String::new(),
            num_face_vertices: 6,
        },
        PMXMaterial {
            name: "face".to_string(),
            english_name: "face".to_string(),
            diffuse: v4(1.0, 1.0, 1.0, 1.0),
            specular: v3(0.0, 0.0, 0.0),
            specular_factor: f(1.0),
            ambient: v3(0.6, 0.6, 0.6),
            draw_mode: 0x01,
            edge_color: v4(0.2, 0.1, 0.1, 1.0),
            edge_size: f(0.5),
            texture_index: 1,
            sphere_mode_texture_index: 0,
            sphere_mode: PMXSphereMode::Mul,
            toon_mode: PMXToonMode::Separate,
            toon_texture_index: -1,
            memo: "eyes and mouth".to_string(),
            num_face_vertices: 3,
        },
    ]
}

fn sample_bones() -> Vec<PMXBone> {
    let zero = [0u32; 3];
    vec![
        PMXBone {
            name: "センター".to_string(),
            english_name: "center".to_string(),
            position: v3(0.0, 8.0, 0.0),
            parent: -1,
            deform_depth: 0,
            boneflag: BONE_FLAG_TARGET_SHOW_MODE_MASK | 0x001e,
            offset: zero,
            child: 1,
            append_bone_index: 0,
            append_weight: 0,
            fixed_axis: zero,
            local_axis_x: zero,
            local_axis_z: zero,
            key_value: 0,
            ik_target_index: 0,
            ik_iter_count: 0,
            ik_limit: 0,
            ik_links: Vec::new(),
        },
        PMXBone {
            name: "腕".to_string(),
            english_name: "arm".to_string(),
            position: v3(1.0, 12.0, 0.0),
            parent: 0,
            deform_depth: 1,
            boneflag: BONE_FLAG_APPEND_ROTATE_MASK
                | BONE_FLAG_FIXED_AXIS_MASK
                | BONE_FLAG_LOCAL_AXIS_MASK
                | BONE_FLAG_DEFORM_OUTER_PARENT_MASK,
            offset: v3(2.0, 0.0, 0.0),
            child: 0,
            append_bone_index: 0,
            append_weight: f(0.5),
            fixed_axis: v3(1.0, 0.0, 0.0),
            local_axis_x: v3(1.0, 0.0, 0.0),
            local_axis_z: v3(0.0, 0.0, 1.0),
            key_value: 7,
            ik_target_index: 0,
            ik_iter_count: 0,
            ik_limit: 0,
            ik_links: Vec::new(),
        },
        PMXBone {
            name: "足IK".to_string(),
            english_name: "leg IK".to_string(),
            position: v3(1.0, 1.0, 0.0),
            parent: 0,
            deform_depth: 0,
            boneflag: BONE_FLAG_IK_MASK,
            offset: v3(0.0, 0.0, 1.0),
            child: 0,
            append_bone_index: 0,
            append_weight: 0,
            fixed_axis: zero,
            local_axis_x: zero,
            local_axis_z: zero,
            key_value: 0,
            ik_target_index: 1,
            ik_iter_count: 40,
            ik_limit: f(2.0),
            ik_links: vec![
                PMXIKLink {
                    ik_bone_index: 1,
                    enable_limit: 1,
                    limit_min: v3(-3.14, 0.0, 0.0),
                    limit_max: v3(-0.01, 0.0, 0.0),
                },
                PMXIKLink {
                    ik_bone_index: 0,
                    enable_limit: 0,
                    limit_min: zero,
                    limit_max: zero,
                },
            ],
        },
    ]
}

fn sample_morphs() -> Vec<PMXMorph> {
    vec![
        PMXMorph {
            name: "あ".to_string(),
            english_name: "a".to_string(),
            category: 3,
            morph_type: 1,
            morph_data: vec![
                MorphTypes::Vertex(VertexMorph { index: 0, offset: v3(0.0, -0.1, 0.0) }),
                MorphTypes::Vertex(VertexMorph { index: 4, offset: v3(0.0, 0.1, 0.0) }),
            ],
        },
        PMXMorph {
            name: "bone".to_string(),
            english_name: "bone".to_string(),
            category: 4,
            morph_type: 2,
            morph_data: vec![MorphTypes::Bone(BoneMorph {
                index: 1,
                translates: v3(0.0, 1.0, 0.0),
                rotates: v4(0.0, 0.0, 0.0, 1.0),
            })],
        },
        PMXMorph {
            name: "uv".to_string(),
            english_name: "uv".to_string(),
            category: 4,
            morph_type: 3,
            morph_data: vec![MorphTypes::UV(UVMorph { index: 2, offset: v4(0.1, 0.0, 0.0, 0.0) })],
        },
        PMXMorph {
            name: "uv1".to_string(),
            english_name: "uv1".to_string(),
            category: 4,
            morph_type: 4,
            morph_data: vec![MorphTypes::UV1(UVMorph { index: 3, offset: v4(0.0, 0.2, 0.0, 0.0) })],
        },
        PMXMorph {
            name: "material".to_string(),
            english_name: "material".to_string(),
            category: 4,
            morph_type: 8,
            morph_data: vec![MorphTypes::Material(MaterialMorph {
                index: -1,
                formula: 1,
                diffuse: v4(1.0, 1.0, 1.0, 0.0),
                specular: v3(0.0, 0.0, 0.0),
                specular_factor: f(0.0),
                ambient: v3(0.0, 0.0, 0.0),
                edge_color: v4(0.0, 0.0, 0.0, 0.0),
                edge_size: f(0.0),
                texture_factor: v4(1.0, 1.0, 1.0, 1.0),
                sphere_texture_factor: v4(1.0, 1.0, 1.0, 1.0),
                toon_texture_factor: v4(1.0, 1.0, 1.0, 1.0),
            })],
        },
        PMXMorph {
            name: "group".to_string(),
            english_name: "group".to_string(),
            category: 4,
            morph_type: 0,
            morph_data: vec![
                MorphTypes::Group(GroupMorph { index: 0, morph_factor: f(0.5) }),
                MorphTypes::Group(GroupMorph { index: 1, morph_factor: f(1.0) }),
            ],
        },
    ]
}

fn write_count(w: &mut BinaryWriter, n: usize) {
    w.write_i32(n as i32);
}

fn read_count(r: &mut BinaryReader) -> usize {
    r.read_count().unwrap()
}

fn write_model(
    info: &[String],
    vertices: &[PMXVertex],
    faces: &[PMXFace],
    textures: &[String],
    materials: &[PMXMaterial],
    bones: &[PMXBone],
    morphs: &[PMXMorph],
) -> Vec<u8> {
    let mut w = BinaryWriter::new();
    for t in info {
        w.write_text_buf(t);
    }
    write_count(&mut w, vertices.len());
    for v in vertices {
        w.write_pmx_vertex(ADDITIONAL_UVS, *v, S_BONE);
    }
    write_count(&mut w, faces.len());
    for f in faces {
        w.write_face(S_VERTEX, *f);
    }
    write_count(&mut w, textures.len());
    for t in textures {
        w.write_text_buf(t);
    }
    write_count(&mut w, materials.len());
    for m in materials {
        w.write_pmx_material(S_TEXTURE, m.clone());
    }
    write_count(&mut w, bones.len());
    for b in bones {
        w.write_bone(S_BONE, b.clone());
    }
    write_count(&mut w, morphs.len());
    for m in morphs {
        w.write_pmx_morph(S_VERTEX, S_BONE, S_MATERIAL, S_MORPH, m.clone());
    }
    w.into_bytes()
}

// Reading a written model and writing what was read gives the same bytes.
#[test]
fn copy_reproduces_bytes() {
    let info = vec!["名前".to_string(), "name".to_string(), String::new(), "c".to_string()];
    let first = write_model(
        &info,
        &sample_vertices(),
        &sample_faces(),
        &sample_textures(),
        &sample_materials(),
        &sample_bones(),
        &sample_morphs(),
    );
    let mut r = BinaryReader::new(first.clone());
    let info2: Vec<String> = (0..4).map(|_| r.read_text_buf().unwrap()).collect();
    let n = read_count(&mut r);
    let vertices: Vec<PMXVertex> =
        (0..n).map(|_| r.read_pmx_vertex(ADDITIONAL_UVS, S_BONE).unwrap()).collect();
    let n = read_count(&mut r);
    let faces: Vec<PMXFace> = (0..n).map(|_| r.read_face(S_VERTEX).unwrap()).collect();
    let n = read_count(&mut r);
    let textures: Vec<String> = (0..n).map(|_| r.read_text_buf().unwrap()).collect();
    let n = read_count(&mut r);
    let materials: Vec<PMXMaterial> =
        (0..n).map(|_| r.read_pmx_material(S_TEXTURE).unwrap()).collect();
    let n = read_count(&mut r);
    let bones: Vec<PMXBone> = (0..n).map(|_| r.read_bone(S_BONE).unwrap()).collect();
    let n = read_count(&mut r);
    let morphs: Vec<PMXMorph> = (0..n)
        .map(|_| r.read_pmx_morph(S_VERTEX, S_BONE, S_MATERIAL, S_MORPH).unwrap())
        .collect();
    assert_eq!(r.remaining(), 0);
    let second = write_model(&info2, &vertices, &faces, &textures, &materials, &bones, &morphs);
    assert_eq!(first, second);
}

// Writes the model's parts one after the other, reads them back from the
// written bytes, and checks that every part comes back unchanged.
#[test]
fn copy_test() {
    let model_info = (
        "テストモデル".to_string(),
        "test model".to_string(),
        "コメント".to_string(),
        "comment\nline two".to_string(),
    );
    let vertices = sample_vertices();
    let faces = sample_faces();
    let textures = sample_textures();
    let materials = sample_materials();
    let bones = sample_bones();
    let morphs = sample_morphs();

    let mut writer = BinaryWriter::new();
    writer.write_text_buf(&model_info.0);
    writer.write_text_buf(&model_info.1);
    writer.write_text_buf(&model_info.2);
    writer.write_text_buf(&model_info.3);
    write_count(&mut writer, vertices.len());
    for v in &vertices {
        writer.write_pmx_vertex(ADDITIONAL_UVS, *v, S_BONE);
    }
    write_count(&mut writer, faces.len() * 3);
    for face in &faces {
        writer.write_face(S_VERTEX, *face);
    }
    write_count(&mut writer, textures.len());
    for t in &textures {
        writer.write_text_buf(t);
    }
    write_count(&mut writer, materials.len());
    for m in &materials {
        writer.write_pmx_material(S_TEXTURE, m.clone());
    }
    write_count(&mut writer, bones.len());
    for b in &bones {
        writer.write_bone(S_BONE, b.clone());
    }
    write_count(&mut writer, morphs.len());
    for m in &morphs {
        writer.write_pmx_morph(S_VERTEX, S_BONE, S_MATERIAL, S_MORPH, m.clone());
    }

    let mut reader = BinaryReader::new(writer.into_bytes());
    let model_info_cpy = (
        reader.read_text_buf().unwrap(),
        reader.read_text_buf().unwrap(),
        reader.read_text_buf().unwrap(),
        reader.read_text_buf().unwrap(),
    );
    let n = read_count(&mut reader);
    let vertices_cpy: Vec<PMXVertex> =
        (0..n).map(|_| reader.read_pmx_vertex(ADDITIONAL_UVS, S_BONE).unwrap()).collect();
    let n = read_count(&mut reader) / 3;
    let faces_cpy: Vec<PMXFace> = (0..n).map(|_| reader.read_face(S_VERTEX).unwrap()).collect();
    let n = read_count(&mut reader);
    let textures_cpy: Vec<String> = (0..n).map(|_| reader.read_text_buf().unwrap()).collect();
    let n = read_count(&mut reader);
    let materials_cpy: Vec<PMXMaterial> =
        (0..n).map(|_| reader.read_pmx_material(S_TEXTURE).unwrap()).collect();
    let n = read_count(&mut reader);
    let bones_cpy: Vec<PMXBone> = (0..n).map(|_| reader.read_bone(S_BONE).unwrap()).collect();
    let n = read_count(&mut reader);
    let morphs_cpy: Vec<PMXMorph> = (0..n)
        .map(|_| reader.read_pmx_morph(S_VERTEX, S_BONE, S_MATERIAL, S_MORPH).unwrap())
        .collect();

    assert_eq!(model_info, model_info_cpy);
    assert_eq!(vertices, vertices_cpy);
    assert_eq!(faces, faces_cpy);
    assert_eq!(textures, textures_cpy);
    assert_eq!(materials, materials_cpy);
    assert_eq!(bones, bones_cpy);
    assert_eq!(morphs, morphs_cpy);
    assert_eq!(reader.remaining(), 0);
}
