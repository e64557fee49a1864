//! The law that the bytes a record was read from are exactly the bytes that
//! writing that record again lays out: a copy is byte for byte the same.
use vstd::prelude::*;
use vstd::seq_lib::lemma_concat_associative;
use crate::decoding::{
    parse_u8, parse_u16, parse_i32, parse_float, parse_vec2, parse_vec3, parse_vec4,
    parse_vertex_index, parse_sized, parse_count, parse_text,
};
use crate::pmx_types::{
    Vec3, Vec4, PMXVertexWeight, PMXVertex, PMXFace, PMXMaterialView, PMXIKLink, PMXBoneView,
    VertexMorph, UVMorph, BoneMorph, MaterialMorph, GroupMorph, PMXMorphView,
    BONE_FLAG_TARGET_SHOW_MODE_MASK, BONE_FLAG_IK_MASK, BONE_FLAG_APPEND_ROTATE_MASK,
    BONE_FLAG_APPEND_TRANSLATE_MASK, BONE_FLAG_FIXED_AXIS_MASK, BONE_FLAG_LOCAL_AXIS_MASK,
    BONE_FLAG_DEFORM_OUTER_PARENT_MASK,
};
use crate::decoding::{
    lemma_parse_u8_bytes, lemma_parse_u16_bytes, lemma_parse_i32_bytes, lemma_parse_float_bytes,
    lemma_parse_vec2_bytes, lemma_parse_vec3_bytes, lemma_parse_vec4_bytes,
    lemma_parse_vertex_index_bytes, lemma_parse_sized_bytes, lemma_parse_count_bytes,
    lemma_parse_text_bytes,
};
use crate::encoding::{
    has_all, has_any, le_bytes, index_bytes, float_bytes, int_bytes, text_bytes, vec2_bytes,
    vec3_bytes, vec4_bytes, face_bytes, sphere_mode_code, toon_mode_code, toon_texture_bytes,
    material_bytes, add_uv_bytes, weight_code, weight_bytes, vertex_bytes, ik_link_bytes,
    ik_links_bytes, bone_local_axis_bytes, bone_bytes, vertex_morph_bytes, uv_morph_bytes,
    bone_morph_bytes, material_morph_bytes, group_morph_bytes, morph_entry_bytes,
    morph_entries_bytes, morph_bytes,
};

use crate::record_decoding::{
    parse_face, parse_sphere_mode, parse_toon_mode, parse_toon_texture, parse_material,
    parse_add_uvs, uv_or_zero, uv_slots, parse_weight_body, parse_weight, parse_vertex,
    parse_ik_link, parse_ik_links, parse_opt_vec3, parse_bone_tail, parse_bone_append,
    parse_bone_outer_parent, parse_bone_ik, parse_bone, parse_uv_morph, parse_material_morph,
    parse_morph_entry, parse_morph_entries, parse_morph,
};
use crate::record_roundtrip::{lemma_ik_links_read_fits, lemma_morph_entries_read_fits};

verus! {

/// Whatever bytes were read as a face are the bytes of the face read.
pub proof fn lemma_face_read_bytes(s_vertex_index: u8, bytes: Seq<u8>)
    ensures
        parse_face(s_vertex_index, bytes) matches Some((face, rest)) ==> bytes == face_bytes(
            s_vertex_index,
            face,
        ) + rest,
{
    lemma_parse_vertex_index_bytes(s_vertex_index, bytes);
    if let Some((a, r1)) = parse_vertex_index(s_vertex_index, bytes) {
        lemma_parse_vertex_index_bytes(s_vertex_index, r1);
        if let Some((b, r2)) = parse_vertex_index(s_vertex_index, r1) {
            lemma_parse_vertex_index_bytes(s_vertex_index, r2);
            if let Some((c, r3)) = parse_vertex_index(s_vertex_index, r2) {
                let e1 = index_bytes(s_vertex_index, a);
                let e2 = e1 + index_bytes(s_vertex_index, b);
                let e3 = e2 + index_bytes(s_vertex_index, c);
                lemma_concat_associative(e1, index_bytes(s_vertex_index, b), r2);
                lemma_concat_associative(e2, index_bytes(s_vertex_index, c), r3);
                assert(face_bytes(s_vertex_index, PMXFace { vertices: [a, b, c] }) == e3);
            }
        }
    }
}

pub proof fn lemma_sphere_mode_read_bytes(bytes: Seq<u8>)
    ensures
        parse_sphere_mode(bytes) matches Some((m, rest)) ==> bytes == seq![sphere_mode_code(m)]
            + rest,
{
    lemma_parse_u8_bytes(bytes);
}

pub proof fn lemma_toon_mode_read_bytes(bytes: Seq<u8>)
    ensures
        parse_toon_mode(bytes) matches Some((m, rest)) ==> bytes == seq![toon_mode_code(m)] + rest,
{
    lemma_parse_u8_bytes(bytes);
}

/// Whatever bytes were read as a material are the bytes of the material read.
pub proof fn lemma_material_read_bytes(s_texture_index: u8, bytes: Seq<u8>)
    ensures
        parse_material(s_texture_index, bytes) matches Some((m, rest)) ==> bytes == material_bytes(
            s_texture_index,
            m,
        ) + rest,
{
    lemma_parse_text_bytes(bytes);
    if let Some((name, r1)) = parse_text(bytes) {
        lemma_parse_text_bytes(r1);
        if let Some((english_name, r2)) = parse_text(r1) {
            lemma_parse_vec4_bytes(r2);
            if let Some((diffuse, r3)) = parse_vec4(r2) {
                lemma_parse_vec3_bytes(r3);
                if let Some((specular, r4)) = parse_vec3(r3) {
                    lemma_parse_float_bytes(r4);
                    if let Some((specular_factor, r5)) = parse_float(r4) {
                        lemma_parse_vec3_bytes(r5);
                        if let Some((ambient, r6)) = parse_vec3(r5) {
                            lemma_parse_u8_bytes(r6);
                            if let Some((draw_mode, r7)) = parse_u8(r6) {
                                lemma_parse_vec4_bytes(r7);
                                if let Some((edge_color, r8)) = parse_vec4(r7) {
                                    lemma_parse_float_bytes(r8);
                                    if let Some((edge_size, r9)) = parse_float(r8) {
                                        lemma_parse_sized_bytes(s_texture_index, r9);
                                        if let Some((texture_index, r10)) = parse_sized(s_texture_index, r9) {
                                            lemma_parse_sized_bytes(s_texture_index, r10);
                                            if let Some((sphere_mode_texture_index, r11)) = parse_sized(s_texture_index, r10) {
                                                lemma_sphere_mode_read_bytes(r11);
                                                if let Some((sphere_mode, r12)) = parse_sphere_mode(r11) {
                                                    lemma_toon_mode_read_bytes(r12);
                                                    if let Some((toon_mode, r13)) = parse_toon_mode(r12) {
                                                        lemma_parse_sized_bytes(s_texture_index, r13);
                                                        lemma_parse_sized_bytes(1, r13);
                                                        if let Some((toon_texture_index, r14)) = parse_toon_texture(s_texture_index, toon_mode, r13) {
                                                            lemma_parse_text_bytes(r14);
                                                            if let Some((memo, r15)) = parse_text(r14) {
                                                                lemma_parse_i32_bytes(r15);
                                                                if let Some((num_face_vertices, r16)) = parse_i32(r15) {
                                                                    let m = PMXMaterialView {
                                                                        name,
                                                                        english_name,
                                                                        diffuse,
                                                                        specular,
                                                                        specular_factor,
                                                                        ambient,
                                                                        draw_mode,
                                                                        edge_color,
                                                                        edge_size,
                                                                        texture_index,
                                                                        sphere_mode_texture_index,
                                                                        sphere_mode,
                                                                        toon_mode,
                                                                        toon_texture_index,
                                                                        memo,
                                                                        num_face_vertices,
                                                                    };
                                                                    let e1 = text_bytes(name);
                                                                    let e2 = e1 + text_bytes(english_name);
                                                                    let e3 = e2 + vec4_bytes(diffuse);
                                                                    let e4 = e3 + vec3_bytes(specular);
                                                                    let e5 = e4 + float_bytes(specular_factor);
                                                                    let e6 = e5 + vec3_bytes(ambient);
                                                                    let e7 = e6 + seq![draw_mode];
                                                                    let e8 = e7 + vec4_bytes(edge_color);
                                                                    let e9 = e8 + float_bytes(edge_size);
                                                                    let e10 = e9 + index_bytes(s_texture_index, texture_index);
                                                                    let e11 = e10 + index_bytes(s_texture_index, sphere_mode_texture_index);
                                                                    let e12 = e11 + seq![sphere_mode_code(sphere_mode)];
                                                                    let e13 = e12 + seq![toon_mode_code(toon_mode)];
                                                                    let e14 = e13 + toon_texture_bytes(s_texture_index, m);
                                                                    let e15 = e14 + text_bytes(memo);
                                                                    let e16 = e15 + int_bytes(num_face_vertices as int);
                                                                    lemma_concat_associative(e1, text_bytes(english_name), r2);
                                                                    lemma_concat_associative(e2, vec4_bytes(diffuse), r3);
                                                                    lemma_concat_associative(e3, vec3_bytes(specular), r4);
                                                                    lemma_concat_associative(e4, float_bytes(specular_factor), r5);
                                                                    lemma_concat_associative(e5, vec3_bytes(ambient), r6);
                                                                    lemma_concat_associative(e6, seq![draw_mode], r7);
                                                                    lemma_concat_associative(e7, vec4_bytes(edge_color), r8);
                                                                    lemma_concat_associative(e8, float_bytes(edge_size), r9);
                                                                    lemma_concat_associative(e9, index_bytes(s_texture_index, texture_index), r10);
                                                                    lemma_concat_associative(e10, index_bytes(s_texture_index, sphere_mode_texture_index), r11);
                                                                    lemma_concat_associative(e11, seq![sphere_mode_code(sphere_mode)], r12);
                                                                    lemma_concat_associative(e12, seq![toon_mode_code(toon_mode)], r13);
                                                                    lemma_concat_associative(e13, toon_texture_bytes(s_texture_index, m), r14);
                                                                    lemma_concat_associative(e14, text_bytes(memo), r15);
                                                                    lemma_concat_associative(e15, int_bytes(num_face_vertices as int), r16);
                                                                    assert(material_bytes(s_texture_index, m) == e16);
                                                                }
                                                            }
                                                        }
                                                    }
                                                }
                                            }
                                        }
                                    }
                                }
                            }
                        }
                    }
                }
            }
        }
    }
}

/// Whatever bytes were read as the body of a vertex weight are the bytes of
/// the weight read, and the weight is of the kind given by `code`.
pub proof fn lemma_weight_body_read_bytes(s_bone_index: u8, code: u8, bytes: Seq<u8>)
    ensures
        parse_weight_body(s_bone_index, code, bytes) matches Some((w, rest)) ==> weight_code(w)
            == code && bytes == weight_bytes(s_bone_index, w) + rest,
{
    if code == 0 {
        lemma_parse_sized_bytes(s_bone_index, bytes);
    } else if code == 1 {
        lemma_weight_bdef2_read_bytes(s_bone_index, code, bytes);
    } else if code == 2 || code == 4 {
        lemma_weight_four_read_bytes(s_bone_index, code, bytes);
    } else if code == 3 {
        lemma_weight_sdef_read_bytes(s_bone_index, code, bytes);
    }
}

proof fn lemma_weight_bdef2_read_bytes(s_bone_index: u8, code: u8, bytes: Seq<u8>)
    requires
        code == 1,
    ensures
        parse_weight_body(s_bone_index, code, bytes) matches Some((w, rest)) ==> weight_code(w)
            == code && bytes == weight_bytes(s_bone_index, w) + rest,
{
    lemma_parse_sized_bytes(s_bone_index, bytes);
    if let Some((bone_index_1, r1)) = parse_sized(s_bone_index, bytes) {
        lemma_parse_sized_bytes(s_bone_index, r1);
        if let Some((bone_index_2, r2)) = parse_sized(s_bone_index, r1) {
            lemma_parse_float_bytes(r2);
            if let Some((bone_weight_1, r3)) = parse_float(r2) {
                let e1 = index_bytes(s_bone_index, bone_index_1);
                let e2 = e1 + index_bytes(s_bone_index, bone_index_2);
                let e3 = e2 + float_bytes(bone_weight_1);
                lemma_concat_associative(e1, index_bytes(s_bone_index, bone_index_2), r2);
                lemma_concat_associative(e2, float_bytes(bone_weight_1), r3);
                assert(weight_bytes(s_bone_index, PMXVertexWeight::BDEF2 { bone_index_1, bone_index_2, bone_weight_1 }) == e3);
            }
        }
    }
}

proof fn lemma_weight_four_read_bytes(s_bone_index: u8, code: u8, bytes: Seq<u8>)
    requires
        code == 2 || code == 4,
    ensures
        parse_weight_body(s_bone_index, code, bytes) matches Some((w, rest)) ==> weight_code(w)
            == code && bytes == weight_bytes(s_bone_index, w) + rest,
{
    lemma_parse_sized_bytes(s_bone_index, bytes);
    if let Some((bone_index_1, r1)) = parse_sized(s_bone_index, bytes) {
        lemma_parse_sized_bytes(s_bone_index, r1);
        if let Some((bone_index_2, r2)) = parse_sized(s_bone_index, r1) {
            lemma_parse_sized_bytes(s_bone_index, r2);
            if let Some((bone_index_3, r3)) = parse_sized(s_bone_index, r2) {
                lemma_parse_sized_bytes(s_bone_index, r3);
                if let Some((bone_index_4, r4)) = parse_sized(s_bone_index, r3) {
                    lemma_parse_float_bytes(r4);
                    if let Some((bone_weight_1, r5)) = parse_float(r4) {
                        lemma_parse_float_bytes(r5);
                        if let Some((bone_weight_2, r6)) = parse_float(r5) {
                            lemma_parse_float_bytes(r6);
                            if let Some((bone_weight_3, r7)) = parse_float(r6) {
                                lemma_parse_float_bytes(r7);
                                if let Some((bone_weight_4, r8)) = parse_float(r7) {
                                    let w = if code == 2 {
                                        PMXVertexWeight::BDEF4 {
                                            bone_index_1,
                                            bone_index_2,
                                            bone_index_3,
                                            bone_index_4,
                                            bone_weight_1,
                                            bone_weight_2,
                                            bone_weight_3,
                                            bone_weight_4,
                                        }
                                    } else {
                                        PMXVertexWeight::QDEF {
                                            bone_index_1,
                                            bone_index_2,
                                            bone_index_3,
                                            bone_index_4,
                                            bone_weight_1,
                                            bone_weight_2,
                                            bone_weight_3,
                                            bone_weight_4,
                                        }
                                    };
                                    let e1 = index_bytes(s_bone_index, bone_index_1);
                                    let e2 = e1 + index_bytes(s_bone_index, bone_index_2);
                                    let e3 = e2 + index_bytes(s_bone_index, bone_index_3);
                                    let e4 = e3 + index_bytes(s_bone_index, bone_index_4);
                                    let e5 = e4 + float_bytes(bone_weight_1);
                                    let e6 = e5 + float_bytes(bone_weight_2);
                                    let e7 = e6 + float_bytes(bone_weight_3);
                                    let e8 = e7 + float_bytes(bone_weight_4);
                                    lemma_concat_associative(e1, index_bytes(s_bone_index, bone_index_2), r2);
                                    lemma_concat_associative(e2, index_bytes(s_bone_index, bone_index_3), r3);
                                    lemma_concat_associative(e3, index_bytes(s_bone_index, bone_index_4), r4);
                                    lemma_concat_associative(e4, float_bytes(bone_weight_1), r5);
                                    lemma_concat_associative(e5, float_bytes(bone_weight_2), r6);
                                    lemma_concat_associative(e6, float_bytes(bone_weight_3), r7);
                                    lemma_concat_associative(e7, float_bytes(bone_weight_4), r8);
                                    assert(weight_bytes(s_bone_index, w) == e8);
                                }
                            }
                        }
                    }
                }
            }
        }
    }
}

#[verifier::rlimit(30)]
proof fn lemma_weight_sdef_read_bytes(s_bone_index: u8, code: u8, bytes: Seq<u8>)
    requires
        code == 3,
    ensures
        parse_weight_body(s_bone_index, code, bytes) matches Some((w, rest)) ==> weight_code(w)
            == code && bytes == weight_bytes(s_bone_index, w) + rest,
{
    lemma_parse_sized_bytes(s_bone_index, bytes);
    if let Some((bone_index_1, r1)) = parse_sized(s_bone_index, bytes) {
        lemma_parse_sized_bytes(s_bone_index, r1);
        if let Some((bone_index_2, r2)) = parse_sized(s_bone_index, r1) {
            lemma_parse_float_bytes(r2);
            if let Some((bone_weight_1, r3)) = parse_float(r2) {
                lemma_parse_vec3_bytes(r3);
                if let Some((sdef_c, r4)) = parse_vec3(r3) {
                    lemma_parse_vec3_bytes(r4);
                    if let Some((sdef_r0, r5)) = parse_vec3(r4) {
                        lemma_parse_vec3_bytes(r5);
                        if let Some((sdef_r1, r6)) = parse_vec3(r5) {
                            let e1 = index_bytes(s_bone_index, bone_index_1);
                            let e2 = e1 + index_bytes(s_bone_index, bone_index_2);
                            let e3 = e2 + float_bytes(bone_weight_1);
                            let e4 = e3 + vec3_bytes(sdef_c);
                            let e5 = e4 + vec3_bytes(sdef_r0);
                            let e6 = e5 + vec3_bytes(sdef_r1);
                            lemma_concat_associative(e1, index_bytes(s_bone_index, bone_index_2), r2);
                            lemma_concat_associative(e2, float_bytes(bone_weight_1), r3);
                            lemma_concat_associative(e3, vec3_bytes(sdef_c), r4);
                            lemma_concat_associative(e4, vec3_bytes(sdef_r0), r5);
                            lemma_concat_associative(e5, vec3_bytes(sdef_r1), r6);
                            assert(weight_bytes(s_bone_index, PMXVertexWeight::SDEF { bone_index_1, bone_index_2, bone_weight_1, sdef_c, sdef_r0, sdef_r1 }) == e6);
                        }
                    }
                }
            }
        }
    }
}

/// Whatever bytes were read as a vertex weight are its kind's code and the
/// bytes of the weight read.
pub proof fn lemma_weight_read_bytes(s_bone_index: u8, bytes: Seq<u8>)
    ensures
        parse_weight(s_bone_index, bytes) matches Some((w, rest)) ==> bytes == seq![weight_code(w)]
            + (weight_bytes(s_bone_index, w) + rest),
{
    lemma_parse_u8_bytes(bytes);
    if let Some((code, r1)) = parse_u8(bytes) {
        lemma_weight_body_read_bytes(s_bone_index, code, r1);
    }
}

/// Whatever bytes were read as additional UV sets are the bytes of the sets read.
pub proof fn lemma_add_uvs_read_bytes(bytes: Seq<u8>, n: nat)
    ensures
        parse_add_uvs(bytes, n) matches Some((uvs, rest)) ==> uvs.len() == n && bytes
            == add_uv_bytes(uvs, n) + rest,
    decreases n,
{
    if n == 0 {
        assert(bytes =~= add_uv_bytes(seq![], 0) + bytes);
    } else {
        lemma_add_uvs_read_bytes(bytes, (n - 1) as nat);
        if let Some((init, r1)) = parse_add_uvs(bytes, (n - 1) as nat) {
            lemma_parse_vec4_bytes(r1);
            if let Some((v, r2)) = parse_vec4(r1) {
                let uvs = init.push(v);
                lemma_add_uv_bytes_prefix(init, uvs, (n - 1) as nat);
                lemma_concat_associative(add_uv_bytes(init, (n - 1) as nat), vec4_bytes(v), r2);
            }
        }
    }
}

/// The bytes of the first `n` UV sets depend only on those sets.
pub proof fn lemma_add_uv_bytes_prefix(a: Seq<Vec4>, b: Seq<Vec4>, n: nat)
    requires
        n <= a.len(),
        n <= b.len(),
        forall|i: int| 0 <= i < n ==> a[i] == b[i],
    ensures
        add_uv_bytes(a, n) == add_uv_bytes(b, n),
    decreases n,
{
    if n > 0 {
        lemma_add_uv_bytes_prefix(a, b, (n - 1) as nat);
    }
}

/// Whatever bytes were read as a vertex are the bytes of the vertex read.
#[verifier::rlimit(50)]
pub proof fn lemma_vertex_read_bytes(additional_uvs: u8, s_bone_index: u8, bytes: Seq<u8>)
    requires
        additional_uvs <= 4,
    ensures
        parse_vertex(additional_uvs, s_bone_index, bytes) matches Some((v, rest)) ==> bytes
            == vertex_bytes(additional_uvs, v, s_bone_index) + rest,
{
    lemma_parse_vec3_bytes(bytes);
    if let Some((position, r1)) = parse_vec3(bytes) {
        lemma_parse_vec3_bytes(r1);
        if let Some((norm, r2)) = parse_vec3(r1) {
            lemma_parse_vec2_bytes(r2);
            if let Some((uv, r3)) = parse_vec2(r2) {
                lemma_add_uvs_read_bytes(r3, additional_uvs as nat);
                if let Some((uvs, r4)) = parse_add_uvs(r3, additional_uvs as nat) {
                    lemma_weight_read_bytes(s_bone_index, r4);
                    if let Some((weight_type, r5)) = parse_weight(s_bone_index, r4) {
                        lemma_parse_float_bytes(r5);
                        if let Some((edge_mag, r6)) = parse_float(r5) {
                            let e1 = vec3_bytes(position);
                            let e2 = e1 + vec3_bytes(norm);
                            let e3 = e2 + vec2_bytes(uv);
                            let e4 = e3 + add_uv_bytes(uvs, additional_uvs as nat);
                            let e5 = e4 + (seq![weight_code(weight_type)] + weight_bytes(s_bone_index, weight_type));
                            let e6 = e5 + float_bytes(edge_mag);
                            lemma_concat_associative(e1, vec3_bytes(norm), r2);
                            lemma_concat_associative(e2, vec2_bytes(uv), r3);
                            lemma_concat_associative(e3, add_uv_bytes(uvs, additional_uvs as nat), r4);
                            lemma_concat_associative(e4, (seq![weight_code(weight_type)] + weight_bytes(s_bone_index, weight_type)), r5);
                            lemma_concat_associative(e5, float_bytes(edge_mag), r6);
                            let v = PMXVertex { position, norm, uv, add_uv: uv_slots(uvs), weight_type, edge_mag };
                            lemma_uv_slots_of_read(uvs);
                            lemma_add_uv_bytes_prefix(uvs, v.add_uv@, additional_uvs as nat);
                            lemma_concat_associative(e4, seq![weight_code(weight_type)], weight_bytes(s_bone_index, weight_type));
                            assert(vertex_bytes(additional_uvs, v, s_bone_index) == e6);
                        }
                    }
                }
            }
        }
    }
}

/// The UV slots filled from at most four sets start with those sets.
pub proof fn lemma_uv_slots_of_read(uvs: Seq<Vec4>)
    requires
        uvs.len() <= 4,
    ensures
        forall|i: int| 0 <= i < uvs.len() ==> uv_slots(uvs)@[i] == uvs[i],
{
    let a = uv_slots(uvs);
    assert(a[0] == uv_or_zero(uvs, 0));
    assert(a[1] == uv_or_zero(uvs, 1));
    assert(a[2] == uv_or_zero(uvs, 2));
    assert(a[3] == uv_or_zero(uvs, 3));
}

/// Whatever bytes were read as an IK link are the bytes of the link read.
pub proof fn lemma_ik_link_read_bytes(s_bone_index: u8, bytes: Seq<u8>)
    ensures
        parse_ik_link(s_bone_index, bytes) matches Some((link, rest)) ==> bytes == ik_link_bytes(
            s_bone_index,
            link,
        ) + rest,
{
    lemma_parse_sized_bytes(s_bone_index, bytes);
    if let Some((ik_bone_index, r1)) = parse_sized(s_bone_index, bytes) {
        lemma_parse_u8_bytes(r1);
        if let Some((enable_limit, r2)) = parse_u8(r1) {
            let head = index_bytes(s_bone_index, ik_bone_index);
            lemma_concat_associative(head, seq![enable_limit], r2);
            if enable_limit == 1 {
                lemma_parse_vec3_bytes(r2);
                if let Some((limit_min, r3)) = parse_vec3(r2) {
                    lemma_parse_vec3_bytes(r3);
                    if let Some((limit_max, r4)) = parse_vec3(r3) {
                        let limits = vec3_bytes(limit_min) + vec3_bytes(limit_max);
                        lemma_concat_associative(vec3_bytes(limit_min), vec3_bytes(limit_max), r4);
                        lemma_concat_associative(head + seq![enable_limit], limits, r4);
                    }
                }
            } else {
                assert(head + seq![enable_limit] + Seq::<u8>::empty() =~= head + seq![enable_limit]);
            }
        }
    }
}

/// Whatever bytes were read as IK links are the bytes of the links read.
pub proof fn lemma_ik_links_read_bytes(s_bone_index: u8, bytes: Seq<u8>, n: nat)
    ensures
        parse_ik_links(s_bone_index, bytes, n) matches Some((links, rest)) ==> bytes
            == ik_links_bytes(s_bone_index, links) + rest,
    decreases n,
{
    if n == 0 {
        assert(bytes =~= ik_links_bytes(s_bone_index, seq![]) + bytes);
    } else {
        lemma_ik_links_read_bytes(s_bone_index, bytes, (n - 1) as nat);
        if let Some((init, r1)) = parse_ik_links(s_bone_index, bytes, (n - 1) as nat) {
            lemma_ik_link_read_bytes(s_bone_index, r1);
            if let Some((link, r2)) = parse_ik_link(s_bone_index, r1) {
                let links = init.push(link);
                assert(links.drop_last() =~= init);
                lemma_concat_associative(
                    ik_links_bytes(s_bone_index, init),
                    ik_link_bytes(s_bone_index, link),
                    r2,
                );
            }
        }
    }
}

/// The bytes of a bone's tail as the flags lay it out.
pub open spec fn tail_bytes(s_bone_index: u8, flags: u16, child: i32, offset: Vec3) -> Seq<u8> {
    if has_all(flags, BONE_FLAG_TARGET_SHOW_MODE_MASK) {
        index_bytes(s_bone_index, child)
    } else {
        vec3_bytes(offset)
    }
}

pub proof fn lemma_bone_tail_read_bytes(s_bone_index: u8, flags: u16, bytes: Seq<u8>)
    ensures
        parse_bone_tail(s_bone_index, flags, bytes) matches Some((t, rest)) ==> bytes
            == tail_bytes(s_bone_index, flags, t.0, t.1) + rest,
{
    lemma_parse_sized_bytes(s_bone_index, bytes);
    lemma_parse_vec3_bytes(bytes);
}

/// The bytes of a bone's inherited bone and weight as the flags lay them out.
pub open spec fn append_bytes(s_bone_index: u8, flags: u16, index: i32, weight: u32) -> Seq<u8> {
    if has_any(flags, BONE_FLAG_APPEND_ROTATE_MASK | BONE_FLAG_APPEND_TRANSLATE_MASK) {
        index_bytes(s_bone_index, index) + float_bytes(weight)
    } else {
        seq![]
    }
}

pub proof fn lemma_bone_append_read_bytes(s_bone_index: u8, flags: u16, bytes: Seq<u8>)
    ensures
        parse_bone_append(s_bone_index, flags, bytes) matches Some((a, rest)) ==> bytes
            == append_bytes(s_bone_index, flags, a.0, a.1) + rest,
{
    if has_any(flags, BONE_FLAG_APPEND_ROTATE_MASK | BONE_FLAG_APPEND_TRANSLATE_MASK) {
        lemma_parse_sized_bytes(s_bone_index, bytes);
        if let Some((index, r1)) = parse_sized(s_bone_index, bytes) {
            lemma_parse_float_bytes(r1);
            if let Some((weight, r2)) = parse_float(r1) {
                lemma_concat_associative(index_bytes(s_bone_index, index), float_bytes(weight), r2);
            }
        }
    } else {
        assert(bytes =~= Seq::<u8>::empty() + bytes);
    }
}

/// Three components when `present`, else nothing.
pub open spec fn opt_vec3_bytes(present: bool, v: Vec3) -> Seq<u8> {
    if present {
        vec3_bytes(v)
    } else {
        seq![]
    }
}

pub proof fn lemma_opt_vec3_read_bytes(present: bool, bytes: Seq<u8>)
    ensures
        parse_opt_vec3(present, bytes) matches Some((v, rest)) ==> bytes == opt_vec3_bytes(
            present,
            v,
        ) + rest,
{
    lemma_parse_vec3_bytes(bytes);
    if !present {
        assert(bytes =~= Seq::<u8>::empty() + bytes);
    }
}

pub proof fn lemma_bone_outer_parent_read_bytes(flags: u16, bytes: Seq<u8>)
    ensures
        parse_bone_outer_parent(flags, bytes) matches Some((key, rest)) ==> bytes == (if has_any(
            flags,
            BONE_FLAG_DEFORM_OUTER_PARENT_MASK,
        ) {
            int_bytes(key as int)
        } else {
            seq![]
        }) + rest,
{
    lemma_parse_i32_bytes(bytes);
    if !has_any(flags, BONE_FLAG_DEFORM_OUTER_PARENT_MASK) {
        assert(bytes =~= Seq::<u8>::empty() + bytes);
    }
}

/// The bytes of a bone's IK chain as the flags lay it out.
pub open spec fn ik_bytes(
    s_bone_index: u8,
    flags: u16,
    target: i32,
    iter: i32,
    limit: u32,
    links: Seq<PMXIKLink>,
) -> Seq<u8> {
    if has_all(flags, BONE_FLAG_IK_MASK) {
        index_bytes(s_bone_index, target) + int_bytes(iter as int) + float_bytes(limit) + int_bytes(
            links.len() as int,
        ) + ik_links_bytes(s_bone_index, links)
    } else {
        seq![]
    }
}

pub proof fn lemma_bone_ik_read_bytes(s_bone_index: u8, flags: u16, bytes: Seq<u8>)
    ensures
        parse_bone_ik(s_bone_index, flags, bytes) matches Some((ik, rest)) ==> bytes == ik_bytes(
            s_bone_index,
            flags,
            ik.0,
            ik.1,
            ik.2,
            ik.3,
        ) + rest,
{
    if has_all(flags, BONE_FLAG_IK_MASK) {
        lemma_parse_sized_bytes(s_bone_index, bytes);
        if let Some((target, r1)) = parse_sized(s_bone_index, bytes) {
            lemma_parse_i32_bytes(r1);
            if let Some((iter, r2)) = parse_i32(r1) {
                lemma_parse_float_bytes(r2);
                if let Some((limit, r3)) = parse_float(r2) {
                    lemma_parse_count_bytes(r3);
                    if let Some((count, r4)) = parse_count(r3) {
                        lemma_ik_links_read_bytes(s_bone_index, r4, count);
                        lemma_ik_links_read_fits(s_bone_index, r4, count);
                        if let Some((links, r5)) = parse_ik_links(s_bone_index, r4, count) {
                            let e1 = index_bytes(s_bone_index, target);
                            let e2 = e1 + int_bytes(iter as int);
                            let e3 = e2 + float_bytes(limit);
                            let e4 = e3 + int_bytes(count as int);
                            let e5 = e4 + ik_links_bytes(s_bone_index, links);
                            lemma_concat_associative(e1, int_bytes(iter as int), r2);
                            lemma_concat_associative(e2, float_bytes(limit), r3);
                            lemma_concat_associative(e3, int_bytes(count as int), r4);
                            lemma_concat_associative(e4, ik_links_bytes(s_bone_index, links), r5);
                            assert(ik_bytes(s_bone_index, flags, target, iter, limit, links) == e5);
                        }
                    }
                }
            }
        }
    } else {
        assert(bytes =~= Seq::<u8>::empty() + bytes);
    }
}

/// Whatever bytes were read as a bone are the bytes of the bone read.
#[verifier::rlimit(50)]
pub proof fn lemma_bone_read_bytes(s_bone_index: u8, bytes: Seq<u8>)
    ensures
        parse_bone(s_bone_index, bytes) matches Some((b, rest)) ==> bytes == bone_bytes(
            s_bone_index,
            b,
        ) + rest,
{
    lemma_parse_text_bytes(bytes);
    if let Some((name, r1)) = parse_text(bytes) {
        lemma_parse_text_bytes(r1);
        if let Some((english_name, r2)) = parse_text(r1) {
            lemma_parse_vec3_bytes(r2);
            if let Some((position, r3)) = parse_vec3(r2) {
                lemma_parse_sized_bytes(s_bone_index, r3);
                if let Some((parent, r4)) = parse_sized(s_bone_index, r3) {
                    lemma_parse_i32_bytes(r4);
                    if let Some((deform_depth, r5)) = parse_i32(r4) {
                        lemma_parse_u16_bytes(r5);
                        if let Some((boneflag, r6)) = parse_u16(r5) {
                            lemma_bone_tail_read_bytes(s_bone_index, boneflag, r6);
                            if let Some((tail, r7)) = parse_bone_tail(s_bone_index, boneflag, r6) {
                                lemma_bone_append_read_bytes(s_bone_index, boneflag, r7);
                                if let Some((append, r8)) = parse_bone_append(s_bone_index, boneflag, r7) {
                                    lemma_opt_vec3_read_bytes(has_all(boneflag, BONE_FLAG_FIXED_AXIS_MASK), r8);
                                    if let Some((fixed_axis, r9)) = parse_opt_vec3(has_all(boneflag, BONE_FLAG_FIXED_AXIS_MASK), r8) {
                                        lemma_opt_vec3_read_bytes(has_all(boneflag, BONE_FLAG_LOCAL_AXIS_MASK), r9);
                                        if let Some((local_axis_x, r10)) = parse_opt_vec3(has_all(boneflag, BONE_FLAG_LOCAL_AXIS_MASK), r9) {
                                            lemma_opt_vec3_read_bytes(has_all(boneflag, BONE_FLAG_LOCAL_AXIS_MASK), r10);
                                            if let Some((local_axis_z, r11)) = parse_opt_vec3(has_all(boneflag, BONE_FLAG_LOCAL_AXIS_MASK), r10) {
                                                lemma_bone_outer_parent_read_bytes(boneflag, r11);
                                                if let Some((key_value, r12)) = parse_bone_outer_parent(boneflag, r11) {
                                                    lemma_bone_ik_read_bytes(s_bone_index, boneflag, r12);
                                                    if let Some((ik, r13)) = parse_bone_ik(s_bone_index, boneflag, r12) {
                                                        let e1 = text_bytes(name);
                                                        let e2 = e1 + text_bytes(english_name);
                                                        let e3 = e2 + vec3_bytes(position);
                                                        let e4 = e3 + index_bytes(s_bone_index, parent);
                                                        let e5 = e4 + int_bytes(deform_depth as int);
                                                        let e6 = e5 + le_bytes(boneflag as int, 2);
                                                        let e7 = e6 + tail_bytes(s_bone_index, boneflag, tail.0, tail.1);
                                                        let e8 = e7 + append_bytes(s_bone_index, boneflag, append.0, append.1);
                                                        let e9 = e8 + opt_vec3_bytes(has_all(boneflag, BONE_FLAG_FIXED_AXIS_MASK), fixed_axis);
                                                        let e10 = e9 + opt_vec3_bytes(has_all(boneflag, BONE_FLAG_LOCAL_AXIS_MASK), local_axis_x);
                                                        let e11 = e10 + opt_vec3_bytes(has_all(boneflag, BONE_FLAG_LOCAL_AXIS_MASK), local_axis_z);
                                                        let e12 = e11 + (if has_any(boneflag, BONE_FLAG_DEFORM_OUTER_PARENT_MASK) { int_bytes(key_value as int) } else { seq![] });
                                                        let e13 = e12 + ik_bytes(s_bone_index, boneflag, ik.0, ik.1, ik.2, ik.3);
                                                        lemma_concat_associative(e1, text_bytes(english_name), r2);
                                                        lemma_concat_associative(e2, vec3_bytes(position), r3);
                                                        lemma_concat_associative(e3, index_bytes(s_bone_index, parent), r4);
                                                        lemma_concat_associative(e4, int_bytes(deform_depth as int), r5);
                                                        lemma_concat_associative(e5, le_bytes(boneflag as int, 2), r6);
                                                        lemma_concat_associative(e6, tail_bytes(s_bone_index, boneflag, tail.0, tail.1), r7);
                                                        lemma_concat_associative(e7, append_bytes(s_bone_index, boneflag, append.0, append.1), r8);
                                                        lemma_concat_associative(e8, opt_vec3_bytes(has_all(boneflag, BONE_FLAG_FIXED_AXIS_MASK), fixed_axis), r9);
                                                        lemma_concat_associative(e9, opt_vec3_bytes(has_all(boneflag, BONE_FLAG_LOCAL_AXIS_MASK), local_axis_x), r10);
                                                        lemma_concat_associative(e10, opt_vec3_bytes(has_all(boneflag, BONE_FLAG_LOCAL_AXIS_MASK), local_axis_z), r11);
                                                        lemma_concat_associative(e11, (if has_any(boneflag, BONE_FLAG_DEFORM_OUTER_PARENT_MASK) { int_bytes(key_value as int) } else { seq![] }), r12);
                                                        lemma_concat_associative(e12, ik_bytes(s_bone_index, boneflag, ik.0, ik.1, ik.2, ik.3), r13);
                                                        let b = PMXBoneView {
                                                            name,
                                                            english_name,
                                                            position,
                                                            parent,
                                                            deform_depth,
                                                            boneflag,
                                                            offset: tail.1,
                                                            child: tail.0,
                                                            append_bone_index: append.0,
                                                            append_weight: append.1,
                                                            fixed_axis,
                                                            local_axis_x,
                                                            local_axis_z,
                                                            key_value,
                                                            ik_target_index: ik.0,
                                                            ik_iter_count: ik.1,
                                                            ik_limit: ik.2,
                                                            ik_links: ik.3,
                                                        };
                                                        let lx = opt_vec3_bytes(has_all(boneflag, BONE_FLAG_LOCAL_AXIS_MASK), local_axis_x);
                                                        let lz = opt_vec3_bytes(has_all(boneflag, BONE_FLAG_LOCAL_AXIS_MASK), local_axis_z);
                                                        lemma_concat_associative(e9, lx, lz);
                                                        assert(lx + lz =~= bone_local_axis_bytes(b));
                                                        assert(bone_bytes(s_bone_index, b) == e13);
                                                    }
                                                }
                                            }
                                        }
                                    }
                                }
                            }
                        }
                    }
                }
            }
        }
    }
}

pub proof fn lemma_uv_morph_read_bytes(s_vertex_index: u8, bytes: Seq<u8>)
    ensures
        parse_uv_morph(s_vertex_index, bytes) matches Some((m, rest)) ==> bytes == uv_morph_bytes(
            s_vertex_index,
            m,
        ) + rest,
{
    lemma_parse_sized_bytes(s_vertex_index, bytes);
    if let Some((index, r1)) = parse_sized(s_vertex_index, bytes) {
        lemma_parse_vec4_bytes(r1);
        if let Some((offset, r2)) = parse_vec4(r1) {
            let e1 = index_bytes(s_vertex_index, index);
            let e2 = e1 + vec4_bytes(offset);
            lemma_concat_associative(e1, vec4_bytes(offset), r2);
            assert(uv_morph_bytes(s_vertex_index, UVMorph { index, offset }) == e2);
        }
    }
}

pub proof fn lemma_material_morph_read_bytes(s_material_index: u8, bytes: Seq<u8>)
    ensures
        parse_material_morph(s_material_index, bytes) matches Some((m, rest)) ==> bytes
            == material_morph_bytes(s_material_index, m) + rest,
{
    lemma_parse_sized_bytes(s_material_index, bytes);
    if let Some((index, r1)) = parse_sized(s_material_index, bytes) {
        lemma_parse_u8_bytes(r1);
        if let Some((formula, r2)) = parse_u8(r1) {
            lemma_parse_vec4_bytes(r2);
            if let Some((diffuse, r3)) = parse_vec4(r2) {
                lemma_parse_vec3_bytes(r3);
                if let Some((specular, r4)) = parse_vec3(r3) {
                    lemma_parse_float_bytes(r4);
                    if let Some((specular_factor, r5)) = parse_float(r4) {
                        lemma_parse_vec3_bytes(r5);
                        if let Some((ambient, r6)) = parse_vec3(r5) {
                            lemma_parse_vec4_bytes(r6);
                            if let Some((edge_color, r7)) = parse_vec4(r6) {
                                lemma_parse_float_bytes(r7);
                                if let Some((edge_size, r8)) = parse_float(r7) {
                                    lemma_parse_vec4_bytes(r8);
                                    if let Some((texture_factor, r9)) = parse_vec4(r8) {
                                        lemma_parse_vec4_bytes(r9);
                                        if let Some((sphere_texture_factor, r10)) = parse_vec4(r9) {
                                            lemma_parse_vec4_bytes(r10);
                                            if let Some((toon_texture_factor, r11)) = parse_vec4(r10) {
                                                let m = MaterialMorph {
                                                    index,
                                                    formula,
                                                    diffuse,
                                                    specular,
                                                    specular_factor,
                                                    ambient,
                                                    edge_color,
                                                    edge_size,
                                                    texture_factor,
                                                    sphere_texture_factor,
                                                    toon_texture_factor,
                                                };
                                                let e1 = index_bytes(s_material_index, index);
                                                let e2 = e1 + seq![formula];
                                                let e3 = e2 + vec4_bytes(diffuse);
                                                let e4 = e3 + vec3_bytes(specular);
                                                let e5 = e4 + float_bytes(specular_factor);
                                                let e6 = e5 + vec3_bytes(ambient);
                                                let e7 = e6 + vec4_bytes(edge_color);
                                                let e8 = e7 + float_bytes(edge_size);
                                                let e9 = e8 + vec4_bytes(texture_factor);
                                                let e10 = e9 + vec4_bytes(sphere_texture_factor);
                                                let e11 = e10 + vec4_bytes(toon_texture_factor);
                                                lemma_concat_associative(e1, seq![formula], r2);
                                                lemma_concat_associative(e2, vec4_bytes(diffuse), r3);
                                                lemma_concat_associative(e3, vec3_bytes(specular), r4);
                                                lemma_concat_associative(e4, float_bytes(specular_factor), r5);
                                                lemma_concat_associative(e5, vec3_bytes(ambient), r6);
                                                lemma_concat_associative(e6, vec4_bytes(edge_color), r7);
                                                lemma_concat_associative(e7, float_bytes(edge_size), r8);
                                                lemma_concat_associative(e8, vec4_bytes(texture_factor), r9);
                                                lemma_concat_associative(e9, vec4_bytes(sphere_texture_factor), r10);
                                                lemma_concat_associative(e10, vec4_bytes(toon_texture_factor), r11);
                                                assert(material_morph_bytes(s_material_index, m) == e11);
                                            }
                                        }
                                    }
                                }
                            }
                        }
                    }
                }
            }
        }
    }
}

/// Whatever bytes were read as a morph entry are the bytes of the entry read.
pub proof fn lemma_morph_entry_read_bytes(
    kind: u8,
    s_vertex_index: u8,
    s_bone_index: u8,
    s_material_index: u8,
    s_morph_index: u8,
    bytes: Seq<u8>,
)
    ensures
        parse_morph_entry(kind, s_vertex_index, s_bone_index, s_material_index, s_morph_index, bytes) matches Some((e, rest))
            ==> bytes == morph_entry_bytes(s_vertex_index, s_bone_index, s_material_index, s_morph_index, e) + rest,
{
    if kind == 0 {
        lemma_group_entry_read_bytes(kind, s_vertex_index, s_bone_index, s_material_index, s_morph_index, bytes);
    } else if kind == 1 {
        lemma_vertex_entry_read_bytes(kind, s_vertex_index, s_bone_index, s_material_index, s_morph_index, bytes);
    } else if kind == 2 {
        lemma_bone_entry_read_bytes(kind, s_vertex_index, s_bone_index, s_material_index, s_morph_index, bytes);
    } else if 3 <= kind <= 7 {
        lemma_uv_entry_read_bytes(kind, s_vertex_index, s_bone_index, s_material_index, s_morph_index, bytes);
    } else if kind == 8 {
        lemma_material_entry_read_bytes(kind, s_vertex_index, s_bone_index, s_material_index, s_morph_index, bytes);
    }
}

proof fn lemma_uv_entry_read_bytes(
    kind: u8,
    s_vertex_index: u8,
    s_bone_index: u8,
    s_material_index: u8,
    s_morph_index: u8,
    bytes: Seq<u8>,
)
    requires
        3 <= kind <= 7,
    ensures
        parse_morph_entry(kind, s_vertex_index, s_bone_index, s_material_index, s_morph_index, bytes) matches Some((e, rest))
            ==> bytes == morph_entry_bytes(s_vertex_index, s_bone_index, s_material_index, s_morph_index, e) + rest,
{
    lemma_uv_morph_read_bytes(s_vertex_index, bytes);
}

#[verifier::rlimit(50)]
proof fn lemma_material_entry_read_bytes(
    kind: u8,
    s_vertex_index: u8,
    s_bone_index: u8,
    s_material_index: u8,
    s_morph_index: u8,
    bytes: Seq<u8>,
)
    requires
        kind == 8,
    ensures
        parse_morph_entry(kind, s_vertex_index, s_bone_index, s_material_index, s_morph_index, bytes) matches Some((e, rest))
            ==> bytes == morph_entry_bytes(s_vertex_index, s_bone_index, s_material_index, s_morph_index, e) + rest,
{
    lemma_material_morph_read_bytes(s_material_index, bytes);
}

proof fn lemma_group_entry_read_bytes(
    kind: u8,
    s_vertex_index: u8,
    s_bone_index: u8,
    s_material_index: u8,
    s_morph_index: u8,
    bytes: Seq<u8>,
)
    requires
        kind == 0,
    ensures
        parse_morph_entry(kind, s_vertex_index, s_bone_index, s_material_index, s_morph_index, bytes) matches Some((e, rest))
            ==> bytes == morph_entry_bytes(s_vertex_index, s_bone_index, s_material_index, s_morph_index, e) + rest,
{
    lemma_parse_sized_bytes(s_morph_index, bytes);
    if let Some((index, r1)) = parse_sized(s_morph_index, bytes) {
        lemma_parse_float_bytes(r1);
        if let Some((morph_factor, r2)) = parse_float(r1) {
            let e1 = index_bytes(s_morph_index, index);
            let e2 = e1 + float_bytes(morph_factor);
            lemma_concat_associative(e1, float_bytes(morph_factor), r2);
            assert(group_morph_bytes(s_morph_index, GroupMorph { index, morph_factor }) == e2);
        }
    }
}

proof fn lemma_vertex_entry_read_bytes(
    kind: u8,
    s_vertex_index: u8,
    s_bone_index: u8,
    s_material_index: u8,
    s_morph_index: u8,
    bytes: Seq<u8>,
)
    requires
        kind == 1,
    ensures
        parse_morph_entry(kind, s_vertex_index, s_bone_index, s_material_index, s_morph_index, bytes) matches Some((e, rest))
            ==> bytes == morph_entry_bytes(s_vertex_index, s_bone_index, s_material_index, s_morph_index, e) + rest,
{
    lemma_parse_sized_bytes(s_vertex_index, bytes);
    if let Some((index, r1)) = parse_sized(s_vertex_index, bytes) {
        lemma_parse_vec3_bytes(r1);
        if let Some((offset, r2)) = parse_vec3(r1) {
            let e1 = index_bytes(s_vertex_index, index);
            let e2 = e1 + vec3_bytes(offset);
            lemma_concat_associative(e1, vec3_bytes(offset), r2);
            assert(vertex_morph_bytes(s_vertex_index, VertexMorph { index, offset }) == e2);
        }
    }
}

proof fn lemma_bone_entry_read_bytes(
    kind: u8,
    s_vertex_index: u8,
    s_bone_index: u8,
    s_material_index: u8,
    s_morph_index: u8,
    bytes: Seq<u8>,
)
    requires
        kind == 2,
    ensures
        parse_morph_entry(kind, s_vertex_index, s_bone_index, s_material_index, s_morph_index, bytes) matches Some((e, rest))
            ==> bytes == morph_entry_bytes(s_vertex_index, s_bone_index, s_material_index, s_morph_index, e) + rest,
{
    lemma_parse_sized_bytes(s_bone_index, bytes);
    if let Some((index, r1)) = parse_sized(s_bone_index, bytes) {
        lemma_parse_vec3_bytes(r1);
        if let Some((translates, r2)) = parse_vec3(r1) {
            lemma_parse_vec4_bytes(r2);
            if let Some((rotates, r3)) = parse_vec4(r2) {
                let e1 = index_bytes(s_bone_index, index);
                let e2 = e1 + vec3_bytes(translates);
                let e3 = e2 + vec4_bytes(rotates);
                lemma_concat_associative(e1, vec3_bytes(translates), r2);
                lemma_concat_associative(e2, vec4_bytes(rotates), r3);
                assert(bone_morph_bytes(s_bone_index, BoneMorph { index, translates, rotates }) == e3);
            }
        }
    }
}

/// Whatever bytes were read as morph entries are the bytes of the entries read.
pub proof fn lemma_morph_entries_read_bytes(
    kind: u8,
    s_vertex_index: u8,
    s_bone_index: u8,
    s_material_index: u8,
    s_morph_index: u8,
    bytes: Seq<u8>,
    n: nat,
)
    ensures
        parse_morph_entries(kind, s_vertex_index, s_bone_index, s_material_index, s_morph_index, bytes, n) matches Some((entries, rest))
            ==> bytes == morph_entries_bytes(s_vertex_index, s_bone_index, s_material_index, s_morph_index, entries) + rest,
    decreases n,
{
    if n == 0 {
        assert(bytes =~= morph_entries_bytes(s_vertex_index, s_bone_index, s_material_index, s_morph_index, seq![]) + bytes);
    } else {
        lemma_morph_entries_read_bytes(kind, s_vertex_index, s_bone_index, s_material_index, s_morph_index, bytes, (n - 1) as nat);
        if let Some((init, r1)) = parse_morph_entries(
            kind,
            s_vertex_index, s_bone_index, s_material_index, s_morph_index,
            bytes,
            (n - 1) as nat,
        ) {
            lemma_morph_entry_read_bytes(kind, s_vertex_index, s_bone_index, s_material_index, s_morph_index, r1);
            if let Some((e, r2)) = parse_morph_entry(kind, s_vertex_index, s_bone_index, s_material_index, s_morph_index, r1) {
                let entries = init.push(e);
                assert(entries.drop_last() =~= init);
                lemma_concat_associative(
                    morph_entries_bytes(s_vertex_index, s_bone_index, s_material_index, s_morph_index, init),
                    morph_entry_bytes(s_vertex_index, s_bone_index, s_material_index, s_morph_index, e),
                    r2,
                );
            }
        }
    }
}

/// Whatever bytes were read as a morph are the bytes of the morph read.
pub proof fn lemma_morph_read_bytes(
    s_vertex_index: u8,
    s_bone_index: u8,
    s_material_index: u8,
    s_morph_index: u8,
    bytes: Seq<u8>,
)
    ensures
        parse_morph(s_vertex_index, s_bone_index, s_material_index, s_morph_index, bytes) matches Some((m, rest)) ==> bytes == morph_bytes(
            s_vertex_index, s_bone_index, s_material_index, s_morph_index,
            m,
        ) + rest,
{
    lemma_parse_text_bytes(bytes);
    if let Some((name, r1)) = parse_text(bytes) {
        lemma_parse_text_bytes(r1);
        if let Some((english_name, r2)) = parse_text(r1) {
            lemma_parse_u8_bytes(r2);
            if let Some((category, r3)) = parse_u8(r2) {
                lemma_parse_u8_bytes(r3);
                if let Some((morph_type, r4)) = parse_u8(r3) {
                    lemma_parse_count_bytes(r4);
                    if let Some((count, r5)) = parse_count(r4) {
                        lemma_morph_entries_read_bytes(morph_type, s_vertex_index, s_bone_index, s_material_index, s_morph_index, r5, count);
                        lemma_morph_entries_read_fits(morph_type, s_vertex_index, s_bone_index, s_material_index, s_morph_index, r5, count);
                        if let Some((morph_data, r6)) = parse_morph_entries(morph_type, s_vertex_index, s_bone_index, s_material_index, s_morph_index, r5, count) {
                            let e1 = text_bytes(name);
                            let e2 = e1 + text_bytes(english_name);
                            let e3 = e2 + seq![category];
                            let e4 = e3 + seq![morph_type];
                            let e5 = e4 + int_bytes(count as int);
                            let e6 = e5 + morph_entries_bytes(s_vertex_index, s_bone_index, s_material_index, s_morph_index, morph_data);
                            lemma_concat_associative(e1, text_bytes(english_name), r2);
                            lemma_concat_associative(e2, seq![category], r3);
                            lemma_concat_associative(e3, seq![morph_type], r4);
                            lemma_concat_associative(e4, int_bytes(count as int), r5);
                            lemma_concat_associative(e5, morph_entries_bytes(s_vertex_index, s_bone_index, s_material_index, s_morph_index, morph_data), r6);
                            assert(morph_bytes(s_vertex_index, s_bone_index, s_material_index, s_morph_index, PMXMorphView { name, english_name, category, morph_type, morph_data }) == e6);
                        }
                    }
                }
            }
        }
    }
}

} // verus!
