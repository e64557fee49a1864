//! The laws that a record written reads back as itself, that whatever was
//! read reads back as itself when written again.
use vstd::prelude::*;
use vstd::seq_lib::lemma_concat_associative;
use crate::decoding::{
    parse_u8, parse_u16, parse_i32, parse_float, parse_vec2, parse_vec3, parse_vec4,
    parse_vertex_index, parse_sized, parse_count, parse_text,
};
use crate::pmx_types::{
    Vec4, PMXVertexWeight, PMXVertex, PMXFace, PMXSphereMode, PMXToonMode, PMXMaterialView,
    PMXIKLink, PMXBoneView, UVMorph, MorphTypes, PMXMorphView, BONE_FLAG_TARGET_SHOW_MODE_MASK,
    BONE_FLAG_IK_MASK, BONE_FLAG_APPEND_ROTATE_MASK, BONE_FLAG_APPEND_TRANSLATE_MASK,
    BONE_FLAG_FIXED_AXIS_MASK, BONE_FLAG_LOCAL_AXIS_MASK, BONE_FLAG_DEFORM_OUTER_PARENT_MASK,
};
use crate::decoding::{
    sized_fits, lemma_parse_u8_roundtrip, lemma_parse_u16_roundtrip, lemma_parse_i32_roundtrip,
    lemma_parse_float_roundtrip, lemma_parse_vec2_roundtrip, lemma_parse_vec3_roundtrip,
    lemma_parse_vec4_roundtrip, lemma_parse_vertex_index_roundtrip, lemma_parse_sized_roundtrip,
    lemma_parse_count_roundtrip, lemma_parse_text_roundtrip, lemma_parse_sized_fits,
    lemma_parse_vertex_index_fits, lemma_parse_text_fits, lemma_parse_count_bound,
};
use crate::encoding::{
    has_all, has_any, le_bytes, index_bytes, float_bytes, int_bytes, text_bytes, vec2_bytes,
    vec3_bytes, vec4_bytes, face_bytes, sphere_mode_code, toon_mode_code, toon_texture_bytes,
    material_bytes, add_uv_bytes, weight_code, weight_bytes, vertex_bytes, ik_link_bytes,
    ik_links_bytes, bone_tail_bytes, bone_append_bytes, bone_fixed_axis_bytes,
    bone_local_axis_bytes, bone_outer_parent_bytes, bone_ik_bytes, bone_bytes, vertex_morph_bytes,
    uv_morph_bytes, bone_morph_bytes, material_morph_bytes, group_morph_bytes, morph_entry_bytes,
    morph_entries_bytes, morph_bytes,
};

use crate::record_decoding::{
    parse_face, parse_sphere_mode, parse_toon_mode, parse_toon_texture, parse_material,
    parse_add_uvs, uv_or_zero, uv_slots, parse_weight_body, parse_weight, parse_vertex,
    parse_ik_link, parse_ik_links, parse_opt_vec3, parse_bone_tail, parse_bone_append,
    parse_bone_outer_parent, parse_bone_ik, parse_bone, parse_uv_morph, parse_material_morph,
    parse_morph_entry, parse_morph_entries, parse_morph, face_fits, material_fits, weight_fits,
    vertex_fits, ik_link_fits, bone_fits, morph_entry_fits, morph_fits,
};

verus! {

/// The index of a material morph entry that was read fits.
pub proof fn lemma_material_morph_read_fits(s_material_index: u8, bytes: Seq<u8>)
    ensures
        parse_material_morph(s_material_index, bytes) matches Some((m, _)) ==> sized_fits(
            s_material_index,
            m.index,
        ),
{
    lemma_parse_sized_fits(s_material_index, bytes);
}

/// A written face reads back as itself, and leaves what followed it.
pub proof fn lemma_face_roundtrip(s_vertex_index: u8, face: PMXFace, rest: Seq<u8>)
    requires
        face_fits(s_vertex_index, face),
    ensures
        parse_face(s_vertex_index, face_bytes(s_vertex_index, face) + rest) == Some((face, rest)),
{
    let s3 = rest;
    let s2 = index_bytes(s_vertex_index, face.vertices[2]) + s3;
    let s1 = index_bytes(s_vertex_index, face.vertices[1]) + s2;
    assert(face_bytes(s_vertex_index, face) + rest =~= index_bytes(s_vertex_index, face.vertices[0]) + s1);
    lemma_parse_vertex_index_roundtrip(s_vertex_index, face.vertices[0], s1);
    lemma_parse_vertex_index_roundtrip(s_vertex_index, face.vertices[1], s2);
    lemma_parse_vertex_index_roundtrip(s_vertex_index, face.vertices[2], s3);
    let v = face.vertices;
    let w: [i32; 3] = [v[0], v[1], v[2]];
    assert(w@ =~= v@);
    assert(w == v);
}

pub proof fn lemma_sphere_mode_roundtrip(mode: PMXSphereMode, rest: Seq<u8>)
    ensures
        parse_sphere_mode(seq![sphere_mode_code(mode)] + rest) == Some((mode, rest)),
{
    lemma_parse_u8_roundtrip(sphere_mode_code(mode), rest);
}

pub proof fn lemma_toon_mode_roundtrip(mode: PMXToonMode, rest: Seq<u8>)
    ensures
        parse_toon_mode(seq![toon_mode_code(mode)] + rest) == Some((mode, rest)),
{
    lemma_parse_u8_roundtrip(toon_mode_code(mode), rest);
}

/// A written material reads back as itself, and leaves what followed it.
pub proof fn lemma_material_roundtrip(s_texture_index: u8, m: PMXMaterialView, rest: Seq<u8>)
    requires
        material_fits(s_texture_index, m),
    ensures
        parse_material(s_texture_index, material_bytes(s_texture_index, m) + rest) == Some(
            (m, rest),
        ),
{
    let s16 = rest;
    let s15 = int_bytes(m.num_face_vertices as int) + s16;
    let s14 = text_bytes(m.memo) + s15;
    let s13 = toon_texture_bytes(s_texture_index, m) + s14;
    let s12 = seq![toon_mode_code(m.toon_mode)] + s13;
    let s11 = seq![sphere_mode_code(m.sphere_mode)] + s12;
    let s10 = index_bytes(s_texture_index, m.sphere_mode_texture_index) + s11;
    let s9 = index_bytes(s_texture_index, m.texture_index) + s10;
    let s8 = float_bytes(m.edge_size) + s9;
    let s7 = vec4_bytes(m.edge_color) + s8;
    let s6 = seq![m.draw_mode] + s7;
    let s5 = vec3_bytes(m.ambient) + s6;
    let s4 = float_bytes(m.specular_factor) + s5;
    let s3 = vec3_bytes(m.specular) + s4;
    let s2 = vec4_bytes(m.diffuse) + s3;
    let s1 = text_bytes(m.english_name) + s2;
    let e1 = text_bytes(m.name);
    let e2 = e1 + text_bytes(m.english_name);
    let e3 = e2 + vec4_bytes(m.diffuse);
    let e4 = e3 + vec3_bytes(m.specular);
    let e5 = e4 + float_bytes(m.specular_factor);
    let e6 = e5 + vec3_bytes(m.ambient);
    let e7 = e6 + seq![m.draw_mode];
    let e8 = e7 + vec4_bytes(m.edge_color);
    let e9 = e8 + float_bytes(m.edge_size);
    let e10 = e9 + index_bytes(s_texture_index, m.texture_index);
    let e11 = e10 + index_bytes(s_texture_index, m.sphere_mode_texture_index);
    let e12 = e11 + seq![sphere_mode_code(m.sphere_mode)];
    let e13 = e12 + seq![toon_mode_code(m.toon_mode)];
    let e14 = e13 + toon_texture_bytes(s_texture_index, m);
    let e15 = e14 + text_bytes(m.memo);
    let e16 = e15 + int_bytes(m.num_face_vertices as int);
    assert(material_bytes(s_texture_index, m) == e16);
    lemma_concat_associative(e15, int_bytes(m.num_face_vertices as int), s16);
    lemma_concat_associative(e14, text_bytes(m.memo), s15);
    lemma_concat_associative(e13, toon_texture_bytes(s_texture_index, m), s14);
    lemma_concat_associative(e12, seq![toon_mode_code(m.toon_mode)], s13);
    lemma_concat_associative(e11, seq![sphere_mode_code(m.sphere_mode)], s12);
    lemma_concat_associative(e10, index_bytes(s_texture_index, m.sphere_mode_texture_index), s11);
    lemma_concat_associative(e9, index_bytes(s_texture_index, m.texture_index), s10);
    lemma_concat_associative(e8, float_bytes(m.edge_size), s9);
    lemma_concat_associative(e7, vec4_bytes(m.edge_color), s8);
    lemma_concat_associative(e6, seq![m.draw_mode], s7);
    lemma_concat_associative(e5, vec3_bytes(m.ambient), s6);
    lemma_concat_associative(e4, float_bytes(m.specular_factor), s5);
    lemma_concat_associative(e3, vec3_bytes(m.specular), s4);
    lemma_concat_associative(e2, vec4_bytes(m.diffuse), s3);
    lemma_concat_associative(e1, text_bytes(m.english_name), s2);
    lemma_parse_text_roundtrip(m.name, s1);
    lemma_parse_text_roundtrip(m.english_name, s2);
    lemma_parse_vec4_roundtrip(m.diffuse, s3);
    lemma_parse_vec3_roundtrip(m.specular, s4);
    lemma_parse_float_roundtrip(m.specular_factor, s5);
    lemma_parse_vec3_roundtrip(m.ambient, s6);
    lemma_parse_u8_roundtrip(m.draw_mode, s7);
    lemma_parse_vec4_roundtrip(m.edge_color, s8);
    lemma_parse_float_roundtrip(m.edge_size, s9);
    lemma_parse_sized_roundtrip(s_texture_index, m.texture_index, s10);
    lemma_parse_sized_roundtrip(s_texture_index, m.sphere_mode_texture_index, s11);
    lemma_sphere_mode_roundtrip(m.sphere_mode, s12);
    lemma_toon_mode_roundtrip(m.toon_mode, s13);
    match m.toon_mode {
        PMXToonMode::Separate => lemma_parse_sized_roundtrip(
            s_texture_index,
            m.toon_texture_index,
            s14,
        ),
        PMXToonMode::Common => lemma_parse_sized_roundtrip(1, m.toon_texture_index, s14),
    };
    lemma_parse_text_roundtrip(m.memo, s15);
    lemma_parse_i32_roundtrip(m.num_face_vertices, s16);
}

/// A written vertex weight (its kind's code, then its body) reads back as itself.
pub proof fn lemma_weight_roundtrip(s_bone_index: u8, w: PMXVertexWeight, rest: Seq<u8>)
    requires
        weight_fits(s_bone_index, w),
    ensures
        parse_weight(s_bone_index, seq![weight_code(w)] + (weight_bytes(s_bone_index, w) + rest))
            == Some((w, rest)),
{
    lemma_parse_u8_roundtrip(weight_code(w), weight_bytes(s_bone_index, w) + rest);
    match w {
        PMXVertexWeight::BDEF1(index) => {
            lemma_parse_sized_roundtrip(s_bone_index, index, rest);
        },
        PMXVertexWeight::BDEF2 { bone_index_1, bone_index_2, bone_weight_1 } => {
            let s3 = rest;
            let s2 = float_bytes(bone_weight_1) + s3;
            let s1 = index_bytes(s_bone_index, bone_index_2) + s2;
            let e1 = index_bytes(s_bone_index, bone_index_1);
            let e2 = e1 + index_bytes(s_bone_index, bone_index_2);
            let e3 = e2 + float_bytes(bone_weight_1);
            assert(weight_bytes(s_bone_index, w) == e3);
            lemma_concat_associative(e2, float_bytes(bone_weight_1), s3);
            lemma_concat_associative(e1, index_bytes(s_bone_index, bone_index_2), s2);
            lemma_parse_sized_roundtrip(s_bone_index, bone_index_1, s1);
            lemma_parse_sized_roundtrip(s_bone_index, bone_index_2, s2);
            lemma_parse_float_roundtrip(bone_weight_1, s3);
        },
        PMXVertexWeight::BDEF4 {
            bone_index_1,
            bone_index_2,
            bone_index_3,
            bone_index_4,
            bone_weight_1,
            bone_weight_2,
            bone_weight_3,
            bone_weight_4,
        } => {
            let s8 = rest;
            let s7 = float_bytes(bone_weight_4) + s8;
            let s6 = float_bytes(bone_weight_3) + s7;
            let s5 = float_bytes(bone_weight_2) + s6;
            let s4 = float_bytes(bone_weight_1) + s5;
            let s3 = index_bytes(s_bone_index, bone_index_4) + s4;
            let s2 = index_bytes(s_bone_index, bone_index_3) + s3;
            let s1 = index_bytes(s_bone_index, bone_index_2) + s2;
            let e1 = index_bytes(s_bone_index, bone_index_1);
            let e2 = e1 + index_bytes(s_bone_index, bone_index_2);
            let e3 = e2 + index_bytes(s_bone_index, bone_index_3);
            let e4 = e3 + index_bytes(s_bone_index, bone_index_4);
            let e5 = e4 + float_bytes(bone_weight_1);
            let e6 = e5 + float_bytes(bone_weight_2);
            let e7 = e6 + float_bytes(bone_weight_3);
            let e8 = e7 + float_bytes(bone_weight_4);
            assert(weight_bytes(s_bone_index, w) == e8);
            lemma_concat_associative(e7, float_bytes(bone_weight_4), s8);
            lemma_concat_associative(e6, float_bytes(bone_weight_3), s7);
            lemma_concat_associative(e5, float_bytes(bone_weight_2), s6);
            lemma_concat_associative(e4, float_bytes(bone_weight_1), s5);
            lemma_concat_associative(e3, index_bytes(s_bone_index, bone_index_4), s4);
            lemma_concat_associative(e2, index_bytes(s_bone_index, bone_index_3), s3);
            lemma_concat_associative(e1, index_bytes(s_bone_index, bone_index_2), s2);
            lemma_parse_sized_roundtrip(s_bone_index, bone_index_1, s1);
            lemma_parse_sized_roundtrip(s_bone_index, bone_index_2, s2);
            lemma_parse_sized_roundtrip(s_bone_index, bone_index_3, s3);
            lemma_parse_sized_roundtrip(s_bone_index, bone_index_4, s4);
            lemma_parse_float_roundtrip(bone_weight_1, s5);
            lemma_parse_float_roundtrip(bone_weight_2, s6);
            lemma_parse_float_roundtrip(bone_weight_3, s7);
            lemma_parse_float_roundtrip(bone_weight_4, s8);
        },
        PMXVertexWeight::SDEF {
            bone_index_1,
            bone_index_2,
            bone_weight_1,
            sdef_c,
            sdef_r0,
            sdef_r1,
        } => {
            let s6 = rest;
            let s5 = vec3_bytes(sdef_r1) + s6;
            let s4 = vec3_bytes(sdef_r0) + s5;
            let s3 = vec3_bytes(sdef_c) + s4;
            let s2 = float_bytes(bone_weight_1) + s3;
            let s1 = index_bytes(s_bone_index, bone_index_2) + s2;
            let e1 = index_bytes(s_bone_index, bone_index_1);
            let e2 = e1 + index_bytes(s_bone_index, bone_index_2);
            let e3 = e2 + float_bytes(bone_weight_1);
            let e4 = e3 + vec3_bytes(sdef_c);
            let e5 = e4 + vec3_bytes(sdef_r0);
            let e6 = e5 + vec3_bytes(sdef_r1);
            assert(weight_bytes(s_bone_index, w) == e6);
            lemma_concat_associative(e5, vec3_bytes(sdef_r1), s6);
            lemma_concat_associative(e4, vec3_bytes(sdef_r0), s5);
            lemma_concat_associative(e3, vec3_bytes(sdef_c), s4);
            lemma_concat_associative(e2, float_bytes(bone_weight_1), s3);
            lemma_concat_associative(e1, index_bytes(s_bone_index, bone_index_2), s2);
            lemma_parse_sized_roundtrip(s_bone_index, bone_index_1, s1);
            lemma_parse_sized_roundtrip(s_bone_index, bone_index_2, s2);
            lemma_parse_float_roundtrip(bone_weight_1, s3);
            lemma_parse_vec3_roundtrip(sdef_c, s4);
            lemma_parse_vec3_roundtrip(sdef_r0, s5);
            lemma_parse_vec3_roundtrip(sdef_r1, s6);
        },
        PMXVertexWeight::QDEF {
            bone_index_1,
            bone_index_2,
            bone_index_3,
            bone_index_4,
            bone_weight_1,
            bone_weight_2,
            bone_weight_3,
            bone_weight_4,
        } => {
            let s8 = rest;
            let s7 = float_bytes(bone_weight_4) + s8;
            let s6 = float_bytes(bone_weight_3) + s7;
            let s5 = float_bytes(bone_weight_2) + s6;
            let s4 = float_bytes(bone_weight_1) + s5;
            let s3 = index_bytes(s_bone_index, bone_index_4) + s4;
            let s2 = index_bytes(s_bone_index, bone_index_3) + s3;
            let s1 = index_bytes(s_bone_index, bone_index_2) + s2;
            let e1 = index_bytes(s_bone_index, bone_index_1);
            let e2 = e1 + index_bytes(s_bone_index, bone_index_2);
            let e3 = e2 + index_bytes(s_bone_index, bone_index_3);
            let e4 = e3 + index_bytes(s_bone_index, bone_index_4);
            let e5 = e4 + float_bytes(bone_weight_1);
            let e6 = e5 + float_bytes(bone_weight_2);
            let e7 = e6 + float_bytes(bone_weight_3);
            let e8 = e7 + float_bytes(bone_weight_4);
            assert(weight_bytes(s_bone_index, w) == e8);
            lemma_concat_associative(e7, float_bytes(bone_weight_4), s8);
            lemma_concat_associative(e6, float_bytes(bone_weight_3), s7);
            lemma_concat_associative(e5, float_bytes(bone_weight_2), s6);
            lemma_concat_associative(e4, float_bytes(bone_weight_1), s5);
            lemma_concat_associative(e3, index_bytes(s_bone_index, bone_index_4), s4);
            lemma_concat_associative(e2, index_bytes(s_bone_index, bone_index_3), s3);
            lemma_concat_associative(e1, index_bytes(s_bone_index, bone_index_2), s2);
            lemma_parse_sized_roundtrip(s_bone_index, bone_index_1, s1);
            lemma_parse_sized_roundtrip(s_bone_index, bone_index_2, s2);
            lemma_parse_sized_roundtrip(s_bone_index, bone_index_3, s3);
            lemma_parse_sized_roundtrip(s_bone_index, bone_index_4, s4);
            lemma_parse_float_roundtrip(bone_weight_1, s5);
            lemma_parse_float_roundtrip(bone_weight_2, s6);
            lemma_parse_float_roundtrip(bone_weight_3, s7);
            lemma_parse_float_roundtrip(bone_weight_4, s8);
        },
    }
}

/// The first `n` additional UV sets read back as themselves.
pub proof fn lemma_add_uvs_roundtrip(uvs: Seq<Vec4>, n: nat, rest: Seq<u8>)
    requires
        n <= uvs.len(),
    ensures
        parse_add_uvs(add_uv_bytes(uvs, n) + rest, n) == Some((uvs.take(n as int), rest)),
    decreases n,
{
    if n == 0 {
        assert(add_uv_bytes(uvs, 0) + rest =~= rest);
        assert(uvs.take(0) =~= Seq::<Vec4>::empty());
    } else {
        let last = vec4_bytes(uvs[n - 1]);
        lemma_concat_associative(add_uv_bytes(uvs, (n - 1) as nat), last, rest);
        lemma_add_uvs_roundtrip(uvs, (n - 1) as nat, last + rest);
        lemma_parse_vec4_roundtrip(uvs[n - 1], rest);
        assert(uvs.take(n - 1).push(uvs[n - 1]) =~= uvs.take(n as int));
    }
}

/// Filling the UV slots from the first `n` sets gives the slots back when the
/// slots from `n` on are zero.
pub proof fn lemma_uv_slots_of_written(add_uv: [Vec4; 4], n: nat)
    requires
        n <= 4,
        forall|i: int| n <= i < 4 ==> add_uv[i] == [0u32, 0, 0, 0],
    ensures
        uv_slots(add_uv@.take(n as int)) == add_uv,
{
    let uvs = add_uv@.take(n as int);
    assert(uv_or_zero(uvs, 0) == add_uv[0]);
    assert(uv_or_zero(uvs, 1) == add_uv[1]);
    assert(uv_or_zero(uvs, 2) == add_uv[2]);
    assert(uv_or_zero(uvs, 3) == add_uv[3]);
    assert(uv_slots(uvs)@ =~= add_uv@);
}

/// A written vertex reads back as itself, and leaves what followed it.
pub proof fn lemma_vertex_roundtrip(
    additional_uvs: u8,
    v: PMXVertex,
    s_bone_index: u8,
    rest: Seq<u8>,
)
    requires
        vertex_fits(additional_uvs, v, s_bone_index),
    ensures
        parse_vertex(
            additional_uvs,
            s_bone_index,
            vertex_bytes(additional_uvs, v, s_bone_index) + rest,
        ) == Some((v, rest)),
{
    let s7 = rest;
    let s6 = float_bytes(v.edge_mag) + s7;
    let s5 = weight_bytes(s_bone_index, v.weight_type) + s6;
    let s4 = seq![weight_code(v.weight_type)] + s5;
    let s3 = add_uv_bytes(v.add_uv@, additional_uvs as nat) + s4;
    let s2 = vec2_bytes(v.uv) + s3;
    let s1 = vec3_bytes(v.norm) + s2;
    let e1 = vec3_bytes(v.position);
    let e2 = e1 + vec3_bytes(v.norm);
    let e3 = e2 + vec2_bytes(v.uv);
    let e4 = e3 + add_uv_bytes(v.add_uv@, additional_uvs as nat);
    let e5 = e4 + seq![weight_code(v.weight_type)];
    let e6 = e5 + weight_bytes(s_bone_index, v.weight_type);
    let e7 = e6 + float_bytes(v.edge_mag);
    assert(vertex_bytes(additional_uvs, v, s_bone_index) == e7);
    lemma_concat_associative(e6, float_bytes(v.edge_mag), s7);
    lemma_concat_associative(e5, weight_bytes(s_bone_index, v.weight_type), s6);
    lemma_concat_associative(e4, seq![weight_code(v.weight_type)], s5);
    lemma_concat_associative(e3, add_uv_bytes(v.add_uv@, additional_uvs as nat), s4);
    lemma_concat_associative(e2, vec2_bytes(v.uv), s3);
    lemma_concat_associative(e1, vec3_bytes(v.norm), s2);
    lemma_parse_vec3_roundtrip(v.position, s1);
    lemma_parse_vec3_roundtrip(v.norm, s2);
    lemma_parse_vec2_roundtrip(v.uv, s3);
    lemma_add_uvs_roundtrip(v.add_uv@, additional_uvs as nat, s4);
    lemma_weight_roundtrip(s_bone_index, v.weight_type, s6);
    lemma_parse_float_roundtrip(v.edge_mag, s7);
    lemma_uv_slots_of_written(v.add_uv, additional_uvs as nat);
}

/// A written IK link reads back as itself, and leaves what followed it.
pub proof fn lemma_ik_link_roundtrip(s_bone_index: u8, link: PMXIKLink, rest: Seq<u8>)
    requires
        ik_link_fits(s_bone_index, link),
    ensures
        parse_ik_link(s_bone_index, ik_link_bytes(s_bone_index, link) + rest) == Some(
            (link, rest),
        ),
{
    let head = index_bytes(s_bone_index, link.ik_bone_index);
    let limits = if link.enable_limit == 1 {
        vec3_bytes(link.limit_min) + vec3_bytes(link.limit_max)
    } else {
        Seq::<u8>::empty()
    };
    let s1 = seq![link.enable_limit] + (limits + rest);
    lemma_concat_associative(head + seq![link.enable_limit], limits, rest);
    lemma_concat_associative(head, seq![link.enable_limit], limits + rest);
    assert(ik_link_bytes(s_bone_index, link) == head + seq![link.enable_limit] + limits);
    lemma_parse_sized_roundtrip(s_bone_index, link.ik_bone_index, s1);
    lemma_parse_u8_roundtrip(link.enable_limit, limits + rest);
    if link.enable_limit == 1 {
        lemma_concat_associative(vec3_bytes(link.limit_min), vec3_bytes(link.limit_max), rest);
        lemma_parse_vec3_roundtrip(link.limit_min, vec3_bytes(link.limit_max) + rest);
        lemma_parse_vec3_roundtrip(link.limit_max, rest);
    } else {
        assert(limits + rest =~= rest);
    }
}

/// Written IK links read back as themselves, and leave what followed them.
pub proof fn lemma_ik_links_roundtrip(s_bone_index: u8, links: Seq<PMXIKLink>, rest: Seq<u8>)
    requires
        forall|i: int| 0 <= i < links.len() ==> ik_link_fits(s_bone_index, #[trigger] links[i]),
    ensures
        parse_ik_links(s_bone_index, ik_links_bytes(s_bone_index, links) + rest, links.len())
            == Some((links, rest)),
    decreases links.len(),
{
    if links.len() == 0 {
        assert(ik_links_bytes(s_bone_index, links) + rest =~= rest);
        assert(links =~= Seq::<PMXIKLink>::empty());
    } else {
        let init = links.drop_last();
        let last = ik_link_bytes(s_bone_index, links.last());
        lemma_concat_associative(ik_links_bytes(s_bone_index, init), last, rest);
        assert forall|i: int| 0 <= i < init.len() implies ik_link_fits(
            s_bone_index,
            #[trigger] init[i],
        ) by {
            assert(init[i] == links[i]);
        }
        lemma_ik_links_roundtrip(s_bone_index, init, last + rest);
        assert(ik_link_fits(s_bone_index, links[links.len() - 1]));
        lemma_ik_link_roundtrip(s_bone_index, links.last(), rest);
        assert(init.push(links.last()) =~= links);
    }
}

pub proof fn lemma_bone_tail_roundtrip(s_bone_index: u8, b: PMXBoneView, rest: Seq<u8>)
    requires
        bone_fits(s_bone_index, b),
    ensures
        parse_bone_tail(s_bone_index, b.boneflag, bone_tail_bytes(s_bone_index, b) + rest) == Some(
            ((b.child, b.offset), rest),
        ),
{
    if has_all(b.boneflag, BONE_FLAG_TARGET_SHOW_MODE_MASK) {
        lemma_parse_sized_roundtrip(s_bone_index, b.child, rest);
    } else {
        lemma_parse_vec3_roundtrip(b.offset, rest);
    }
}

pub proof fn lemma_bone_append_roundtrip(s_bone_index: u8, b: PMXBoneView, rest: Seq<u8>)
    requires
        bone_fits(s_bone_index, b),
    ensures
        parse_bone_append(s_bone_index, b.boneflag, bone_append_bytes(s_bone_index, b) + rest)
            == Some(((b.append_bone_index, b.append_weight), rest)),
{
    if has_any(b.boneflag, BONE_FLAG_APPEND_ROTATE_MASK | BONE_FLAG_APPEND_TRANSLATE_MASK) {
        let s1 = float_bytes(b.append_weight) + rest;
        lemma_concat_associative(
            index_bytes(s_bone_index, b.append_bone_index),
            float_bytes(b.append_weight),
            rest,
        );
        lemma_parse_sized_roundtrip(s_bone_index, b.append_bone_index, s1);
        lemma_parse_float_roundtrip(b.append_weight, rest);
    } else {
        assert(bone_append_bytes(s_bone_index, b) + rest =~= rest);
    }
}

pub proof fn lemma_bone_fixed_axis_roundtrip(s_bone_index: u8, b: PMXBoneView, rest: Seq<u8>)
    requires
        bone_fits(s_bone_index, b),
    ensures
        parse_opt_vec3(has_all(b.boneflag, BONE_FLAG_FIXED_AXIS_MASK), bone_fixed_axis_bytes(b)
            + rest) == Some((b.fixed_axis, rest)),
{
    if has_all(b.boneflag, BONE_FLAG_FIXED_AXIS_MASK) {
        lemma_parse_vec3_roundtrip(b.fixed_axis, rest);
    } else {
        assert(bone_fixed_axis_bytes(b) + rest =~= rest);
    }
}

/// The bytes after the local X axis: the local Z axis when present, then what followed.
pub open spec fn after_local_x(b: PMXBoneView, rest: Seq<u8>) -> Seq<u8> {
    if has_all(b.boneflag, BONE_FLAG_LOCAL_AXIS_MASK) {
        vec3_bytes(b.local_axis_z) + rest
    } else {
        rest
    }
}

pub proof fn lemma_bone_local_axis_roundtrip(s_bone_index: u8, b: PMXBoneView, rest: Seq<u8>)
    requires
        bone_fits(s_bone_index, b),
    ensures
        parse_opt_vec3(has_all(b.boneflag, BONE_FLAG_LOCAL_AXIS_MASK), bone_local_axis_bytes(b)
            + rest) == Some((b.local_axis_x, after_local_x(b, rest))),
        parse_opt_vec3(has_all(b.boneflag, BONE_FLAG_LOCAL_AXIS_MASK), after_local_x(b, rest))
            == Some((b.local_axis_z, rest)),
{
    if has_all(b.boneflag, BONE_FLAG_LOCAL_AXIS_MASK) {
        lemma_concat_associative(vec3_bytes(b.local_axis_x), vec3_bytes(b.local_axis_z), rest);
        lemma_parse_vec3_roundtrip(b.local_axis_x, vec3_bytes(b.local_axis_z) + rest);
        lemma_parse_vec3_roundtrip(b.local_axis_z, rest);
    } else {
        assert(bone_local_axis_bytes(b) + rest =~= rest);
    }
}

pub proof fn lemma_bone_outer_parent_roundtrip(s_bone_index: u8, b: PMXBoneView, rest: Seq<u8>)
    requires
        bone_fits(s_bone_index, b),
    ensures
        parse_bone_outer_parent(b.boneflag, bone_outer_parent_bytes(b) + rest) == Some(
            (b.key_value, rest),
        ),
{
    if has_any(b.boneflag, BONE_FLAG_DEFORM_OUTER_PARENT_MASK) {
        lemma_parse_i32_roundtrip(b.key_value, rest);
    } else {
        assert(bone_outer_parent_bytes(b) + rest =~= rest);
    }
}

pub proof fn lemma_bone_ik_roundtrip(s_bone_index: u8, b: PMXBoneView, rest: Seq<u8>)
    requires
        bone_fits(s_bone_index, b),
    ensures
        parse_bone_ik(s_bone_index, b.boneflag, bone_ik_bytes(s_bone_index, b) + rest) == Some(
            ((b.ik_target_index, b.ik_iter_count, b.ik_limit, b.ik_links), rest),
        ),
{
    if has_all(b.boneflag, BONE_FLAG_IK_MASK) {
        let s5 = rest;
        let s4 = ik_links_bytes(s_bone_index, b.ik_links) + s5;
        let s3 = int_bytes(b.ik_links.len() as int) + s4;
        let s2 = float_bytes(b.ik_limit) + s3;
        let s1 = int_bytes(b.ik_iter_count as int) + s2;
        let e1 = index_bytes(s_bone_index, b.ik_target_index);
        let e2 = e1 + int_bytes(b.ik_iter_count as int);
        let e3 = e2 + float_bytes(b.ik_limit);
        let e4 = e3 + int_bytes(b.ik_links.len() as int);
        let e5 = e4 + ik_links_bytes(s_bone_index, b.ik_links);
        assert(bone_ik_bytes(s_bone_index, b) == e5);
        lemma_concat_associative(e4, ik_links_bytes(s_bone_index, b.ik_links), s5);
        lemma_concat_associative(e3, int_bytes(b.ik_links.len() as int), s4);
        lemma_concat_associative(e2, float_bytes(b.ik_limit), s3);
        lemma_concat_associative(e1, int_bytes(b.ik_iter_count as int), s2);
        lemma_parse_sized_roundtrip(s_bone_index, b.ik_target_index, s1);
        lemma_parse_i32_roundtrip(b.ik_iter_count, s2);
        lemma_parse_float_roundtrip(b.ik_limit, s3);
        lemma_parse_count_roundtrip(b.ik_links.len(), s4);
        lemma_ik_links_roundtrip(s_bone_index, b.ik_links, s5);
    } else {
        assert(bone_ik_bytes(s_bone_index, b) + rest =~= rest);
        assert(b.ik_links =~= Seq::<PMXIKLink>::empty());
    }
}

/// A written bone reads back as itself, and leaves what followed it.
pub proof fn lemma_bone_roundtrip(s_bone_index: u8, b: PMXBoneView, rest: Seq<u8>)
    requires
        bone_fits(s_bone_index, b),
    ensures
        parse_bone(s_bone_index, bone_bytes(s_bone_index, b) + rest) == Some((b, rest)),
{
    let s12 = rest;
    let s11 = bone_ik_bytes(s_bone_index, b) + s12;
    let s10 = bone_outer_parent_bytes(b) + s11;
    let s9 = bone_local_axis_bytes(b) + s10;
    let s8 = bone_fixed_axis_bytes(b) + s9;
    let s7 = bone_append_bytes(s_bone_index, b) + s8;
    let s6 = bone_tail_bytes(s_bone_index, b) + s7;
    let s5 = le_bytes(b.boneflag as int, 2) + s6;
    let s4 = int_bytes(b.deform_depth as int) + s5;
    let s3 = index_bytes(s_bone_index, b.parent) + s4;
    let s2 = vec3_bytes(b.position) + s3;
    let s1 = text_bytes(b.english_name) + s2;
    let e1 = text_bytes(b.name);
    let e2 = e1 + text_bytes(b.english_name);
    let e3 = e2 + vec3_bytes(b.position);
    let e4 = e3 + index_bytes(s_bone_index, b.parent);
    let e5 = e4 + int_bytes(b.deform_depth as int);
    let e6 = e5 + le_bytes(b.boneflag as int, 2);
    let e7 = e6 + bone_tail_bytes(s_bone_index, b);
    let e8 = e7 + bone_append_bytes(s_bone_index, b);
    let e9 = e8 + bone_fixed_axis_bytes(b);
    let e10 = e9 + bone_local_axis_bytes(b);
    let e11 = e10 + bone_outer_parent_bytes(b);
    let e12 = e11 + bone_ik_bytes(s_bone_index, b);
    assert(bone_bytes(s_bone_index, b) == e12);
    lemma_concat_associative(e11, bone_ik_bytes(s_bone_index, b), s12);
    lemma_concat_associative(e10, bone_outer_parent_bytes(b), s11);
    lemma_concat_associative(e9, bone_local_axis_bytes(b), s10);
    lemma_concat_associative(e8, bone_fixed_axis_bytes(b), s9);
    lemma_concat_associative(e7, bone_append_bytes(s_bone_index, b), s8);
    lemma_concat_associative(e6, bone_tail_bytes(s_bone_index, b), s7);
    lemma_concat_associative(e5, le_bytes(b.boneflag as int, 2), s6);
    lemma_concat_associative(e4, int_bytes(b.deform_depth as int), s5);
    lemma_concat_associative(e3, index_bytes(s_bone_index, b.parent), s4);
    lemma_concat_associative(e2, vec3_bytes(b.position), s3);
    lemma_concat_associative(e1, text_bytes(b.english_name), s2);
    lemma_parse_text_roundtrip(b.name, s1);
    lemma_parse_text_roundtrip(b.english_name, s2);
    lemma_parse_vec3_roundtrip(b.position, s3);
    lemma_parse_sized_roundtrip(s_bone_index, b.parent, s4);
    lemma_parse_i32_roundtrip(b.deform_depth, s5);
    lemma_parse_u16_roundtrip(b.boneflag, s6);
    lemma_bone_tail_roundtrip(s_bone_index, b, s7);
    lemma_bone_append_roundtrip(s_bone_index, b, s8);
    lemma_bone_fixed_axis_roundtrip(s_bone_index, b, s9);
    lemma_bone_local_axis_roundtrip(s_bone_index, b, s10);
    lemma_bone_outer_parent_roundtrip(s_bone_index, b, s11);
    lemma_bone_ik_roundtrip(s_bone_index, b, s12);
}

pub proof fn lemma_uv_morph_roundtrip(s_vertex_index: u8, m: UVMorph, rest: Seq<u8>)
    requires
        sized_fits(s_vertex_index, m.index),
    ensures
        parse_uv_morph(s_vertex_index, uv_morph_bytes(s_vertex_index, m) + rest) == Some((m, rest)),
{
    let s2 = rest;
    let s1 = vec4_bytes(m.offset) + s2;
    let e1 = index_bytes(s_vertex_index, m.index);
    let e2 = e1 + vec4_bytes(m.offset);
    assert(uv_morph_bytes(s_vertex_index, m) == e2);
    lemma_concat_associative(e1, vec4_bytes(m.offset), s2);
    lemma_parse_sized_roundtrip(s_vertex_index, m.index, s1);
    lemma_parse_vec4_roundtrip(m.offset, s2);
}

/// A written morph entry reads back as itself, and leaves what followed it.
pub proof fn lemma_morph_entry_roundtrip(
    kind: u8,
    s_vertex_index: u8,
    s_bone_index: u8,
    s_material_index: u8,
    s_morph_index: u8,
    e: MorphTypes,
    rest: Seq<u8>,
)
    requires
        morph_entry_fits(kind, s_vertex_index, s_bone_index, s_material_index, s_morph_index, e),
    ensures
        parse_morph_entry(
            kind,
            s_vertex_index,
            s_bone_index,
            s_material_index,
            s_morph_index,
            morph_entry_bytes(s_vertex_index, s_bone_index, s_material_index, s_morph_index, e)
                + rest,
        ) == Some((e, rest)),
{
    match e {
        MorphTypes::Group(m) => {
            let s2 = rest;
            let s1 = float_bytes(m.morph_factor) + s2;
            let e1 = index_bytes(s_morph_index, m.index);
            let e2 = e1 + float_bytes(m.morph_factor);
            assert(group_morph_bytes(s_morph_index, m) == e2);
            lemma_concat_associative(e1, float_bytes(m.morph_factor), s2);
            lemma_parse_sized_roundtrip(s_morph_index, m.index, s1);
            lemma_parse_float_roundtrip(m.morph_factor, s2);
        },
        MorphTypes::Vertex(m) => {
            let s2 = rest;
            let s1 = vec3_bytes(m.offset) + s2;
            let e1 = index_bytes(s_vertex_index, m.index);
            let e2 = e1 + vec3_bytes(m.offset);
            assert(vertex_morph_bytes(s_vertex_index, m) == e2);
            lemma_concat_associative(e1, vec3_bytes(m.offset), s2);
            lemma_parse_sized_roundtrip(s_vertex_index, m.index, s1);
            lemma_parse_vec3_roundtrip(m.offset, s2);
        },
        MorphTypes::Bone(m) => {
            let s3 = rest;
            let s2 = vec4_bytes(m.rotates) + s3;
            let s1 = vec3_bytes(m.translates) + s2;
            let e1 = index_bytes(s_bone_index, m.index);
            let e2 = e1 + vec3_bytes(m.translates);
            let e3 = e2 + vec4_bytes(m.rotates);
            assert(bone_morph_bytes(s_bone_index, m) == e3);
            lemma_concat_associative(e2, vec4_bytes(m.rotates), s3);
            lemma_concat_associative(e1, vec3_bytes(m.translates), s2);
            lemma_parse_sized_roundtrip(s_bone_index, m.index, s1);
            lemma_parse_vec3_roundtrip(m.translates, s2);
            lemma_parse_vec4_roundtrip(m.rotates, s3);
        },
        MorphTypes::UV(m) => {
            lemma_uv_morph_roundtrip(s_vertex_index, m, rest);
        },
        MorphTypes::UV1(m) => {
            lemma_uv_morph_roundtrip(s_vertex_index, m, rest);
        },
        MorphTypes::UV2(m) => {
            lemma_uv_morph_roundtrip(s_vertex_index, m, rest);
        },
        MorphTypes::UV3(m) => {
            lemma_uv_morph_roundtrip(s_vertex_index, m, rest);
        },
        MorphTypes::UV4(m) => {
            lemma_uv_morph_roundtrip(s_vertex_index, m, rest);
        },
        MorphTypes::Material(m) => {
            let s11 = rest;
            let s10 = vec4_bytes(m.toon_texture_factor) + s11;
            let s9 = vec4_bytes(m.sphere_texture_factor) + s10;
            let s8 = vec4_bytes(m.texture_factor) + s9;
            let s7 = float_bytes(m.edge_size) + s8;
            let s6 = vec4_bytes(m.edge_color) + s7;
            let s5 = vec3_bytes(m.ambient) + s6;
            let s4 = float_bytes(m.specular_factor) + s5;
            let s3 = vec3_bytes(m.specular) + s4;
            let s2 = vec4_bytes(m.diffuse) + s3;
            let s1 = seq![m.formula] + s2;
            let e1 = index_bytes(s_material_index, m.index);
            let e2 = e1 + seq![m.formula];
            let e3 = e2 + vec4_bytes(m.diffuse);
            let e4 = e3 + vec3_bytes(m.specular);
            let e5 = e4 + float_bytes(m.specular_factor);
            let e6 = e5 + vec3_bytes(m.ambient);
            let e7 = e6 + vec4_bytes(m.edge_color);
            let e8 = e7 + float_bytes(m.edge_size);
            let e9 = e8 + vec4_bytes(m.texture_factor);
            let e10 = e9 + vec4_bytes(m.sphere_texture_factor);
            let e11 = e10 + vec4_bytes(m.toon_texture_factor);
            assert(material_morph_bytes(s_material_index, m) == e11);
            lemma_concat_associative(e10, vec4_bytes(m.toon_texture_factor), s11);
            lemma_concat_associative(e9, vec4_bytes(m.sphere_texture_factor), s10);
            lemma_concat_associative(e8, vec4_bytes(m.texture_factor), s9);
            lemma_concat_associative(e7, float_bytes(m.edge_size), s8);
            lemma_concat_associative(e6, vec4_bytes(m.edge_color), s7);
            lemma_concat_associative(e5, vec3_bytes(m.ambient), s6);
            lemma_concat_associative(e4, float_bytes(m.specular_factor), s5);
            lemma_concat_associative(e3, vec3_bytes(m.specular), s4);
            lemma_concat_associative(e2, vec4_bytes(m.diffuse), s3);
            lemma_concat_associative(e1, seq![m.formula], s2);
            lemma_parse_sized_roundtrip(s_material_index, m.index, s1);
            lemma_parse_u8_roundtrip(m.formula, s2);
            lemma_parse_vec4_roundtrip(m.diffuse, s3);
            lemma_parse_vec3_roundtrip(m.specular, s4);
            lemma_parse_float_roundtrip(m.specular_factor, s5);
            lemma_parse_vec3_roundtrip(m.ambient, s6);
            lemma_parse_vec4_roundtrip(m.edge_color, s7);
            lemma_parse_float_roundtrip(m.edge_size, s8);
            lemma_parse_vec4_roundtrip(m.texture_factor, s9);
            lemma_parse_vec4_roundtrip(m.sphere_texture_factor, s10);
            lemma_parse_vec4_roundtrip(m.toon_texture_factor, s11);
        },
    }
}

/// Written morph entries of one kind read back as themselves.
pub proof fn lemma_morph_entries_roundtrip(
    kind: u8,
    s_vertex_index: u8,
    s_bone_index: u8,
    s_material_index: u8,
    s_morph_index: u8,
    entries: Seq<MorphTypes>,
    rest: Seq<u8>,
)
    requires
        forall|i: int|
            0 <= i < entries.len() ==> morph_entry_fits(
                kind,
                s_vertex_index,
                s_bone_index,
                s_material_index,
                s_morph_index,
                #[trigger] entries[i],
            ),
    ensures
        parse_morph_entries(
            kind,
            s_vertex_index,
            s_bone_index,
            s_material_index,
            s_morph_index,
            morph_entries_bytes(
                s_vertex_index,
                s_bone_index,
                s_material_index,
                s_morph_index,
                entries,
            ) + rest,
            entries.len(),
        ) == Some((entries, rest)),
    decreases entries.len(),
{
    if entries.len() == 0 {
        assert(morph_entries_bytes(
            s_vertex_index,
            s_bone_index,
            s_material_index,
            s_morph_index,
            entries,
        ) + rest =~= rest);
        assert(entries =~= Seq::<MorphTypes>::empty());
    } else {
        let init = entries.drop_last();
        let last = morph_entry_bytes(
            s_vertex_index,
            s_bone_index,
            s_material_index,
            s_morph_index,
            entries.last(),
        );
        lemma_concat_associative(
            morph_entries_bytes(s_vertex_index, s_bone_index, s_material_index, s_morph_index, init),
            last,
            rest,
        );
        assert forall|i: int| 0 <= i < init.len() implies morph_entry_fits(
            kind,
            s_vertex_index,
            s_bone_index,
            s_material_index,
            s_morph_index,
            #[trigger] init[i],
        ) by {
            assert(init[i] == entries[i]);
        }
        lemma_morph_entries_roundtrip(
            kind,
            s_vertex_index,
            s_bone_index,
            s_material_index,
            s_morph_index,
            init,
            last + rest,
        );
        assert(morph_entry_fits(
            kind,
            s_vertex_index,
            s_bone_index,
            s_material_index,
            s_morph_index,
            entries[entries.len() - 1],
        ));
        lemma_morph_entry_roundtrip(
            kind,
            s_vertex_index,
            s_bone_index,
            s_material_index,
            s_morph_index,
            entries.last(),
            rest,
        );
        assert(init.push(entries.last()) =~= entries);
    }
}

/// A written morph reads back as itself, and leaves what followed it.
pub proof fn lemma_morph_roundtrip(
    s_vertex_index: u8,
    s_bone_index: u8,
    s_material_index: u8,
    s_morph_index: u8,
    m: PMXMorphView,
    rest: Seq<u8>,
)
    requires
        morph_fits(s_vertex_index, s_bone_index, s_material_index, s_morph_index, m),
    ensures
        parse_morph(
            s_vertex_index,
            s_bone_index,
            s_material_index,
            s_morph_index,
            morph_bytes(s_vertex_index, s_bone_index, s_material_index, s_morph_index, m) + rest,
        ) == Some((m, rest)),
{
    let s6 = rest;
    let s5 = morph_entries_bytes(s_vertex_index, s_bone_index, s_material_index, s_morph_index, m.morph_data) + s6;
    let s4 = int_bytes(m.morph_data.len() as int) + s5;
    let s3 = seq![m.morph_type] + s4;
    let s2 = seq![m.category] + s3;
    let s1 = text_bytes(m.english_name) + s2;
    let e1 = text_bytes(m.name);
    let e2 = e1 + text_bytes(m.english_name);
    let e3 = e2 + seq![m.category];
    let e4 = e3 + seq![m.morph_type];
    let e5 = e4 + int_bytes(m.morph_data.len() as int);
    let e6 = e5 + morph_entries_bytes(s_vertex_index, s_bone_index, s_material_index, s_morph_index, m.morph_data);
    assert(morph_bytes(s_vertex_index, s_bone_index, s_material_index, s_morph_index, m) == e6);
    lemma_concat_associative(e5, morph_entries_bytes(s_vertex_index, s_bone_index, s_material_index, s_morph_index, m.morph_data), s6);
    lemma_concat_associative(e4, int_bytes(m.morph_data.len() as int), s5);
    lemma_concat_associative(e3, seq![m.morph_type], s4);
    lemma_concat_associative(e2, seq![m.category], s3);
    lemma_concat_associative(e1, text_bytes(m.english_name), s2);
    lemma_parse_text_roundtrip(m.name, s1);
    lemma_parse_text_roundtrip(m.english_name, s2);
    lemma_parse_u8_roundtrip(m.category, s3);
    lemma_parse_u8_roundtrip(m.morph_type, s4);
    lemma_parse_count_roundtrip(m.morph_data.len(), s5);
    lemma_morph_entries_roundtrip(
        m.morph_type,
        s_vertex_index,
        s_bone_index,
        s_material_index,
        s_morph_index,
        m.morph_data,
        s6,
    );
}

/// A face that was read fits, so writing it again reads back the same face.
pub proof fn lemma_face_read_fits(s_vertex_index: u8, bytes: Seq<u8>)
    ensures
        parse_face(s_vertex_index, bytes) matches Some((face, _)) ==> face_fits(s_vertex_index, face),
{
    lemma_parse_vertex_index_fits(s_vertex_index, bytes);
    if let Some((a, r1)) = parse_vertex_index(s_vertex_index, bytes) {
        lemma_parse_vertex_index_fits(s_vertex_index, r1);
        if let Some((b, r2)) = parse_vertex_index(s_vertex_index, r1) {
            lemma_parse_vertex_index_fits(s_vertex_index, r2);
            if let Some((c, r3)) = parse_vertex_index(s_vertex_index, r2) {
            }
        }
    }
}

/// A material that was read fits.
pub proof fn lemma_material_read_fits(s_texture_index: u8, bytes: Seq<u8>)
    ensures
        parse_material(s_texture_index, bytes) matches Some((m, _)) ==> material_fits(
            s_texture_index,
            m,
        ),
{
    lemma_parse_text_fits(bytes);
    if let Some((name, r1)) = parse_text(bytes) {
        lemma_parse_text_fits(r1);
        if let Some((english_name, r2)) = parse_text(r1) {
            if let Some((diffuse, r3)) = parse_vec4(r2) {
                if let Some((specular, r4)) = parse_vec3(r3) {
                    if let Some((specular_factor, r5)) = parse_float(r4) {
                        if let Some((ambient, r6)) = parse_vec3(r5) {
                            if let Some((draw_mode, r7)) = parse_u8(r6) {
                                if let Some((edge_color, r8)) = parse_vec4(r7) {
                                    if let Some((edge_size, r9)) = parse_float(r8) {
                                        lemma_parse_sized_fits(s_texture_index, r9);
                                        if let Some((texture_index, r10)) = parse_sized(s_texture_index, r9) {
                                            lemma_parse_sized_fits(s_texture_index, r10);
                                            if let Some((sphere_mode_texture_index, r11)) = parse_sized(s_texture_index, r10) {
                                                if let Some((sphere_mode, r12)) = parse_sphere_mode(r11) {
                                                    if let Some((toon_mode, r13)) = parse_toon_mode(r12) {
                                                        lemma_parse_sized_fits(s_texture_index, r13);
lemma_parse_sized_fits(1, r13);
                                                        if let Some((toon_texture_index, r14)) = parse_toon_texture(s_texture_index, toon_mode, r13) {
                                                            lemma_parse_text_fits(r14);
                                                            if let Some((memo, r15)) = parse_text(r14) {
                                                                if let Some((num_face_vertices, r16)) = parse_i32(r15) {
                                                                }
                                                            }
                                                        }
                                                    }
                                                }
                                            }
                                        }
                                    }
                                }
                            }
                        }
                    }
                }
            }
        }
    }
}

/// A vertex weight body that was read fits.
pub proof fn lemma_weight_body_read_fits(s_bone_index: u8, code: u8, bytes: Seq<u8>)
    ensures
        parse_weight_body(s_bone_index, code, bytes) matches Some((w, _)) ==> weight_fits(
            s_bone_index,
            w,
        ),
{
    if code == 0 {
        lemma_parse_sized_fits(s_bone_index, bytes);
    } else if code == 1 {
        lemma_parse_sized_fits(s_bone_index, bytes);
        if let Some((bone_index_1, r1)) = parse_sized(s_bone_index, bytes) {
            lemma_parse_sized_fits(s_bone_index, r1);
            if let Some((bone_index_2, r2)) = parse_sized(s_bone_index, r1) {
                if let Some((bone_weight_1, r3)) = parse_float(r2) {
                }
            }
        }
    } else if code == 2 || code == 4 {
        lemma_parse_sized_fits(s_bone_index, bytes);
        if let Some((bone_index_1, r1)) = parse_sized(s_bone_index, bytes) {
            lemma_parse_sized_fits(s_bone_index, r1);
            if let Some((bone_index_2, r2)) = parse_sized(s_bone_index, r1) {
                lemma_parse_sized_fits(s_bone_index, r2);
                if let Some((bone_index_3, r3)) = parse_sized(s_bone_index, r2) {
                    lemma_parse_sized_fits(s_bone_index, r3);
                    if let Some((bone_index_4, r4)) = parse_sized(s_bone_index, r3) {
                    }
                }
            }
        }
    } else if code == 3 {
        lemma_parse_sized_fits(s_bone_index, bytes);
        if let Some((bone_index_1, r1)) = parse_sized(s_bone_index, bytes) {
            lemma_parse_sized_fits(s_bone_index, r1);
            if let Some((bone_index_2, r2)) = parse_sized(s_bone_index, r1) {
            }
        }
    }
}

/// A vertex weight that was read fits.
pub proof fn lemma_weight_read_fits(s_bone_index: u8, bytes: Seq<u8>)
    ensures
        parse_weight(s_bone_index, bytes) matches Some((w, _)) ==> weight_fits(s_bone_index, w),
{
    if let Some((code, r1)) = parse_u8(bytes) {
        lemma_weight_body_read_fits(s_bone_index, code, r1);
    }
}

/// Reading `n` additional UV sets gives `n` sets.
pub proof fn lemma_add_uvs_len(bytes: Seq<u8>, n: nat)
    ensures
        parse_add_uvs(bytes, n) matches Some((uvs, _)) ==> uvs.len() == n,
    decreases n,
{
    if n > 0 {
        lemma_add_uvs_len(bytes, (n - 1) as nat);
    }
}

/// The UV slots beyond the sets read are zero.
pub proof fn lemma_uv_slots_zero_beyond(uvs: Seq<Vec4>)
    ensures
        forall|i: int| uvs.len() <= i < 4 ==> uv_slots(uvs)[i] == [0u32, 0, 0, 0],
{
    let a = uv_slots(uvs);
    assert(a[0] == uv_or_zero(uvs, 0));
    assert(a[1] == uv_or_zero(uvs, 1));
    assert(a[2] == uv_or_zero(uvs, 2));
    assert(a[3] == uv_or_zero(uvs, 3));
}

/// A vertex that was read fits.
pub proof fn lemma_vertex_read_fits(additional_uvs: u8, s_bone_index: u8, bytes: Seq<u8>)
    requires
        additional_uvs <= 4,
    ensures
        parse_vertex(additional_uvs, s_bone_index, bytes) matches Some((v, _)) ==> vertex_fits(
            additional_uvs,
            v,
            s_bone_index,
        ),
{
    if let Some((position, r1)) = parse_vec3(bytes) {
        if let Some((norm, r2)) = parse_vec3(r1) {
            if let Some((uv, r3)) = parse_vec2(r2) {
                lemma_add_uvs_len(r3, additional_uvs as nat);
                if let Some((uvs, r4)) = parse_add_uvs(r3, additional_uvs as nat) {
                    lemma_weight_read_fits(s_bone_index, r4);
                    if let Some((weight_type, r5)) = parse_weight(s_bone_index, r4) {
                        if let Some((edge_mag, r6)) = parse_float(r5) {
                            lemma_uv_slots_zero_beyond(uvs);
                        }
                    }
                }
            }
        }
    }
}

/// An IK link that was read fits.
pub proof fn lemma_ik_link_read_fits(s_bone_index: u8, bytes: Seq<u8>)
    ensures
        parse_ik_link(s_bone_index, bytes) matches Some((link, _)) ==> ik_link_fits(
            s_bone_index,
            link,
        ),
{
    lemma_parse_sized_fits(s_bone_index, bytes);
}

/// IK links that were read fit, and there are as many as were asked for.
pub proof fn lemma_ik_links_read_fits(s_bone_index: u8, bytes: Seq<u8>, n: nat)
    ensures
        parse_ik_links(s_bone_index, bytes, n) matches Some((links, _)) ==> {
            &&& links.len() == n
            &&& forall|i: int|
                0 <= i < links.len() ==> ik_link_fits(s_bone_index, #[trigger] links[i])
        },
    decreases n,
{
    if n > 0 {
        lemma_ik_links_read_fits(s_bone_index, bytes, (n - 1) as nat);
        if let Some((init, r1)) = parse_ik_links(s_bone_index, bytes, (n - 1) as nat) {
            lemma_ik_link_read_fits(s_bone_index, r1);
            if let Some((link, r2)) = parse_ik_link(s_bone_index, r1) {
                let links = init.push(link);
                assert forall|i: int| 0 <= i < links.len() implies ik_link_fits(
                    s_bone_index,
                    #[trigger] links[i],
                ) by {
                    if i < init.len() {
                        assert(links[i] == init[i]);
                    }
                }
            }
        }
    }
}

/// A bone that was read fits.
pub proof fn lemma_bone_read_fits(s_bone_index: u8, bytes: Seq<u8>)
    ensures
        parse_bone(s_bone_index, bytes) matches Some((b, _)) ==> bone_fits(s_bone_index, b),
{
    lemma_parse_text_fits(bytes);
    if let Some((name, r1)) = parse_text(bytes) {
        lemma_parse_text_fits(r1);
        if let Some((english_name, r2)) = parse_text(r1) {
            if let Some((position, r3)) = parse_vec3(r2) {
                lemma_parse_sized_fits(s_bone_index, r3);
                if let Some((parent, r4)) = parse_sized(s_bone_index, r3) {
                    if let Some((deform_depth, r5)) = parse_i32(r4) {
                        if let Some((boneflag, r6)) = parse_u16(r5) {
                            lemma_parse_sized_fits(s_bone_index, r6);
                            if let Some((tail, r7)) = parse_bone_tail(s_bone_index, boneflag, r6) {
                                lemma_parse_sized_fits(s_bone_index, r7);
                                if let Some((append, r8)) = parse_bone_append(s_bone_index, boneflag, r7) {
                                    if let Some((fixed_axis, r9)) = parse_opt_vec3(has_all(boneflag, BONE_FLAG_FIXED_AXIS_MASK), r8) {
                                        if let Some((local_axis_x, r10)) = parse_opt_vec3(has_all(boneflag, BONE_FLAG_LOCAL_AXIS_MASK), r9) {
                                            if let Some((local_axis_z, r11)) = parse_opt_vec3(has_all(boneflag, BONE_FLAG_LOCAL_AXIS_MASK), r10) {
                                                if let Some((key_value, r12)) = parse_bone_outer_parent(boneflag, r11) {
                                                    lemma_bone_ik_read_fits(s_bone_index, boneflag, r12);
                                                }
                                            }
                                        }
                                    }
                                }
                            }
                        }
                    }
                }
            }
        }
    }
}

/// The IK chain that was read fits: its target fits, it has fewer than
/// `2^31` links, and every link fits.
pub proof fn lemma_bone_ik_read_fits(s_bone_index: u8, flags: u16, bytes: Seq<u8>)
    ensures
        parse_bone_ik(s_bone_index, flags, bytes) matches Some((ik, _)) ==> has_all(
            flags,
            BONE_FLAG_IK_MASK,
        ) ==> {
            &&& sized_fits(s_bone_index, ik.0)
            &&& ik.3.len() < 0x8000_0000
            &&& forall|i: int| 0 <= i < ik.3.len() ==> ik_link_fits(s_bone_index, #[trigger] ik.3[i])
        },
{
    if has_all(flags, BONE_FLAG_IK_MASK) {
        lemma_parse_sized_fits(s_bone_index, bytes);
        if let Some((target, r1)) = parse_sized(s_bone_index, bytes) {
            if let Some((iter, r2)) = parse_i32(r1) {
                if let Some((limit, r3)) = parse_float(r2) {
                    lemma_parse_count_bound(r3);
                    if let Some((count, r4)) = parse_count(r3) {
                        lemma_ik_links_read_fits(s_bone_index, r4, count);
                    }
                }
            }
        }
    }
}

/// A morph entry read for a kind is of that kind, and its index fits.
pub proof fn lemma_morph_entry_read_fits(
    kind: u8,
    s_vertex_index: u8,
    s_bone_index: u8,
    s_material_index: u8,
    s_morph_index: u8,
    bytes: Seq<u8>,
)
    ensures
        parse_morph_entry(
            kind,
            s_vertex_index,
            s_bone_index,
            s_material_index,
            s_morph_index,
            bytes,
        ) matches Some((e, _)) ==> morph_entry_fits(
            kind,
            s_vertex_index,
            s_bone_index,
            s_material_index,
            s_morph_index,
            e,
        ),
{
    if kind == 0 {
        lemma_parse_sized_fits(s_morph_index, bytes);
    } else if kind == 1 || 3 <= kind <= 7 {
        lemma_parse_sized_fits(s_vertex_index, bytes);
    } else if kind == 2 {
        lemma_parse_sized_fits(s_bone_index, bytes);
    } else if kind == 8 {
        lemma_material_morph_read_fits(s_material_index, bytes);
    }
}

/// Morph entries read for a kind are all of that kind and fit, and there are
/// as many as were asked for.
pub proof fn lemma_morph_entries_read_fits(
    kind: u8,
    s_vertex_index: u8,
    s_bone_index: u8,
    s_material_index: u8,
    s_morph_index: u8,
    bytes: Seq<u8>,
    n: nat,
)
    ensures
        parse_morph_entries(
            kind,
            s_vertex_index,
            s_bone_index,
            s_material_index,
            s_morph_index,
            bytes,
            n,
        ) matches Some((entries, _)) ==> {
            &&& entries.len() == n
            &&& forall|i: int|
                0 <= i < entries.len() ==> morph_entry_fits(
                    kind,
                    s_vertex_index,
                    s_bone_index,
                    s_material_index,
                    s_morph_index,
                    #[trigger] entries[i],
                )
        },
    decreases n,
{
    if n > 0 {
        lemma_morph_entries_read_fits(
            kind,
            s_vertex_index,
            s_bone_index,
            s_material_index,
            s_morph_index,
            bytes,
            (n - 1) as nat,
        );
        if let Some((init, r1)) = parse_morph_entries(
            kind,
            s_vertex_index,
            s_bone_index,
            s_material_index,
            s_morph_index,
            bytes,
            (n - 1) as nat,
        ) {
            lemma_morph_entry_read_fits(
                kind,
                s_vertex_index,
                s_bone_index,
                s_material_index,
                s_morph_index,
                r1,
            );
            if let Some((e, r2)) = parse_morph_entry(
                kind,
                s_vertex_index,
                s_bone_index,
                s_material_index,
                s_morph_index,
                r1,
            ) {
                let entries = init.push(e);
                assert forall|i: int| 0 <= i < entries.len() implies morph_entry_fits(
                    kind,
                    s_vertex_index,
                    s_bone_index,
                    s_material_index,
                    s_morph_index,
                    #[trigger] entries[i],
                ) by {
                    if i < init.len() {
                        assert(entries[i] == init[i]);
                    }
                }
            }
        }
    }
}

/// A morph that was read fits.
pub proof fn lemma_morph_read_fits(
    s_vertex_index: u8,
    s_bone_index: u8,
    s_material_index: u8,
    s_morph_index: u8,
    bytes: Seq<u8>,
)
    ensures
        parse_morph(
            s_vertex_index,
            s_bone_index,
            s_material_index,
            s_morph_index,
            bytes,
        ) matches Some((m, _)) ==> morph_fits(
            s_vertex_index,
            s_bone_index,
            s_material_index,
            s_morph_index,
            m,
        ),
{
    lemma_parse_text_fits(bytes);
    if let Some((name, r1)) = parse_text(bytes) {
        lemma_parse_text_fits(r1);
        if let Some((english_name, r2)) = parse_text(r1) {
            if let Some((category, r3)) = parse_u8(r2) {
                if let Some((morph_type, r4)) = parse_u8(r3) {
                    lemma_parse_count_bound(r4);
                    if let Some((count, r5)) = parse_count(r4) {
                        lemma_morph_entries_read_fits(morph_type, s_vertex_index, s_bone_index, s_material_index, s_morph_index, r5, count);
                    }
                }
            }
        }
    }
}

/// Copying a face: what was read from some bytes, written again and read
/// back, is the same, and reading stops where the copy ends.
pub proof fn lemma_face_copy(s_vertex_index: u8, bytes: Seq<u8>, rest: Seq<u8>)
    requires
        parse_face(s_vertex_index, bytes) is Some,
    ensures
        ({
            let x = parse_face(s_vertex_index, bytes).unwrap().0;
            parse_face(s_vertex_index, face_bytes(s_vertex_index, x) + rest) == Some((x, rest))
        }),
{
    lemma_face_read_fits(s_vertex_index, bytes);
    lemma_face_roundtrip(s_vertex_index, parse_face(s_vertex_index, bytes).unwrap().0, rest);
}

/// Copying a material: what was read from some bytes, written again and read
/// back, is the same, and reading stops where the copy ends.
pub proof fn lemma_material_copy(s_texture_index: u8, bytes: Seq<u8>, rest: Seq<u8>)
    requires
        parse_material(s_texture_index, bytes) is Some,
    ensures
        ({
            let x = parse_material(s_texture_index, bytes).unwrap().0;
            parse_material(s_texture_index, material_bytes(s_texture_index, x) + rest) == Some((x, rest))
        }),
{
    lemma_material_read_fits(s_texture_index, bytes);
    lemma_material_roundtrip(s_texture_index, parse_material(s_texture_index, bytes).unwrap().0, rest);
}

/// Copying a vertex: what was read from some bytes, written again and read
/// back, is the same, and reading stops where the copy ends.
pub proof fn lemma_vertex_copy(additional_uvs: u8, s_bone_index: u8, bytes: Seq<u8>, rest: Seq<u8>)
    requires
        additional_uvs <= 4,
        parse_vertex(additional_uvs, s_bone_index, bytes) is Some,
    ensures
        ({
            let x = parse_vertex(additional_uvs, s_bone_index, bytes).unwrap().0;
            parse_vertex(additional_uvs, s_bone_index, vertex_bytes(additional_uvs, x, s_bone_index) + rest) == Some((x, rest))
        }),
{
    lemma_vertex_read_fits(additional_uvs, s_bone_index, bytes);
    lemma_vertex_roundtrip(
        additional_uvs,
        parse_vertex(additional_uvs, s_bone_index, bytes).unwrap().0,
        s_bone_index,
        rest,
    );
}

/// Copying a bone: what was read from some bytes, written again and read
/// back, is the same, and reading stops where the copy ends.
pub proof fn lemma_bone_copy(s_bone_index: u8, bytes: Seq<u8>, rest: Seq<u8>)
    requires
        parse_bone(s_bone_index, bytes) is Some,
    ensures
        ({
            let x = parse_bone(s_bone_index, bytes).unwrap().0;
            parse_bone(s_bone_index, bone_bytes(s_bone_index, x) + rest) == Some((x, rest))
        }),
{
    lemma_bone_read_fits(s_bone_index, bytes);
    lemma_bone_roundtrip(s_bone_index, parse_bone(s_bone_index, bytes).unwrap().0, rest);
}

/// Copying a morph: what was read from some bytes, written again and read
/// back, is the same, and reading stops where the copy ends.
pub proof fn lemma_morph_copy(
    s_vertex_index: u8,
    s_bone_index: u8,
    s_material_index: u8,
    s_morph_index: u8,
    bytes: Seq<u8>,
    rest: Seq<u8>,
)
    requires
        parse_morph(s_vertex_index, s_bone_index, s_material_index, s_morph_index, bytes) is Some,
    ensures
        ({
            let x = parse_morph(
                s_vertex_index,
                s_bone_index,
                s_material_index,
                s_morph_index,
                bytes,
            ).unwrap().0;
            let written = morph_bytes(
                s_vertex_index,
                s_bone_index,
                s_material_index,
                s_morph_index,
                x,
            );
            parse_morph(
                s_vertex_index,
                s_bone_index,
                s_material_index,
                s_morph_index,
                written + rest,
            ) == Some((x, rest))
        }),
{
    let x = parse_morph(s_vertex_index, s_bone_index, s_material_index, s_morph_index, bytes).unwrap().0;
    lemma_morph_read_fits(s_vertex_index, s_bone_index, s_material_index, s_morph_index, bytes);
    lemma_morph_roundtrip(s_vertex_index, s_bone_index, s_material_index, s_morph_index, x, rest);
}

} // verus!
