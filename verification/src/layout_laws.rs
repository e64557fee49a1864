//! Where each field of a written record sits, byte by byte.
//!
//! These laws describe the PMX layout in plain terms, independently of the
//! spec functions that the writer and the reader share: a little-endian
//! integer is its bytes taken by division, a field sits at an offset that is
//! the sum of the widths before it, and every code byte is a fixed constant.
use vstd::prelude::*;
use vstd::utf8::encode_utf8;
use crate::encoding::{
    has_all, has_any,
    le_bytes, index_bytes, float_bytes, int_bytes, text_bytes, vec2_bytes, vec3_bytes, vec4_bytes,
    material_bytes, toon_texture_bytes, add_uv_bytes, weight_bytes, vertex_bytes, ik_link_bytes,
    ik_links_bytes, bone_tail_bytes, bone_append_bytes, bone_fixed_axis_bytes, bone_local_axis_bytes,
    bone_outer_parent_bytes, bone_ik_bytes, bone_bytes, vertex_morph_bytes, uv_morph_bytes, bone_morph_bytes, material_morph_bytes,
    group_morph_bytes, morph_entry_bytes, morph_entries_bytes, morph_bytes, face_bytes,
};
use crate::pmx_types::{
    Vec2, Vec3, Vec4, PMXVertexWeight, PMXVertex, PMXSphereMode, PMXToonMode, PMXMaterialView, PMXIKLink, PMXBoneView, VertexMorph, UVMorph, BoneMorph, MaterialMorph, GroupMorph,
    MorphTypes, PMXMorphView, PMXFace,
};

verus! {

/// The four bytes of `v` modulo `2^32`, least significant first.
pub open spec fn le4(v: int) -> Seq<u8> {
    seq![
        (v % 256) as u8,
        ((v / 256) % 256) as u8,
        ((v / 65536) % 256) as u8,
        ((v / 16777216) % 256) as u8,
    ]
}

/// The bytes of the floats of `v`, in order, each as `le4` of its bits.
pub open spec fn floats_le(v: Seq<u32>) -> Seq<u8>
    decreases v.len(),
{
    if v.len() == 0 {
        seq![]
    } else {
        le4(v[0] as int) + floats_le(v.drop_first())
    }
}

/// How many bytes an index takes at a given index size.
pub open spec fn index_width(size: u8) -> int {
    if size == 1 || size == 2 || size == 4 {
        size as int
    } else {
        0
    }
}

/// How many bytes a text takes: its length field and its UTF-8 bytes.
pub open spec fn text_width(text: Seq<char>) -> int {
    4 + encode_utf8(text).len() as int
}

/// A four-byte integer is its value's bytes, least significant first.
pub proof fn lemma_int_layout(v: int)
    ensures
        int_bytes(v) == le4(v),
{
    reveal_with_fuel(le_bytes, 5);
    assert((v / 256) / 256 == v / 65536);
    assert(((v / 256) / 256) / 256 == v / 16777216);
    assert(int_bytes(v) =~= le4(v));
}

/// A float is the four bytes of its bit pattern, least significant first.
pub proof fn lemma_float_layout(bits: u32)
    ensures
        float_bytes(bits) == le4(bits as int),
        float_bytes(bits).len() == 4,
{
    lemma_int_layout(bits as int);
}

/// A two-float vector is its components' floats, first component first.
pub proof fn lemma_vec2_layout(v: Vec2)
    ensures
        vec2_bytes(v) == floats_le(v@),
        vec2_bytes(v).len() == 8,
{
    reveal_with_fuel(floats_le, 3);
    lemma_float_layout(v[0]);
    lemma_float_layout(v[1]);
    assert(v@.drop_first().drop_first() =~= Seq::<u32>::empty());
    assert(vec2_bytes(v) =~= floats_le(v@));
}

/// A three-float vector is its components' floats, first component first.
pub proof fn lemma_vec3_layout(v: Vec3)
    ensures
        vec3_bytes(v) == floats_le(v@),
        vec3_bytes(v).len() == 12,
{
    reveal_with_fuel(floats_le, 4);
    lemma_float_layout(v[0]);
    lemma_float_layout(v[1]);
    lemma_float_layout(v[2]);
    assert(v@.drop_first().drop_first().drop_first() =~= Seq::<u32>::empty());
    assert(vec3_bytes(v) =~= floats_le(v@));
}

/// A four-float vector is its components' floats, first component first.
pub proof fn lemma_vec4_layout(v: Vec4)
    ensures
        vec4_bytes(v) == floats_le(v@),
        vec4_bytes(v).len() == 16,
{
    reveal_with_fuel(floats_le, 5);
    lemma_float_layout(v[0]);
    lemma_float_layout(v[1]);
    lemma_float_layout(v[2]);
    lemma_float_layout(v[3]);
    assert(v@.drop_first().drop_first().drop_first().drop_first() =~= Seq::<u32>::empty());
    assert(vec4_bytes(v) =~= floats_le(v@));
}

/// An index in one, two or four bytes is the low bytes of its value; at any
/// other size it takes no bytes.
pub proof fn lemma_index_layout(size: u8, v: i32)
    ensures
        index_bytes(size, v).len() == index_width(size),
        index_bytes(size, v) == le4(v as int).take(index_width(size)),
{
    reveal_with_fuel(le_bytes, 5);
    lemma_int_layout(v as int);
    assert(index_bytes(size, v) =~= le4(v as int).take(index_width(size)));
}

/// A text is the byte length of its UTF-8 encoding, then that encoding.
pub proof fn lemma_text_layout(text: Seq<char>)
    ensures
        text_bytes(text).len() == text_width(text),
        text_bytes(text) == le4(encode_utf8(text).len() as int) + encode_utf8(text),
{
    lemma_int_layout(encode_utf8(text).len() as int);
}

/// An IK link is its bone index, then its limit flag, then, only when the
/// flag is one, the minimum angles and then the maximum angles.
pub proof fn lemma_ik_link_layout(s_bone_index: u8, link: PMXIKLink)
    ensures
        ({
            let b = ik_link_bytes(s_bone_index, link);
            let w = index_width(s_bone_index);
            &&& b.subrange(0, w) == le4(link.ik_bone_index as int).take(w)
            &&& b[w] == link.enable_limit
            &&& link.enable_limit == 1 ==> {
                &&& b.len() == w + 25
                &&& b.subrange(w + 1, w + 13) == floats_le(link.limit_min@)
                &&& b.subrange(w + 13, w + 25) == floats_le(link.limit_max@)
            }
            &&& link.enable_limit != 1 ==> b.len() == w + 1
        }),
{
    let b = ik_link_bytes(s_bone_index, link);
    let w = index_width(s_bone_index);
    lemma_index_layout(s_bone_index, link.ik_bone_index);
    lemma_vec3_layout(link.limit_min);
    lemma_vec3_layout(link.limit_max);
    assert(b.subrange(0, w) =~= index_bytes(s_bone_index, link.ik_bone_index));
    if link.enable_limit == 1 {
        assert(b.subrange(w + 1, w + 13) =~= vec3_bytes(link.limit_min));
        assert(b.subrange(w + 13, w + 25) =~= vec3_bytes(link.limit_max));
    }
}

/// A bone-morph entry is its bone index, then the twelve bytes of its
/// translation, then the sixteen bytes of its rotation.
pub proof fn lemma_bone_morph_layout(
    s_vertex_index: u8,
    s_bone_index: u8,
    s_material_index: u8,
    s_morph_index: u8,
    m: BoneMorph,
)
    ensures
        ({
            let b = morph_entry_bytes(
                s_vertex_index,
                s_bone_index,
                s_material_index,
                s_morph_index,
                MorphTypes::Bone(m),
            );
            let w = index_width(s_bone_index);
            &&& b.len() == w + 28
            &&& b.subrange(0, w) == le4(m.index as int).take(w)
            &&& b.subrange(w, w + 12) == floats_le(m.translates@)
            &&& b.subrange(w + 12, w + 28) == floats_le(m.rotates@)
        }),
{
    let b = bone_morph_bytes(s_bone_index, m);
    let w = index_width(s_bone_index);
    lemma_index_layout(s_bone_index, m.index);
    lemma_vec3_layout(m.translates);
    lemma_vec4_layout(m.rotates);
    assert(b.subrange(0, w) =~= index_bytes(s_bone_index, m.index));
    assert(b.subrange(w, w + 12) =~= vec3_bytes(m.translates));
    assert(b.subrange(w + 12, w + 28) =~= vec4_bytes(m.rotates));
}

/// A range inside the left part of a concatenation is that range of the left part.
pub broadcast proof fn lemma_subrange_in_left(x: Seq<u8>, y: Seq<u8>, i: int, j: int)
    requires
        0 <= i <= j <= x.len(),
    ensures
        #[trigger] (x + y).subrange(i, j) == x.subrange(i, j),
{
    assert((x + y).subrange(i, j) =~= x.subrange(i, j));
}

/// A range inside the right part of a concatenation is that range of the
/// right part, shifted by the left part's length.
pub broadcast proof fn lemma_subrange_in_right(x: Seq<u8>, y: Seq<u8>, i: int, j: int)
    requires
        x.len() <= i <= j <= x.len() + y.len(),
    ensures
        #[trigger] (x + y).subrange(i, j) == y.subrange(i - x.len(), j - x.len()),
{
    assert((x + y).subrange(i, j) =~= y.subrange(i - x.len(), j - x.len()));
}

/// The whole range of a sequence is the sequence.
pub broadcast proof fn lemma_subrange_whole(x: Seq<u8>, i: int, j: int)
    requires
        i == 0,
        j == x.len(),
    ensures
        #[trigger] x.subrange(i, j) == x,
{
    assert(x.subrange(i, j) =~= x);
}

/// The byte that a material stores for its sphere mode.
pub open spec fn sphere_mode_byte(mode: PMXSphereMode) -> u8 {
    match mode {
        PMXSphereMode::Disabled => 0u8,
        PMXSphereMode::Mul => 1u8,
        PMXSphereMode::Add => 2u8,
        PMXSphereMode::SubTexture => 3u8,
    }
}

/// A material: its name, English name, diffuse colour (16 bytes), specular
/// colour (12), specular factor (4), ambient colour (12), draw mode (1), edge
/// colour (16) and edge size (4); then its texture and sphere texture
/// indices; then the sphere-mode byte (0 disabled, 1 multiply, 2 add, 3
/// sub-texture) and the toon-mode byte (0 separate, 1 common); then the toon
/// texture index, in one byte when the toon texture is common; then the memo
/// and the number of face vertices, last.
pub proof fn lemma_material_layout(s_texture_index: u8, m: PMXMaterialView)
    ensures
        ({
            let b = material_bytes(s_texture_index, m);
            let n1 = text_width(m.name);
            let o = n1 + text_width(m.english_name);
            let w = index_width(s_texture_index);
            let t = o + 67 + 2 * w;
            let tw = match m.toon_mode {
                PMXToonMode::Separate => w,
                PMXToonMode::Common => 1,
            };
            &&& b.len() == t + tw + text_width(m.memo) + 4
            &&& b.subrange(0, n1) == text_bytes(m.name)
            &&& b.subrange(n1, o) == text_bytes(m.english_name)
            &&& b.subrange(o, o + 16) == floats_le(m.diffuse@)
            &&& b.subrange(o + 16, o + 28) == floats_le(m.specular@)
            &&& b.subrange(o + 28, o + 32) == le4(m.specular_factor as int)
            &&& b.subrange(o + 32, o + 44) == floats_le(m.ambient@)
            &&& b[o + 44] == m.draw_mode
            &&& b.subrange(o + 45, o + 61) == floats_le(m.edge_color@)
            &&& b.subrange(o + 61, o + 65) == le4(m.edge_size as int)
            &&& b.subrange(o + 65, o + 65 + w) == le4(m.texture_index as int).take(w)
            &&& b.subrange(o + 65 + w, o + 65 + 2 * w) == le4(
                m.sphere_mode_texture_index as int,
            ).take(w)
            &&& b[o + 65 + 2 * w] == sphere_mode_byte(m.sphere_mode)
            &&& b[o + 66 + 2 * w] == match m.toon_mode {
                PMXToonMode::Separate => 0u8,
                PMXToonMode::Common => 1u8,
            }
            &&& b.subrange(t, t + tw) == le4(m.toon_texture_index as int).take(tw)
            &&& b.subrange(t + tw, t + tw + text_width(m.memo)) == text_bytes(m.memo)
            &&& b.subrange(b.len() - 4, b.len() as int) == le4(m.num_face_vertices as int)
        }),
{
    let b = material_bytes(s_texture_index, m);
    let n1 = text_width(m.name);
    let o = n1 + text_width(m.english_name);
    let w = index_width(s_texture_index);
    let t = o + 67 + 2 * w;
    lemma_text_layout(m.name);
    lemma_text_layout(m.english_name);
    lemma_text_layout(m.memo);
    lemma_vec4_layout(m.diffuse);
    lemma_vec3_layout(m.specular);
    lemma_float_layout(m.specular_factor);
    lemma_vec3_layout(m.ambient);
    lemma_vec4_layout(m.edge_color);
    lemma_float_layout(m.edge_size);
    lemma_index_layout(s_texture_index, m.texture_index);
    lemma_index_layout(s_texture_index, m.sphere_mode_texture_index);
    lemma_index_layout(s_texture_index, m.toon_texture_index);
    lemma_index_layout(1, m.toon_texture_index);
    lemma_int_layout(m.num_face_vertices as int);
    broadcast use {lemma_subrange_in_left, lemma_subrange_in_right, lemma_subrange_whole};

    let tt = toon_texture_bytes(s_texture_index, m);
    assert(tt.len() == match m.toon_mode {
        PMXToonMode::Separate => w,
        PMXToonMode::Common => 1,
    });
}

/// `b` holds, from `at` on, an index of value `v` stored at size `size`.
pub open spec fn holds_index(b: Seq<u8>, at: int, size: u8, v: i32) -> bool {
    b.subrange(at, at + index_width(size)) == le4(v as int).take(index_width(size))
}

/// `b` holds, from `at` on, the float with bit pattern `bits`.
pub open spec fn holds_float(b: Seq<u8>, at: int, bits: u32) -> bool {
    b.subrange(at, at + 4) == le4(bits as int)
}

/// `b` holds, from `at` on, the floats of `v`, in order.
pub open spec fn holds_floats(b: Seq<u8>, at: int, v: Seq<u32>) -> bool {
    b.subrange(at, at + 4 * v.len()) == floats_le(v)
}

/// The byte that a vertex stores for its kind of weight.
pub open spec fn weight_kind_byte(w: PMXVertexWeight) -> u8 {
    match w {
        PMXVertexWeight::BDEF1(_) => 0u8,
        PMXVertexWeight::BDEF2 { .. } => 1u8,
        PMXVertexWeight::BDEF4 { .. } => 2u8,
        PMXVertexWeight::SDEF { .. } => 3u8,
        PMXVertexWeight::QDEF { .. } => 4u8,
    }
}

/// The bone part of a vertex: its bone indices first, in order, then its
/// weights in order; for SDEF, after the one weight, the C, R0 and R1 vectors.
pub proof fn lemma_weight_layout(s_bone_index: u8, weight: PMXVertexWeight)
    ensures
        ({
            let b = weight_bytes(s_bone_index, weight);
            let w = index_width(s_bone_index);
            match weight {
                PMXVertexWeight::BDEF1(i) => b.len() == w && holds_index(b, 0, s_bone_index, i),
                PMXVertexWeight::BDEF2 { bone_index_1, bone_index_2, bone_weight_1 } => {
                    &&& b.len() == 2 * w + 4
                    &&& holds_index(b, 0, s_bone_index, bone_index_1)
                    &&& holds_index(b, w, s_bone_index, bone_index_2)
                    &&& holds_float(b, 2 * w, bone_weight_1)
                },
                PMXVertexWeight::BDEF4 {
                    bone_index_1,
                    bone_index_2,
                    bone_index_3,
                    bone_index_4,
                    bone_weight_1,
                    bone_weight_2,
                    bone_weight_3,
                    bone_weight_4,
                }
                | PMXVertexWeight::QDEF {
                    bone_index_1,
                    bone_index_2,
                    bone_index_3,
                    bone_index_4,
                    bone_weight_1,
                    bone_weight_2,
                    bone_weight_3,
                    bone_weight_4,
                } => {
                    &&& b.len() == 4 * w + 16
                    &&& holds_index(b, 0, s_bone_index, bone_index_1)
                    &&& holds_index(b, w, s_bone_index, bone_index_2)
                    &&& holds_index(b, 2 * w, s_bone_index, bone_index_3)
                    &&& holds_index(b, 3 * w, s_bone_index, bone_index_4)
                    &&& holds_float(b, 4 * w, bone_weight_1)
                    &&& holds_float(b, 4 * w + 4, bone_weight_2)
                    &&& holds_float(b, 4 * w + 8, bone_weight_3)
                    &&& holds_float(b, 4 * w + 12, bone_weight_4)
                },
                PMXVertexWeight::SDEF {
                    bone_index_1,
                    bone_index_2,
                    bone_weight_1,
                    sdef_c,
                    sdef_r0,
                    sdef_r1,
                } => {
                    &&& b.len() == 2 * w + 40
                    &&& holds_index(b, 0, s_bone_index, bone_index_1)
                    &&& holds_index(b, w, s_bone_index, bone_index_2)
                    &&& holds_float(b, 2 * w, bone_weight_1)
                    &&& holds_floats(b, 2 * w + 4, sdef_c@)
                    &&& holds_floats(b, 2 * w + 16, sdef_r0@)
                    &&& holds_floats(b, 2 * w + 28, sdef_r1@)
                },
            }
        }),
{
    broadcast use {lemma_subrange_in_left, lemma_subrange_in_right, lemma_subrange_whole};

    match weight {
        PMXVertexWeight::BDEF1(i) => {
            lemma_index_layout(s_bone_index, i);
        },
        PMXVertexWeight::BDEF2 { bone_index_1, bone_index_2, bone_weight_1 } => {
            lemma_index_layout(s_bone_index, bone_index_1);
            lemma_index_layout(s_bone_index, bone_index_2);
            lemma_float_layout(bone_weight_1);
        },
        PMXVertexWeight::BDEF4 {
            bone_index_1,
            bone_index_2,
            bone_index_3,
            bone_index_4,
            bone_weight_1,
            bone_weight_2,
            bone_weight_3,
            bone_weight_4,
        }
        | PMXVertexWeight::QDEF {
            bone_index_1,
            bone_index_2,
            bone_index_3,
            bone_index_4,
            bone_weight_1,
            bone_weight_2,
            bone_weight_3,
            bone_weight_4,
        } => {
            lemma_index_layout(s_bone_index, bone_index_1);
            lemma_index_layout(s_bone_index, bone_index_2);
            lemma_index_layout(s_bone_index, bone_index_3);
            lemma_index_layout(s_bone_index, bone_index_4);
            lemma_float_layout(bone_weight_1);
            lemma_float_layout(bone_weight_2);
            lemma_float_layout(bone_weight_3);
            lemma_float_layout(bone_weight_4);
        },
        PMXVertexWeight::SDEF {
            bone_index_1,
            bone_index_2,
            bone_weight_1,
            sdef_c,
            sdef_r0,
            sdef_r1,
        } => {
            lemma_index_layout(s_bone_index, bone_index_1);
            lemma_index_layout(s_bone_index, bone_index_2);
            lemma_float_layout(bone_weight_1);
            lemma_vec3_layout(sdef_c);
            lemma_vec3_layout(sdef_r0);
            lemma_vec3_layout(sdef_r1);
        },
    }
}

/// The first `n` additional UV sets: sixteen bytes each, the `i`-th at
/// offset `16 * i`.
pub proof fn lemma_add_uvs_layout(uvs: Seq<Vec4>, n: nat)
    requires
        n <= uvs.len(),
    ensures
        add_uv_bytes(uvs, n).len() == 16 * n,
        forall|i: int|
            0 <= i < n ==> holds_floats(#[trigger] add_uv_bytes(uvs, n), 16 * i, uvs[i]@),
    decreases n,
{
    broadcast use {lemma_subrange_in_left, lemma_subrange_in_right, lemma_subrange_whole};

    if n > 0 {
        lemma_add_uvs_layout(uvs, (n - 1) as nat);
        lemma_vec4_layout(uvs[n - 1]);
        let prev = add_uv_bytes(uvs, (n - 1) as nat);
        assert forall|i: int| 0 <= i < n implies holds_floats(
            #[trigger] add_uv_bytes(uvs, n),
            16 * i,
            uvs[i]@,
        ) by {
            lemma_vec4_layout(uvs[i]);
            if i < n - 1 {
                assert(holds_floats(prev, 16 * i, uvs[i]@));
            }
        }
    }
}

/// A vertex: position (12 bytes), normal (12), UV (8), then each of the
/// additional UV sets (16 bytes each), then the weight-kind byte (0 BDEF1,
/// 1 BDEF2, 2 BDEF4, 3 SDEF, 4 QDEF), then the bone part, then the edge
/// scale, last.
pub proof fn lemma_vertex_layout(additional_uvs: u8, v: PMXVertex, s_bone_index: u8)
    requires
        additional_uvs <= 4,
    ensures
        ({
            let b = vertex_bytes(additional_uvs, v, s_bone_index);
            let k = 32 + 16 * additional_uvs;
            &&& b.len() == k + 5 + weight_bytes(s_bone_index, v.weight_type).len()
            &&& holds_floats(b, 0, v.position@)
            &&& holds_floats(b, 12, v.norm@)
            &&& holds_floats(b, 24, v.uv@)
            &&& forall|i: int|
                0 <= i < additional_uvs ==> holds_floats(b, 32 + 16 * i, #[trigger] v.add_uv[i]@)
            &&& b[k] == weight_kind_byte(v.weight_type)
            &&& b.subrange(k + 1, b.len() - 4) == weight_bytes(s_bone_index, v.weight_type)
            &&& holds_float(b, b.len() - 4, v.edge_mag)
        }),
{
    broadcast use {lemma_subrange_in_left, lemma_subrange_in_right, lemma_subrange_whole};

    let b = vertex_bytes(additional_uvs, v, s_bone_index);
    lemma_vec3_layout(v.position);
    lemma_vec3_layout(v.norm);
    lemma_vec2_layout(v.uv);
    lemma_float_layout(v.edge_mag);
    lemma_add_uvs_layout(v.add_uv@, additional_uvs as nat);
    let u = add_uv_bytes(v.add_uv@, additional_uvs as nat);
    assert forall|i: int| 0 <= i < additional_uvs implies holds_floats(
        b,
        32 + 16 * i,
        #[trigger] v.add_uv[i]@,
    ) by {
        assert(holds_floats(u, 16 * i, v.add_uv@[i]@));
    }
}

/// Whether bit `bit` (a power of two) of the bone flags is set.
pub open spec fn flag_set(flags: u16, bit: u16) -> bool {
    flags & bit != 0
}

/// How many bytes the flag-dependent tail of a bone takes before its IK
/// part: the connection (a bone index when bit 0x0001 is set, else an
/// offset), the inherited bone and weight (bits 0x0100, 0x0200), the fixed
/// axis (0x0400), the local axes (0x0800) and the outer parent key (0x2000).
pub open spec fn bone_tail_width(s_bone_index: u8, flags: u16) -> int {
    let w = index_width(s_bone_index);
    (if flag_set(flags, 0x0001) { w } else { 12 }) + (if flag_set(flags, 0x0100) || flag_set(
        flags,
        0x0200,
    ) {
        w + 4
    } else {
        0
    }) + (if flag_set(flags, 0x0400) { 12int } else { 0int }) + (if flag_set(flags, 0x0800) {
        24int
    } else {
        0int
    }) + (if flag_set(flags, 0x2000) { 4int } else { 0int })
}

/// The start of a bone: its name, English name, position (12 bytes), parent
/// index, deform depth (4 bytes) and its two flag bytes, in that order.
pub proof fn lemma_bone_head_layout(s_bone_index: u8, bone: PMXBoneView)
    ensures
        ({
            let b = bone_bytes(s_bone_index, bone);
            let n1 = text_width(bone.name);
            let o = n1 + text_width(bone.english_name);
            let w = index_width(s_bone_index);
            &&& b.len() >= o + w + 18
            &&& b.subrange(0, n1) == text_bytes(bone.name)
            &&& b.subrange(n1, o) == text_bytes(bone.english_name)
            &&& holds_floats(b, o, bone.position@)
            &&& holds_index(b, o + 12, s_bone_index, bone.parent)
            &&& b.subrange(o + 12 + w, o + 16 + w) == le4(bone.deform_depth as int)
            &&& b.subrange(o + 16 + w, o + 18 + w) == le4(bone.boneflag as int).take(2)
        }),
{
    broadcast use {lemma_subrange_in_left, lemma_subrange_in_right, lemma_subrange_whole};

    reveal_with_fuel(le_bytes, 3);
    lemma_text_layout(bone.name);
    lemma_text_layout(bone.english_name);
    lemma_vec3_layout(bone.position);
    lemma_index_layout(s_bone_index, bone.parent);
    lemma_int_layout(bone.deform_depth as int);
    lemma_int_layout(bone.boneflag as int);
    assert(le_bytes(bone.boneflag as int, 2) =~= le4(bone.boneflag as int).take(2));
}

/// The rest of a bone, after its flag bytes, as its flags decide: the
/// connection, as a bone index when bit 0x0001 is set and as an offset
/// otherwise; the inherited bone index and weight when bit 0x0100 or 0x0200
/// is set; the fixed axis when 0x0400 is set; the local X and Z axes when
/// 0x0800 is set; the outer parent key when 0x2000 is set; and last, when
/// 0x0020 is set, the IK target, iteration count, angle limit, number of
/// links and the links. Nothing else follows.
pub proof fn lemma_bone_tail_layout(s_bone_index: u8, bone: PMXBoneView)
    ensures
        ({
            let b = bone_bytes(s_bone_index, bone);
            let flags = bone.boneflag;
            let w = index_width(s_bone_index);
            let h = text_width(bone.name) + text_width(bone.english_name) + w + 18;
            let a0 = h + if flag_set(flags, 0x0001) { w } else { 12int };
            let f0 = a0 + if flag_set(flags, 0x0100) || flag_set(flags, 0x0200) { w + 4 } else { 0int };
            let l0 = f0 + if flag_set(flags, 0x0400) { 12int } else { 0int };
            let k0 = l0 + if flag_set(flags, 0x0800) { 24int } else { 0int };
            let i0 = h + bone_tail_width(s_bone_index, flags);
            &&& flag_set(flags, 0x0001) ==> holds_index(b, h, s_bone_index, bone.child)
            &&& !flag_set(flags, 0x0001) ==> holds_floats(b, h, bone.offset@)
            &&& flag_set(flags, 0x0100) || flag_set(flags, 0x0200) ==> {
                &&& holds_index(b, a0, s_bone_index, bone.append_bone_index)
                &&& holds_float(b, a0 + w, bone.append_weight)
            }
            &&& flag_set(flags, 0x0400) ==> holds_floats(b, f0, bone.fixed_axis@)
            &&& flag_set(flags, 0x0800) ==> {
                &&& holds_floats(b, l0, bone.local_axis_x@)
                &&& holds_floats(b, l0 + 12, bone.local_axis_z@)
            }
            &&& flag_set(flags, 0x2000) ==> b.subrange(k0, k0 + 4) == le4(bone.key_value as int)
            &&& flag_set(flags, 0x0020) ==> {
                &&& b.len() >= i0 + w + 12
                &&& holds_index(b, i0, s_bone_index, bone.ik_target_index)
                &&& b.subrange(i0 + w, i0 + w + 4) == le4(bone.ik_iter_count as int)
                &&& holds_float(b, i0 + w + 4, bone.ik_limit)
                &&& b.subrange(i0 + w + 8, i0 + w + 12) == le4(bone.ik_links.len() as int)
                &&& b.subrange(i0 + w + 12, b.len() as int) == ik_links_bytes(
                    s_bone_index,
                    bone.ik_links,
                )
            }
            &&& !flag_set(flags, 0x0020) ==> b.len() == i0
        }),
{
    let flags = bone.boneflag;
    let b = bone_bytes(s_bone_index, bone);
    let w = index_width(s_bone_index);
    let head = text_bytes(bone.name) + text_bytes(bone.english_name) + vec3_bytes(bone.position)
        + index_bytes(s_bone_index, bone.parent) + int_bytes(bone.deform_depth as int) + le_bytes(
        bone.boneflag as int,
        2,
    );
    let x1 = bone_tail_bytes(s_bone_index, bone);
    let x2 = bone_append_bytes(s_bone_index, bone);
    let x3 = bone_fixed_axis_bytes(bone);
    let x4 = bone_local_axis_bytes(bone);
    let x5 = bone_outer_parent_bytes(bone);
    let x6 = bone_ik_bytes(s_bone_index, bone);
    assert(b == head + x1 + x2 + x3 + x4 + x5 + x6);
    lemma_sections(head, x1, x2, x3, x4, x5, x6);
    lemma_bone_head_width(s_bone_index, bone);
    lemma_bone_section_contents(s_bone_index, bone);
    let h = head.len() as int;
    let a0 = h + x1.len();
    let f0 = a0 + x2.len();
    let l0 = f0 + x3.len();
    let k0 = l0 + x4.len();
    let i0 = k0 + x5.len();
    if flag_set(flags, 0x0001) {
        lemma_within(b, h, x1, 0, w);
    } else {
        lemma_within(b, h, x1, 0, 12);
    }
    if flag_set(flags, 0x0100) || flag_set(flags, 0x0200) {
        lemma_within(b, a0, x2, 0, w);
        lemma_within(b, a0, x2, w, w + 4);
    }
    if flag_set(flags, 0x0400) {
        lemma_within(b, f0, x3, 0, 12);
    }
    if flag_set(flags, 0x0800) {
        lemma_within(b, l0, x4, 0, 12);
        lemma_within(b, l0, x4, 12, 24);
    }
    if flag_set(flags, 0x2000) {
        lemma_within(b, k0, x5, 0, 4);
    }
    if flag_set(flags, 0x0020) {
        lemma_within(b, i0, x6, 0, w);
        lemma_within(b, i0, x6, w, w + 4);
        lemma_within(b, i0, x6, w + 4, w + 8);
        lemma_within(b, i0, x6, w + 8, w + 12);
        lemma_within(b, i0, x6, w + 12, x6.len() as int);
    }
}

/// The fixed start of a bone, up to its flag bytes, takes the widths of the
/// two names, twelve bytes of position, an index, and six more bytes.
proof fn lemma_bone_head_width(s_bone_index: u8, bone: PMXBoneView)
    ensures
        (text_bytes(bone.name) + text_bytes(bone.english_name) + vec3_bytes(bone.position)
            + index_bytes(s_bone_index, bone.parent) + int_bytes(bone.deform_depth as int)
            + le_bytes(bone.boneflag as int, 2)).len() == text_width(bone.name) + text_width(
            bone.english_name,
        ) + index_width(s_bone_index) + 18,
{
    reveal_with_fuel(le_bytes, 3);
    lemma_text_layout(bone.name);
    lemma_text_layout(bone.english_name);
    lemma_vec3_layout(bone.position);
    lemma_index_layout(s_bone_index, bone.parent);
    lemma_int_layout(bone.deform_depth as int);
}

/// What each flag-dependent section of a bone holds, and how long it is.
proof fn lemma_bone_section_contents(s_bone_index: u8, bone: PMXBoneView)
    ensures
        ({
            let flags = bone.boneflag;
            let w = index_width(s_bone_index);
            let x1 = bone_tail_bytes(s_bone_index, bone);
            let x2 = bone_append_bytes(s_bone_index, bone);
            let x3 = bone_fixed_axis_bytes(bone);
            let x4 = bone_local_axis_bytes(bone);
            let x5 = bone_outer_parent_bytes(bone);
            let x6 = bone_ik_bytes(s_bone_index, bone);
            &&& x1.len() + x2.len() + x3.len() + x4.len() + x5.len() == bone_tail_width(
                s_bone_index,
                flags,
            )
            &&& flag_set(flags, 0x0001) ==> x1.len() == w && holds_index(
                x1,
                0,
                s_bone_index,
                bone.child,
            )
            &&& !flag_set(flags, 0x0001) ==> x1.len() == 12 && holds_floats(x1, 0, bone.offset@)
            &&& flag_set(flags, 0x0100) || flag_set(flags, 0x0200) ==> {
                &&& x2.len() == w + 4
                &&& holds_index(x2, 0, s_bone_index, bone.append_bone_index)
                &&& holds_float(x2, w, bone.append_weight)
            }
            &&& flag_set(flags, 0x0400) ==> x3.len() == 12 && holds_floats(x3, 0, bone.fixed_axis@)
            &&& flag_set(flags, 0x0800) ==> {
                &&& x4.len() == 24
                &&& holds_floats(x4, 0, bone.local_axis_x@)
                &&& holds_floats(x4, 12, bone.local_axis_z@)
            }
            &&& flag_set(flags, 0x2000) ==> x5.len() == 4 && x5.subrange(0, 4) == le4(
                bone.key_value as int,
            )
            &&& flag_set(flags, 0x0020) ==> {
                &&& x6.len() >= w + 12
                &&& holds_index(x6, 0, s_bone_index, bone.ik_target_index)
                &&& x6.subrange(w, w + 4) == le4(bone.ik_iter_count as int)
                &&& holds_float(x6, w + 4, bone.ik_limit)
                &&& x6.subrange(w + 8, w + 12) == le4(bone.ik_links.len() as int)
                &&& x6.subrange(w + 12, x6.len() as int) == ik_links_bytes(
                    s_bone_index,
                    bone.ik_links,
                )
            }
            &&& !flag_set(flags, 0x0020) ==> x6.len() == 0
        }),
{
    broadcast use {lemma_subrange_in_left, lemma_subrange_in_right, lemma_subrange_whole};

    let flags = bone.boneflag;
    assert(has_all(flags, 0x0001) == flag_set(flags, 0x0001)) by (bit_vector);
    assert(has_all(flags, 0x0020) == flag_set(flags, 0x0020)) by (bit_vector);
    assert(has_all(flags, 0x0400) == flag_set(flags, 0x0400)) by (bit_vector);
    assert(has_all(flags, 0x0800) == flag_set(flags, 0x0800)) by (bit_vector);
    assert(has_any(flags, 0x2000) == flag_set(flags, 0x2000)) by (bit_vector);
    assert(has_any(flags, 0x0100u16 | 0x0200u16) == (flag_set(flags, 0x0100) || flag_set(
        flags,
        0x0200,
    ))) by (bit_vector);
    lemma_index_layout(s_bone_index, bone.child);
    lemma_vec3_layout(bone.offset);
    lemma_index_layout(s_bone_index, bone.append_bone_index);
    lemma_float_layout(bone.append_weight);
    lemma_vec3_layout(bone.fixed_axis);
    lemma_vec3_layout(bone.local_axis_x);
    lemma_vec3_layout(bone.local_axis_z);
    lemma_int_layout(bone.key_value as int);
    lemma_index_layout(s_bone_index, bone.ik_target_index);
    lemma_int_layout(bone.ik_iter_count as int);
    lemma_float_layout(bone.ik_limit);
    lemma_int_layout(bone.ik_links.len() as int);
}

/// Consecutive sections of a sequence each sit at the sum of the lengths
/// before them.
pub proof fn lemma_sections(
    head: Seq<u8>,
    x1: Seq<u8>,
    x2: Seq<u8>,
    x3: Seq<u8>,
    x4: Seq<u8>,
    x5: Seq<u8>,
    x6: Seq<u8>,
)
    ensures
        ({
            let b = head + x1 + x2 + x3 + x4 + x5 + x6;
            let p1 = head.len() as int;
            let p2 = p1 + x1.len();
            let p3 = p2 + x2.len();
            let p4 = p3 + x3.len();
            let p5 = p4 + x4.len();
            let p6 = p5 + x5.len();
            &&& b.len() == p6 + x6.len()
            &&& b.subrange(p1, p2) == x1
            &&& b.subrange(p2, p3) == x2
            &&& b.subrange(p3, p4) == x3
            &&& b.subrange(p4, p5) == x4
            &&& b.subrange(p5, p6) == x5
            &&& b.subrange(p6, b.len() as int) == x6
        }),
{
    broadcast use {lemma_subrange_in_left, lemma_subrange_in_right, lemma_subrange_whole};

}

/// A range of a section of `b` is that range of `b`, shifted by where the
/// section starts.
pub proof fn lemma_within(b: Seq<u8>, at: int, x: Seq<u8>, i: int, j: int)
    requires
        0 <= at,
        at + x.len() <= b.len(),
        b.subrange(at, at + x.len()) == x,
        0 <= i <= j <= x.len(),
    ensures
        b.subrange(at + i, at + j) == x.subrange(i, j),
{
    assert(b.subrange(at + i, at + j) =~= b.subrange(at, at + x.len()).subrange(i, j));
}

/// A face is its three vertex indices, in order.
pub proof fn lemma_face_layout(s_vertex_index: u8, face: PMXFace)
    ensures
        ({
            let b = face_bytes(s_vertex_index, face);
            let w = index_width(s_vertex_index);
            &&& b.len() == 3 * w
            &&& holds_index(b, 0, s_vertex_index, face.vertices[0])
            &&& holds_index(b, w, s_vertex_index, face.vertices[1])
            &&& holds_index(b, 2 * w, s_vertex_index, face.vertices[2])
        }),
{
    broadcast use {lemma_subrange_in_left, lemma_subrange_in_right, lemma_subrange_whole};

    lemma_index_layout(s_vertex_index, face.vertices[0]);
    lemma_index_layout(s_vertex_index, face.vertices[1]);
    lemma_index_layout(s_vertex_index, face.vertices[2]);
}

/// A morph: its name, its English name, its category byte, its kind byte,
/// the number of its entries (4 bytes), then its entries.
pub proof fn lemma_morph_head_layout(
    s_vertex_index: u8,
    s_bone_index: u8,
    s_material_index: u8,
    s_morph_index: u8,
    m: PMXMorphView,
)
    ensures
        ({
            let b = morph_bytes(s_vertex_index, s_bone_index, s_material_index, s_morph_index, m);
            let n1 = text_width(m.name);
            let o = n1 + text_width(m.english_name);
            &&& b.len() >= o + 6
            &&& b.subrange(0, n1) == text_bytes(m.name)
            &&& b.subrange(n1, o) == text_bytes(m.english_name)
            &&& b[o] == m.category
            &&& b[o + 1] == m.morph_type
            &&& b.subrange(o + 2, o + 6) == le4(m.morph_data.len() as int)
            &&& b.subrange(o + 6, b.len() as int) == morph_entries_bytes(
                s_vertex_index,
                s_bone_index,
                s_material_index,
                s_morph_index,
                m.morph_data,
            )
        }),
{
    broadcast use {lemma_subrange_in_left, lemma_subrange_in_right, lemma_subrange_whole};

    lemma_text_layout(m.name);
    lemma_text_layout(m.english_name);
    lemma_int_layout(m.morph_data.len() as int);
}

/// The entries of a morph follow one another in order: no entries take no
/// bytes, and one more entry adds its own bytes at the end.
pub proof fn lemma_morph_entries_order(
    s_vertex_index: u8,
    s_bone_index: u8,
    s_material_index: u8,
    s_morph_index: u8,
    entries: Seq<MorphTypes>,
    e: MorphTypes,
)
    ensures
        morph_entries_bytes(
            s_vertex_index,
            s_bone_index,
            s_material_index,
            s_morph_index,
            Seq::<MorphTypes>::empty(),
        ).len() == 0,
        morph_entries_bytes(
            s_vertex_index,
            s_bone_index,
            s_material_index,
            s_morph_index,
            entries.push(e),
        ) == morph_entries_bytes(
            s_vertex_index,
            s_bone_index,
            s_material_index,
            s_morph_index,
            entries,
        ) + morph_entry_bytes(s_vertex_index, s_bone_index, s_material_index, s_morph_index, e),
{
    assert(entries.push(e).drop_last() =~= entries);
}

/// A vertex-morph entry is its vertex index then its 12-byte offset; a UV
/// morph entry (of any UV channel) is its vertex index then its 16-byte
/// offset; a group-morph entry is its morph index then its 4-byte factor.
pub proof fn lemma_small_morph_entries_layout(
    s_vertex_index: u8,
    s_bone_index: u8,
    s_material_index: u8,
    s_morph_index: u8,
    e: MorphTypes,
)
    ensures
        ({
            let b = morph_entry_bytes(
                s_vertex_index,
                s_bone_index,
                s_material_index,
                s_morph_index,
                e,
            );
            let wv = index_width(s_vertex_index);
            let wg = index_width(s_morph_index);
            match e {
                MorphTypes::Vertex(m) => {
                    &&& b.len() == wv + 12
                    &&& holds_index(b, 0, s_vertex_index, m.index)
                    &&& holds_floats(b, wv, m.offset@)
                },
                MorphTypes::UV(m)
                | MorphTypes::UV1(m)
                | MorphTypes::UV2(m)
                | MorphTypes::UV3(m)
                | MorphTypes::UV4(m) => {
                    &&& b.len() == wv + 16
                    &&& holds_index(b, 0, s_vertex_index, m.index)
                    &&& holds_floats(b, wv, m.offset@)
                },
                MorphTypes::Group(m) => {
                    &&& b.len() == wg + 4
                    &&& holds_index(b, 0, s_morph_index, m.index)
                    &&& holds_float(b, wg, m.morph_factor)
                },
                _ => true,
            }
        }),
{
    broadcast use {lemma_subrange_in_left, lemma_subrange_in_right, lemma_subrange_whole};

    match e {
        MorphTypes::Vertex(m) => {
            lemma_index_layout(s_vertex_index, m.index);
            lemma_vec3_layout(m.offset);
        },
        MorphTypes::UV(m)
        | MorphTypes::UV1(m)
        | MorphTypes::UV2(m)
        | MorphTypes::UV3(m)
        | MorphTypes::UV4(m) => {
            lemma_index_layout(s_vertex_index, m.index);
            lemma_vec4_layout(m.offset);
        },
        MorphTypes::Group(m) => {
            lemma_index_layout(s_morph_index, m.index);
            lemma_float_layout(m.morph_factor);
        },
        _ => {},
    }
}

/// A material-morph entry: its material index, its formula byte, then the
/// diffuse colour (16 bytes), specular colour (12), specular factor (4),
/// ambient colour (12), edge colour (16), edge size (4), and the texture,
/// sphere texture and toon texture factors (16 bytes each).
pub proof fn lemma_material_morph_layout(
    s_vertex_index: u8,
    s_bone_index: u8,
    s_material_index: u8,
    s_morph_index: u8,
    m: MaterialMorph,
)
    ensures
        ({
            let b = morph_entry_bytes(
                s_vertex_index,
                s_bone_index,
                s_material_index,
                s_morph_index,
                MorphTypes::Material(m),
            );
            let w = index_width(s_material_index);
            &&& b.len() == w + 113
            &&& holds_index(b, 0, s_material_index, m.index)
            &&& b[w] == m.formula
            &&& holds_floats(b, w + 1, m.diffuse@)
            &&& holds_floats(b, w + 17, m.specular@)
            &&& holds_float(b, w + 29, m.specular_factor)
            &&& holds_floats(b, w + 33, m.ambient@)
            &&& holds_floats(b, w + 45, m.edge_color@)
            &&& holds_float(b, w + 61, m.edge_size)
            &&& holds_floats(b, w + 65, m.texture_factor@)
            &&& holds_floats(b, w + 81, m.sphere_texture_factor@)
            &&& holds_floats(b, w + 97, m.toon_texture_factor@)
        }),
{
    broadcast use {lemma_subrange_in_left, lemma_subrange_in_right, lemma_subrange_whole};

    lemma_index_layout(s_material_index, m.index);
    lemma_vec4_layout(m.diffuse);
    lemma_vec3_layout(m.specular);
    lemma_float_layout(m.specular_factor);
    lemma_vec3_layout(m.ambient);
    lemma_vec4_layout(m.edge_color);
    lemma_float_layout(m.edge_size);
    lemma_vec4_layout(m.texture_factor);
    lemma_vec4_layout(m.sphere_texture_factor);
    lemma_vec4_layout(m.toon_texture_factor);
}

/// The IK links of a bone follow one another in order: no links take no
/// bytes, and one more link adds its own bytes at the end.
pub proof fn lemma_ik_links_order(s_bone_index: u8, links: Seq<PMXIKLink>, link: PMXIKLink)
    ensures
        ik_links_bytes(s_bone_index, Seq::<PMXIKLink>::empty()).len() == 0,
        ik_links_bytes(s_bone_index, links.push(link)) == ik_links_bytes(s_bone_index, links)
            + ik_link_bytes(s_bone_index, link),
{
    assert(links.push(link).drop_last() =~= links);
}

} // verus!
