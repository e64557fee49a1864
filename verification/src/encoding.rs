//! The byte-level encoding rules of the PMX format, as spec functions, and
//! the verified primitive that emits integers.
use vstd::prelude::*;
use vstd::utf8::encode_utf8;
use crate::pmx_types::{
    Vec2, Vec3, Vec4, PMXVertexWeight, PMXVertex, PMXFace, PMXSphereMode, PMXToonMode,
    PMXMaterialView, PMXIKLink, PMXBoneView, VertexMorph, UVMorph, BoneMorph, MaterialMorph,
    GroupMorph, MorphTypes, PMXMorphView, BONE_FLAG_TARGET_SHOW_MODE_MASK, BONE_FLAG_IK_MASK,
    BONE_FLAG_APPEND_ROTATE_MASK, BONE_FLAG_APPEND_TRANSLATE_MASK, BONE_FLAG_FIXED_AXIS_MASK,
    BONE_FLAG_LOCAL_AXIS_MASK, BONE_FLAG_DEFORM_OUTER_PARENT_MASK,
};

verus! {

/// The `n`-byte little-endian two's complement representation of `v`
/// (the low `n` bytes of `v`, least significant first).
pub open spec fn le_bytes(v: int, n: nat) -> Seq<u8>
    decreases n,
{
    if n == 0 {
        seq![]
    } else {
        seq![(v % 256) as u8] + le_bytes(v / 256, (n - 1) as nat)
    }
}

/// `256` raised to the power `n`: the number of values that `n` bytes can hold.
pub open spec fn byte_range(n: nat) -> int
    decreases n,
{
    if n == 0 {
        1
    } else {
        256 * byte_range((n - 1) as nat)
    }
}

/// Adding a multiple of `256^n` to a value does not change its low `n` bytes.
pub proof fn lemma_le_bytes_periodic(v: int, k: int, n: nat)
    ensures
        le_bytes(v + k * byte_range(n), n) == le_bytes(v, n),
    decreases n,
{
    if n > 0 {
        let p = byte_range((n - 1) as nat);
        assert(k * byte_range(n) == (k * p) * 256) by (nonlinear_arith)
            requires
                byte_range(n) == 256 * p,
        ;
        let w = v + (k * p) * 256;
        assert(w % 256 == v % 256);
        assert(w / 256 == v / 256 + k * p);
        lemma_le_bytes_periodic(v / 256, k, (n - 1) as nat);
    }
}

/// Appends the low `n` bytes of `v`, least significant first.
pub fn append_le(out: &mut Vec<u8>, v: u64, n: usize)
    ensures
        final(out)@ == old(out)@ + le_bytes(v as int, n as nat),
{
    let mut x: u64 = v;
    let mut i: usize = 0;
    while i < n
        invariant
            i <= n,
            old(out)@ + le_bytes(v as int, n as nat) == out@ + le_bytes(x as int, (n - i) as nat),
        decreases n - i,
    {
        let ghost before = out@;
        out.push((x % 256) as u8);
        assert(le_bytes(x as int, (n - i) as nat) == seq![(x % 256) as u8] + le_bytes(
            (x / 256) as int,
            (n - i - 1) as nat,
        ));
        assert(before + le_bytes(x as int, (n - i) as nat) =~= out@ + le_bytes(
            (x / 256) as int,
            (n - i - 1) as nat,
        ));
        x = x / 256;
        i = i + 1;
    }
    assert(le_bytes(x as int, 0) =~= Seq::<u8>::empty());
    assert(out@ + le_bytes(x as int, 0) =~= out@);
}

/// Appends the `n`-byte little-endian two's complement representation of `v`.
pub fn append_le_signed(out: &mut Vec<u8>, v: i32, n: usize)
    requires
        n <= 4,
    ensures
        final(out)@ == old(out)@ + le_bytes(v as int, n as nat),
{
    let u: u64 = if v < 0 {
        (v as i64 + 4294967296i64) as u64
    } else {
        v as u64
    };
    proof {
        assert(byte_range(0) == 1);
        assert(byte_range(1) == 256);
        assert(byte_range(2) == 65536);
        assert(byte_range(3) == 16777216);
        assert(byte_range(4) == 4294967296);
        if v < 0 {
            let k = byte_range((4 - n) as nat);
            lemma_byte_range_adds(n as nat, (4 - n) as nat);
            lemma_le_bytes_periodic(v as int, k, n as nat);
            assert(u as int == v as int + k * byte_range(n as nat));
        }
    }
    append_le(out, u, n);
}

/// Narrowing an `i32` to one or two bytes, signed or unsigned, keeps exactly
/// the low bytes that are then written.
pub proof fn lemma_narrowing_keeps_low_bytes(v: i32)
    ensures
        (v as u8) as int == (v as int) % 256,
        le_bytes((v as u8) as int, 1) == le_bytes(v as int, 1),
        le_bytes((v as i8) as int, 1) == le_bytes(v as int, 1),
        le_bytes((v as u16) as int, 2) == le_bytes(v as int, 2),
        le_bytes((v as i16) as int, 2) == le_bytes(v as int, 2),
{
    assert(byte_range(0) == 1);
    assert(byte_range(1) == 256);
    assert(byte_range(2) == 65536);
    assert(0 <= (v & 0xff) < 256) by (bit_vector);
    assert(v == 256 * (v >> 8) + (v & 0xff)) by (bit_vector);
    assert(v == 65536 * (v >> 16) + (v & 0xffff)) by (bit_vector);
    assert((v as u8) as i32 == v & 0xff) by (bit_vector);
    assert((v as u16) as i32 == v & 0xffff) by (bit_vector);
    assert((v as i8) as i32 == (v & 0xff) - (if v & 0x80 != 0 {
        256i32
    } else {
        0
    })) by (bit_vector);
    assert((v as i16) as i32 == (v & 0xffff) - (if v & 0x8000 != 0 {
        65536i32
    } else {
        0
    })) by (bit_vector);
    let b8: int = if v & 0x80 != 0 { 1 } else { 0 };
    let b16: int = if v & 0x8000 != 0 { 1 } else { 0 };
    lemma_le_bytes_periodic(v as int, -((v >> 8) as int), 1);
    lemma_le_bytes_periodic(v as int, -((v >> 8) as int) - b8, 1);
    lemma_le_bytes_periodic(v as int, -((v >> 16) as int), 2);
    lemma_le_bytes_periodic(v as int, -((v >> 16) as int) - b16, 2);
}

/// `256^(a + b) == 256^a * 256^b`.
pub proof fn lemma_byte_range_adds(a: nat, b: nat)
    ensures
        byte_range(a + b) == byte_range(a) * byte_range(b),
    decreases a,
{
    if a > 0 {
        lemma_byte_range_adds((a - 1) as nat, b);
        assert(byte_range(a + b) == 256 * byte_range((a - 1 + b) as nat));
        assert(256 * (byte_range((a - 1) as nat) * byte_range(b)) == (256 * byte_range(
            (a - 1) as nat,
        )) * byte_range(b)) by (nonlinear_arith);
    }
}

/// An index stored in `size` bytes: the low `size` bytes of `v` for a size of
/// one, two or four bytes, and nothing for any other size.
pub open spec fn index_bytes(size: u8, v: i32) -> Seq<u8> {
    if size == 1 || size == 2 || size == 4 {
        le_bytes(v as int, size as nat)
    } else {
        seq![]
    }
}

/// An `f32`, given by its bit pattern.
pub open spec fn float_bytes(bits: u32) -> Seq<u8> {
    le_bytes(bits as int, 4)
}

/// A four-byte integer.
pub open spec fn int_bytes(v: int) -> Seq<u8> {
    le_bytes(v, 4)
}

pub open spec fn vec2_bytes(v: Vec2) -> Seq<u8> {
    float_bytes(v[0]) + float_bytes(v[1])
}

pub open spec fn vec3_bytes(v: Vec3) -> Seq<u8> {
    float_bytes(v[0]) + float_bytes(v[1]) + float_bytes(v[2])
}

pub open spec fn vec4_bytes(v: Vec4) -> Seq<u8> {
    float_bytes(v[0]) + float_bytes(v[1]) + float_bytes(v[2]) + float_bytes(v[3])
}

/// A text: the byte length of its UTF-8 encoding as a four-byte integer,
/// then that encoding.
pub open spec fn text_bytes(text: Seq<char>) -> Seq<u8> {
    int_bytes(encode_utf8(text).len() as int) + encode_utf8(text)
}

/// A face: its three vertex indices, each in `s_vertex_index` bytes.
pub open spec fn face_bytes(s_vertex_index: u8, face: PMXFace) -> Seq<u8> {
    index_bytes(s_vertex_index, face.vertices[0]) + index_bytes(s_vertex_index, face.vertices[1])
        + index_bytes(s_vertex_index, face.vertices[2])
}

/// The byte that stands for a sphere mode.
pub open spec fn sphere_mode_code(mode: PMXSphereMode) -> u8 {
    match mode {
        PMXSphereMode::Disabled => 0,
        PMXSphereMode::Mul => 1,
        PMXSphereMode::Add => 2,
        PMXSphereMode::SubTexture => 3,
    }
}

/// The byte that stands for a toon mode.
pub open spec fn toon_mode_code(mode: PMXToonMode) -> u8 {
    match mode {
        PMXToonMode::Separate => 0,
        PMXToonMode::Common => 1,
    }
}

/// The toon texture index: in `s_texture_index` bytes for a separate toon
/// texture, in one byte for a shared one.
pub open spec fn toon_texture_bytes(s_texture_index: u8, m: PMXMaterialView) -> Seq<u8> {
    match m.toon_mode {
        PMXToonMode::Separate => index_bytes(s_texture_index, m.toon_texture_index),
        PMXToonMode::Common => index_bytes(1, m.toon_texture_index),
    }
}

/// A material.
pub open spec fn material_bytes(s_texture_index: u8, m: PMXMaterialView) -> Seq<u8> {
    text_bytes(m.name) + text_bytes(m.english_name) + vec4_bytes(m.diffuse) + vec3_bytes(
        m.specular,
    ) + float_bytes(m.specular_factor) + vec3_bytes(m.ambient) + seq![m.draw_mode] + vec4_bytes(
        m.edge_color,
    ) + float_bytes(m.edge_size) + index_bytes(s_texture_index, m.texture_index) + index_bytes(
        s_texture_index,
        m.sphere_mode_texture_index,
    ) + seq![sphere_mode_code(m.sphere_mode)] + seq![toon_mode_code(m.toon_mode)]
        + toon_texture_bytes(s_texture_index, m) + text_bytes(m.memo) + int_bytes(
        m.num_face_vertices as int,
    )
}

/// The first `n` additional UV sets.
pub open spec fn add_uv_bytes(uvs: Seq<Vec4>, n: nat) -> Seq<u8>
    decreases n,
{
    if n == 0 {
        seq![]
    } else {
        add_uv_bytes(uvs, (n - 1) as nat) + vec4_bytes(uvs[n - 1])
    }
}

/// The byte that stands for a kind of vertex weight.
pub open spec fn weight_code(w: PMXVertexWeight) -> u8 {
    match w {
        PMXVertexWeight::BDEF1(_) => 0,
        PMXVertexWeight::BDEF2 { .. } => 1,
        PMXVertexWeight::BDEF4 { .. } => 2,
        PMXVertexWeight::SDEF { .. } => 3,
        PMXVertexWeight::QDEF { .. } => 4,
    }
}

/// The bone indices and weights of a vertex weight.
pub open spec fn weight_bytes(s_bone_index: u8, w: PMXVertexWeight) -> Seq<u8> {
    match w {
        PMXVertexWeight::BDEF1(index) => index_bytes(s_bone_index, index),
        PMXVertexWeight::BDEF2 { bone_index_1, bone_index_2, bone_weight_1 } => index_bytes(
            s_bone_index,
            bone_index_1,
        ) + index_bytes(s_bone_index, bone_index_2) + float_bytes(bone_weight_1),
        PMXVertexWeight::BDEF4 {
            bone_index_1,
            bone_index_2,
            bone_index_3,
            bone_index_4,
            bone_weight_1,
            bone_weight_2,
            bone_weight_3,
            bone_weight_4,
        } => index_bytes(s_bone_index, bone_index_1) + index_bytes(s_bone_index, bone_index_2)
            + index_bytes(s_bone_index, bone_index_3) + index_bytes(s_bone_index, bone_index_4)
            + float_bytes(bone_weight_1) + float_bytes(bone_weight_2) + float_bytes(bone_weight_3)
            + float_bytes(bone_weight_4),
        PMXVertexWeight::SDEF {
            bone_index_1,
            bone_index_2,
            bone_weight_1,
            sdef_c,
            sdef_r0,
            sdef_r1,
        } => index_bytes(s_bone_index, bone_index_1) + index_bytes(s_bone_index, bone_index_2)
            + float_bytes(bone_weight_1) + vec3_bytes(sdef_c) + vec3_bytes(sdef_r0) + vec3_bytes(
            sdef_r1,
        ),
        PMXVertexWeight::QDEF {
            bone_index_1,
            bone_index_2,
            bone_index_3,
            bone_index_4,
            bone_weight_1,
            bone_weight_2,
            bone_weight_3,
            bone_weight_4,
        } => index_bytes(s_bone_index, bone_index_1) + index_bytes(s_bone_index, bone_index_2)
            + index_bytes(s_bone_index, bone_index_3) + index_bytes(s_bone_index, bone_index_4)
            + float_bytes(bone_weight_1) + float_bytes(bone_weight_2) + float_bytes(bone_weight_3)
            + float_bytes(bone_weight_4),
    }
}

/// A vertex with `additional_uvs` additional UV sets.
pub open spec fn vertex_bytes(additional_uvs: u8, v: PMXVertex, s_bone_index: u8) -> Seq<u8> {
    vec3_bytes(v.position) + vec3_bytes(v.norm) + vec2_bytes(v.uv) + add_uv_bytes(
        v.add_uv@,
        additional_uvs as nat,
    ) + seq![weight_code(v.weight_type)] + weight_bytes(s_bone_index, v.weight_type)
        + float_bytes(v.edge_mag)
}

/// An IK link; its angle limits are present only when `enable_limit` is one.
pub open spec fn ik_link_bytes(s_bone_index: u8, link: PMXIKLink) -> Seq<u8> {
    index_bytes(s_bone_index, link.ik_bone_index) + seq![link.enable_limit] + if link.enable_limit
        == 1 {
        vec3_bytes(link.limit_min) + vec3_bytes(link.limit_max)
    } else {
        seq![]
    }
}

/// A list of IK links, one after the other.
pub open spec fn ik_links_bytes(s_bone_index: u8, links: Seq<PMXIKLink>) -> Seq<u8>
    decreases links.len(),
{
    if links.len() == 0 {
        seq![]
    } else {
        ik_links_bytes(s_bone_index, links.drop_last()) + ik_link_bytes(s_bone_index, links.last())
    }
}

/// Whether every bit of `mask` is set in `flags`.
pub open spec fn has_all(flags: u16, mask: u16) -> bool {
    flags & mask == mask
}

/// Whether some bit of `mask` is set in `flags`.
pub open spec fn has_any(flags: u16, mask: u16) -> bool {
    flags & mask > 0
}

/// The tail of a bone: a bone index, or an offset.
pub open spec fn bone_tail_bytes(s_bone_index: u8, b: PMXBoneView) -> Seq<u8> {
    if has_all(b.boneflag, BONE_FLAG_TARGET_SHOW_MODE_MASK) {
        index_bytes(s_bone_index, b.child)
    } else {
        vec3_bytes(b.offset)
    }
}

/// The inherited bone and its weight, when the bone inherits rotation or movement.
pub open spec fn bone_append_bytes(s_bone_index: u8, b: PMXBoneView) -> Seq<u8> {
    if has_any(b.boneflag, BONE_FLAG_APPEND_ROTATE_MASK | BONE_FLAG_APPEND_TRANSLATE_MASK) {
        index_bytes(s_bone_index, b.append_bone_index) + float_bytes(b.append_weight)
    } else {
        seq![]
    }
}

/// The fixed axis, when the bone has one.
pub open spec fn bone_fixed_axis_bytes(b: PMXBoneView) -> Seq<u8> {
    if has_all(b.boneflag, BONE_FLAG_FIXED_AXIS_MASK) {
        vec3_bytes(b.fixed_axis)
    } else {
        seq![]
    }
}

/// The local axes, when the bone has them.
pub open spec fn bone_local_axis_bytes(b: PMXBoneView) -> Seq<u8> {
    if has_all(b.boneflag, BONE_FLAG_LOCAL_AXIS_MASK) {
        vec3_bytes(b.local_axis_x) + vec3_bytes(b.local_axis_z)
    } else {
        seq![]
    }
}

/// The outer parent key, when the bone deforms under an outer parent.
pub open spec fn bone_outer_parent_bytes(b: PMXBoneView) -> Seq<u8> {
    if has_any(b.boneflag, BONE_FLAG_DEFORM_OUTER_PARENT_MASK) {
        int_bytes(b.key_value as int)
    } else {
        seq![]
    }
}

/// The IK chain, when the bone ends one: target, iteration count, limit,
/// number of links and the links.
pub open spec fn bone_ik_bytes(s_bone_index: u8, b: PMXBoneView) -> Seq<u8> {
    if has_all(b.boneflag, BONE_FLAG_IK_MASK) {
        index_bytes(s_bone_index, b.ik_target_index) + int_bytes(b.ik_iter_count as int)
            + float_bytes(b.ik_limit) + int_bytes(b.ik_links.len() as int) + ik_links_bytes(
            s_bone_index,
            b.ik_links,
        )
    } else {
        seq![]
    }
}

/// A bone.
pub open spec fn bone_bytes(s_bone_index: u8, b: PMXBoneView) -> Seq<u8> {
    text_bytes(b.name) + text_bytes(b.english_name) + vec3_bytes(b.position) + index_bytes(
        s_bone_index,
        b.parent,
    ) + int_bytes(b.deform_depth as int) + le_bytes(b.boneflag as int, 2) + bone_tail_bytes(
        s_bone_index,
        b,
    ) + bone_append_bytes(s_bone_index, b) + bone_fixed_axis_bytes(b) + bone_local_axis_bytes(b)
        + bone_outer_parent_bytes(b) + bone_ik_bytes(s_bone_index, b)
}

pub open spec fn vertex_morph_bytes(s_vertex_index: u8, m: VertexMorph) -> Seq<u8> {
    index_bytes(s_vertex_index, m.index) + vec3_bytes(m.offset)
}

pub open spec fn uv_morph_bytes(s_vertex_index: u8, m: UVMorph) -> Seq<u8> {
    index_bytes(s_vertex_index, m.index) + vec4_bytes(m.offset)
}

pub open spec fn bone_morph_bytes(s_bone_index: u8, m: BoneMorph) -> Seq<u8> {
    index_bytes(s_bone_index, m.index) + vec3_bytes(m.translates) + vec4_bytes(m.rotates)
}

pub open spec fn material_morph_bytes(s_material_index: u8, m: MaterialMorph) -> Seq<u8> {
    index_bytes(s_material_index, m.index) + seq![m.formula] + vec4_bytes(m.diffuse) + vec3_bytes(
        m.specular,
    ) + float_bytes(m.specular_factor) + vec3_bytes(m.ambient) + vec4_bytes(m.edge_color)
        + float_bytes(m.edge_size) + vec4_bytes(m.texture_factor) + vec4_bytes(
        m.sphere_texture_factor,
    ) + vec4_bytes(m.toon_texture_factor)
}

pub open spec fn group_morph_bytes(s_morph_index: u8, m: GroupMorph) -> Seq<u8> {
    index_bytes(s_morph_index, m.index) + float_bytes(m.morph_factor)
}

/// One morph entry; the index it names is a vertex, bone, material or morph
/// index, stored in the size for that kind of index.
pub open spec fn morph_entry_bytes(
    s_vertex_index: u8,
    s_bone_index: u8,
    s_material_index: u8,
    s_morph_index: u8,
    e: MorphTypes,
) -> Seq<u8> {
    match e {
        MorphTypes::Vertex(m) => vertex_morph_bytes(s_vertex_index, m),
        MorphTypes::UV(m) => uv_morph_bytes(s_vertex_index, m),
        MorphTypes::UV1(m) => uv_morph_bytes(s_vertex_index, m),
        MorphTypes::UV2(m) => uv_morph_bytes(s_vertex_index, m),
        MorphTypes::UV3(m) => uv_morph_bytes(s_vertex_index, m),
        MorphTypes::UV4(m) => uv_morph_bytes(s_vertex_index, m),
        MorphTypes::Bone(m) => bone_morph_bytes(s_bone_index, m),
        MorphTypes::Material(m) => material_morph_bytes(s_material_index, m),
        MorphTypes::Group(m) => group_morph_bytes(s_morph_index, m),
    }
}

/// A list of morph entries, one after the other.
pub open spec fn morph_entries_bytes(
    s_vertex_index: u8,
    s_bone_index: u8,
    s_material_index: u8,
    s_morph_index: u8,
    entries: Seq<MorphTypes>,
) -> Seq<u8>
    decreases entries.len(),
{
    if entries.len() == 0 {
        seq![]
    } else {
        morph_entries_bytes(
            s_vertex_index,
            s_bone_index,
            s_material_index,
            s_morph_index,
            entries.drop_last(),
        ) + morph_entry_bytes(
            s_vertex_index,
            s_bone_index,
            s_material_index,
            s_morph_index,
            entries.last(),
        )
    }
}

/// A morph: names, category, kind, number of entries and the entries.
pub open spec fn morph_bytes(
    s_vertex_index: u8,
    s_bone_index: u8,
    s_material_index: u8,
    s_morph_index: u8,
    m: PMXMorphView,
) -> Seq<u8> {
    text_bytes(m.name) + text_bytes(m.english_name) + seq![m.category] + seq![m.morph_type]
        + int_bytes(m.morph_data.len() as int) + morph_entries_bytes(
        s_vertex_index,
        s_bone_index,
        s_material_index,
        s_morph_index,
        m.morph_data,
    )
}

} // verus!
