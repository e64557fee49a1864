//! A writer that lays out PMX model data as bytes.
use vstd::prelude::*;
use vstd::seq_lib::lemma_concat_associative;
use crate::encoding::{
    le_bytes, lemma_narrowing_keeps_low_bytes, append_le, append_le_signed, index_bytes,
    float_bytes, int_bytes, vec2_bytes, vec3_bytes, vec4_bytes, text_bytes, face_bytes,
    material_bytes, sphere_mode_code, toon_mode_code, toon_texture_bytes, add_uv_bytes,
    weight_code, weight_bytes, vertex_bytes, ik_link_bytes, ik_links_bytes, bone_tail_bytes,
    bone_append_bytes, bone_fixed_axis_bytes, bone_local_axis_bytes, bone_outer_parent_bytes,
    bone_ik_bytes, bone_bytes, vertex_morph_bytes, uv_morph_bytes, bone_morph_bytes,
    material_morph_bytes, group_morph_bytes, morph_entry_bytes, morph_entries_bytes, morph_bytes,
};
use crate::pmx_types::{
    Vec2, Vec3, Vec4, PMXVertexWeight, PMXVertex, PMXFace, PMXSphereMode, PMXToonMode, PMXMaterial,
    PMXIKLink, PMXBone, VertexMorph, UVMorph, BoneMorph, MaterialMorph, GroupMorph, MorphTypes,
    PMXMorph, BONE_FLAG_TARGET_SHOW_MODE_MASK, BONE_FLAG_IK_MASK, BONE_FLAG_APPEND_ROTATE_MASK,
    BONE_FLAG_APPEND_TRANSLATE_MASK, BONE_FLAG_FIXED_AXIS_MASK, BONE_FLAG_LOCAL_AXIS_MASK,
    BONE_FLAG_DEFORM_OUTER_PARENT_MASK,
};

verus! {

/// Appending `c` after `a + b` is appending `b + c` after `a`.
pub broadcast proof fn lemma_append_assoc(a: Seq<u8>, b: Seq<u8>, c: Seq<u8>)
    ensures
        #[trigger] ((a + b) + c) == a + (b + c),
{
    lemma_concat_associative(a, b, c);
}

/// Accumulates the bytes of a PMX file, in the order they are written.
pub struct BinaryWriter {
    inner: Vec<u8>,
}

impl View for BinaryWriter {
    type V = Seq<u8>;

    /// The bytes written so far.
    closed spec fn view(&self) -> Seq<u8> {
        self.inner@
    }
}

impl BinaryWriter {
    /// A writer that has written nothing yet.
    pub fn new() -> (w: BinaryWriter)
        ensures
            w@ == Seq::<u8>::empty(),
    {
        BinaryWriter { inner: Vec::new() }
    }

    /// The bytes written so far.
    pub fn as_bytes(&self) -> (b: &[u8])
        ensures
            b@ == self@,
    {
        self.inner.as_slice()
    }

    /// Gives up the writer and hands back the bytes it wrote.
    pub fn into_bytes(self) -> (b: Vec<u8>)
        ensures
            b@ == self@,
    {
        self.inner
    }

    /// Writes the given bytes as they are.
    pub fn write_vec(&mut self, v: &[u8])
        ensures
            final(self)@ == old(self)@ + v@,
    {
        let mut i: usize = 0;
        while i < v.len()
            invariant
                i <= v@.len(),
                self@ == old(self)@ + v@.take(i as int),
            decreases v@.len() - i,
        {
            self.inner.push(v[i]);
            assert(v@.take(i + 1) =~= v@.take(i as int).push(v@[i as int]));
            i = i + 1;
        }
        assert(v@.take(v@.len() as int) =~= v@);
    }

    pub fn write_u8(&mut self, value: u8)
        ensures
            final(self)@ == old(self)@ + seq![value],
    {
        self.inner.push(value);
    }

    pub fn write_i8(&mut self, value: i8)
        ensures
            final(self)@ == old(self)@ + le_bytes(value as int, 1),
    {
        append_le_signed(&mut self.inner, value as i32, 1);
    }

    pub fn write_u16(&mut self, value: u16)
        ensures
            final(self)@ == old(self)@ + le_bytes(value as int, 2),
    {
        append_le(&mut self.inner, value as u64, 2);
    }

    pub fn write_i16(&mut self, value: i16)
        ensures
            final(self)@ == old(self)@ + le_bytes(value as int, 2),
    {
        append_le_signed(&mut self.inner, value as i32, 2);
    }

    pub fn write_u32(&mut self, value: u32)
        ensures
            final(self)@ == old(self)@ + le_bytes(value as int, 4),
    {
        append_le(&mut self.inner, value as u64, 4);
    }

    pub fn write_i32(&mut self, value: i32)
        ensures
            final(self)@ == old(self)@ + int_bytes(value as int),
    {
        append_le_signed(&mut self.inner, value, 4);
    }

    /// Writes an `f32` given by its bit pattern.
    pub fn write_f32(&mut self, bits: u32)
        ensures
            final(self)@ == old(self)@ + float_bytes(bits),
    {
        append_le(&mut self.inner, bits as u64, 4);
    }

    pub fn write_vec2(&mut self, value: Vec2)
        ensures
            final(self)@ == old(self)@ + vec2_bytes(value),
    {
        self.write_f32(value[0]);
        self.write_f32(value[1]);
        assert(self@ =~= old(self)@ + vec2_bytes(value));
    }

    pub fn write_vec3(&mut self, value: Vec3)
        ensures
            final(self)@ == old(self)@ + vec3_bytes(value),
    {
        self.write_f32(value[0]);
        self.write_f32(value[1]);
        self.write_f32(value[2]);
        assert(self@ =~= old(self)@ + vec3_bytes(value));
    }

    pub fn write_vec4(&mut self, value: Vec4)
        ensures
            final(self)@ == old(self)@ + vec4_bytes(value),
    {
        self.write_f32(value[0]);
        self.write_f32(value[1]);
        self.write_f32(value[2]);
        self.write_f32(value[3]);
        assert(self@ =~= old(self)@ + vec4_bytes(value));
    }

    /// Writes a text: the byte length of its UTF-8 encoding as a four-byte
    /// integer, then the encoding.
    pub fn write_text_buf(&mut self, text: &str)
        ensures
            final(self)@ == old(self)@ + text_bytes(text@),
    {
        let bytes = text.as_bytes();
        append_le(&mut self.inner, bytes.len() as u64, 4);
        self.write_vec(bytes);
        assert(self@ =~= old(self)@ + text_bytes(text@));
    }

    /// Writes a vertex index in `size` bytes (one, two or four); any other
    /// size writes nothing.
    pub fn write_vertex_index(&mut self, size: u8, value: i32)
        ensures
            final(self)@ == old(self)@ + index_bytes(size, value),
    {
        proof {
            lemma_narrowing_keeps_low_bytes(value);
        }
        match size {
            1 => {
                assert(le_bytes(value as int / 256, 0) =~= Seq::<u8>::empty());
                assert(le_bytes(value as int, 1) == seq![(value as int % 256) as u8] + le_bytes(
                    value as int / 256,
                    0,
                ));
                assert(((value as int % 256) as u8) == (value as u8));
                self.write_u8(#[verifier::truncate] (value as u8));
                assert(self@ =~= old(self)@ + index_bytes(size, value));
            },
            2 => { self.write_u16(#[verifier::truncate] (value as u16)) },
            4 => { self.write_i32(value) },
            _ => {},
        }
    }

    /// Writes a signed index in `size` bytes (one, two or four); any other
    /// size writes nothing.
    pub fn write_sized(&mut self, size: u8, value: i32)
        ensures
            final(self)@ == old(self)@ + index_bytes(size, value),
    {
        proof {
            lemma_narrowing_keeps_low_bytes(value);
        }
        match size {
            1 => { self.write_i8(#[verifier::truncate] (value as i8)) },
            2 => { self.write_i16(#[verifier::truncate] (value as i16)) },
            4 => { self.write_i32(value) },
            _ => {},
        }
    }

    /// Writes a face: its three vertex indices, each in `s_vertex_index` bytes.
    pub fn write_face(&mut self, s_vertex_index: u8, face: PMXFace)
        ensures
            final(self)@ == old(self)@ + face_bytes(s_vertex_index, face),
    {
        self.write_vertex_index(s_vertex_index, face.vertices[0]);
        self.write_vertex_index(s_vertex_index, face.vertices[1]);
        self.write_vertex_index(s_vertex_index, face.vertices[2]);
        assert(self@ =~= old(self)@ + face_bytes(s_vertex_index, face));
    }

    /// Writes a material; texture indices take `s_texture_index` bytes.
    pub fn write_pmx_material(&mut self, s_texture_index: u8, material: PMXMaterial)
        ensures
            final(self)@ == old(self)@ + material_bytes(s_texture_index, material@),
    {
        broadcast use lemma_append_assoc;

        self.write_text_buf(&material.name);
        self.write_text_buf(&material.english_name);
        self.write_vec4(material.diffuse);
        self.write_vec3(material.specular);
        self.write_f32(material.specular_factor);
        self.write_vec3(material.ambient);
        self.write_u8(material.draw_mode);
        self.write_vec4(material.edge_color);
        self.write_f32(material.edge_size);
        self.write_sized(s_texture_index, material.texture_index);
        self.write_sized(s_texture_index, material.sphere_mode_texture_index);
        let spmode = match material.sphere_mode {
            PMXSphereMode::Disabled => { 0u8 },
            PMXSphereMode::Mul => { 1u8 },
            PMXSphereMode::Add => { 2u8 },
            PMXSphereMode::SubTexture => { 3u8 },
        };
        self.write_u8(spmode);
        let toonmode = match material.toon_mode {
            PMXToonMode::Separate => { 0u8 },
            PMXToonMode::Common => { 1u8 },
        };
        self.write_u8(toonmode);
        match material.toon_mode {
            PMXToonMode::Separate => {
                self.write_sized(s_texture_index, material.toon_texture_index)
            },
            PMXToonMode::Common => { self.write_sized(1, material.toon_texture_index) },
        };
        self.write_text_buf(&material.memo);
        self.write_i32(material.num_face_vertices);
    }

    /// Writes the bone indices and weights of a vertex; the indices take
    /// `s_bone_index` bytes each.
    fn write_weight(&mut self, s_bone_index: u8, weight: PMXVertexWeight)
        ensures
            final(self)@ == old(self)@ + weight_bytes(s_bone_index, weight),
    {
        broadcast use lemma_append_assoc;

        match weight {
            PMXVertexWeight::BDEF1(index) => {
                self.write_sized(s_bone_index, index);
            },
            PMXVertexWeight::BDEF2 { bone_index_1, bone_index_2, bone_weight_1 } => {
                self.write_sized(s_bone_index, bone_index_1);
                self.write_sized(s_bone_index, bone_index_2);
                self.write_f32(bone_weight_1);
            },
            PMXVertexWeight::BDEF4 {
                bone_index_1,
                bone_index_2,
                bone_index_3,
                bone_index_4,
                bone_weight_1,
                bone_weight_2,
                bone_weight_3,
                bone_weight_4,
            } => {
                self.write_sized(s_bone_index, bone_index_1);
                self.write_sized(s_bone_index, bone_index_2);
                self.write_sized(s_bone_index, bone_index_3);
                self.write_sized(s_bone_index, bone_index_4);
                self.write_f32(bone_weight_1);
                self.write_f32(bone_weight_2);
                self.write_f32(bone_weight_3);
                self.write_f32(bone_weight_4);
            },
            PMXVertexWeight::SDEF {
                bone_index_1,
                bone_index_2,
                bone_weight_1,
                sdef_c,
                sdef_r0,
                sdef_r1,
            } => {
                self.write_sized(s_bone_index, bone_index_1);
                self.write_sized(s_bone_index, bone_index_2);
                self.write_f32(bone_weight_1);
                self.write_vec3(sdef_c);
                self.write_vec3(sdef_r0);
                self.write_vec3(sdef_r1);
            },
            PMXVertexWeight::QDEF {
                bone_index_1,
                bone_index_2,
                bone_index_3,
                bone_index_4,
                bone_weight_1,
                bone_weight_2,
                bone_weight_3,
                bone_weight_4,
            } => {
                self.write_sized(s_bone_index, bone_index_1);
                self.write_sized(s_bone_index, bone_index_2);
                self.write_sized(s_bone_index, bone_index_3);
                self.write_sized(s_bone_index, bone_index_4);
                self.write_f32(bone_weight_1);
                self.write_f32(bone_weight_2);
                self.write_f32(bone_weight_3);
                self.write_f32(bone_weight_4);
            },
        }
    }

    /// Writes the first `count` of the additional UV sets of a vertex.
    fn write_add_uvs(&mut self, add_uv: &[Vec4; 4], count: u8)
        requires
            count <= 4,
        ensures
            final(self)@ == old(self)@ + add_uv_bytes(add_uv@, count as nat),
    {
        let ghost start = self@;
        for i in 0..count
            invariant
                count <= 4,
                self@ == start + add_uv_bytes(add_uv@, i as nat),
        {
            self.write_vec4(add_uv[i as usize]);
            proof {
                lemma_concat_associative(
                    start,
                    add_uv_bytes(add_uv@, i as nat),
                    vec4_bytes(add_uv@[i as int]),
                );
            }
        }
    }

    /// Writes a vertex with `additional_uvs` additional UV sets; bone indices
    /// take `s_bone_index` bytes.
    pub fn write_pmx_vertex(&mut self, additional_uvs: u8, vertex: PMXVertex, s_bone_index: u8)
        requires
            additional_uvs <= 4,
        ensures
            final(self)@ == old(self)@ + vertex_bytes(additional_uvs, vertex, s_bone_index),
    {
        broadcast use lemma_append_assoc;

        self.write_vec3(vertex.position);
        self.write_vec3(vertex.norm);
        self.write_vec2(vertex.uv);
        self.write_add_uvs(&vertex.add_uv, additional_uvs);
        let weight_type = match vertex.weight_type {
            PMXVertexWeight::BDEF1(_) => { 0 },
            PMXVertexWeight::BDEF2 { .. } => { 1 },
            PMXVertexWeight::BDEF4 { .. } => { 2 },
            PMXVertexWeight::SDEF { .. } => { 3 },
            PMXVertexWeight::QDEF { .. } => { 4 },
        };
        self.write_u8(weight_type);
        self.write_weight(s_bone_index, vertex.weight_type);
        self.write_f32(vertex.edge_mag);
    }

    /// Writes an IK link; its angle limits follow only when `enable_limit` is one.
    pub fn write_ik_link(&mut self, s_bone_index: u8, ik_link: PMXIKLink)
        ensures
            final(self)@ == old(self)@ + ik_link_bytes(s_bone_index, ik_link),
    {
        self.write_sized(s_bone_index, ik_link.ik_bone_index);
        self.write_u8(ik_link.enable_limit);
        if ik_link.enable_limit == 1 {
            self.write_vec3(ik_link.limit_min);
            self.write_vec3(ik_link.limit_max);
        }
        assert(self@ =~= old(self)@ + ik_link_bytes(s_bone_index, ik_link));
    }

    /// Writes a bone; which optional fields follow is decided by its flags.
    pub fn write_bone(&mut self, s_bone_index: u8, bone: PMXBone)
        ensures
            final(self)@ == old(self)@ + bone_bytes(s_bone_index, bone@),
    {
        let ghost start = self@;
        let ghost mut acc = Seq::<u8>::empty();
        assert(start + acc =~= start);
        self.write_text_buf(&bone.name);
        proof {
            lemma_concat_associative(start, acc, text_bytes(bone.name@));
            acc = acc + text_bytes(bone.name@);
        }
        self.write_text_buf(&bone.english_name);
        proof {
            lemma_concat_associative(start, acc, text_bytes(bone.english_name@));
            acc = acc + text_bytes(bone.english_name@);
        }
        self.write_vec3(bone.position);
        proof {
            lemma_concat_associative(start, acc, vec3_bytes(bone.position));
            acc = acc + vec3_bytes(bone.position);
        }
        self.write_sized(s_bone_index, bone.parent);
        proof {
            lemma_concat_associative(start, acc, index_bytes(s_bone_index, bone.parent));
            acc = acc + index_bytes(s_bone_index, bone.parent);
        }
        self.write_i32(bone.deform_depth);
        proof {
            lemma_concat_associative(start, acc, int_bytes(bone.deform_depth as int));
            acc = acc + int_bytes(bone.deform_depth as int);
        }
        self.write_u16(bone.boneflag);
        proof {
            lemma_concat_associative(start, acc, le_bytes(bone.boneflag as int, 2));
            acc = acc + le_bytes(bone.boneflag as int, 2);
        }
        let ghost mark = self@;
        if (bone.boneflag & BONE_FLAG_TARGET_SHOW_MODE_MASK) == BONE_FLAG_TARGET_SHOW_MODE_MASK {
            self.write_sized(s_bone_index, bone.child);
        } else {
            self.write_vec3(bone.offset);
        }
        assert(self@ == mark + bone_tail_bytes(s_bone_index, bone@));
        proof {
            lemma_concat_associative(start, acc, bone_tail_bytes(s_bone_index, bone@));
            acc = acc + bone_tail_bytes(s_bone_index, bone@);
        }
        let ghost mark = self@;
        if bone.boneflag & (BONE_FLAG_APPEND_ROTATE_MASK | BONE_FLAG_APPEND_TRANSLATE_MASK) > 0 {
            self.write_sized(s_bone_index, bone.append_bone_index);
            self.write_f32(bone.append_weight);
            proof {
                lemma_concat_associative(
                    mark,
                    index_bytes(s_bone_index, bone.append_bone_index),
                    float_bytes(bone.append_weight),
                );
            }
        } else {
            assert(mark + Seq::<u8>::empty() =~= mark);
        }
        assert(self@ == mark + bone_append_bytes(s_bone_index, bone@));
        proof {
            lemma_concat_associative(start, acc, bone_append_bytes(s_bone_index, bone@));
            acc = acc + bone_append_bytes(s_bone_index, bone@);
        }
        let ghost mark = self@;
        if (bone.boneflag & BONE_FLAG_FIXED_AXIS_MASK) == BONE_FLAG_FIXED_AXIS_MASK {
            self.write_vec3(bone.fixed_axis);
        } else {
            assert(mark + Seq::<u8>::empty() =~= mark);
        }
        assert(self@ == mark + bone_fixed_axis_bytes(bone@));
        proof {
            lemma_concat_associative(start, acc, bone_fixed_axis_bytes(bone@));
            acc = acc + bone_fixed_axis_bytes(bone@);
        }
        let ghost mark = self@;
        if (bone.boneflag & BONE_FLAG_LOCAL_AXIS_MASK) == BONE_FLAG_LOCAL_AXIS_MASK {
            self.write_vec3(bone.local_axis_x);
            self.write_vec3(bone.local_axis_z);
            proof {
                lemma_concat_associative(
                    mark,
                    vec3_bytes(bone.local_axis_x),
                    vec3_bytes(bone.local_axis_z),
                );
            }
        } else {
            assert(mark + Seq::<u8>::empty() =~= mark);
        }
        assert(self@ == mark + bone_local_axis_bytes(bone@));
        proof {
            lemma_concat_associative(start, acc, bone_local_axis_bytes(bone@));
            acc = acc + bone_local_axis_bytes(bone@);
        }
        let ghost mark = self@;
        if (bone.boneflag & BONE_FLAG_DEFORM_OUTER_PARENT_MASK) > 0 {
            self.write_i32(bone.key_value);
        } else {
            assert(mark + Seq::<u8>::empty() =~= mark);
        }
        assert(self@ == mark + bone_outer_parent_bytes(bone@));
        proof {
            lemma_concat_associative(start, acc, bone_outer_parent_bytes(bone@));
            acc = acc + bone_outer_parent_bytes(bone@);
        }
        let ghost mark = self@;
        if (bone.boneflag & BONE_FLAG_IK_MASK) == BONE_FLAG_IK_MASK {
            let ghost mut k = Seq::<u8>::empty();
            assert(mark + k =~= mark);
            self.write_sized(s_bone_index, bone.ik_target_index);
            proof {
                lemma_concat_associative(mark, k, index_bytes(s_bone_index, bone.ik_target_index));
                k = k + index_bytes(s_bone_index, bone.ik_target_index);
            }
            self.write_i32(bone.ik_iter_count);
            proof {
                lemma_concat_associative(mark, k, int_bytes(bone.ik_iter_count as int));
                k = k + int_bytes(bone.ik_iter_count as int);
            }
            self.write_f32(bone.ik_limit);
            proof {
                lemma_concat_associative(mark, k, float_bytes(bone.ik_limit));
                k = k + float_bytes(bone.ik_limit);
            }
            append_le(&mut self.inner, bone.ik_links.len() as u64, 4);
            proof {
                lemma_concat_associative(mark, k, int_bytes(bone.ik_links@.len() as int));
                k = k + int_bytes(bone.ik_links@.len() as int);
            }
            let ghost before_links = self@;
            let n = bone.ik_links.len();
            let mut i: usize = 0;
            assert(bone.ik_links@.take(0) =~= Seq::<PMXIKLink>::empty());
            assert(before_links + ik_links_bytes(s_bone_index, bone.ik_links@.take(0)) =~= before_links);
            while i < n
                invariant
                    n == bone.ik_links@.len(),
                    i <= n,
                    self@ == before_links + ik_links_bytes(s_bone_index, bone.ik_links@.take(i as int)),
                decreases n - i,
            {
                let link = bone.ik_links[i];
                self.write_ik_link(s_bone_index, link);
                proof {
                    let taken = bone.ik_links@.take(i + 1);
                    assert(taken.drop_last() =~= bone.ik_links@.take(i as int));
                    assert(taken.last() == link);
                    lemma_concat_associative(
                        before_links,
                        ik_links_bytes(s_bone_index, bone.ik_links@.take(i as int)),
                        ik_link_bytes(s_bone_index, link),
                    );
                }
                i = i + 1;
            }
            assert(bone.ik_links@.take(n as int) =~= bone.ik_links@);
            proof {
                lemma_concat_associative(mark, k, ik_links_bytes(s_bone_index, bone.ik_links@));
                k = k + ik_links_bytes(s_bone_index, bone.ik_links@);
            }
            assert(k =~= bone_ik_bytes(s_bone_index, bone@));
        } else {
            assert(mark + Seq::<u8>::empty() =~= mark);
        }
        assert(self@ == mark + bone_ik_bytes(s_bone_index, bone@));
        proof {
            lemma_concat_associative(start, acc, bone_ik_bytes(s_bone_index, bone@));
            acc = acc + bone_ik_bytes(s_bone_index, bone@);
        }
    }

    /// Writes a morph: names, category, kind, number of entries and the
    /// entries; each entry's index takes the size for its kind of index.
    pub fn write_pmx_morph(
        &mut self,
        s_vertex_index: u8,
        s_bone_index: u8,
        s_material_index: u8,
        s_morph_index: u8,
        morph: PMXMorph,
    )
        ensures
            final(self)@ == old(self)@ + morph_bytes(
                s_vertex_index,
                s_bone_index,
                s_material_index,
                s_morph_index,
                morph@,
            ),
    {
        let ghost start = self@;
        self.write_text_buf(&morph.name);
        self.write_text_buf(&morph.english_name);
        self.write_u8(morph.category);
        self.write_u8(morph.morph_type);
        append_le(&mut self.inner, morph.morph_data.len() as u64, 4);
        let ghost head = text_bytes(morph.name@) + text_bytes(morph.english_name@) + seq![
            morph.category,
        ] + seq![morph.morph_type] + int_bytes(morph.morph_data@.len() as int);
        assert(self@ == start + head) by {
            broadcast use lemma_append_assoc;

        }
        let ghost before = self@;
        let ghost entries = morph.morph_data@;
        let n = morph.morph_data.len();
        let mut i: usize = 0;
        assert(entries.take(0) =~= Seq::<MorphTypes>::empty());
        assert(before + morph_entries_bytes(
            s_vertex_index,
            s_bone_index,
            s_material_index,
            s_morph_index,
            entries.take(0),
        ) =~= before);
        while i < n
            invariant
                n == entries.len(),
                entries == morph.morph_data@,
                i <= n,
                self@ == before + morph_entries_bytes(
                    s_vertex_index,
                    s_bone_index,
                    s_material_index,
                    s_morph_index,
                    entries.take(i as int),
                ),
            decreases n - i,
        {
            let morph_ = morph.morph_data[i];
            match morph_ {
                MorphTypes::Vertex(morph) => { self.write_vertex_morph(s_vertex_index, morph) },
                MorphTypes::UV(morph) => { self.write_uv_morph(s_vertex_index, morph) },
                MorphTypes::UV1(morph) => { self.write_uv_morph(s_vertex_index, morph) },
                MorphTypes::UV2(morph) => { self.write_uv_morph(s_vertex_index, morph) },
                MorphTypes::UV3(morph) => { self.write_uv_morph(s_vertex_index, morph) },
                MorphTypes::UV4(morph) => { self.write_uv_morph(s_vertex_index, morph) },
                MorphTypes::Bone(morph) => { self.write_bone_morph(s_bone_index, morph) },
                MorphTypes::Material(morph) => {
                    self.write_material_morph(s_material_index, morph)
                },
                MorphTypes::Group(morph) => { self.write_group_morph(s_morph_index, morph) },
            }
            proof {
                let taken = entries.take(i + 1);
                assert(taken.drop_last() =~= entries.take(i as int));
                assert(taken.last() == morph_);
                lemma_concat_associative(
                    before,
                    morph_entries_bytes(
                        s_vertex_index,
                        s_bone_index,
                        s_material_index,
                        s_morph_index,
                        entries.take(i as int),
                    ),
                    morph_entry_bytes(
                        s_vertex_index,
                        s_bone_index,
                        s_material_index,
                        s_morph_index,
                        morph_,
                    ),
                );
            }
            i = i + 1;
        }
        assert(entries.take(n as int) =~= entries);
        proof {
            lemma_concat_associative(
                start,
                head,
                morph_entries_bytes(
                    s_vertex_index,
                    s_bone_index,
                    s_material_index,
                    s_morph_index,
                    entries,
                ),
            );
        }
    }

    fn write_vertex_morph(&mut self, s_vertex_index: u8, morph: VertexMorph)
        ensures
            final(self)@ == old(self)@ + vertex_morph_bytes(s_vertex_index, morph),
    {
        self.write_sized(s_vertex_index, morph.index);
        self.write_vec3(morph.offset);
        proof {
            lemma_concat_associative(
                old(self)@,
                index_bytes(s_vertex_index, morph.index),
                vec3_bytes(morph.offset),
            );
        }
    }

    fn write_uv_morph(&mut self, s_vertex_index: u8, morph: UVMorph)
        ensures
            final(self)@ == old(self)@ + uv_morph_bytes(s_vertex_index, morph),
    {
        self.write_sized(s_vertex_index, morph.index);
        self.write_vec4(morph.offset);
        proof {
            lemma_concat_associative(
                old(self)@,
                index_bytes(s_vertex_index, morph.index),
                vec4_bytes(morph.offset),
            );
        }
    }

    fn write_bone_morph(&mut self, s_bone_index: u8, morph: BoneMorph)
        ensures
            final(self)@ == old(self)@ + bone_morph_bytes(s_bone_index, morph),
    {
        self.write_sized(s_bone_index, morph.index);
        self.write_vec3(morph.translates);
        self.write_vec4(morph.rotates);
        assert(self@ =~= old(self)@ + bone_morph_bytes(s_bone_index, morph));
    }

    fn write_material_morph(&mut self, s_material_index: u8, morph: MaterialMorph)
        ensures
            final(self)@ == old(self)@ + material_morph_bytes(s_material_index, morph),
    {
        broadcast use lemma_append_assoc;

        self.write_sized(s_material_index, morph.index);
        self.write_u8(morph.formula);
        self.write_vec4(morph.diffuse);
        self.write_vec3(morph.specular);
        self.write_f32(morph.specular_factor);
        self.write_vec3(morph.ambient);
        self.write_vec4(morph.edge_color);
        self.write_f32(morph.edge_size);
        self.write_vec4(morph.texture_factor);
        self.write_vec4(morph.sphere_texture_factor);
        self.write_vec4(morph.toon_texture_factor);
    }

    fn write_group_morph(&mut self, s_morph_index: u8, morph: GroupMorph)
        ensures
            final(self)@ == old(self)@ + group_morph_bytes(s_morph_index, morph),
    {
        self.write_sized(s_morph_index, morph.index);
        self.write_f32(morph.morph_factor);
        proof {
            lemma_concat_associative(
                old(self)@,
                index_bytes(s_morph_index, morph.index),
                float_bytes(morph.morph_factor),
            );
        }
    }
}

} // verus!
