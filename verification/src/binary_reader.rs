//! A reader that recovers PMX model data from bytes, as the decoding rules
//! describe it.
use vstd::prelude::*;
use vstd::slice::slice_subrange;
use vstd::string::StringSliceAdditionalSpecFns;
use vstd::utf8::{valid_utf8, encode_utf8_decode_utf8};
use crate::encoding::byte_range;
use crate::decoding::{
    le_unsigned, lemma_le_unsigned_bounds, lemma_small_byte_ranges, take_unsigned, take_signed,
    parse_u8, parse_u16, parse_i32, parse_float, parse_vec2, parse_vec3, parse_vec4,
    parse_vertex_index, parse_sized, parse_count, parse_text,
};
use crate::record_decoding::{
    parse_face, parse_sphere_mode, parse_toon_mode, parse_material, parse_add_uvs, uv_or_zero,
    uv_slots, parse_weight, parse_vertex, lemma_add_uvs_stop, parse_ik_link, parse_ik_links,
    lemma_ik_links_stop, parse_opt_vec3, parse_bone_tail, parse_bone_append,
    parse_bone_outer_parent, parse_bone_ik, parse_bone, parse_uv_morph, parse_morph_entry,
    parse_morph_entries, lemma_morph_entries_stop, parse_morph,
};
use crate::pmx_types::{
    Vec2, Vec3, Vec4, PMXVertexWeight, PMXVertex, PMXFace, PMXSphereMode, PMXToonMode, PMXMaterial,
    PMXIKLink, PMXBone, VertexMorph, UVMorph, BoneMorph, MaterialMorph, GroupMorph, MorphTypes,
    PMXMorph, BONE_FLAG_TARGET_SHOW_MODE_MASK, BONE_FLAG_IK_MASK, BONE_FLAG_APPEND_ROTATE_MASK,
    BONE_FLAG_APPEND_TRANSLATE_MASK, BONE_FLAG_FIXED_AXIS_MASK, BONE_FLAG_LOCAL_AXIS_MASK,
    BONE_FLAG_DEFORM_OUTER_PARENT_MASK,
};

verus! {

/// What a read returned and where it left the reader, as `parsed` describes:
/// the value and the bytes after it, or nothing and the reader unmoved.
pub open spec fn read_outcome<T>(
    r: Option<T>,
    parsed: Option<(T, Seq<u8>)>,
    before: Seq<u8>,
    after: Seq<u8>,
) -> bool {
    match parsed {
        Some((v, rest)) => r == Some(v) && after == rest,
        None => r is None && after == before,
    }
}

/// Like `read_outcome`, for values that are compared by their view.
pub open spec fn read_outcome_view<T: View>(
    r: Option<T>,
    parsed: Option<(T::V, Seq<u8>)>,
    before: Seq<u8>,
    after: Seq<u8>,
) -> bool {
    match parsed {
        Some((v, rest)) => r is Some && r->0@ == v && after == rest,
        None => r is None && after == before,
    }
}

/// `core::str::from_utf8`: the bytes as a string slice when they are valid
/// UTF-8. Claimed here: a slice it returns holds exactly those bytes, and it
/// returns one for every byte sequence that is valid UTF-8.
#[verifier::external_body]
fn str_from_utf8(bytes: &[u8]) -> (r: Option<&str>)
    ensures
        r matches Some(s) ==> s.spec_bytes() == bytes@,
        valid_utf8(bytes@) ==> r is Some,
{
    core::str::from_utf8(bytes).ok()
}

/// Reads PMX data from a byte buffer, front to back.
pub struct BinaryReader {
    bytes: Vec<u8>,
    pos: usize,
}

impl View for BinaryReader {
    type V = Seq<u8>;

    /// The bytes not read yet.
    closed spec fn view(&self) -> Seq<u8> {
        self.bytes@.skip(self.pos as int)
    }
}

impl BinaryReader {
    #[verifier::type_invariant]
    spec fn inv(&self) -> bool {
        self.pos <= self.bytes.len()
    }

    /// The whole input, read or not.
    pub closed spec fn data(&self) -> Seq<u8> {
        self.bytes@
    }

    /// A reader positioned at the start of `bytes`.
    pub fn new(bytes: Vec<u8>) -> (r: BinaryReader)
        ensures
            r@ == bytes@,
            r.data() == bytes@,
    {
        let r = BinaryReader { bytes, pos: 0 };
        assert(r.bytes@.skip(0) =~= r.bytes@);
        r
    }

    /// The number of bytes not read yet.
    pub fn remaining(&self) -> (n: usize)
        ensures
            n == self@.len(),
    {
        proof {
            use_type_invariant(self);
        }
        self.bytes.len() - self.pos
    }

    /// Reads `n` bytes as an unsigned little-endian integer.
    pub fn read_unsigned(&mut self, n: usize) -> (r: Option<u64>)
        requires
            n <= 4,
        ensures
            final(self).data() == old(self).data(),
            match take_unsigned(old(self)@, n as nat) {
                Some((v, rest)) => r == Some(v as u64) && final(self)@ == rest,
                None => r is None && final(self)@ == old(self)@,
            },
    {
        proof {
            use_type_invariant(&*self);
        }
        if self.bytes.len() - self.pos < n {
            return None;
        }
        let ghost t = self@.take(n as int);
        let mut acc: u64 = 0;
        let mut i: usize = n;
        assert(t.subrange(n as int, n as int) =~= Seq::<u8>::empty());
        assert(byte_range(0) == 1);
        proof {
            lemma_small_byte_ranges();
        }
        while i > 0
            invariant
                i <= n <= 4,
                self.pos + n <= self.bytes.len(),
                t == self.bytes@.skip(self.pos as int).take(n as int),
                acc == le_unsigned(t.subrange(i as int, n as int)),
                acc < byte_range((n - i) as nat),
                byte_range((n - i) as nat) <= byte_range(4),
            decreases i,
        {
            i = i - 1;
            let b = self.bytes[self.pos + i];
            proof {
                let sub = t.subrange(i as int, n as int);
                assert(sub.drop_first() =~= t.subrange(i + 1, n as int));
                assert(sub[0] == b);
                assert(byte_range((n - i) as nat) == 256 * byte_range((n - i - 1) as nat));
                lemma_small_byte_ranges();
                assert(acc * 256 + b < byte_range((n - i) as nat)) by (nonlinear_arith)
                    requires
                        acc < byte_range((n - i - 1) as nat),
                        b < 256,
                        byte_range((n - i) as nat) == 256 * byte_range((n - i - 1) as nat),
                ;
                assert(byte_range((n - i) as nat) <= byte_range(4)) by {
                    lemma_byte_range_monotone((n - i) as nat, 4);
                }
            }
            acc = acc * 256 + b as u64;
        }
        assert(t.subrange(0, n as int) =~= t);
        assert(self.bytes@.skip(self.pos + n) =~= self.bytes@.skip(self.pos as int).skip(
            n as int,
        ));
        self.pos = self.pos + n;
        Some(acc)
    }

    /// Reads `n` bytes (one, two or four) as a signed little-endian integer.
    pub fn read_signed(&mut self, n: usize) -> (r: Option<i64>)
        requires
            n == 1 || n == 2 || n == 4,
        ensures
            final(self).data() == old(self).data(),
            match take_signed(old(self)@, n as nat) {
                Some((v, rest)) => r == Some(v as i64) && final(self)@ == rest,
                None => r is None && final(self)@ == old(self)@,
            },
    {
        let ghost before = self@;
        match self.read_unsigned(n) {
            Some(u) => {
                proof {
                    lemma_small_byte_ranges();
                    lemma_le_unsigned_bounds(before.take(n as int));
                }
                let m: i64 = if n == 1 {
                    256
                } else if n == 2 {
                    65536
                } else {
                    4294967296
                };
                if 2 * u >= m as u64 {
                    Some(u as i64 - m)
                } else {
                    Some(u as i64)
                }
            },
            None => None,
        }
    }

    pub fn read_u8(&mut self) -> (r: Option<u8>)
        ensures
            final(self).data() == old(self).data(),
            read_outcome(r, parse_u8(old(self)@), old(self)@, final(self)@),
    {
        proof {
            use_type_invariant(&*self);
        }
        if self.pos < self.bytes.len() {
            let b = self.bytes[self.pos];
            assert(self.bytes@.skip(self.pos + 1) =~= self.bytes@.skip(self.pos as int).skip(1));
            self.pos = self.pos + 1;
            Some(b)
        } else {
            None
        }
    }

    pub fn read_u16(&mut self) -> (r: Option<u16>)
        ensures
            final(self).data() == old(self).data(),
            read_outcome(r, parse_u16(old(self)@), old(self)@, final(self)@),
    {
        let ghost before = self@;
        match self.read_unsigned(2) {
            Some(u) => {
                proof {
                    lemma_small_byte_ranges();
                    lemma_le_unsigned_bounds(before.take(2));
                }
                Some(u as u16)
            },
            None => None,
        }
    }

    pub fn read_i32(&mut self) -> (r: Option<i32>)
        ensures
            final(self).data() == old(self).data(),
            read_outcome(r, parse_i32(old(self)@), old(self)@, final(self)@),
    {
        let ghost before = self@;
        match self.read_signed(4) {
            Some(v) => {
                proof {
                    lemma_small_byte_ranges();
                    lemma_le_unsigned_bounds(before.take(4));
                }
                Some(v as i32)
            },
            None => None,
        }
    }

    /// Reads an `f32` as its bit pattern.
    pub fn read_f32(&mut self) -> (r: Option<u32>)
        ensures
            final(self).data() == old(self).data(),
            read_outcome(r, parse_float(old(self)@), old(self)@, final(self)@),
    {
        let ghost before = self@;
        match self.read_unsigned(4) {
            Some(u) => {
                proof {
                    lemma_small_byte_ranges();
                    lemma_le_unsigned_bounds(before.take(4));
                }
                Some(u as u32)
            },
            None => None,
        }
    }

    pub fn read_vec2(&mut self) -> (r: Option<Vec2>)
        ensures
            final(self).data() == old(self).data(),
            read_outcome(r, parse_vec2(old(self)@), old(self)@, final(self)@),
    {
        proof {
            use_type_invariant(&*self);
        }
        let start = self.pos;
        let x = match self.read_f32() {
            Some(v) => v,
            None => { return None; },
        };
        let y = match self.read_f32() {
            Some(v) => v,
            None => {
                self.pos = start;
                return None;
            },
        };
        Some([x, y])
    }

    pub fn read_vec3(&mut self) -> (r: Option<Vec3>)
        ensures
            final(self).data() == old(self).data(),
            read_outcome(r, parse_vec3(old(self)@), old(self)@, final(self)@),
    {
        proof {
            use_type_invariant(&*self);
        }
        let start = self.pos;
        let x = match self.read_f32() {
            Some(v) => v,
            None => { return None; },
        };
        let y = match self.read_f32() {
            Some(v) => v,
            None => {
                self.pos = start;
                return None;
            },
        };
        let z = match self.read_f32() {
            Some(v) => v,
            None => {
                self.pos = start;
                return None;
            },
        };
        Some([x, y, z])
    }

    pub fn read_vec4(&mut self) -> (r: Option<Vec4>)
        ensures
            final(self).data() == old(self).data(),
            read_outcome(r, parse_vec4(old(self)@), old(self)@, final(self)@),
    {
        proof {
            use_type_invariant(&*self);
        }
        let start = self.pos;
        let x = match self.read_f32() {
            Some(v) => v,
            None => { return None; },
        };
        let y = match self.read_f32() {
            Some(v) => v,
            None => {
                self.pos = start;
                return None;
            },
        };
        let z = match self.read_f32() {
            Some(v) => v,
            None => {
                self.pos = start;
                return None;
            },
        };
        let w = match self.read_f32() {
            Some(v) => v,
            None => {
                self.pos = start;
                return None;
            },
        };
        Some([x, y, z, w])
    }

    /// Reads a vertex index: unsigned in one or two bytes, signed in four;
    /// any other size reads nothing and fails.
    pub fn read_vertex_index(&mut self, size: u8) -> (r: Option<i32>)
        ensures
            final(self).data() == old(self).data(),
            read_outcome(r, parse_vertex_index(size, old(self)@), old(self)@, final(self)@),
    {
        let ghost before = self@;
        if size == 1 || size == 2 {
            match self.read_unsigned(size as usize) {
                Some(u) => {
                    proof {
                        lemma_small_byte_ranges();
                        lemma_le_unsigned_bounds(before.take(size as int));
                    }
                    Some(u as i32)
                },
                None => None,
            }
        } else if size == 4 {
            self.read_i32()
        } else {
            None
        }
    }

    /// Reads a signed index in one, two or four bytes; any other size reads
    /// nothing and fails.
    pub fn read_sized(&mut self, size: u8) -> (r: Option<i32>)
        ensures
            final(self).data() == old(self).data(),
            read_outcome(r, parse_sized(size, old(self)@), old(self)@, final(self)@),
    {
        let ghost before = self@;
        if size == 1 || size == 2 || size == 4 {
            match self.read_signed(size as usize) {
                Some(v) => {
                    proof {
                        lemma_small_byte_ranges();
                        lemma_le_unsigned_bounds(before.take(size as int));
                    }
                    Some(v as i32)
                },
                None => None,
            }
        } else {
            None
        }
    }

    /// Reads a count: a non-negative four-byte integer.
    pub fn read_count(&mut self) -> (r: Option<usize>)
        ensures
            final(self).data() == old(self).data(),
            match parse_count(old(self)@) {
                Some((n, rest)) => r == Some(n as usize) && final(self)@ == rest,
                None => r is None && final(self)@ == old(self)@,
            },
    {
        proof {
            use_type_invariant(&*self);
        }
        let start = self.pos;
        let ghost before = self@;
        match self.read_signed(4) {
            Some(v) => {
                proof {
                    lemma_small_byte_ranges();
                    lemma_le_unsigned_bounds(before.take(4));
                }
                if v >= 0 {
                    Some(v as usize)
                } else {
                    self.pos = start;
                    None
                }
            },
            None => None,
        }
    }

    /// Reads a text: its byte length, then that many bytes of UTF-8.
    pub fn read_text_buf(&mut self) -> (r: Option<String>)
        ensures
            final(self).data() == old(self).data(),
            read_outcome_view(r, parse_text(old(self)@), old(self)@, final(self)@),
    {
        proof {
            use_type_invariant(&*self);
        }
        let start = self.pos;
        let ghost before = self@;
        proof {
            crate::decoding::lemma_parse_count_bound(before);
        }
        let n = match self.read_count() {
            Some(n) => n,
            None => { return None; },
        };
        proof {
            use_type_invariant(&*self);
        }
        if n > self.bytes.len() - self.pos {
            self.pos = start;
            return None;
        }
        let ghost after_count = self@;
        let slice = slice_subrange(self.bytes.as_slice(), self.pos, self.pos + n);
        assert(slice@ =~= after_count.take(n as int));
        match str_from_utf8(slice) {
            Some(text) => {
                proof {
                    vstd::utf8::encode_utf8_valid_utf8(text@);
                    encode_utf8_decode_utf8(text@);
                }
                assert(self.bytes@.skip(self.pos + n) =~= after_count.skip(n as int));
                self.pos = self.pos + n;
                Some(text.to_owned())
            },
            None => {
                self.pos = start;
                None
            },
        }
    }

    /// Reads a face: three vertex indices of `s_vertex_index` bytes.
    pub fn read_face(&mut self, s_vertex_index: u8) -> (r: Option<PMXFace>)
        ensures
            final(self).data() == old(self).data(),
            read_outcome(r, parse_face(s_vertex_index, old(self)@), old(self)@, final(self)@),
    {
        proof {
            use_type_invariant(&*self);
        }
        let start = self.pos;
        let a = match self.read_vertex_index(s_vertex_index) {
            Some(v) => v,
            None => { return None; },
        };
        let b = match self.read_vertex_index(s_vertex_index) {
            Some(v) => v,
            None => {
                self.pos = start;
                return None;
            },
        };
        let c = match self.read_vertex_index(s_vertex_index) {
            Some(v) => v,
            None => {
                self.pos = start;
                return None;
            },
        };
        Some(PMXFace { vertices: [a, b, c] })
    }

    fn read_sphere_mode(&mut self) -> (r: Option<PMXSphereMode>)
        ensures
            final(self).data() == old(self).data(),
            read_outcome(r, parse_sphere_mode(old(self)@), old(self)@, final(self)@),
    {
        proof {
            use_type_invariant(&*self);
        }
        let start = self.pos;
        let code = match self.read_u8() {
            Some(v) => v,
            None => { return None; },
        };
        if code == 0 {
            Some(PMXSphereMode::Disabled)
        } else if code == 1 {
            Some(PMXSphereMode::Mul)
        } else if code == 2 {
            Some(PMXSphereMode::Add)
        } else if code == 3 {
            Some(PMXSphereMode::SubTexture)
        } else {
            self.pos = start;
            None
        }
    }

    fn read_toon_mode(&mut self) -> (r: Option<PMXToonMode>)
        ensures
            final(self).data() == old(self).data(),
            read_outcome(r, parse_toon_mode(old(self)@), old(self)@, final(self)@),
    {
        proof {
            use_type_invariant(&*self);
        }
        let start = self.pos;
        let code = match self.read_u8() {
            Some(v) => v,
            None => { return None; },
        };
        if code == 0 {
            Some(PMXToonMode::Separate)
        } else if code == 1 {
            Some(PMXToonMode::Common)
        } else {
            self.pos = start;
            None
        }
    }

    /// Reads a material; texture indices take `s_texture_index` bytes.
    pub fn read_pmx_material(&mut self, s_texture_index: u8) -> (r: Option<PMXMaterial>)
        ensures
            final(self).data() == old(self).data(),
            read_outcome_view(
                r,
                parse_material(s_texture_index, old(self)@),
                old(self)@,
                final(self)@,
            ),
    {
        proof {
            use_type_invariant(&*self);
        }
        let start = self.pos;
        let name = match self.read_text_buf() {
            Some(v) => v,
            None => { return None; },
        };
        let english_name = match self.read_text_buf() {
            Some(v) => v,
            None => {
                self.pos = start;
                return None;
            },
        };
        let diffuse = match self.read_vec4() {
            Some(v) => v,
            None => {
                self.pos = start;
                return None;
            },
        };
        let specular = match self.read_vec3() {
            Some(v) => v,
            None => {
                self.pos = start;
                return None;
            },
        };
        let specular_factor = match self.read_f32() {
            Some(v) => v,
            None => {
                self.pos = start;
                return None;
            },
        };
        let ambient = match self.read_vec3() {
            Some(v) => v,
            None => {
                self.pos = start;
                return None;
            },
        };
        let draw_mode = match self.read_u8() {
            Some(v) => v,
            None => {
                self.pos = start;
                return None;
            },
        };
        let edge_color = match self.read_vec4() {
            Some(v) => v,
            None => {
                self.pos = start;
                return None;
            },
        };
        let edge_size = match self.read_f32() {
            Some(v) => v,
            None => {
                self.pos = start;
                return None;
            },
        };
        let texture_index = match self.read_sized(s_texture_index) {
            Some(v) => v,
            None => {
                self.pos = start;
                return None;
            },
        };
        let sphere_mode_texture_index = match self.read_sized(s_texture_index) {
            Some(v) => v,
            None => {
                self.pos = start;
                return None;
            },
        };
        let sphere_mode = match self.read_sphere_mode() {
            Some(v) => v,
            None => {
                self.pos = start;
                return None;
            },
        };
        let toon_mode = match self.read_toon_mode() {
            Some(v) => v,
            None => {
                self.pos = start;
                return None;
            },
        };
        let toon_texture_index = match match toon_mode {
            PMXToonMode::Separate => self.read_sized(s_texture_index),
            PMXToonMode::Common => self.read_sized(1),
        } {
            Some(v) => v,
            None => {
                self.pos = start;
                return None;
            },
        };
        let memo = match self.read_text_buf() {
            Some(v) => v,
            None => {
                self.pos = start;
                return None;
            },
        };
        let num_face_vertices = match self.read_i32() {
            Some(v) => v,
            None => {
                self.pos = start;
                return None;
            },
        };
        Some(
            PMXMaterial {
                name,
                english_name,
                diffuse,
                specular,
                specular_factor,
                ambient,
                draw_mode,
                edge_color,
                edge_size,
                texture_index,
                sphere_mode_texture_index,
                sphere_mode,
                toon_mode,
                toon_texture_index,
                memo,
                num_face_vertices,
            },
        )
    }

    /// Reads a vertex weight: its kind's code, then its bone indices and weights.
    fn read_weight(&mut self, s_bone_index: u8) -> (r: Option<PMXVertexWeight>)
        ensures
            final(self).data() == old(self).data(),
            read_outcome(r, parse_weight(s_bone_index, old(self)@), old(self)@, final(self)@),
    {
        proof {
            use_type_invariant(&*self);
        }
        let start = self.pos;
        let code = match self.read_u8() {
            Some(v) => v,
            None => { return None; },
        };
        if code == 0 {
            let index = match self.read_sized(s_bone_index) {
                Some(v) => v,
                None => {
                    self.pos = start;
                    return None;
                },
            };
            Some(PMXVertexWeight::BDEF1(index))
        } else if code == 1 {
            let bone_index_1 = match self.read_sized(s_bone_index) {
                Some(v) => v,
                None => {
                    self.pos = start;
                    return None;
                },
            };
            let bone_index_2 = match self.read_sized(s_bone_index) {
                Some(v) => v,
                None => {
                    self.pos = start;
                    return None;
                },
            };
            let bone_weight_1 = match self.read_f32() {
                Some(v) => v,
                None => {
                    self.pos = start;
                    return None;
                },
            };
            Some(PMXVertexWeight::BDEF2 { bone_index_1, bone_index_2, bone_weight_1 })
        } else if code == 2 || code == 4 {
            let bone_index_1 = match self.read_sized(s_bone_index) {
                Some(v) => v,
                None => {
                    self.pos = start;
                    return None;
                },
            };
            let bone_index_2 = match self.read_sized(s_bone_index) {
                Some(v) => v,
                None => {
                    self.pos = start;
                    return None;
                },
            };
            let bone_index_3 = match self.read_sized(s_bone_index) {
                Some(v) => v,
                None => {
                    self.pos = start;
                    return None;
                },
            };
            let bone_index_4 = match self.read_sized(s_bone_index) {
                Some(v) => v,
                None => {
                    self.pos = start;
                    return None;
                },
            };
            let bone_weight_1 = match self.read_f32() {
                Some(v) => v,
                None => {
                    self.pos = start;
                    return None;
                },
            };
            let bone_weight_2 = match self.read_f32() {
                Some(v) => v,
                None => {
                    self.pos = start;
                    return None;
                },
            };
            let bone_weight_3 = match self.read_f32() {
                Some(v) => v,
                None => {
                    self.pos = start;
                    return None;
                },
            };
            let bone_weight_4 = match self.read_f32() {
                Some(v) => v,
                None => {
                    self.pos = start;
                    return None;
                },
            };
            if code == 2 {
                Some(
                    PMXVertexWeight::BDEF4 {
                        bone_index_1,
                        bone_index_2,
                        bone_index_3,
                        bone_index_4,
                        bone_weight_1,
                        bone_weight_2,
                        bone_weight_3,
                        bone_weight_4,
                    },
                )
            } else {
                Some(
                    PMXVertexWeight::QDEF {
                        bone_index_1,
                        bone_index_2,
                        bone_index_3,
                        bone_index_4,
                        bone_weight_1,
                        bone_weight_2,
                        bone_weight_3,
                        bone_weight_4,
                    },
                )
            }
        } else if code == 3 {
            let bone_index_1 = match self.read_sized(s_bone_index) {
                Some(v) => v,
                None => {
                    self.pos = start;
                    return None;
                },
            };
            let bone_index_2 = match self.read_sized(s_bone_index) {
                Some(v) => v,
                None => {
                    self.pos = start;
                    return None;
                },
            };
            let bone_weight_1 = match self.read_f32() {
                Some(v) => v,
                None => {
                    self.pos = start;
                    return None;
                },
            };
            let sdef_c = match self.read_vec3() {
                Some(v) => v,
                None => {
                    self.pos = start;
                    return None;
                },
            };
            let sdef_r0 = match self.read_vec3() {
                Some(v) => v,
                None => {
                    self.pos = start;
                    return None;
                },
            };
            let sdef_r1 = match self.read_vec3() {
                Some(v) => v,
                None => {
                    self.pos = start;
                    return None;
                },
            };
            Some(
                PMXVertexWeight::SDEF {
                    bone_index_1,
                    bone_index_2,
                    bone_weight_1,
                    sdef_c,
                    sdef_r0,
                    sdef_r1,
                },
            )
        } else {
            self.pos = start;
            None
        }
    }

    /// Reads a vertex with `additional_uvs` additional UV sets; UV slots
    /// beyond those read are zero. Bone indices take `s_bone_index` bytes.
    pub fn read_pmx_vertex(&mut self, additional_uvs: u8, s_bone_index: u8) -> (r: Option<
        PMXVertex,
    >)
        ensures
            final(self).data() == old(self).data(),
            read_outcome(
                r,
                parse_vertex(additional_uvs, s_bone_index, old(self)@),
                old(self)@,
                final(self)@,
            ),
    {
        proof {
            use_type_invariant(&*self);
        }
        let start = self.pos;
        let position = match self.read_vec3() {
            Some(v) => v,
            None => { return None; },
        };
        let norm = match self.read_vec3() {
            Some(v) => v,
            None => {
                self.pos = start;
                return None;
            },
        };
        let uv = match self.read_vec2() {
            Some(v) => v,
            None => {
                self.pos = start;
                return None;
            },
        };
        let ghost at_uvs = self@;
        let mut uvs: Vec<Vec4> = Vec::new();
        let mut i: u8 = 0;
        while i < additional_uvs
            invariant
                i <= additional_uvs,
                self.bytes@ == old(self).bytes@,
                start <= self.bytes.len(),
                old(self)@ == self.bytes@.skip(start as int),
                parse_add_uvs(at_uvs, i as nat) == Some((uvs@, self@)),
                parse_add_uvs(at_uvs, additional_uvs as nat) is None ==> parse_vertex(
                    additional_uvs,
                    s_bone_index,
                    old(self)@,
                ) is None,
            decreases additional_uvs - i,
        {
            match self.read_vec4() {
                Some(v) => {
                    uvs.push(v);
                    i = i + 1;
                },
                None => {
                    proof {
                        lemma_add_uvs_stop(at_uvs, i as nat, additional_uvs as nat);
                    }
                    self.pos = start;
                    return None;
                },
            }
        }
        let weight_type = match self.read_weight(s_bone_index) {
            Some(v) => v,
            None => {
                self.pos = start;
                return None;
            },
        };
        let edge_mag = match self.read_f32() {
            Some(v) => v,
            None => {
                self.pos = start;
                return None;
            },
        };
        let add_uv = [uv_at(&uvs, 0), uv_at(&uvs, 1), uv_at(&uvs, 2), uv_at(&uvs, 3)];
        assert(add_uv == uv_slots(uvs@));
        Some(PMXVertex { position, norm, uv, add_uv, weight_type, edge_mag })
    }

    /// Reads an IK link; limits that are not present read as zero.
    pub fn read_ik_link(&mut self, s_bone_index: u8) -> (r: Option<PMXIKLink>)
        ensures
            final(self).data() == old(self).data(),
            read_outcome(r, parse_ik_link(s_bone_index, old(self)@), old(self)@, final(self)@),
    {
        proof {
            use_type_invariant(&*self);
        }
        let start = self.pos;
        let ik_bone_index = match self.read_sized(s_bone_index) {
            Some(v) => v,
            None => {
                self.pos = start;
                return None;
            },
        };
        let enable_limit = match self.read_u8() {
            Some(v) => v,
            None => {
                self.pos = start;
                return None;
            },
        };
        if enable_limit == 1 {
            let limit_min = match self.read_vec3() {
                Some(v) => v,
                None => {
                    self.pos = start;
                    return None;
                },
            };
            let limit_max = match self.read_vec3() {
                Some(v) => v,
                None => {
                    self.pos = start;
                    return None;
                },
            };
            Some(PMXIKLink { ik_bone_index, enable_limit, limit_min, limit_max })
        } else {
            Some(PMXIKLink { ik_bone_index, enable_limit, limit_min: [0, 0, 0], limit_max: [0, 0, 0] })
        }
    }

    /// Reads `n` IK links.
    fn read_ik_links(&mut self, s_bone_index: u8, n: usize) -> (r: Option<Vec<PMXIKLink>>)
        ensures
            final(self).data() == old(self).data(),
            match parse_ik_links(s_bone_index, old(self)@, n as nat) {
                Some((links, rest)) => r is Some && r->0@ == links && final(self)@ == rest,
                None => r is None && final(self)@ == old(self)@,
            },
    {
        proof {
            use_type_invariant(&*self);
        }
        let start = self.pos;
        let ghost at_links = self@;
        let mut links: Vec<PMXIKLink> = Vec::new();
        let mut i: usize = 0;
        while i < n
            invariant
                i <= n,
                self.bytes@ == old(self).bytes@,
                start <= self.bytes.len(),
                old(self)@ == self.bytes@.skip(start as int),
                at_links == old(self)@,
                parse_ik_links(s_bone_index, at_links, i as nat) == Some((links@, self@)),
            decreases n - i,
        {
            match self.read_ik_link(s_bone_index) {
                Some(link) => {
                    links.push(link);
                    i = i + 1;
                },
                None => {
                    proof {
                        lemma_ik_links_stop(s_bone_index, at_links, i as nat, n as nat);
                    }
                    self.pos = start;
                    return None;
                },
            }
        }
        Some(links)
    }

    /// Reads a bone's tail: a bone index when the flags say so, else an offset.
    fn read_bone_tail(&mut self, s_bone_index: u8, flags: u16) -> (r: Option<(i32, Vec3)>)
        ensures
            final(self).data() == old(self).data(),
            read_outcome(r, parse_bone_tail(s_bone_index, flags, old(self)@), old(self)@, final(self)@),
    {
        if (flags & BONE_FLAG_TARGET_SHOW_MODE_MASK) == BONE_FLAG_TARGET_SHOW_MODE_MASK {
            match self.read_sized(s_bone_index) {
                Some(child) => Some((child, [0, 0, 0])),
                None => None,
            }
        } else {
            match self.read_vec3() {
                Some(offset) => Some((0, offset)),
                None => None,
            }
        }
    }

    /// Reads the inherited bone and weight when the flags say there are some.
    fn read_bone_append(&mut self, s_bone_index: u8, flags: u16) -> (r: Option<(i32, u32)>)
        ensures
            final(self).data() == old(self).data(),
            read_outcome(
                r,
                parse_bone_append(s_bone_index, flags, old(self)@),
                old(self)@,
                final(self)@,
            ),
    {
        proof {
            use_type_invariant(&*self);
        }
        let start = self.pos;
        if flags & (BONE_FLAG_APPEND_ROTATE_MASK | BONE_FLAG_APPEND_TRANSLATE_MASK) > 0 {
            let index = match self.read_sized(s_bone_index) {
                Some(v) => v,
                None => { return None; },
            };
            let weight = match self.read_f32() {
                Some(v) => v,
                None => {
                    self.pos = start;
                    return None;
                },
            };
            Some((index, weight))
        } else {
            Some((0, 0))
        }
    }

    /// Reads three components when `present`, else reads nothing and gives zero.
    fn read_opt_vec3(&mut self, present: bool) -> (r: Option<Vec3>)
        ensures
            final(self).data() == old(self).data(),
            read_outcome(r, parse_opt_vec3(present, old(self)@), old(self)@, final(self)@),
    {
        if present {
            self.read_vec3()
        } else {
            Some([0, 0, 0])
        }
    }

    /// Reads the outer parent key when the flags say there is one.
    fn read_bone_outer_parent(&mut self, flags: u16) -> (r: Option<i32>)
        ensures
            final(self).data() == old(self).data(),
            read_outcome(r, parse_bone_outer_parent(flags, old(self)@), old(self)@, final(self)@),
    {
        if (flags & BONE_FLAG_DEFORM_OUTER_PARENT_MASK) > 0 {
            self.read_i32()
        } else {
            Some(0)
        }
    }

    /// Reads the IK chain when the flags say the bone ends one.
    fn read_bone_ik(&mut self, s_bone_index: u8, flags: u16) -> (r: Option<
        (i32, i32, u32, Vec<PMXIKLink>),
    >)
        ensures
            final(self).data() == old(self).data(),
            match parse_bone_ik(s_bone_index, flags, old(self)@) {
                Some((v, rest)) => r matches Some(t) && t.0 == v.0 && t.1 == v.1 && t.2 == v.2
                    && t.3@ == v.3 && final(self)@ == rest,
                None => r is None && final(self)@ == old(self)@,
            },
    {
        proof {
            use_type_invariant(&*self);
        }
        let start = self.pos;
        if (flags & BONE_FLAG_IK_MASK) == BONE_FLAG_IK_MASK {
            let target = match self.read_sized(s_bone_index) {
                Some(v) => v,
                None => { return None; },
            };
            let iter = match self.read_i32() {
                Some(v) => v,
                None => {
                    self.pos = start;
                    return None;
                },
            };
            let limit = match self.read_f32() {
                Some(v) => v,
                None => {
                    self.pos = start;
                    return None;
                },
            };
            proof {
                crate::decoding::lemma_parse_count_bound(self@);
            }
            let count = match self.read_count() {
                Some(v) => v,
                None => {
                    self.pos = start;
                    return None;
                },
            };
            let links = match self.read_ik_links(s_bone_index, count) {
                Some(v) => v,
                None => {
                    self.pos = start;
                    return None;
                },
            };
            Some((target, iter, limit, links))
        } else {
            Some((0, 0, 0, Vec::new()))
        }
    }

    /// Reads a bone; the fields its flags leave out read as zero.
    pub fn read_bone(&mut self, s_bone_index: u8) -> (r: Option<PMXBone>)
        ensures
            final(self).data() == old(self).data(),
            read_outcome_view(r, parse_bone(s_bone_index, old(self)@), old(self)@, final(self)@),
    {
        proof {
            use_type_invariant(&*self);
        }
        let start = self.pos;
        let name = match self.read_text_buf() {
            Some(v) => v,
            None => { return None; },
        };
        let english_name = match self.read_text_buf() {
            Some(v) => v,
            None => {
                self.pos = start;
                return None;
            },
        };
        let position = match self.read_vec3() {
            Some(v) => v,
            None => {
                self.pos = start;
                return None;
            },
        };
        let parent = match self.read_sized(s_bone_index) {
            Some(v) => v,
            None => {
                self.pos = start;
                return None;
            },
        };
        let deform_depth = match self.read_i32() {
            Some(v) => v,
            None => {
                self.pos = start;
                return None;
            },
        };
        let boneflag = match self.read_u16() {
            Some(v) => v,
            None => {
                self.pos = start;
                return None;
            },
        };
        let tail = match self.read_bone_tail(s_bone_index, boneflag) {
            Some(v) => v,
            None => {
                self.pos = start;
                return None;
            },
        };
        let append = match self.read_bone_append(s_bone_index, boneflag) {
            Some(v) => v,
            None => {
                self.pos = start;
                return None;
            },
        };
        let fixed_axis = match self.read_opt_vec3((boneflag & BONE_FLAG_FIXED_AXIS_MASK) == BONE_FLAG_FIXED_AXIS_MASK) {
            Some(v) => v,
            None => {
                self.pos = start;
                return None;
            },
        };
        let local_axis_x = match self.read_opt_vec3((boneflag & BONE_FLAG_LOCAL_AXIS_MASK) == BONE_FLAG_LOCAL_AXIS_MASK) {
            Some(v) => v,
            None => {
                self.pos = start;
                return None;
            },
        };
        let local_axis_z = match self.read_opt_vec3((boneflag & BONE_FLAG_LOCAL_AXIS_MASK) == BONE_FLAG_LOCAL_AXIS_MASK) {
            Some(v) => v,
            None => {
                self.pos = start;
                return None;
            },
        };
        let key_value = match self.read_bone_outer_parent(boneflag) {
            Some(v) => v,
            None => {
                self.pos = start;
                return None;
            },
        };
        let ik = match self.read_bone_ik(s_bone_index, boneflag) {
            Some(v) => v,
            None => {
                self.pos = start;
                return None;
            },
        };
        let (ik_target_index, ik_iter_count, ik_limit, ik_links) = ik;
        Some(
            PMXBone {
                name,
                english_name,
                position,
                parent,
                deform_depth,
                boneflag,
                offset: tail.1,
                child: tail.0,
                append_bone_index: append.0,
                append_weight: append.1,
                fixed_axis,
                local_axis_x,
                local_axis_z,
                key_value,
                ik_target_index,
                ik_iter_count,
                ik_limit,
                ik_links,
            },
        )
    }

    fn read_uv_morph(&mut self, s_vertex_index: u8) -> (r: Option<UVMorph>)
        ensures
            final(self).data() == old(self).data(),
            read_outcome(r, parse_uv_morph(s_vertex_index, old(self)@), old(self)@, final(self)@),
    {
        proof {
            use_type_invariant(&*self);
        }
        let start = self.pos;
        let index = match self.read_sized(s_vertex_index) {
            Some(v) => v,
            None => { return None; },
        };
        let offset = match self.read_vec4() {
            Some(v) => v,
            None => {
                self.pos = start;
                return None;
            },
        };
        Some(UVMorph { index, offset })
    }

    /// Reads one morph entry of the kind given by `kind`.
    fn read_morph_entry(
        &mut self,
        kind: u8,
        s_vertex_index: u8,
        s_bone_index: u8,
        s_material_index: u8,
        s_morph_index: u8,
    ) -> (r: Option<MorphTypes>)
        ensures
            final(self).data() == old(self).data(),
            read_outcome(
                r,
                parse_morph_entry(kind, s_vertex_index, s_bone_index, s_material_index, s_morph_index, old(self)@),
                old(self)@,
                final(self)@,
            ),
    {
        proof {
            use_type_invariant(&*self);
        }
        let start = self.pos;
        if kind == 0 {
            let index = match self.read_sized(s_morph_index) {
                Some(v) => v,
                None => { return None; },
            };
            let morph_factor = match self.read_f32() {
                Some(v) => v,
                None => {
                    self.pos = start;
                    return None;
                },
            };
            Some(MorphTypes::Group(GroupMorph { index, morph_factor }))
        } else if kind == 1 {
            let index = match self.read_sized(s_vertex_index) {
                Some(v) => v,
                None => { return None; },
            };
            let offset = match self.read_vec3() {
                Some(v) => v,
                None => {
                    self.pos = start;
                    return None;
                },
            };
            Some(MorphTypes::Vertex(VertexMorph { index, offset }))
        } else if kind == 2 {
            let index = match self.read_sized(s_bone_index) {
                Some(v) => v,
                None => { return None; },
            };
            let translates = match self.read_vec3() {
                Some(v) => v,
                None => {
                    self.pos = start;
                    return None;
                },
            };
            let rotates = match self.read_vec4() {
                Some(v) => v,
                None => {
                    self.pos = start;
                    return None;
                },
            };
            Some(MorphTypes::Bone(BoneMorph { index, translates, rotates }))
        } else if 3 <= kind && kind <= 7 {
            let m = match self.read_uv_morph(s_vertex_index) {
                Some(v) => v,
                None => { return None; },
            };
            if kind == 3 {
                Some(MorphTypes::UV(m))
            } else if kind == 4 {
                Some(MorphTypes::UV1(m))
            } else if kind == 5 {
                Some(MorphTypes::UV2(m))
            } else if kind == 6 {
                Some(MorphTypes::UV3(m))
            } else {
                Some(MorphTypes::UV4(m))
            }
        } else if kind == 8 {
            let index = match self.read_sized(s_material_index) {
                Some(v) => v,
                None => { return None; },
            };
            let formula = match self.read_u8() {
                Some(v) => v,
                None => {
                    self.pos = start;
                    return None;
                },
            };
            let diffuse = match self.read_vec4() {
                Some(v) => v,
                None => {
                    self.pos = start;
                    return None;
                },
            };
            let specular = match self.read_vec3() {
                Some(v) => v,
                None => {
                    self.pos = start;
                    return None;
                },
            };
            let specular_factor = match self.read_f32() {
                Some(v) => v,
                None => {
                    self.pos = start;
                    return None;
                },
            };
            let ambient = match self.read_vec3() {
                Some(v) => v,
                None => {
                    self.pos = start;
                    return None;
                },
            };
            let edge_color = match self.read_vec4() {
                Some(v) => v,
                None => {
                    self.pos = start;
                    return None;
                },
            };
            let edge_size = match self.read_f32() {
                Some(v) => v,
                None => {
                    self.pos = start;
                    return None;
                },
            };
            let texture_factor = match self.read_vec4() {
                Some(v) => v,
                None => {
                    self.pos = start;
                    return None;
                },
            };
            let sphere_texture_factor = match self.read_vec4() {
                Some(v) => v,
                None => {
                    self.pos = start;
                    return None;
                },
            };
            let toon_texture_factor = match self.read_vec4() {
                Some(v) => v,
                None => {
                    self.pos = start;
                    return None;
                },
            };
            Some(
                MorphTypes::Material(
                    MaterialMorph {
                        index,
                        formula,
                        diffuse,
                        specular,
                        specular_factor,
                        ambient,
                        edge_color,
                        edge_size,
                        texture_factor,
                        sphere_texture_factor,
                        toon_texture_factor,
                    },
                ),
            )
        } else {
            None
        }
    }

    /// Reads `n` morph entries of the kind given by `kind`.
    fn read_morph_entries(
        &mut self,
        kind: u8,
        s_vertex_index: u8,
        s_bone_index: u8,
        s_material_index: u8,
        s_morph_index: u8,
        n: usize,
    ) -> (r: Option<Vec<MorphTypes>>)
        ensures
            final(self).data() == old(self).data(),
            match parse_morph_entries(kind, s_vertex_index, s_bone_index, s_material_index, s_morph_index, old(self)@, n as nat) {
                Some((entries, rest)) => r is Some && r->0@ == entries && final(self)@ == rest,
                None => r is None && final(self)@ == old(self)@,
            },
    {
        proof {
            use_type_invariant(&*self);
        }
        let start = self.pos;
        let ghost at_entries = self@;
        let mut entries: Vec<MorphTypes> = Vec::new();
        let mut i: usize = 0;
        while i < n
            invariant
                i <= n,
                self.bytes@ == old(self).bytes@,
                start <= self.bytes.len(),
                old(self)@ == self.bytes@.skip(start as int),
                at_entries == old(self)@,
                parse_morph_entries(kind, s_vertex_index, s_bone_index, s_material_index, s_morph_index, at_entries, i as nat) == Some(
                    (entries@, self@),
                ),
            decreases n - i,
        {
            match self.read_morph_entry(kind, s_vertex_index, s_bone_index, s_material_index, s_morph_index) {
                Some(e) => {
                    entries.push(e);
                    i = i + 1;
                },
                None => {
                    proof {
                        lemma_morph_entries_stop(
                            kind,
                            s_vertex_index, s_bone_index, s_material_index, s_morph_index,
                            at_entries,
                            i as nat,
                            n as nat,
                        );
                    }
                    self.pos = start;
                    return None;
                },
            }
        }
        Some(entries)
    }

    /// Reads a morph; its kind byte decides how its entries are read, and
    /// each entry's index takes the size for its kind of index.
    pub fn read_pmx_morph(
        &mut self,
        s_vertex_index: u8,
        s_bone_index: u8,
        s_material_index: u8,
        s_morph_index: u8,
    ) -> (r: Option<PMXMorph>)
        ensures
            final(self).data() == old(self).data(),
            read_outcome_view(
                r,
                parse_morph(s_vertex_index, s_bone_index, s_material_index, s_morph_index, old(self)@),
                old(self)@,
                final(self)@,
            ),
    {
        proof {
            use_type_invariant(&*self);
        }
        let start = self.pos;
        let name = match self.read_text_buf() {
            Some(v) => v,
            None => { return None; },
        };
        let english_name = match self.read_text_buf() {
            Some(v) => v,
            None => {
                self.pos = start;
                return None;
            },
        };
        let category = match self.read_u8() {
            Some(v) => v,
            None => {
                self.pos = start;
                return None;
            },
        };
        let morph_type = match self.read_u8() {
            Some(v) => v,
            None => {
                self.pos = start;
                return None;
            },
        };
        proof {
            crate::decoding::lemma_parse_count_bound(self@);
        }
        let count = match self.read_count() {
            Some(v) => v,
            None => {
                self.pos = start;
                return None;
            },
        };
        let morph_data = match self.read_morph_entries(morph_type, s_vertex_index, s_bone_index, s_material_index, s_morph_index, count) {
            Some(v) => v,
            None => {
                self.pos = start;
                return None;
            },
        };
        Some(PMXMorph { name, english_name, category, morph_type, morph_data })
    }
}

/// The additional UV set at `i`, or zero when there are fewer sets.
fn uv_at(uvs: &Vec<Vec4>, i: usize) -> (v: Vec4)
    ensures
        v == uv_or_zero(uvs@, i as int),
{
    if i < uvs.len() {
        uvs[i]
    } else {
        [0, 0, 0, 0]
    }
}

/// `256^a <= 256^b` when `a <= b`.
pub proof fn lemma_byte_range_monotone(a: nat, b: nat)
    requires
        a <= b,
    ensures
        byte_range(a) <= byte_range(b),
    decreases b,
{
    if a < b {
        lemma_byte_range_monotone(a, (b - 1) as nat);
        crate::decoding::lemma_byte_range_positive((b - 1) as nat);
    }
}

} // verus!
