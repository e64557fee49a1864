//! Reading back what the encoding rules lay out: the decoding of integers
//! and texts, and the laws that tie it to the encoding.
use vstd::prelude::*;
use vstd::arithmetic::div_mod::{lemma_fundamental_div_mod, lemma_fundamental_div_mod_converse};
use vstd::utf8::{
    valid_utf8, decode_utf8, encode_utf8, encode_utf8_decode_utf8, decode_utf8_encode_utf8,
};
use crate::encoding::{
    le_bytes, byte_range, lemma_le_bytes_periodic, index_bytes, float_bytes, int_bytes, text_bytes,
    vec2_bytes, vec3_bytes, vec4_bytes,
};
use crate::pmx_types::{Vec2, Vec3, Vec4};

verus! {

/// The unsigned value of little-endian bytes.
pub open spec fn le_unsigned(bytes: Seq<u8>) -> int
    decreases bytes.len(),
{
    if bytes.len() == 0 {
        0
    } else {
        bytes[0] + 256 * le_unsigned(bytes.drop_first())
    }
}

/// The two's complement value of little-endian bytes.
pub open spec fn le_signed(bytes: Seq<u8>) -> int {
    let u = le_unsigned(bytes);
    let m = byte_range(bytes.len());
    if 2 * u >= m {
        u - m
    } else {
        u
    }
}

/// `256^n` is positive.
pub proof fn lemma_byte_range_positive(n: nat)
    ensures
        byte_range(n) > 0,
        n > 0 ==> byte_range(n) >= 256,
    decreases n,
{
    if n > 0 {
        lemma_byte_range_positive((n - 1) as nat);
    }
}

/// `n` bytes are laid out for an `n`-byte integer.
pub proof fn lemma_le_bytes_len(v: int, n: nat)
    ensures
        le_bytes(v, n).len() == n,
    decreases n,
{
    if n > 0 {
        lemma_le_bytes_len(v / 256, (n - 1) as nat);
    }
}

/// The unsigned value of `n` bytes lies in `0 .. 256^n`.
pub proof fn lemma_le_unsigned_bounds(bytes: Seq<u8>)
    ensures
        0 <= le_unsigned(bytes) < byte_range(bytes.len()),
    decreases bytes.len(),
{
    if bytes.len() > 0 {
        let rest = bytes.drop_first();
        lemma_le_unsigned_bounds(rest);
        let u = le_unsigned(rest);
        let p = byte_range(rest.len());
        assert(bytes[0] + 256 * u <= 255 + 256 * (p - 1)) by (nonlinear_arith)
            requires
                0 <= bytes[0] < 256,
                0 <= u < p,
        ;
    }
}

/// Reading back the low `n` bytes of `v` as an unsigned integer gives `v`
/// modulo `256^n`.
pub proof fn lemma_unsigned_of_le_bytes(v: int, n: nat)
    ensures
        le_unsigned(le_bytes(v, n)) == v % byte_range(n),
        v == (v / byte_range(n)) * byte_range(n) + le_unsigned(le_bytes(v, n)),
    decreases n,
{
    lemma_byte_range_positive(n);
    if n == 0 {
        lemma_fundamental_div_mod_converse(v, 1, v, 0);
    } else {
        let w = v / 256;
        let r0 = v % 256;
        lemma_fundamental_div_mod(v, 256);
        lemma_unsigned_of_le_bytes(w, (n - 1) as nat);
        lemma_le_bytes_len(w, (n - 1) as nat);
        let p = byte_range((n - 1) as nat);
        let q = w / p;
        let u1 = le_unsigned(le_bytes(w, (n - 1) as nat));
        lemma_le_unsigned_bounds(le_bytes(w, (n - 1) as nat));
        let bytes = le_bytes(v, n);
        assert(bytes.drop_first() =~= le_bytes(w, (n - 1) as nat));
        assert(le_unsigned(bytes) == r0 + 256 * u1);
        assert(v == q * byte_range(n) + (r0 + 256 * u1)) by (nonlinear_arith)
            requires
                v == 256 * w + r0,
                w == q * p + u1,
                byte_range(n) == 256 * p,
        ;
        assert(0 <= r0 + 256 * u1 < byte_range(n)) by (nonlinear_arith)
            requires
                0 <= r0 < 256,
                0 <= u1 < p,
                byte_range(n) == 256 * p,
        ;
        lemma_fundamental_div_mod_converse(v, byte_range(n), q, r0 + 256 * u1);
    }
}

/// Laying out the unsigned value of some bytes in as many bytes gives those
/// bytes back.
pub proof fn lemma_le_bytes_of_unsigned(bytes: Seq<u8>)
    ensures
        le_bytes(le_unsigned(bytes), bytes.len()) == bytes,
    decreases bytes.len(),
{
    if bytes.len() == 0 {
        assert(le_bytes(0, 0) =~= bytes);
    } else {
        let rest = bytes.drop_first();
        lemma_le_bytes_of_unsigned(rest);
        lemma_le_unsigned_bounds(rest);
        let u = le_unsigned(bytes);
        let u1 = le_unsigned(rest);
        lemma_fundamental_div_mod_converse(u, 256, u1, bytes[0] as int);
        assert(le_bytes(u, bytes.len()) =~= bytes);
    }
}

/// Reading back the low `n` bytes of `v` as a signed integer gives `v`,
/// when `v` fits in `n` bytes.
pub proof fn lemma_signed_of_le_bytes(v: int, n: nat)
    requires
        n > 0,
        -byte_range(n) <= 2 * v < byte_range(n),
    ensures
        le_signed(le_bytes(v, n)) == v,
{
    lemma_byte_range_positive(n);
    lemma_le_bytes_len(v, n);
    lemma_unsigned_of_le_bytes(v, n);
    let m = byte_range(n);
    if v >= 0 {
        lemma_fundamental_div_mod_converse(v, m, 0, v);
    } else {
        lemma_fundamental_div_mod_converse(v, m, -1, v + m);
    }
}

/// Laying out the signed value of some bytes in as many bytes gives those
/// bytes back.
pub proof fn lemma_le_bytes_of_signed(bytes: Seq<u8>)
    ensures
        le_bytes(le_signed(bytes), bytes.len()) == bytes,
{
    lemma_le_bytes_of_unsigned(bytes);
    let u = le_unsigned(bytes);
    let m = byte_range(bytes.len());
    if 2 * u >= m {
        lemma_le_bytes_periodic(u - m, 1, bytes.len());
    }
}

/// The first `n` bytes as an unsigned integer, and the bytes after them.
pub open spec fn take_unsigned(bytes: Seq<u8>, n: nat) -> Option<(int, Seq<u8>)> {
    if bytes.len() >= n {
        Some((le_unsigned(bytes.take(n as int)), bytes.skip(n as int)))
    } else {
        None
    }
}

/// The first `n` bytes as a signed integer, and the bytes after them.
pub open spec fn take_signed(bytes: Seq<u8>, n: nat) -> Option<(int, Seq<u8>)> {
    if bytes.len() >= n {
        Some((le_signed(bytes.take(n as int)), bytes.skip(n as int)))
    } else {
        None
    }
}

pub open spec fn parse_u8(bytes: Seq<u8>) -> Option<(u8, Seq<u8>)> {
    if bytes.len() >= 1 {
        Some((bytes[0], bytes.skip(1)))
    } else {
        None
    }
}

pub open spec fn parse_u16(bytes: Seq<u8>) -> Option<(u16, Seq<u8>)> {
    if let Some((v, rest)) = take_unsigned(bytes, 2) {
        Some((v as u16, rest))
    } else {
        None
    }
}

pub open spec fn parse_i32(bytes: Seq<u8>) -> Option<(i32, Seq<u8>)> {
    if let Some((v, rest)) = take_signed(bytes, 4) {
        Some((v as i32, rest))
    } else {
        None
    }
}

/// An `f32`, as its bit pattern.
pub open spec fn parse_float(bytes: Seq<u8>) -> Option<(u32, Seq<u8>)> {
    if let Some((v, rest)) = take_unsigned(bytes, 4) {
        Some((v as u32, rest))
    } else {
        None
    }
}

pub open spec fn parse_vec2(bytes: Seq<u8>) -> Option<(Vec2, Seq<u8>)> {
    if let Some((x, r1)) = parse_float(bytes) {
        if let Some((y, r2)) = parse_float(r1) {
            Some(([x, y], r2))
        } else {
            None
        }
    } else {
        None
    }
}

pub open spec fn parse_vec3(bytes: Seq<u8>) -> Option<(Vec3, Seq<u8>)> {
    if let Some((x, r1)) = parse_float(bytes) {
        if let Some((y, r2)) = parse_float(r1) {
            if let Some((z, r3)) = parse_float(r2) {
                Some(([x, y, z], r3))
            } else {
                None
            }
        } else {
            None
        }
    } else {
        None
    }
}

pub open spec fn parse_vec4(bytes: Seq<u8>) -> Option<(Vec4, Seq<u8>)> {
    if let Some((x, r1)) = parse_float(bytes) {
        if let Some((y, r2)) = parse_float(r1) {
            if let Some((z, r3)) = parse_float(r2) {
                if let Some((w, r4)) = parse_float(r3) {
                    Some(([x, y, z, w], r4))
                } else {
                    None
                }
            } else {
                None
            }
        } else {
            None
        }
    } else {
        None
    }
}

/// Whether `size` is a size the format allows for an index.
pub open spec fn valid_index_size(size: u8) -> bool {
    size == 1 || size == 2 || size == 4
}

/// A vertex index: unsigned in one or two bytes, signed in four.
pub open spec fn parse_vertex_index(size: u8, bytes: Seq<u8>) -> Option<(i32, Seq<u8>)> {
    if size == 1 || size == 2 {
        if let Some((v, rest)) = take_unsigned(bytes, size as nat) {
            Some((v as i32, rest))
        } else {
            None
        }
    } else if size == 4 {
        parse_i32(bytes)
    } else {
        None
    }
}

/// A signed index in one, two or four bytes.
pub open spec fn parse_sized(size: u8, bytes: Seq<u8>) -> Option<(i32, Seq<u8>)> {
    if valid_index_size(size) {
        if let Some((v, rest)) = take_signed(bytes, size as nat) {
            Some((v as i32, rest))
        } else {
            None
        }
    } else {
        None
    }
}

/// Whether a vertex index reads back as itself in `size` bytes.
pub open spec fn vertex_index_fits(size: u8, v: i32) -> bool {
    ||| size == 1 && 0 <= v < 256
    ||| size == 2 && 0 <= v < 65536
    ||| size == 4
}

/// Whether a signed index reads back as itself in `size` bytes.
pub open spec fn sized_fits(size: u8, v: i32) -> bool {
    ||| size == 1 && -128 <= v < 128
    ||| size == 2 && -32768 <= v < 32768
    ||| size == 4
}

/// A count of items: a non-negative four-byte integer.
pub open spec fn parse_count(bytes: Seq<u8>) -> Option<(nat, Seq<u8>)> {
    if let Some((v, rest)) = take_signed(bytes, 4) {
        if v >= 0 {
            Some((v as nat, rest))
        } else {
            None
        }
    } else {
        None
    }
}

/// A text: its byte length, then that many bytes of valid UTF-8.
pub open spec fn parse_text(bytes: Seq<u8>) -> Option<(Seq<char>, Seq<u8>)> {
    if let Some((n, rest)) = parse_count(bytes) {
        if n <= rest.len() && valid_utf8(rest.take(n as int)) {
            Some((decode_utf8(rest.take(n as int)), rest.skip(n as int)))
        } else {
            None
        }
    } else {
        None
    }
}

/// Whether a text reads back as itself: its encoding is shorter than `2^31` bytes.
pub open spec fn text_fits(text: Seq<char>) -> bool {
    encode_utf8(text).len() < 0x8000_0000
}

/// Reading `n` bytes as unsigned after laying out `v` in `n` bytes gives `v`
/// modulo `256^n`, and leaves what followed.
pub proof fn lemma_take_unsigned_le_bytes(v: int, n: nat, rest: Seq<u8>)
    ensures
        take_unsigned(le_bytes(v, n) + rest, n) == Some((v % byte_range(n), rest)),
{
    lemma_le_bytes_len(v, n);
    lemma_unsigned_of_le_bytes(v, n);
    let all = le_bytes(v, n) + rest;
    assert(all.take(n as int) =~= le_bytes(v, n));
    assert(all.skip(n as int) =~= rest);
}

/// Reading `n` bytes as signed after laying out `v` in `n` bytes gives `v`
/// back when it fits, and leaves what followed.
pub proof fn lemma_take_signed_le_bytes(v: int, n: nat, rest: Seq<u8>)
    requires
        n > 0,
        -byte_range(n) <= 2 * v < byte_range(n),
    ensures
        take_signed(le_bytes(v, n) + rest, n) == Some((v, rest)),
{
    lemma_le_bytes_len(v, n);
    lemma_signed_of_le_bytes(v, n);
    let all = le_bytes(v, n) + rest;
    assert(all.take(n as int) =~= le_bytes(v, n));
    assert(all.skip(n as int) =~= rest);
}

/// The byte ranges of one, two and four bytes.
pub proof fn lemma_small_byte_ranges()
    ensures
        byte_range(1) == 256,
        byte_range(2) == 65536,
        byte_range(4) == 0x1_0000_0000,
{
    assert(byte_range(0) == 1);
    assert(byte_range(1) == 256);
    assert(byte_range(2) == 65536);
    assert(byte_range(3) == 16777216);
    assert(byte_range(4) == 0x1_0000_0000);
}

pub proof fn lemma_parse_u8_roundtrip(b: u8, rest: Seq<u8>)
    ensures
        parse_u8(seq![b] + rest) == Some((b, rest)),
{
    assert((seq![b] + rest).skip(1) =~= rest);
}

pub proof fn lemma_parse_u16_roundtrip(v: u16, rest: Seq<u8>)
    ensures
        parse_u16(le_bytes(v as int, 2) + rest) == Some((v, rest)),
{
    lemma_small_byte_ranges();
    lemma_take_unsigned_le_bytes(v as int, 2, rest);
    vstd::arithmetic::div_mod::lemma_fundamental_div_mod_converse(v as int, 65536, 0, v as int);
}

pub proof fn lemma_parse_i32_roundtrip(v: i32, rest: Seq<u8>)
    ensures
        parse_i32(int_bytes(v as int) + rest) == Some((v, rest)),
{
    lemma_small_byte_ranges();
    lemma_take_signed_le_bytes(v as int, 4, rest);
}

pub proof fn lemma_parse_float_roundtrip(bits: u32, rest: Seq<u8>)
    ensures
        parse_float(float_bytes(bits) + rest) == Some((bits, rest)),
{
    lemma_small_byte_ranges();
    lemma_take_unsigned_le_bytes(bits as int, 4, rest);
    vstd::arithmetic::div_mod::lemma_fundamental_div_mod_converse(
        bits as int,
        0x1_0000_0000,
        0,
        bits as int,
    );
}

pub proof fn lemma_parse_vec2_roundtrip(v: Vec2, rest: Seq<u8>)
    ensures
        parse_vec2(vec2_bytes(v) + rest) == Some((v, rest)),
{
    let r1 = float_bytes(v[1]) + rest;
    assert(vec2_bytes(v) + rest =~= float_bytes(v[0]) + r1);
    lemma_parse_float_roundtrip(v[0], r1);
    lemma_parse_float_roundtrip(v[1], rest);
    let w: Vec2 = [v[0], v[1]];
    assert(w@ =~= v@);
}

pub proof fn lemma_parse_vec3_roundtrip(v: Vec3, rest: Seq<u8>)
    ensures
        parse_vec3(vec3_bytes(v) + rest) == Some((v, rest)),
{
    let r2 = float_bytes(v[2]) + rest;
    let r1 = float_bytes(v[1]) + r2;
    assert(vec3_bytes(v) + rest =~= float_bytes(v[0]) + r1);
    lemma_parse_float_roundtrip(v[0], r1);
    lemma_parse_float_roundtrip(v[1], r2);
    lemma_parse_float_roundtrip(v[2], rest);
    let w: Vec3 = [v[0], v[1], v[2]];
    assert(w@ =~= v@);
}

pub proof fn lemma_parse_vec4_roundtrip(v: Vec4, rest: Seq<u8>)
    ensures
        parse_vec4(vec4_bytes(v) + rest) == Some((v, rest)),
{
    let r3 = float_bytes(v[3]) + rest;
    let r2 = float_bytes(v[2]) + r3;
    let r1 = float_bytes(v[1]) + r2;
    assert(vec4_bytes(v) + rest =~= float_bytes(v[0]) + r1);
    lemma_parse_float_roundtrip(v[0], r1);
    lemma_parse_float_roundtrip(v[1], r2);
    lemma_parse_float_roundtrip(v[2], r3);
    lemma_parse_float_roundtrip(v[3], rest);
    let w: Vec4 = [v[0], v[1], v[2], v[3]];
    assert(w@ =~= v@);
}

/// A vertex index written in `size` bytes reads back as itself when it fits.
pub proof fn lemma_parse_vertex_index_roundtrip(size: u8, v: i32, rest: Seq<u8>)
    requires
        vertex_index_fits(size, v),
    ensures
        parse_vertex_index(size, index_bytes(size, v) + rest) == Some((v, rest)),
{
    lemma_small_byte_ranges();
    if size == 4 {
        lemma_parse_i32_roundtrip(v, rest);
    } else {
        lemma_take_unsigned_le_bytes(v as int, size as nat, rest);
        vstd::arithmetic::div_mod::lemma_fundamental_div_mod_converse(
            v as int,
            byte_range(size as nat),
            0,
            v as int,
        );
    }
}

/// A signed index written in `size` bytes reads back as itself when it fits.
pub proof fn lemma_parse_sized_roundtrip(size: u8, v: i32, rest: Seq<u8>)
    requires
        sized_fits(size, v),
    ensures
        parse_sized(size, index_bytes(size, v) + rest) == Some((v, rest)),
{
    lemma_small_byte_ranges();
    lemma_take_signed_le_bytes(v as int, size as nat, rest);
}

/// A count read from four bytes is below `2^31`.
pub proof fn lemma_parse_count_bound(bytes: Seq<u8>)
    ensures
        parse_count(bytes) matches Some((n, _)) ==> n < 0x8000_0000,
{
    if bytes.len() >= 4 {
        lemma_small_byte_ranges();
        lemma_le_unsigned_bounds(bytes.take(4));
    }
}

/// A count written as a four-byte integer reads back as itself.
pub proof fn lemma_parse_count_roundtrip(n: nat, rest: Seq<u8>)
    requires
        n < 0x8000_0000,
    ensures
        parse_count(int_bytes(n as int) + rest) == Some((n, rest)),
{
    lemma_small_byte_ranges();
    lemma_take_signed_le_bytes(n as int, 4, rest);
}

/// A text reads back as itself, and leaves what followed it.
pub proof fn lemma_parse_text_roundtrip(text: Seq<char>, rest: Seq<u8>)
    requires
        text_fits(text),
    ensures
        parse_text(text_bytes(text) + rest) == Some((text, rest)),
{
    let e = encode_utf8(text);
    let r1 = e + rest;
    assert(text_bytes(text) + rest =~= int_bytes(e.len() as int) + r1);
    lemma_parse_count_roundtrip(e.len(), r1);
    assert(r1.take(e.len() as int) =~= e);
    assert(r1.skip(e.len() as int) =~= rest);
    vstd::utf8::encode_utf8_valid_utf8(text);
    encode_utf8_decode_utf8(text);
}

/// The signed value of `n` bytes lies in `-256^n / 2 .. 256^n / 2`.
pub proof fn lemma_le_signed_bounds(bytes: Seq<u8>)
    ensures
        -byte_range(bytes.len()) <= 2 * le_signed(bytes) < byte_range(bytes.len()),
{
    lemma_le_unsigned_bounds(bytes);
}

/// A signed index that was read fits its size.
pub proof fn lemma_parse_sized_fits(size: u8, bytes: Seq<u8>)
    ensures
        parse_sized(size, bytes) matches Some((v, _)) ==> sized_fits(size, v),
{
    if valid_index_size(size) && bytes.len() >= size {
        lemma_small_byte_ranges();
        lemma_le_signed_bounds(bytes.take(size as int));
    }
}

/// A vertex index that was read fits its size.
pub proof fn lemma_parse_vertex_index_fits(size: u8, bytes: Seq<u8>)
    ensures
        parse_vertex_index(size, bytes) matches Some((v, _)) ==> vertex_index_fits(size, v),
{
    if bytes.len() >= size {
        lemma_small_byte_ranges();
        lemma_le_unsigned_bounds(bytes.take(size as int));
        lemma_le_signed_bounds(bytes.take(size as int));
    }
}

/// A text that was read fits: its encoding is the bytes it was read from.
pub proof fn lemma_parse_text_fits(bytes: Seq<u8>)
    ensures
        parse_text(bytes) matches Some((t, _)) ==> text_fits(t),
{
    lemma_parse_count_bound(bytes);
    if let Some((n, rest)) = parse_count(bytes) {
        if n <= rest.len() && valid_utf8(rest.take(n as int)) {
            decode_utf8_encode_utf8(rest.take(n as int));
        }
    }
}

/// Copying a text: the text read from some bytes, written again and read
/// back, is the same text, and reading stops where the copy ends.
pub proof fn lemma_text_copy(bytes: Seq<u8>, rest: Seq<u8>)
    requires
        parse_text(bytes) is Some,
    ensures
        ({
            let t = parse_text(bytes).unwrap().0;
            parse_text(text_bytes(t) + rest) == Some((t, rest))
        }),
{
    lemma_parse_text_fits(bytes);
    lemma_parse_text_roundtrip(parse_text(bytes).unwrap().0, rest);
}

/// Whatever `n` bytes were read as unsigned are those `n` bytes of the value read.
pub proof fn lemma_take_unsigned_bytes(bytes: Seq<u8>, n: nat)
    ensures
        take_unsigned(bytes, n) matches Some((v, rest)) ==> bytes == le_bytes(v, n) + rest,
{
    if bytes.len() >= n {
        lemma_le_bytes_of_unsigned(bytes.take(n as int));
        assert(bytes =~= bytes.take(n as int) + bytes.skip(n as int));
    }
}

/// Whatever `n` bytes were read as signed are those `n` bytes of the value read.
pub proof fn lemma_take_signed_bytes(bytes: Seq<u8>, n: nat)
    ensures
        take_signed(bytes, n) matches Some((v, rest)) ==> bytes == le_bytes(v, n) + rest,
{
    if bytes.len() >= n {
        lemma_le_bytes_of_signed(bytes.take(n as int));
        assert(bytes =~= bytes.take(n as int) + bytes.skip(n as int));
    }
}

pub proof fn lemma_parse_u8_bytes(bytes: Seq<u8>)
    ensures
        parse_u8(bytes) matches Some((b, rest)) ==> bytes == seq![b] + rest,
{
    if bytes.len() >= 1 {
        assert(bytes =~= seq![bytes[0]] + bytes.skip(1));
    }
}

pub proof fn lemma_parse_u16_bytes(bytes: Seq<u8>)
    ensures
        parse_u16(bytes) matches Some((v, rest)) ==> bytes == le_bytes(v as int, 2) + rest,
{
    lemma_take_unsigned_bytes(bytes, 2);
    if bytes.len() >= 2 {
        lemma_small_byte_ranges();
        lemma_le_unsigned_bounds(bytes.take(2));
    }
}

pub proof fn lemma_parse_i32_bytes(bytes: Seq<u8>)
    ensures
        parse_i32(bytes) matches Some((v, rest)) ==> bytes == int_bytes(v as int) + rest,
{
    lemma_take_signed_bytes(bytes, 4);
    if bytes.len() >= 4 {
        lemma_small_byte_ranges();
        lemma_le_signed_bounds(bytes.take(4));
    }
}

pub proof fn lemma_parse_float_bytes(bytes: Seq<u8>)
    ensures
        parse_float(bytes) matches Some((v, rest)) ==> bytes == float_bytes(v) + rest,
{
    lemma_take_unsigned_bytes(bytes, 4);
    if bytes.len() >= 4 {
        lemma_small_byte_ranges();
        lemma_le_unsigned_bounds(bytes.take(4));
    }
}

pub proof fn lemma_parse_vec2_bytes(bytes: Seq<u8>)
    ensures
        parse_vec2(bytes) matches Some((v, rest)) ==> bytes == vec2_bytes(v) + rest,
{
    lemma_parse_float_bytes(bytes);
    if let Some((x, r1)) = parse_float(bytes) {
        lemma_parse_float_bytes(r1);
        if let Some((y, r2)) = parse_float(r1) {
            assert(bytes =~= vec2_bytes([x, y]) + r2);
        }
    }
}

pub proof fn lemma_parse_vec3_bytes(bytes: Seq<u8>)
    ensures
        parse_vec3(bytes) matches Some((v, rest)) ==> bytes == vec3_bytes(v) + rest,
{
    lemma_parse_float_bytes(bytes);
    if let Some((x, r1)) = parse_float(bytes) {
        lemma_parse_float_bytes(r1);
        if let Some((y, r2)) = parse_float(r1) {
            lemma_parse_float_bytes(r2);
            if let Some((z, r3)) = parse_float(r2) {
                assert(bytes =~= vec3_bytes([x, y, z]) + r3);
            }
        }
    }
}

pub proof fn lemma_parse_vec4_bytes(bytes: Seq<u8>)
    ensures
        parse_vec4(bytes) matches Some((v, rest)) ==> bytes == vec4_bytes(v) + rest,
{
    lemma_parse_float_bytes(bytes);
    if let Some((x, r1)) = parse_float(bytes) {
        lemma_parse_float_bytes(r1);
        if let Some((y, r2)) = parse_float(r1) {
            lemma_parse_float_bytes(r2);
            if let Some((z, r3)) = parse_float(r2) {
                lemma_parse_float_bytes(r3);
                if let Some((w, r4)) = parse_float(r3) {
                    assert(bytes =~= vec4_bytes([x, y, z, w]) + r4);
                }
            }
        }
    }
}

/// Whatever bytes were read as a vertex index are the bytes of the index read.
pub proof fn lemma_parse_vertex_index_bytes(size: u8, bytes: Seq<u8>)
    ensures
        parse_vertex_index(size, bytes) matches Some((v, rest)) ==> bytes == index_bytes(size, v)
            + rest,
{
    lemma_parse_i32_bytes(bytes);
    if (size == 1 || size == 2) && bytes.len() >= size {
        lemma_take_unsigned_bytes(bytes, size as nat);
        lemma_small_byte_ranges();
        lemma_le_unsigned_bounds(bytes.take(size as int));
    }
}

/// Whatever bytes were read as a signed index are the bytes of the index read.
pub proof fn lemma_parse_sized_bytes(size: u8, bytes: Seq<u8>)
    ensures
        parse_sized(size, bytes) matches Some((v, rest)) ==> bytes == index_bytes(size, v) + rest,
{
    if valid_index_size(size) && bytes.len() >= size {
        lemma_take_signed_bytes(bytes, size as nat);
        lemma_small_byte_ranges();
        lemma_le_signed_bounds(bytes.take(size as int));
    }
}

pub proof fn lemma_parse_count_bytes(bytes: Seq<u8>)
    ensures
        parse_count(bytes) matches Some((n, rest)) ==> bytes == int_bytes(n as int) + rest,
{
    lemma_take_signed_bytes(bytes, 4);
}

/// Whatever bytes were read as a text are the bytes of the text read.
pub proof fn lemma_parse_text_bytes(bytes: Seq<u8>)
    ensures
        parse_text(bytes) matches Some((t, rest)) ==> bytes == text_bytes(t) + rest,
{
    lemma_parse_count_bytes(bytes);
    if let Some((n, r1)) = parse_count(bytes) {
        if n <= r1.len() && valid_utf8(r1.take(n as int)) {
            let b = r1.take(n as int);
            decode_utf8_encode_utf8(b);
            assert(r1 =~= b + r1.skip(n as int));
            assert(bytes =~= int_bytes(n as int) + b + r1.skip(n as int));
        }
    }
}

} // verus!
