//! The mathematical model of the message body format.
//!
//! `enc_val` / `enc_list` give the exact byte image of a (value, code) list;
//! `dec_one` / `dec_list` are the deterministic decoder, consuming bytes left
//! to right and failing (`None`) on a truncated body, a negative or oversized
//! size, invalid UTF-8, or bytes left over after the last code. The
//! executable codec in [`crate::encode`] and [`crate::decode`] is proved
//! equal to these functions, and the codec laws in [`crate::laws`] are proved
//! about them.

use vstd::prelude::*;
use vstd::utf8::{decode_utf8, encode_utf8, valid_utf8};

use crate::codes::TypeCode;
use crate::value::{NanonisValue, ValV};
use crate::wire::{be2, be4, be8, rd2, rd4, rd8};

verus! {

/// The largest size a 4-byte prefix may declare: prefixes are signed on the
/// wire, and a negative size is malformed.
pub const MAX_SIZE: u32 = 0x7FFF_FFFF;

/// The views of a value list.
pub open spec fn views_of(s: Seq<NanonisValue>) -> Seq<ValV> {
    s.map_values(|v: NanonisValue| v@)
}

/// Whether a value's tag is the one the code describes.
pub open spec fn fits(v: ValV, c: TypeCode) -> bool {
    match c {
        TypeCode::U16 => v is U16,
        TypeCode::I16 => v is I16,
        TypeCode::U32 => v is U32,
        TypeCode::I32 => v is I32,
        TypeCode::F32 => v is F32,
        TypeCode::F64 => v is F64,
        TypeCode::Str => v is Str,
        TypeCode::StrPrev => v is Str,
        TypeCode::StrArrayPrev => v is ArrStr,
        TypeCode::ArrU8 => v is ArrU8,
        TypeCode::ArrU8Prev => v is ArrU8,
        TypeCode::ArrU16 => v is ArrU16,
        TypeCode::ArrU16Prev => v is ArrU16,
        TypeCode::ArrI16 => v is ArrI16,
        TypeCode::ArrI16Prev => v is ArrI16,
        TypeCode::ArrU32 => v is ArrU32,
        TypeCode::ArrU32Prev => v is ArrU32,
        TypeCode::ArrI32 => v is ArrI32,
        TypeCode::ArrI32Prev => v is ArrI32,
        TypeCode::ArrF32 => v is ArrF32,
        TypeCode::ArrF32Prev => v is ArrF32,
        TypeCode::ArrF64 => v is ArrF64,
        TypeCode::ArrF64Prev => v is ArrF64,
        TypeCode::Arr2DF32 => v is Arr2DF32,
    }
}

/// The integer carried by an integer-tagged value; `None` for other tags.
/// Size-by-context fields take their size from this number.
pub open spec fn int_of(v: ValV) -> Option<int> {
    match v {
        ValV::U16(x) => Some(x as int),
        ValV::I16(x) => Some(x as int),
        ValV::U32(x) => Some(x as int),
        ValV::I32(x) => Some(x as int),
        _ => None,
    }
}

// ---------------------------------------------------------------- encoding

/// The concatenated big-endian images of 16-bit elements.
pub open spec fn cat_u16(a: Seq<u16>) -> Seq<u8>
    decreases a.len(),
{
    if a.len() == 0 {
        Seq::empty()
    } else {
        be2(a[0]) + cat_u16(a.skip(1))
    }
}

/// The concatenated big-endian images of signed 16-bit elements.
pub open spec fn cat_i16(a: Seq<i16>) -> Seq<u8>
    decreases a.len(),
{
    if a.len() == 0 {
        Seq::empty()
    } else {
        be2(a[0] as u16) + cat_i16(a.skip(1))
    }
}

/// The concatenated big-endian images of 32-bit elements.
pub open spec fn cat_u32(a: Seq<u32>) -> Seq<u8>
    decreases a.len(),
{
    if a.len() == 0 {
        Seq::empty()
    } else {
        be4(a[0]) + cat_u32(a.skip(1))
    }
}

/// The concatenated big-endian images of signed 32-bit elements.
pub open spec fn cat_i32(a: Seq<i32>) -> Seq<u8>
    decreases a.len(),
{
    if a.len() == 0 {
        Seq::empty()
    } else {
        be4(a[0] as u32) + cat_i32(a.skip(1))
    }
}

/// The concatenated big-endian images of 64-bit elements.
pub open spec fn cat_u64(a: Seq<u64>) -> Seq<u8>
    decreases a.len(),
{
    if a.len() == 0 {
        Seq::empty()
    } else {
        be8(a[0]) + cat_u64(a.skip(1))
    }
}

/// The concatenation of length-prefixed UTF-8 strings.
pub open spec fn cat_pstr(a: Seq<Seq<char>>) -> Seq<u8>
    decreases a.len(),
{
    if a.len() == 0 {
        Seq::empty()
    } else {
        be4(encode_utf8(a[0]).len() as u32) + encode_utf8(a[0]) + cat_pstr(a.skip(1))
    }
}

/// The row-major concatenation of the rows of a matrix.
pub open spec fn cat_rows(m: Seq<Seq<u32>>) -> Seq<u8>
    decreases m.len(),
{
    if m.len() == 0 {
        Seq::empty()
    } else {
        cat_u32(m[0]) + cat_rows(m.skip(1))
    }
}

/// The column count of a matrix: the width of its first row.
pub open spec fn cols_of(m: Seq<Seq<u32>>) -> int {
    if m.len() == 0 {
        0
    } else {
        m[0].len() as int
    }
}

/// Whether a single value can be encoded under a code: the tags agree, every
/// size a 4-byte prefix must declare fits in a signed 32-bit count, and a
/// two-dimensional array is rectangular.
pub open spec fn val_encodable(v: ValV, c: TypeCode) -> bool {
    fits(v, c) && match v {
        ValV::Str(s) => encode_utf8(s).len() <= MAX_SIZE,
        ValV::ArrStr(a) => a.len() <= MAX_SIZE && forall|j: int|
            0 <= j < a.len() ==> #[trigger] encode_utf8(a[j]).len() <= MAX_SIZE,
        ValV::ArrU8(a) => a.len() <= MAX_SIZE,
        ValV::ArrU16(a) => a.len() <= MAX_SIZE,
        ValV::ArrI16(a) => a.len() <= MAX_SIZE,
        ValV::ArrU32(a) => a.len() <= MAX_SIZE,
        ValV::ArrI32(a) => a.len() <= MAX_SIZE,
        ValV::ArrF32(a) => a.len() <= MAX_SIZE,
        ValV::ArrF64(a) => a.len() <= MAX_SIZE,
        ValV::Arr2DF32(m) => m.len() <= MAX_SIZE && cols_of(m) <= MAX_SIZE && forall|i: int|
            0 <= i < m.len() ==> #[trigger] m[i].len() == cols_of(m),
        _ => true,
    }
}

/// The exact byte image of one value under one code. Meaningful only when
/// `val_encodable(v, c)` holds.
pub open spec fn enc_val(v: ValV, c: TypeCode) -> Seq<u8> {
    match (c, v) {
        (TypeCode::U16, ValV::U16(x)) => be2(x),
        (TypeCode::I16, ValV::I16(x)) => be2(x as u16),
        (TypeCode::U32, ValV::U32(x)) => be4(x),
        (TypeCode::I32, ValV::I32(x)) => be4(x as u32),
        (TypeCode::F32, ValV::F32(x)) => be4(x),
        (TypeCode::F64, ValV::F64(x)) => be8(x),
        (TypeCode::Str, ValV::Str(s)) => be4(encode_utf8(s).len() as u32) + encode_utf8(s),
        (TypeCode::StrPrev, ValV::Str(s)) => encode_utf8(s),
        (TypeCode::StrArrayPrev, ValV::ArrStr(a)) => cat_pstr(a),
        (TypeCode::ArrU8, ValV::ArrU8(a)) => be4(a.len() as u32) + a,
        (TypeCode::ArrU8Prev, ValV::ArrU8(a)) => a,
        (TypeCode::ArrU16, ValV::ArrU16(a)) => be4(a.len() as u32) + cat_u16(a),
        (TypeCode::ArrU16Prev, ValV::ArrU16(a)) => cat_u16(a),
        (TypeCode::ArrI16, ValV::ArrI16(a)) => be4(a.len() as u32) + cat_i16(a),
        (TypeCode::ArrI16Prev, ValV::ArrI16(a)) => cat_i16(a),
        (TypeCode::ArrU32, ValV::ArrU32(a)) => be4(a.len() as u32) + cat_u32(a),
        (TypeCode::ArrU32Prev, ValV::ArrU32(a)) => cat_u32(a),
        (TypeCode::ArrI32, ValV::ArrI32(a)) => be4(a.len() as u32) + cat_i32(a),
        (TypeCode::ArrI32Prev, ValV::ArrI32(a)) => cat_i32(a),
        (TypeCode::ArrF32, ValV::ArrF32(a)) => be4(a.len() as u32) + cat_u32(a),
        (TypeCode::ArrF32Prev, ValV::ArrF32(a)) => cat_u32(a),
        (TypeCode::ArrF64, ValV::ArrF64(a)) => be8_prefixed(a),
        (TypeCode::ArrF64Prev, ValV::ArrF64(a)) => cat_u64(a),
        (TypeCode::Arr2DF32, ValV::Arr2DF32(m)) => be4(m.len() as u32) + be4(
            cols_of(m) as u32,
        ) + cat_rows(m),
        _ => Seq::empty(),
    }
}

/// A 64-bit element array behind its own 4-byte count prefix.
pub open spec fn be8_prefixed(a: Seq<u64>) -> Seq<u8> {
    be4(a.len() as u32) + cat_u64(a)
}

/// Whether a whole value list can be encoded under a code list.
pub open spec fn list_encodable(vs: Seq<ValV>, cs: Seq<TypeCode>) -> bool {
    vs.len() == cs.len() && forall|i: int| 0 <= i < vs.len() ==> val_encodable(#[trigger] vs[i], cs[i])
}

/// The exact byte image of a whole (value, code) list.
pub open spec fn enc_list(vs: Seq<ValV>, cs: Seq<TypeCode>) -> Seq<u8>
    decreases vs.len(),
{
    if vs.len() == 0 || cs.len() == 0 {
        Seq::empty()
    } else {
        enc_val(vs[0], cs[0]) + enc_list(vs.skip(1), cs.skip(1))
    }
}

// ---------------------------------------------------------------- decoding

/// The 16-bit elements laid out back to back at the start of a byte sequence.
pub open spec fn rd_u16s(b: Seq<u8>, n: int) -> Seq<u16> {
    Seq::new(n as nat, |i: int| rd2(b[2 * i], b[2 * i + 1]))
}

/// The signed 16-bit elements laid out back to back.
pub open spec fn rd_i16s(b: Seq<u8>, n: int) -> Seq<i16> {
    Seq::new(n as nat, |i: int| rd2(b[2 * i], b[2 * i + 1]) as i16)
}

/// The 32-bit elements laid out back to back.
pub open spec fn rd_u32s(b: Seq<u8>, n: int) -> Seq<u32> {
    Seq::new(n as nat, |i: int| rd4(b[4 * i], b[4 * i + 1], b[4 * i + 2], b[4 * i + 3]))
}

/// The signed 32-bit elements laid out back to back.
pub open spec fn rd_i32s(b: Seq<u8>, n: int) -> Seq<i32> {
    Seq::new(n as nat, |i: int| rd4(b[4 * i], b[4 * i + 1], b[4 * i + 2], b[4 * i + 3]) as i32)
}

/// The 64-bit elements laid out back to back.
pub open spec fn rd_u64s(b: Seq<u8>, n: int) -> Seq<u64> {
    Seq::new(
        n as nat,
        |i: int|
            rd8(
                b[8 * i],
                b[8 * i + 1],
                b[8 * i + 2],
                b[8 * i + 3],
                b[8 * i + 4],
                b[8 * i + 5],
                b[8 * i + 6],
                b[8 * i + 7],
            ),
    )
}

/// The rows of an `r` by `c` matrix laid out row-major.
pub open spec fn rd_rows(b: Seq<u8>, r: int, c: int) -> Seq<Seq<u32>> {
    Seq::new(r as nat, |i: int| rd_u32s(b.skip(4 * c * i), c))
}

/// Decode `n` length-prefixed UTF-8 strings from the front of a byte
/// sequence; `None` when the bytes run out, a prefix is negative, or a
/// payload is not UTF-8. On success also gives how many bytes were consumed.
pub open spec fn dec_pstrs(b: Seq<u8>, n: nat) -> Option<(Seq<Seq<char>>, int)>
    decreases n,
{
    if n == 0 {
        Some((Seq::empty(), 0))
    } else if b.len() < 4 {
        None
    } else {
        let m = rd4(b[0], b[1], b[2], b[3]) as int;
        if m > MAX_SIZE || b.len() < 4 + m {
            None
        } else {
            let payload = b.subrange(4, 4 + m);
            if !valid_utf8(payload) {
                None
            } else {
                match dec_pstrs(b.skip(4 + m), (n - 1) as nat) {
                    None => None,
                    Some((rest, used)) => Some(
                        (seq![decode_utf8(payload)] + rest, 4 + m + used),
                    ),
                }
            }
        }
    }
}

/// Decode one field from the front of a byte sequence. `prev` is the integer
/// value of the field decoded immediately before, if that field was an
/// integer: size-by-context codes take their size from it. On success gives
/// the value and how many bytes it consumed.
pub open spec fn dec_one(b: Seq<u8>, c: TypeCode, prev: Option<int>) -> Option<(ValV, int)> {
    match c {
        TypeCode::U16 => if b.len() >= 2 {
            Some((ValV::U16(rd2(b[0], b[1])), 2))
        } else {
            None
        },
        TypeCode::I16 => if b.len() >= 2 {
            Some((ValV::I16(rd2(b[0], b[1]) as i16), 2))
        } else {
            None
        },
        TypeCode::U32 => if b.len() >= 4 {
            Some((ValV::U32(rd4(b[0], b[1], b[2], b[3])), 4))
        } else {
            None
        },
        TypeCode::I32 => if b.len() >= 4 {
            Some((ValV::I32(rd4(b[0], b[1], b[2], b[3]) as i32), 4))
        } else {
            None
        },
        TypeCode::F32 => if b.len() >= 4 {
            Some((ValV::F32(rd4(b[0], b[1], b[2], b[3])), 4))
        } else {
            None
        },
        TypeCode::F64 => if b.len() >= 8 {
            Some((ValV::F64(rd8(b[0], b[1], b[2], b[3], b[4], b[5], b[6], b[7])), 8))
        } else {
            None
        },
        TypeCode::Str => if b.len() >= 4 {
            let n = rd4(b[0], b[1], b[2], b[3]) as int;
            if n > MAX_SIZE || b.len() < 4 + n {
                None
            } else if valid_utf8(b.subrange(4, 4 + n)) {
                Some((ValV::Str(decode_utf8(b.subrange(4, 4 + n))), 4 + n))
            } else {
                None
            }
        } else {
            None
        },
        TypeCode::StrPrev => match prev {
            Some(n) => if 0 <= n && b.len() >= n {
                if valid_utf8(b.subrange(0, n)) {
                    Some((ValV::Str(decode_utf8(b.subrange(0, n))), n))
                } else {
                    None
                }
            } else {
                None
            },
            None => None,
        },
        TypeCode::StrArrayPrev => match prev {
            Some(n) => if 0 <= n {
                match dec_pstrs(b, n as nat) {
                    Some((ss, used)) => Some((ValV::ArrStr(ss), used)),
                    None => None,
                }
            } else {
                None
            },
            None => None,
        },
        TypeCode::ArrU8 => match dec_prefixed(b, 1) {
            Some((n, used)) => Some((ValV::ArrU8(b.subrange(4, 4 + n)), used)),
            None => None,
        },
        TypeCode::ArrU8Prev => match dec_prev(b, prev, 1) {
            Some(n) => Some((ValV::ArrU8(b.subrange(0, n)), n)),
            None => None,
        },
        TypeCode::ArrU16 => match dec_prefixed(b, 2) {
            Some((n, used)) => Some((ValV::ArrU16(rd_u16s(b.skip(4), n)), used)),
            None => None,
        },
        TypeCode::ArrU16Prev => match dec_prev(b, prev, 2) {
            Some(n) => Some((ValV::ArrU16(rd_u16s(b, n)), 2 * n)),
            None => None,
        },
        TypeCode::ArrI16 => match dec_prefixed(b, 2) {
            Some((n, used)) => Some((ValV::ArrI16(rd_i16s(b.skip(4), n)), used)),
            None => None,
        },
        TypeCode::ArrI16Prev => match dec_prev(b, prev, 2) {
            Some(n) => Some((ValV::ArrI16(rd_i16s(b, n)), 2 * n)),
            None => None,
        },
        TypeCode::ArrU32 => match dec_prefixed(b, 4) {
            Some((n, used)) => Some((ValV::ArrU32(rd_u32s(b.skip(4), n)), used)),
            None => None,
        },
        TypeCode::ArrU32Prev => match dec_prev(b, prev, 4) {
            Some(n) => Some((ValV::ArrU32(rd_u32s(b, n)), 4 * n)),
            None => None,
        },
        TypeCode::ArrI32 => match dec_prefixed(b, 4) {
            Some((n, used)) => Some((ValV::ArrI32(rd_i32s(b.skip(4), n)), used)),
            None => None,
        },
        TypeCode::ArrI32Prev => match dec_prev(b, prev, 4) {
            Some(n) => Some((ValV::ArrI32(rd_i32s(b, n)), 4 * n)),
            None => None,
        },
        TypeCode::ArrF32 => match dec_prefixed(b, 4) {
            Some((n, used)) => Some((ValV::ArrF32(rd_u32s(b.skip(4), n)), used)),
            None => None,
        },
        TypeCode::ArrF32Prev => match dec_prev(b, prev, 4) {
            Some(n) => Some((ValV::ArrF32(rd_u32s(b, n)), 4 * n)),
            None => None,
        },
        TypeCode::ArrF64 => match dec_prefixed(b, 8) {
            Some((n, used)) => Some((ValV::ArrF64(rd_u64s(b.skip(4), n)), used)),
            None => None,
        },
        TypeCode::ArrF64Prev => match dec_prev(b, prev, 8) {
            Some(n) => Some((ValV::ArrF64(rd_u64s(b, n)), 8 * n)),
            None => None,
        },
        TypeCode::Arr2DF32 => if b.len() >= 8 {
            let r = rd4(b[0], b[1], b[2], b[3]) as int;
            let c = rd4(b[4], b[5], b[6], b[7]) as int;
            if r > MAX_SIZE || c > MAX_SIZE || b.len() < 8 + 4 * r * c {
                None
            } else {
                Some((ValV::Arr2DF32(rd_rows(b.skip(8), r, c)), 8 + 4 * r * c))
            }
        } else {
            None
        },
    }
}

/// The element count and total consumed length of an array field with its own
/// 4-byte count prefix, when the body suffices: `(count, 4 + width * count)`.
pub open spec fn dec_prefixed(b: Seq<u8>, width: int) -> Option<(int, int)> {
    if b.len() >= 4 {
        let n = rd4(b[0], b[1], b[2], b[3]) as int;
        if n > MAX_SIZE || b.len() < 4 + width * n {
            None
        } else {
            Some((n, 4 + width * n))
        }
    } else {
        None
    }
}

/// The element count of a size-by-context array field, when the preceding
/// integer declares a usable size and the body suffices.
pub open spec fn dec_prev(b: Seq<u8>, prev: Option<int>, width: int) -> Option<int> {
    match prev {
        Some(n) => if 0 <= n && b.len() >= width * n {
            Some(n)
        } else {
            None
        },
        None => None,
    }
}

/// Decode a whole body against a code list. `None` on any malformed field,
/// and on bytes remaining after the last code ("trailing bytes").
pub open spec fn dec_list(b: Seq<u8>, cs: Seq<TypeCode>, prev: Option<int>) -> Option<Seq<ValV>>
    decreases cs.len(),
{
    if cs.len() == 0 {
        if b.len() == 0 {
            Some(Seq::empty())
        } else {
            None
        }
    } else {
        match dec_one(b, cs[0], prev) {
            None => None,
            Some((v, used)) => match dec_list(b.skip(used), cs.skip(1), int_of(v)) {
                None => None,
                Some(rest) => Some(seq![v] + rest),
            },
        }
    }
}

} // verus!
