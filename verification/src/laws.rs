//! The codec laws, proved once and for all over the wire model.
//!
//! The central statements: encoding an ordered (value, code) list and
//! decoding the bytes under the same codes gives the original list back
//! (`lemma_round_trip`); a body with extra bytes after the last field never
//! decodes (`lemma_trailing_bytes`); and a body cut short never decodes
//! (`lemma_truncated`).

use vstd::prelude::*;
use vstd::utf8::{decode_utf8, encode_utf8, valid_utf8};
use vstd::utf8::{encode_utf8_decode_utf8, encode_utf8_valid_utf8};

use crate::codec::{
    cat_i16, cat_i32, cat_pstr, cat_rows, cat_u16, cat_u32, cat_u64, cols_of, dec_list, dec_one,
    dec_pstrs, enc_list, enc_val, int_of, list_encodable, rd_i16s, rd_i32s, rd_rows, rd_u16s,
    rd_u32s, rd_u64s, val_encodable, MAX_SIZE,
};
use crate::codes::TypeCode;
use crate::value::ValV;
use crate::wire::{lemma_rd_be2, lemma_rd_be4, lemma_rd_be8, rd2, rd4, rd8};

verus! {

/// Whether a code takes its size from the field before it.
pub open spec fn needs_prev(c: TypeCode) -> bool {
    match c {
        TypeCode::StrPrev => true,
        TypeCode::StrArrayPrev => true,
        TypeCode::ArrU8Prev => true,
        TypeCode::ArrU16Prev => true,
        TypeCode::ArrI16Prev => true,
        TypeCode::ArrU32Prev => true,
        TypeCode::ArrI32Prev => true,
        TypeCode::ArrF32Prev => true,
        TypeCode::ArrF64Prev => true,
        _ => false,
    }
}

/// The size the preceding integer field must declare for a size-by-context
/// value: the byte length of a string, or the element count of an array.
pub open spec fn prev_need(v: ValV, c: TypeCode) -> Option<int> {
    match (c, v) {
        (TypeCode::StrPrev, ValV::Str(s)) => Some(encode_utf8(s).len() as int),
        (TypeCode::StrArrayPrev, ValV::ArrStr(a)) => Some(a.len() as int),
        (TypeCode::ArrU8Prev, ValV::ArrU8(a)) => Some(a.len() as int),
        (TypeCode::ArrU16Prev, ValV::ArrU16(a)) => Some(a.len() as int),
        (TypeCode::ArrI16Prev, ValV::ArrI16(a)) => Some(a.len() as int),
        (TypeCode::ArrU32Prev, ValV::ArrU32(a)) => Some(a.len() as int),
        (TypeCode::ArrI32Prev, ValV::ArrI32(a)) => Some(a.len() as int),
        (TypeCode::ArrF32Prev, ValV::ArrF32(a)) => Some(a.len() as int),
        (TypeCode::ArrF64Prev, ValV::ArrF64(a)) => Some(a.len() as int),
        _ => None,
    }
}

/// Whether a (value, code) list declares its size-by-context fields
/// correctly: every such field follows an integer field whose value is
/// exactly the size the field occupies.
pub open spec fn consistent(vs: Seq<ValV>, cs: Seq<TypeCode>) -> bool {
    forall|i: int|
        0 <= i < cs.len() && needs_prev(#[trigger] cs[i]) ==> i > 0 && int_of(vs[i - 1])
            == prev_need(vs[i], cs[i])
}

/// Like [`consistent`], but with the head field's declaration left to the
/// caller: the condition the decoder's running context maintains.
pub open spec fn tail_consistent(vs: Seq<ValV>, cs: Seq<TypeCode>) -> bool {
    forall|i: int|
        1 <= i < cs.len() && needs_prev(#[trigger] cs[i]) ==> int_of(vs[i - 1]) == prev_need(
            vs[i],
            cs[i],
        )
}


proof fn lemma_cat_u16_len(a: Seq<u16>)
    ensures
        cat_u16(a).len() == 2 * a.len(),
    decreases a.len(),
{
    if a.len() > 0 {
        lemma_cat_u16_len(a.skip(1));
    }
}

proof fn lemma_cat_u16_index(a: Seq<u16>, i: int)
    requires
        0 <= i < a.len(),
    ensures
        cat_u16(a)[2 * i + 0] == ((a[i]) >> 8) as u8,
        cat_u16(a)[2 * i + 1] == (a[i]) as u8,
    decreases i,
{
    lemma_cat_u16_len(a.skip(1));
    if i > 0 {
        lemma_cat_u16_index(a.skip(1), i - 1);
    }
}

proof fn lemma_rd_u16s_cat(a: Seq<u16>, rest: Seq<u8>)
    ensures
        cat_u16(a).len() == 2 * a.len(),
        rd_u16s(cat_u16(a) + rest, a.len() as int) == a,
{
    lemma_cat_u16_len(a);
    let b = cat_u16(a) + rest;
    assert forall|i: int| 0 <= i < a.len() implies rd_u16s(b, a.len() as int)[i] == a[i] by {
        lemma_cat_u16_index(a, i);
        assert(b[2 * i + 0] == cat_u16(a)[2 * i + 0]);
        assert(b[2 * i + 1] == cat_u16(a)[2 * i + 1]);
        lemma_rd_be2(a[i]);
    }
    assert(rd_u16s(b, a.len() as int) =~= a);
}

proof fn lemma_cat_i16_len(a: Seq<i16>)
    ensures
        cat_i16(a).len() == 2 * a.len(),
    decreases a.len(),
{
    if a.len() > 0 {
        lemma_cat_i16_len(a.skip(1));
    }
}

proof fn lemma_cat_i16_index(a: Seq<i16>, i: int)
    requires
        0 <= i < a.len(),
    ensures
        cat_i16(a)[2 * i + 0] == ((a[i] as u16) >> 8) as u8,
        cat_i16(a)[2 * i + 1] == (a[i] as u16) as u8,
    decreases i,
{
    lemma_cat_i16_len(a.skip(1));
    if i > 0 {
        lemma_cat_i16_index(a.skip(1), i - 1);
    }
}

proof fn lemma_rd_i16s_cat(a: Seq<i16>, rest: Seq<u8>)
    ensures
        cat_i16(a).len() == 2 * a.len(),
        rd_i16s(cat_i16(a) + rest, a.len() as int) == a,
{
    lemma_cat_i16_len(a);
    let b = cat_i16(a) + rest;
    assert forall|i: int| 0 <= i < a.len() implies rd_i16s(b, a.len() as int)[i] == a[i] by {
        lemma_cat_i16_index(a, i);
        assert(b[2 * i + 0] == cat_i16(a)[2 * i + 0]);
        assert(b[2 * i + 1] == cat_i16(a)[2 * i + 1]);
        lemma_rd_be2(a[i] as u16);
        let x = a[i];
        assert(x as u16 as i16 == x) by (bit_vector);
    }
    assert(rd_i16s(b, a.len() as int) =~= a);
}

proof fn lemma_cat_u32_len(a: Seq<u32>)
    ensures
        cat_u32(a).len() == 4 * a.len(),
    decreases a.len(),
{
    if a.len() > 0 {
        lemma_cat_u32_len(a.skip(1));
    }
}

proof fn lemma_cat_u32_index(a: Seq<u32>, i: int)
    requires
        0 <= i < a.len(),
    ensures
        cat_u32(a)[4 * i + 0] == ((a[i]) >> 24) as u8,
        cat_u32(a)[4 * i + 1] == ((a[i]) >> 16) as u8,
        cat_u32(a)[4 * i + 2] == ((a[i]) >> 8) as u8,
        cat_u32(a)[4 * i + 3] == (a[i]) as u8,
    decreases i,
{
    lemma_cat_u32_len(a.skip(1));
    if i > 0 {
        lemma_cat_u32_index(a.skip(1), i - 1);
    }
}

proof fn lemma_rd_u32s_cat(a: Seq<u32>, rest: Seq<u8>)
    ensures
        cat_u32(a).len() == 4 * a.len(),
        rd_u32s(cat_u32(a) + rest, a.len() as int) == a,
{
    lemma_cat_u32_len(a);
    let b = cat_u32(a) + rest;
    assert forall|i: int| 0 <= i < a.len() implies rd_u32s(b, a.len() as int)[i] == a[i] by {
        lemma_cat_u32_index(a, i);
        assert(b[4 * i + 0] == cat_u32(a)[4 * i + 0]);
        assert(b[4 * i + 1] == cat_u32(a)[4 * i + 1]);
        assert(b[4 * i + 2] == cat_u32(a)[4 * i + 2]);
        assert(b[4 * i + 3] == cat_u32(a)[4 * i + 3]);
        lemma_rd_be4(a[i]);
    }
    assert(rd_u32s(b, a.len() as int) =~= a);
}

proof fn lemma_cat_i32_len(a: Seq<i32>)
    ensures
        cat_i32(a).len() == 4 * a.len(),
    decreases a.len(),
{
    if a.len() > 0 {
        lemma_cat_i32_len(a.skip(1));
    }
}

proof fn lemma_cat_i32_index(a: Seq<i32>, i: int)
    requires
        0 <= i < a.len(),
    ensures
        cat_i32(a)[4 * i + 0] == ((a[i] as u32) >> 24) as u8,
        cat_i32(a)[4 * i + 1] == ((a[i] as u32) >> 16) as u8,
        cat_i32(a)[4 * i + 2] == ((a[i] as u32) >> 8) as u8,
        cat_i32(a)[4 * i + 3] == (a[i] as u32) as u8,
    decreases i,
{
    lemma_cat_i32_len(a.skip(1));
    if i > 0 {
        lemma_cat_i32_index(a.skip(1), i - 1);
    }
}

proof fn lemma_rd_i32s_cat(a: Seq<i32>, rest: Seq<u8>)
    ensures
        cat_i32(a).len() == 4 * a.len(),
        rd_i32s(cat_i32(a) + rest, a.len() as int) == a,
{
    lemma_cat_i32_len(a);
    let b = cat_i32(a) + rest;
    assert forall|i: int| 0 <= i < a.len() implies rd_i32s(b, a.len() as int)[i] == a[i] by {
        lemma_cat_i32_index(a, i);
        assert(b[4 * i + 0] == cat_i32(a)[4 * i + 0]);
        assert(b[4 * i + 1] == cat_i32(a)[4 * i + 1]);
        assert(b[4 * i + 2] == cat_i32(a)[4 * i + 2]);
        assert(b[4 * i + 3] == cat_i32(a)[4 * i + 3]);
        lemma_rd_be4(a[i] as u32);
        let x = a[i];
        assert(x as u32 as i32 == x) by (bit_vector);
    }
    assert(rd_i32s(b, a.len() as int) =~= a);
}

proof fn lemma_cat_u64_len(a: Seq<u64>)
    ensures
        cat_u64(a).len() == 8 * a.len(),
    decreases a.len(),
{
    if a.len() > 0 {
        lemma_cat_u64_len(a.skip(1));
    }
}

proof fn lemma_cat_u64_index(a: Seq<u64>, i: int)
    requires
        0 <= i < a.len(),
    ensures
        cat_u64(a)[8 * i + 0] == ((a[i]) >> 56) as u8,
        cat_u64(a)[8 * i + 1] == ((a[i]) >> 48) as u8,
        cat_u64(a)[8 * i + 2] == ((a[i]) >> 40) as u8,
        cat_u64(a)[8 * i + 3] == ((a[i]) >> 32) as u8,
        cat_u64(a)[8 * i + 4] == ((a[i]) >> 24) as u8,
        cat_u64(a)[8 * i + 5] == ((a[i]) >> 16) as u8,
        cat_u64(a)[8 * i + 6] == ((a[i]) >> 8) as u8,
        cat_u64(a)[8 * i + 7] == (a[i]) as u8,
    decreases i,
{
    lemma_cat_u64_len(a.skip(1));
    if i > 0 {
        lemma_cat_u64_index(a.skip(1), i - 1);
    }
}

proof fn lemma_rd_u64s_cat(a: Seq<u64>, rest: Seq<u8>)
    ensures
        cat_u64(a).len() == 8 * a.len(),
        rd_u64s(cat_u64(a) + rest, a.len() as int) == a,
{
    lemma_cat_u64_len(a);
    let b = cat_u64(a) + rest;
    assert forall|i: int| 0 <= i < a.len() implies rd_u64s(b, a.len() as int)[i] == a[i] by {
        lemma_cat_u64_index(a, i);
        assert(b[8 * i + 0] == cat_u64(a)[8 * i + 0]);
        assert(b[8 * i + 1] == cat_u64(a)[8 * i + 1]);
        assert(b[8 * i + 2] == cat_u64(a)[8 * i + 2]);
        assert(b[8 * i + 3] == cat_u64(a)[8 * i + 3]);
        assert(b[8 * i + 4] == cat_u64(a)[8 * i + 4]);
        assert(b[8 * i + 5] == cat_u64(a)[8 * i + 5]);
        assert(b[8 * i + 6] == cat_u64(a)[8 * i + 6]);
        assert(b[8 * i + 7] == cat_u64(a)[8 * i + 7]);
        lemma_rd_be8(a[i]);
    }
    assert(rd_u64s(b, a.len() as int) =~= a);
}

proof fn lemma_dec_pstrs_cat(a: Seq<Seq<char>>, rest: Seq<u8>)
    requires
        forall|j: int| 0 <= j < a.len() ==> #[trigger] encode_utf8(a[j]).len() <= MAX_SIZE,
    ensures
        dec_pstrs(cat_pstr(a) + rest, a.len() as nat) == Some::<(Seq<Seq<char>>, int)>(
            (a, cat_pstr(a).len() as int),
        ),
    decreases a.len(),
{
    let b = cat_pstr(a) + rest;
    if a.len() == 0 {
        assert(cat_pstr(a).len() == 0);
        assert(a =~= Seq::<Seq<char>>::empty());
    } else {
        let s = a[0];
        let bytes = encode_utf8(s);
        let m = bytes.len() as int;
        assert(encode_utf8(a[0]).len() <= MAX_SIZE);
        assert(b =~= (crate::wire::be4(m as u32) + bytes) + (cat_pstr(a.skip(1)) + rest));
        assert(b[0] == (m as u32 >> 24) as u8 && b[1] == (m as u32 >> 16) as u8 && b[2] == (
        m as u32 >> 8) as u8 && b[3] == (m as u32) as u8);
        lemma_rd_be4(m as u32);
        assert(rd4(b[0], b[1], b[2], b[3]) == m as u32);
        assert(b.subrange(4, 4 + m) =~= bytes);
        encode_utf8_valid_utf8(s);
        encode_utf8_decode_utf8(s);
        assert(b.skip(4 + m) =~= cat_pstr(a.skip(1)) + rest);
        lemma_dec_pstrs_cat(a.skip(1), rest);
        let sub = dec_pstrs(b.skip(4 + m), (a.len() - 1) as nat);
        assert(sub == Some::<(Seq<Seq<char>>, int)>((a.skip(1), cat_pstr(a.skip(1)).len() as int)));
        assert(seq![decode_utf8(bytes)] + a.skip(1) =~= a);
        assert(cat_pstr(a).len() == 4 + m + cat_pstr(a.skip(1)).len());
    }
}

proof fn lemma_cat_rows_len(m: Seq<Seq<u32>>, c: int)
    requires
        forall|i: int| 0 <= i < m.len() ==> (#[trigger] m[i]).len() == c,
    ensures
        cat_rows(m).len() == 4 * c * m.len(),
    decreases m.len(),
{
    if m.len() > 0 {
        lemma_cat_u32_len(m[0]);
        lemma_cat_rows_len(m.skip(1), c);
        assert(4 * c * m.len() == 4 * c + 4 * c * (m.len() - 1)) by (nonlinear_arith);
    }
}

proof fn lemma_cat_rows_skip(m: Seq<Seq<u32>>, c: int, k: int)
    requires
        forall|i: int| 0 <= i < m.len() ==> (#[trigger] m[i]).len() == c,
        0 <= c,
        0 <= k <= m.len(),
    ensures
        cat_rows(m).skip(4 * c * k) == cat_rows(m.skip(k)),
    decreases k,
{
    lemma_cat_rows_len(m, c);
    if k == 0 {
        assert(4 * c * 0 == 0) by (nonlinear_arith);
        assert(cat_rows(m).skip(0) =~= cat_rows(m));
        assert(m.skip(0) =~= m);
    } else {
        lemma_cat_rows_skip(m.skip(1), c, k - 1);
        lemma_cat_u32_len(m[0]);
        lemma_cat_rows_len(m.skip(1), c);
        assert(4 * c * k == 4 * c + 4 * c * (k - 1)) by (nonlinear_arith);
        assert(0 <= 4 * c * (k - 1) && 4 * c * (k - 1) <= 4 * c * (m.len() - 1))
            by (nonlinear_arith)
            requires
                0 <= c,
                1 <= k <= m.len(),
        ;
        assert(cat_rows(m) =~= cat_u32(m[0]) + cat_rows(m.skip(1)));
        assert((cat_u32(m[0]) + cat_rows(m.skip(1))).skip(4 * c + 4 * c * (k - 1))
            =~= cat_rows(m.skip(1)).skip(4 * c * (k - 1)));
        assert(m.skip(1).skip(k - 1) =~= m.skip(k));
        assert(cat_rows(m).skip(4 * c * k) =~= cat_rows(m.skip(1)).skip(4 * c * (k - 1)));
    }
}

proof fn lemma_rd_rows_cat(m: Seq<Seq<u32>>, c: int, rest: Seq<u8>)
    requires
        forall|i: int| 0 <= i < m.len() ==> (#[trigger] m[i]).len() == c,
        0 <= c,
    ensures
        cat_rows(m).len() == 4 * c * m.len(),
        rd_rows(cat_rows(m) + rest, m.len() as int, c) == m,
{
    lemma_cat_rows_len(m, c);
    let b = cat_rows(m) + rest;
    assert forall|k: int| 0 <= k < m.len() implies rd_rows(b, m.len() as int, c)[k] == m[k] by {
        assert(0 <= 4 * c * k && 4 * c * k <= 4 * c * m.len()) by (nonlinear_arith)
            requires
                0 <= k,
                k < m.len(),
                0 <= c,
        ;
        lemma_cat_rows_skip(m, c, k);
        assert(b.skip(4 * c * k) =~= cat_rows(m.skip(k)) + rest);
        assert(m.skip(k)[0] == m[k]);
        assert(cat_rows(m.skip(k)) =~= cat_u32(m[k]) + cat_rows(m.skip(k).skip(1)));
        assert(b.skip(4 * c * k) =~= cat_u32(m[k]) + (cat_rows(m.skip(k).skip(1)) + rest));
        lemma_rd_u32s_cat(m[k], cat_rows(m.skip(k).skip(1)) + rest);
        assert(rd_u32s(b.skip(4 * c * k), c) == m[k]);
    }
    assert(rd_rows(b, m.len() as int, c) =~= m);
}


/// Decoding the byte image of one value under its own code — whatever bytes
/// follow it — gives the value back and consumes exactly its image.
#[verifier::rlimit(100)]
#[verifier::spinoff_prover]
pub proof fn lemma_dec_one_enc(v: ValV, c: TypeCode, rest: Seq<u8>, prev: Option<int>)
    requires
        val_encodable(v, c),
        needs_prev(c) ==> prev == prev_need(v, c),
    ensures
        dec_one(enc_val(v, c) + rest, c, prev) == Some::<(ValV, int)>(
            (v, enc_val(v, c).len() as int),
        ),
{
    let b = enc_val(v, c) + rest;
    match c {
        TypeCode::U16 => {
            let x = v->U16_0;
            assert(b[0] == (x >> 8) as u8 && b[1] == x as u8);
            lemma_rd_be2(x);
        },
        TypeCode::I16 => {
            let x = v->I16_0;
            assert(b[0] == ((x as u16) >> 8) as u8 && b[1] == (x as u16) as u8);
            lemma_rd_be2(x as u16);
            assert(x as u16 as i16 == x) by (bit_vector);
        },
        TypeCode::U32 => {
            let x = v->U32_0;
            assert(b[0] == (x >> 24) as u8 && b[1] == (x >> 16) as u8 && b[2] == (x >> 8) as u8
                && b[3] == x as u8);
            lemma_rd_be4(x);
        },
        TypeCode::I32 => {
            let x = v->I32_0;
            assert(b[0] == ((x as u32) >> 24) as u8 && b[1] == ((x as u32) >> 16) as u8 && b[2] == (
            (x as u32) >> 8) as u8 && b[3] == (x as u32) as u8);
            lemma_rd_be4(x as u32);
            assert(x as u32 as i32 == x) by (bit_vector);
        },
        TypeCode::F32 => {
            let x = v->F32_0;
            assert(b[0] == (x >> 24) as u8 && b[1] == (x >> 16) as u8 && b[2] == (x >> 8) as u8
                && b[3] == x as u8);
            lemma_rd_be4(x);
        },
        TypeCode::F64 => {
            let x = v->F64_0;
            assert(b[0] == (x >> 56) as u8 && b[1] == (x >> 48) as u8 && b[2] == (x >> 40) as u8
                && b[3] == (x >> 32) as u8 && b[4] == (x >> 24) as u8 && b[5] == (x >> 16) as u8
                && b[6] == (x >> 8) as u8 && b[7] == x as u8);
            lemma_rd_be8(x);
        },
        TypeCode::Str => {
            let s = v->Str_0;
            let bytes = encode_utf8(s);
            let m = bytes.len() as int;
            assert(b =~= crate::wire::be4(m as u32) + bytes + rest);
            assert(b[0] == (m as u32 >> 24) as u8 && b[1] == (m as u32 >> 16) as u8 && b[2] == (
            m as u32 >> 8) as u8 && b[3] == (m as u32) as u8);
            lemma_rd_be4(m as u32);
            assert(b.subrange(4, 4 + m) =~= bytes);
            encode_utf8_valid_utf8(s);
            encode_utf8_decode_utf8(s);
        },
        TypeCode::StrPrev => {
            let s = v->Str_0;
            let bytes = encode_utf8(s);
            let m = bytes.len() as int;
            assert(b.subrange(0, m) =~= bytes);
            encode_utf8_valid_utf8(s);
            encode_utf8_decode_utf8(s);
        },
        TypeCode::StrArrayPrev => {
            let a = v->ArrStr_0;
            lemma_dec_pstrs_cat(a, rest);
        },
        TypeCode::ArrU8 => {
            let a = v->ArrU8_0;
            let e = enc_val(v, c);
            assert(e =~= crate::wire::be4(a.len() as u32) + a);
            let b = e + rest;
            assert(b[0] == (a.len() as u32 >> 24) as u8 && b[1] == (a.len() as u32 >> 16) as u8
                && b[2] == (a.len() as u32 >> 8) as u8 && b[3] == (a.len() as u32) as u8);
            lemma_rd_be4(a.len() as u32);
            assert(b.subrange(4, 4 + a.len() as int) =~= a);
        },
        TypeCode::ArrU8Prev => {
            let a = v->ArrU8_0;
            let b = enc_val(v, c) + rest;
            assert(enc_val(v, c) =~= a);
            assert(b.subrange(0, a.len() as int) =~= a);
        },
        TypeCode::ArrU16 => {
            let a = v->ArrU16_0;
            let e = enc_val(v, c);
            let b = e + rest;
            lemma_rd_u16s_cat(a, rest);
            assert(e =~= crate::wire::be4(a.len() as u32) + cat_u16(a));
            assert(b[0] == (a.len() as u32 >> 24) as u8 && b[1] == (a.len() as u32 >> 16) as u8
                && b[2] == (a.len() as u32 >> 8) as u8 && b[3] == (a.len() as u32) as u8);
            lemma_rd_be4(a.len() as u32);
            assert(b.skip(4) =~= cat_u16(a) + rest);
            assert(rd_u16s(b.skip(4), a.len() as int) == a);
        },
        TypeCode::ArrU16Prev => {
            let a = v->ArrU16_0;
            let b = enc_val(v, c) + rest;
            lemma_rd_u16s_cat(a, rest);
            assert(b =~= cat_u16(a) + rest);
            assert(rd_u16s(b, a.len() as int) == a);
        },
        TypeCode::ArrI16 => {
            let a = v->ArrI16_0;
            let e = enc_val(v, c);
            let b = e + rest;
            lemma_rd_i16s_cat(a, rest);
            assert(e =~= crate::wire::be4(a.len() as u32) + cat_i16(a));
            assert(b[0] == (a.len() as u32 >> 24) as u8 && b[1] == (a.len() as u32 >> 16) as u8
                && b[2] == (a.len() as u32 >> 8) as u8 && b[3] == (a.len() as u32) as u8);
            lemma_rd_be4(a.len() as u32);
            assert(b.skip(4) =~= cat_i16(a) + rest);
            assert(rd_i16s(b.skip(4), a.len() as int) == a);
        },
        TypeCode::ArrI16Prev => {
            let a = v->ArrI16_0;
            let b = enc_val(v, c) + rest;
            lemma_rd_i16s_cat(a, rest);
            assert(b =~= cat_i16(a) + rest);
            assert(rd_i16s(b, a.len() as int) == a);
        },
        TypeCode::ArrU32 => {
            let a = v->ArrU32_0;
            let e = enc_val(v, c);
            let b = e + rest;
            lemma_rd_u32s_cat(a, rest);
            assert(e =~= crate::wire::be4(a.len() as u32) + cat_u32(a));
            assert(b[0] == (a.len() as u32 >> 24) as u8 && b[1] == (a.len() as u32 >> 16) as u8
                && b[2] == (a.len() as u32 >> 8) as u8 && b[3] == (a.len() as u32) as u8);
            lemma_rd_be4(a.len() as u32);
            assert(b.skip(4) =~= cat_u32(a) + rest);
            assert(rd_u32s(b.skip(4), a.len() as int) == a);
        },
        TypeCode::ArrU32Prev => {
            let a = v->ArrU32_0;
            let b = enc_val(v, c) + rest;
            lemma_rd_u32s_cat(a, rest);
            assert(b =~= cat_u32(a) + rest);
            assert(rd_u32s(b, a.len() as int) == a);
        },
        TypeCode::ArrI32 => {
            let a = v->ArrI32_0;
            let e = enc_val(v, c);
            let b = e + rest;
            lemma_rd_i32s_cat(a, rest);
            assert(e =~= crate::wire::be4(a.len() as u32) + cat_i32(a));
            assert(b[0] == (a.len() as u32 >> 24) as u8 && b[1] == (a.len() as u32 >> 16) as u8
                && b[2] == (a.len() as u32 >> 8) as u8 && b[3] == (a.len() as u32) as u8);
            lemma_rd_be4(a.len() as u32);
            assert(b.skip(4) =~= cat_i32(a) + rest);
            assert(rd_i32s(b.skip(4), a.len() as int) == a);
        },
        TypeCode::ArrI32Prev => {
            let a = v->ArrI32_0;
            let b = enc_val(v, c) + rest;
            lemma_rd_i32s_cat(a, rest);
            assert(b =~= cat_i32(a) + rest);
            assert(rd_i32s(b, a.len() as int) == a);
        },
        TypeCode::ArrF32 => {
            let a = v->ArrF32_0;
            let e = enc_val(v, c);
            let b = e + rest;
            lemma_rd_u32s_cat(a, rest);
            assert(e =~= crate::wire::be4(a.len() as u32) + cat_u32(a));
            assert(b[0] == (a.len() as u32 >> 24) as u8 && b[1] == (a.len() as u32 >> 16) as u8
                && b[2] == (a.len() as u32 >> 8) as u8 && b[3] == (a.len() as u32) as u8);
            lemma_rd_be4(a.len() as u32);
            assert(b.skip(4) =~= cat_u32(a) + rest);
            assert(rd_u32s(b.skip(4), a.len() as int) == a);
        },
        TypeCode::ArrF32Prev => {
            let a = v->ArrF32_0;
            let b = enc_val(v, c) + rest;
            lemma_rd_u32s_cat(a, rest);
            assert(b =~= cat_u32(a) + rest);
            assert(rd_u32s(b, a.len() as int) == a);
        },
        TypeCode::ArrF64 => {
            let a = v->ArrF64_0;
            let e = enc_val(v, c);
            let b = e + rest;
            lemma_rd_u64s_cat(a, rest);
            assert(e =~= crate::wire::be4(a.len() as u32) + cat_u64(a));
            assert(b[0] == (a.len() as u32 >> 24) as u8 && b[1] == (a.len() as u32 >> 16) as u8
                && b[2] == (a.len() as u32 >> 8) as u8 && b[3] == (a.len() as u32) as u8);
            lemma_rd_be4(a.len() as u32);
            assert(b.skip(4) =~= cat_u64(a) + rest);
            assert(rd_u64s(b.skip(4), a.len() as int) == a);
        },
        TypeCode::ArrF64Prev => {
            let a = v->ArrF64_0;
            let b = enc_val(v, c) + rest;
            lemma_rd_u64s_cat(a, rest);
            assert(b =~= cat_u64(a) + rest);
            assert(rd_u64s(b, a.len() as int) == a);
        },

        TypeCode::Arr2DF32 => {
            let m = v->Arr2DF32_0;
            let r = m.len() as int;
            let cc = cols_of(m);
            let e = enc_val(v, c);
            lemma_rd_rows_cat(m, cc, rest);
            assert(e =~= crate::wire::be4(r as u32) + crate::wire::be4(cc as u32) + cat_rows(m));
            assert(b[0] == (r as u32 >> 24) as u8 && b[1] == (r as u32 >> 16) as u8 && b[2] == (
            r as u32 >> 8) as u8 && b[3] == (r as u32) as u8);
            assert(b[4] == (cc as u32 >> 24) as u8 && b[5] == (cc as u32 >> 16) as u8 && b[6] == (
            cc as u32 >> 8) as u8 && b[7] == (cc as u32) as u8);
            lemma_rd_be4(r as u32);
            lemma_rd_be4(cc as u32);
            assert(b.len() == 8 + 4 * cc * r + rest.len());
            assert(4 * cc * r == 4 * r * cc) by (nonlinear_arith);
            assert(b.skip(8) =~= cat_rows(m) + rest);
            assert(rd_rows(b.skip(8), r, cc) == m);
        },
    }
}


/// The shifted consistency condition: the head of the remaining list, if it
/// is size-by-context, is declared by `prev`.
pub open spec fn head_prev_ok(vs: Seq<ValV>, cs: Seq<TypeCode>, prev: Option<int>) -> bool {
    cs.len() > 0 && needs_prev(cs[0]) ==> prev == prev_need(vs[0], cs[0])
}

proof fn lemma_round_trip_from(vs: Seq<ValV>, cs: Seq<TypeCode>, prev: Option<int>)
    requires
        list_encodable(vs, cs),
        tail_consistent(vs, cs),
        head_prev_ok(vs, cs, prev),
    ensures
        dec_list(enc_list(vs, cs), cs, prev) == Some(vs),
    decreases cs.len(),
{
    if cs.len() == 0 {
        assert(vs =~= Seq::<ValV>::empty());
    } else {
        let e0 = enc_val(vs[0], cs[0]);
        let tail = enc_list(vs.skip(1), cs.skip(1));
        assert(val_encodable(vs[0], cs[0]));
        lemma_dec_one_enc(vs[0], cs[0], tail, prev);
        let b = enc_list(vs, cs);
        assert(b == e0 + tail);
        assert(b.skip(e0.len() as int) =~= tail);
        assert(list_encodable(vs.skip(1), cs.skip(1))) by {
            assert(forall|i: int|
                0 <= i < cs.skip(1).len() ==> val_encodable(
                    #[trigger] vs.skip(1)[i],
                    cs.skip(1)[i],
                ));
        }
        assert(tail_consistent(vs.skip(1), cs.skip(1))) by {
            assert forall|i: int|
                1 <= i < cs.skip(1).len() && needs_prev(#[trigger] cs.skip(1)[i]) implies int_of(
                vs.skip(1)[i - 1],
            ) == prev_need(vs.skip(1)[i], cs.skip(1)[i]) by {
                assert(cs.skip(1)[i] == cs[i + 1]);
                assert(vs.skip(1)[i] == vs[i + 1]);
                assert(vs.skip(1)[i - 1] == vs[i]);
            }
        }
        assert(head_prev_ok(vs.skip(1), cs.skip(1), int_of(vs[0]))) by {
            if cs.skip(1).len() > 0 && needs_prev(cs.skip(1)[0]) {
                assert(cs.skip(1)[0] == cs[1]);
                assert(vs.skip(1)[0] == vs[1]);
                assert(needs_prev(cs[1]));
                assert(int_of(vs[0]) == prev_need(vs[1], cs[1]));
            }
        }
        lemma_round_trip_from(vs.skip(1), cs.skip(1), int_of(vs[0]));
        assert(seq![vs[0]] + vs.skip(1) =~= vs);
    }
}

/// Round trip: decoding the encoding of a (value, code) list under the same
/// codes gives the list back, whenever the list encodes at all and its
/// size-by-context fields are declared by the integer field before them.
pub proof fn lemma_round_trip(vs: Seq<ValV>, cs: Seq<TypeCode>)
    requires
        list_encodable(vs, cs),
        consistent(vs, cs),
    ensures
        dec_list(enc_list(vs, cs), cs, None) == Some(vs),
{
    lemma_round_trip_from(vs, cs, None);
}

proof fn lemma_trailing_from(vs: Seq<ValV>, cs: Seq<TypeCode>, prev: Option<int>, extra: Seq<u8>)
    requires
        list_encodable(vs, cs),
        tail_consistent(vs, cs),
        head_prev_ok(vs, cs, prev),
        extra.len() > 0,
    ensures
        dec_list(enc_list(vs, cs) + extra, cs, prev) is None,
    decreases cs.len(),
{
    if cs.len() == 0 {
        assert((enc_list(vs, cs) + extra).len() > 0);
    } else {
        let e0 = enc_val(vs[0], cs[0]);
        let tail = enc_list(vs.skip(1), cs.skip(1));
        lemma_dec_one_enc(vs[0], cs[0], tail + extra, prev);
        let b = enc_list(vs, cs) + extra;
        assert(b =~= e0 + (tail + extra));
        assert(b.skip(e0.len() as int) =~= tail + extra);
        assert(list_encodable(vs.skip(1), cs.skip(1))) by {
            assert(forall|i: int|
                0 <= i < cs.skip(1).len() ==> val_encodable(
                    #[trigger] vs.skip(1)[i],
                    cs.skip(1)[i],
                ));
        }
        assert(tail_consistent(vs.skip(1), cs.skip(1))) by {
            assert forall|i: int|
                1 <= i < cs.skip(1).len() && needs_prev(#[trigger] cs.skip(1)[i]) implies int_of(
                vs.skip(1)[i - 1],
            ) == prev_need(vs.skip(1)[i], cs.skip(1)[i]) by {
                assert(cs.skip(1)[i] == cs[i + 1]);
                assert(vs.skip(1)[i] == vs[i + 1]);
                assert(vs.skip(1)[i - 1] == vs[i]);
            }
        }
        assert(head_prev_ok(vs.skip(1), cs.skip(1), int_of(vs[0]))) by {
            if cs.skip(1).len() > 0 && needs_prev(cs.skip(1)[0]) {
                assert(cs.skip(1)[0] == cs[1]);
                assert(vs.skip(1)[0] == vs[1]);
                assert(needs_prev(cs[1]));
                assert(int_of(vs[0]) == prev_need(vs[1], cs[1]));
            }
        }
        lemma_trailing_from(vs.skip(1), cs.skip(1), int_of(vs[0]), extra);
    }
}

/// Trailing-byte detection: a body with any bytes left over after the last
/// code never decodes.
pub proof fn lemma_trailing_bytes(vs: Seq<ValV>, cs: Seq<TypeCode>, extra: Seq<u8>)
    requires
        list_encodable(vs, cs),
        consistent(vs, cs),
        extra.len() > 0,
    ensures
        dec_list(enc_list(vs, cs) + extra, cs, None) is None,
{
    lemma_trailing_from(vs, cs, None, extra);
}


proof fn lemma_dec_pstrs_truncated(a: Seq<Seq<char>>, n: int)
    requires
        forall|j: int| 0 <= j < a.len() ==> #[trigger] encode_utf8(a[j]).len() <= MAX_SIZE,
        0 <= n < cat_pstr(a).len(),
    ensures
        dec_pstrs(cat_pstr(a).take(n), a.len() as nat) is None,
    decreases a.len(),
{
    let b = cat_pstr(a).take(n);
    let s = a[0];
    let bytes = encode_utf8(s);
    let m = bytes.len() as int;
    assert(encode_utf8(a[0]).len() <= MAX_SIZE);
    assert(cat_pstr(a) =~= (crate::wire::be4(m as u32) + bytes) + cat_pstr(a.skip(1)));
    if n < 4 {
        assert(b.len() < 4);
    } else if n < 4 + m {
        assert(b[0] == cat_pstr(a)[0] && b[1] == cat_pstr(a)[1] && b[2] == cat_pstr(a)[2] && b[3]
            == cat_pstr(a)[3]);
        assert(cat_pstr(a)[0] == (m as u32 >> 24) as u8 && cat_pstr(a)[1] == (m as u32
            >> 16) as u8 && cat_pstr(a)[2] == (m as u32 >> 8) as u8 && cat_pstr(a)[3] == (
        m as u32) as u8);
        lemma_rd_be4(m as u32);
        assert(b.len() < 4 + m);
    } else {
        assert(b =~= (crate::wire::be4(m as u32) + bytes) + cat_pstr(a.skip(1)).take(n - 4 - m));
        assert(b[0] == (m as u32 >> 24) as u8 && b[1] == (m as u32 >> 16) as u8 && b[2] == (m as u32
            >> 8) as u8 && b[3] == (m as u32) as u8);
        lemma_rd_be4(m as u32);
        assert(b.subrange(4, 4 + m) =~= bytes);
        encode_utf8_valid_utf8(s);
        encode_utf8_decode_utf8(s);
        assert(b.skip(4 + m) =~= cat_pstr(a.skip(1)).take(n - 4 - m));
        lemma_dec_pstrs_truncated(a.skip(1), n - 4 - m);
    }
}

/// Decoding a strict prefix of one value's byte image never succeeds.
#[verifier::rlimit(100)]
#[verifier::spinoff_prover]
proof fn lemma_dec_one_enc_truncated(v: ValV, c: TypeCode, prev: Option<int>, n: int)
    requires
        val_encodable(v, c),
        needs_prev(c) ==> prev == prev_need(v, c),
        0 <= n < enc_val(v, c).len(),
    ensures
        dec_one(enc_val(v, c).take(n), c, prev) is None,
{
    let b = enc_val(v, c).take(n);
    match c {
        TypeCode::U16 => {},
        TypeCode::I16 => {},
        TypeCode::U32 => {},
        TypeCode::I32 => {},
        TypeCode::F32 => {},
        TypeCode::F64 => {},
        TypeCode::Str => {
            let s = v->Str_0;
            let bytes = encode_utf8(s);
            let m = bytes.len() as int;
            let e = enc_val(v, c);
            assert(e =~= crate::wire::be4(m as u32) + bytes);
            if n >= 4 {
                assert(b[0] == e[0] && b[1] == e[1] && b[2] == e[2] && b[3] == e[3]);
                assert(e[0] == (m as u32 >> 24) as u8 && e[1] == (m as u32 >> 16) as u8 && e[2] == (
                m as u32 >> 8) as u8 && e[3] == (m as u32) as u8);
                lemma_rd_be4(m as u32);
                assert(b.len() < 4 + m);
            }
        },
        TypeCode::StrPrev => {
            let s = v->Str_0;
            assert(b.len() < encode_utf8(s).len());
        },
        TypeCode::StrArrayPrev => {
            let a = v->ArrStr_0;
            lemma_dec_pstrs_truncated(a, n);
        },
        TypeCode::ArrU8 => {
            let a = v->ArrU8_0;
            let e = enc_val(v, c);
            assert(e.len() == 4 + a.len());
            if n >= 4 {
                assert(b[0] == e[0] && b[1] == e[1] && b[2] == e[2] && b[3] == e[3]);
                assert(e[0] == (a.len() as u32 >> 24) as u8 && e[1] == (a.len() as u32
                    >> 16) as u8 && e[2] == (a.len() as u32 >> 8) as u8 && e[3] == (
                a.len() as u32) as u8);
                lemma_rd_be4(a.len() as u32);
            }
        },
        TypeCode::ArrU8Prev => {
            let a = v->ArrU8_0;
            let e = enc_val(v, c);
            assert(e.len() == a.len());
        },
        TypeCode::ArrU16 => {
            let a = v->ArrU16_0;
            let e = enc_val(v, c);
            lemma_cat_u16_len(a);
            assert(e =~= crate::wire::be4(a.len() as u32) + cat_u16(a));
            if n >= 4 {
                assert(b[0] == e[0] && b[1] == e[1] && b[2] == e[2] && b[3] == e[3]);
                assert(e[0] == (a.len() as u32 >> 24) as u8 && e[1] == (a.len() as u32
                    >> 16) as u8 && e[2] == (a.len() as u32 >> 8) as u8 && e[3] == (
                a.len() as u32) as u8);
                lemma_rd_be4(a.len() as u32);
            }
        },
        TypeCode::ArrU16Prev => {
            let a = v->ArrU16_0;
            let e = enc_val(v, c);
            lemma_cat_u16_len(a);
            assert(e =~= cat_u16(a));
        },
        TypeCode::ArrI16 => {
            let a = v->ArrI16_0;
            let e = enc_val(v, c);
            lemma_cat_i16_len(a);
            assert(e =~= crate::wire::be4(a.len() as u32) + cat_i16(a));
            if n >= 4 {
                assert(b[0] == e[0] && b[1] == e[1] && b[2] == e[2] && b[3] == e[3]);
                assert(e[0] == (a.len() as u32 >> 24) as u8 && e[1] == (a.len() as u32
                    >> 16) as u8 && e[2] == (a.len() as u32 >> 8) as u8 && e[3] == (
                a.len() as u32) as u8);
                lemma_rd_be4(a.len() as u32);
            }
        },
        TypeCode::ArrI16Prev => {
            let a = v->ArrI16_0;
            let e = enc_val(v, c);
            lemma_cat_i16_len(a);
            assert(e =~= cat_i16(a));
        },
        TypeCode::ArrU32 => {
            let a = v->ArrU32_0;
            let e = enc_val(v, c);
            lemma_cat_u32_len(a);
            assert(e =~= crate::wire::be4(a.len() as u32) + cat_u32(a));
            if n >= 4 {
                assert(b[0] == e[0] && b[1] == e[1] && b[2] == e[2] && b[3] == e[3]);
                assert(e[0] == (a.len() as u32 >> 24) as u8 && e[1] == (a.len() as u32
                    >> 16) as u8 && e[2] == (a.len() as u32 >> 8) as u8 && e[3] == (
                a.len() as u32) as u8);
                lemma_rd_be4(a.len() as u32);
            }
        },
        TypeCode::ArrU32Prev => {
            let a = v->ArrU32_0;
            let e = enc_val(v, c);
            lemma_cat_u32_len(a);
            assert(e =~= cat_u32(a));
        },
        TypeCode::ArrI32 => {
            let a = v->ArrI32_0;
            let e = enc_val(v, c);
            lemma_cat_i32_len(a);
            assert(e =~= crate::wire::be4(a.len() as u32) + cat_i32(a));
            if n >= 4 {
                assert(b[0] == e[0] && b[1] == e[1] && b[2] == e[2] && b[3] == e[3]);
                assert(e[0] == (a.len() as u32 >> 24) as u8 && e[1] == (a.len() as u32
                    >> 16) as u8 && e[2] == (a.len() as u32 >> 8) as u8 && e[3] == (
                a.len() as u32) as u8);
                lemma_rd_be4(a.len() as u32);
            }
        },
        TypeCode::ArrI32Prev => {
            let a = v->ArrI32_0;
            let e = enc_val(v, c);
            lemma_cat_i32_len(a);
            assert(e =~= cat_i32(a));
        },
        TypeCode::ArrF32 => {
            let a = v->ArrF32_0;
            let e = enc_val(v, c);
            lemma_cat_u32_len(a);
            assert(e =~= crate::wire::be4(a.len() as u32) + cat_u32(a));
            if n >= 4 {
                assert(b[0] == e[0] && b[1] == e[1] && b[2] == e[2] && b[3] == e[3]);
                assert(e[0] == (a.len() as u32 >> 24) as u8 && e[1] == (a.len() as u32
                    >> 16) as u8 && e[2] == (a.len() as u32 >> 8) as u8 && e[3] == (
                a.len() as u32) as u8);
                lemma_rd_be4(a.len() as u32);
            }
        },
        TypeCode::ArrF32Prev => {
            let a = v->ArrF32_0;
            let e = enc_val(v, c);
            lemma_cat_u32_len(a);
            assert(e =~= cat_u32(a));
        },
        TypeCode::ArrF64 => {
            let a = v->ArrF64_0;
            let e = enc_val(v, c);
            lemma_cat_u64_len(a);
            assert(e =~= crate::wire::be4(a.len() as u32) + cat_u64(a));
            if n >= 4 {
                assert(b[0] == e[0] && b[1] == e[1] && b[2] == e[2] && b[3] == e[3]);
                assert(e[0] == (a.len() as u32 >> 24) as u8 && e[1] == (a.len() as u32
                    >> 16) as u8 && e[2] == (a.len() as u32 >> 8) as u8 && e[3] == (
                a.len() as u32) as u8);
                lemma_rd_be4(a.len() as u32);
            }
        },
        TypeCode::ArrF64Prev => {
            let a = v->ArrF64_0;
            let e = enc_val(v, c);
            lemma_cat_u64_len(a);
            assert(e =~= cat_u64(a));
        },

        TypeCode::Arr2DF32 => {
            let m = v->Arr2DF32_0;
            let r = m.len() as int;
            let cc = cols_of(m);
            let e = enc_val(v, c);
            lemma_cat_rows_len(m, cc);
            assert(e =~= crate::wire::be4(r as u32) + crate::wire::be4(cc as u32) + cat_rows(m));
            if n >= 8 {
                assert(b[0] == e[0] && b[1] == e[1] && b[2] == e[2] && b[3] == e[3] && b[4] == e[4]
                    && b[5] == e[5] && b[6] == e[6] && b[7] == e[7]);
                assert(e[0] == (r as u32 >> 24) as u8 && e[1] == (r as u32 >> 16) as u8 && e[2] == (
                r as u32 >> 8) as u8 && e[3] == (r as u32) as u8);
                assert(e[4] == (cc as u32 >> 24) as u8 && e[5] == (cc as u32 >> 16) as u8 && e[6]
                    == (cc as u32 >> 8) as u8 && e[7] == (cc as u32) as u8);
                lemma_rd_be4(r as u32);
                lemma_rd_be4(cc as u32);
                assert(4 * cc * r == 4 * r * cc) by (nonlinear_arith);
                assert(b.len() < 8 + 4 * r * cc);
            }
        },
    }
}

proof fn lemma_truncated_from(vs: Seq<ValV>, cs: Seq<TypeCode>, prev: Option<int>, n: int)
    requires
        list_encodable(vs, cs),
        tail_consistent(vs, cs),
        head_prev_ok(vs, cs, prev),
        0 <= n < enc_list(vs, cs).len(),
    ensures
        dec_list(enc_list(vs, cs).take(n), cs, prev) is None,
    decreases cs.len(),
{
    let e0 = enc_val(vs[0], cs[0]);
    let tail = enc_list(vs.skip(1), cs.skip(1));
    let b = enc_list(vs, cs).take(n);
    assert(enc_list(vs, cs) == e0 + tail);
    if n < e0.len() {
        assert(b =~= e0.take(n));
        lemma_dec_one_enc_truncated(vs[0], cs[0], prev, n);
        assert(dec_one(b, cs[0], prev) is None);
    } else {
        assert(b =~= e0 + tail.take(n - e0.len() as int));
        lemma_dec_one_enc(vs[0], cs[0], tail.take(n - e0.len() as int), prev);
        assert(b.skip(e0.len() as int) =~= tail.take(n - e0.len() as int));
        assert(list_encodable(vs.skip(1), cs.skip(1))) by {
            assert(forall|i: int|
                0 <= i < cs.skip(1).len() ==> val_encodable(
                    #[trigger] vs.skip(1)[i],
                    cs.skip(1)[i],
                ));
        }
        assert(tail_consistent(vs.skip(1), cs.skip(1))) by {
            assert forall|i: int|
                1 <= i < cs.skip(1).len() && needs_prev(#[trigger] cs.skip(1)[i]) implies int_of(
                vs.skip(1)[i - 1],
            ) == prev_need(vs.skip(1)[i], cs.skip(1)[i]) by {
                assert(cs.skip(1)[i] == cs[i + 1]);
                assert(vs.skip(1)[i] == vs[i + 1]);
                assert(vs.skip(1)[i - 1] == vs[i]);
            }
        }
        assert(head_prev_ok(vs.skip(1), cs.skip(1), int_of(vs[0]))) by {
            if cs.skip(1).len() > 0 && needs_prev(cs.skip(1)[0]) {
                assert(cs.skip(1)[0] == cs[1]);
                assert(vs.skip(1)[0] == vs[1]);
                assert(needs_prev(cs[1]));
                assert(int_of(vs[0]) == prev_need(vs[1], cs[1]));
            }
        }
        lemma_truncated_from(vs.skip(1), cs.skip(1), int_of(vs[0]), n - e0.len() as int);
    }
}

/// Truncation: a body cut anywhere short of the full encoding never decodes.
pub proof fn lemma_truncated(vs: Seq<ValV>, cs: Seq<TypeCode>, n: int)
    requires
        list_encodable(vs, cs),
        consistent(vs, cs),
        0 <= n < enc_list(vs, cs).len(),
    ensures
        dec_list(enc_list(vs, cs).take(n), cs, None) is None,
{
    lemma_truncated_from(vs, cs, None, n);
}


/// Idempotence of encoding: the byte image is a function of the (value,
/// code) list alone, so encoding the same list twice gives byte-identical
/// output. Stated over any two byte bodies that carry the image.
pub proof fn lemma_encode_deterministic(
    b1: Seq<u8>,
    b2: Seq<u8>,
    vs: Seq<ValV>,
    cs: Seq<TypeCode>,
)
    requires
        b1 == enc_list(vs, cs),
        b2 == enc_list(vs, cs),
    ensures
        b1 == b2,
{
}

} // verus!
