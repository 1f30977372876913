//! The executable encoder, proved equal to the byte image given by
//! [`crate::codec::enc_list`].
//!
//! A value/code tag mismatch or an oversized field fails with `InvalidInput`
//! before any byte of that value is emitted.

use vstd::prelude::*;
use vstd::utf8::encode_utf8;

use crate::codec::{
    cat_i16, cat_i32, cat_pstr, cat_rows, cat_u16, cat_u32, cat_u64, cols_of, enc_list, enc_val,
    list_encodable, val_encodable, views_of, MAX_SIZE,
};
use crate::codes::TypeCode;
use crate::error::NanonisError;
use crate::value::NanonisValue;
use crate::wire::{be2, be4, be8, push_be2, push_be4, push_be8};

verus! {

proof fn lemma_cat_u16_snoc(a: Seq<u16>, x: u16)
    ensures
        cat_u16(a.push(x)) == cat_u16(a) + be2(x),
    decreases a.len(),
{
    if a.len() == 0 {
        assert(a.push(x)[0] == x);
        assert(a.push(x).skip(1) =~= Seq::<u16>::empty());
        assert(cat_u16(a.push(x)) == be2(x) + cat_u16(Seq::<u16>::empty()));
        assert(cat_u16(a.push(x)) =~= cat_u16(a) + be2(x));
    } else {
        lemma_cat_u16_snoc(a.skip(1), x);
        assert(a.push(x)[0] == a[0]);
        assert(a.push(x).len() == a.len() + 1);
        assert(a.push(x).skip(1) =~= a.skip(1).push(x));
        assert(cat_u16(a.push(x)) == be2(a[0]) + cat_u16(a.skip(1).push(x)));
        assert(cat_u16(a.push(x)) == be2(a[0]) + (cat_u16(a.skip(1)) + be2(x)));
        assert(cat_u16(a) == be2(a[0]) + cat_u16(a.skip(1)));
        assert(be2(a[0]) + (cat_u16(a.skip(1)) + be2(x)) =~= (be2(a[0]) + cat_u16(a.skip(1))) + be2(x));
    }
}

proof fn lemma_cat_i16_snoc(a: Seq<i16>, x: i16)
    ensures
        cat_i16(a.push(x)) == cat_i16(a) + be2(x as u16),
    decreases a.len(),
{
    if a.len() == 0 {
        assert(a.push(x)[0] == x);
        assert(a.push(x).skip(1) =~= Seq::<i16>::empty());
        assert(cat_i16(a.push(x)) == be2(x as u16) + cat_i16(Seq::<i16>::empty()));
        assert(cat_i16(a.push(x)) =~= cat_i16(a) + be2(x as u16));
    } else {
        lemma_cat_i16_snoc(a.skip(1), x);
        assert(a.push(x)[0] == a[0]);
        assert(a.push(x).len() == a.len() + 1);
        assert(a.push(x).skip(1) =~= a.skip(1).push(x));
        assert(cat_i16(a.push(x)) == be2(a[0] as u16) + cat_i16(a.skip(1).push(x)));
        assert(cat_i16(a.push(x)) == be2(a[0] as u16) + (cat_i16(a.skip(1)) + be2(x as u16)));
        assert(cat_i16(a) == be2(a[0] as u16) + cat_i16(a.skip(1)));
        assert(be2(a[0] as u16) + (cat_i16(a.skip(1)) + be2(x as u16)) =~= (be2(a[0] as u16) + cat_i16(a.skip(1))) + be2(x as u16));
    }
}

proof fn lemma_cat_u32_snoc(a: Seq<u32>, x: u32)
    ensures
        cat_u32(a.push(x)) == cat_u32(a) + be4(x),
    decreases a.len(),
{
    if a.len() == 0 {
        assert(a.push(x)[0] == x);
        assert(a.push(x).skip(1) =~= Seq::<u32>::empty());
        assert(cat_u32(a.push(x)) == be4(x) + cat_u32(Seq::<u32>::empty()));
        assert(cat_u32(a.push(x)) =~= cat_u32(a) + be4(x));
    } else {
        lemma_cat_u32_snoc(a.skip(1), x);
        assert(a.push(x)[0] == a[0]);
        assert(a.push(x).len() == a.len() + 1);
        assert(a.push(x).skip(1) =~= a.skip(1).push(x));
        assert(cat_u32(a.push(x)) == be4(a[0]) + cat_u32(a.skip(1).push(x)));
        assert(cat_u32(a.push(x)) == be4(a[0]) + (cat_u32(a.skip(1)) + be4(x)));
        assert(cat_u32(a) == be4(a[0]) + cat_u32(a.skip(1)));
        assert(be4(a[0]) + (cat_u32(a.skip(1)) + be4(x)) =~= (be4(a[0]) + cat_u32(a.skip(1))) + be4(x));
    }
}

proof fn lemma_cat_i32_snoc(a: Seq<i32>, x: i32)
    ensures
        cat_i32(a.push(x)) == cat_i32(a) + be4(x as u32),
    decreases a.len(),
{
    if a.len() == 0 {
        assert(a.push(x)[0] == x);
        assert(a.push(x).skip(1) =~= Seq::<i32>::empty());
        assert(cat_i32(a.push(x)) == be4(x as u32) + cat_i32(Seq::<i32>::empty()));
        assert(cat_i32(a.push(x)) =~= cat_i32(a) + be4(x as u32));
    } else {
        lemma_cat_i32_snoc(a.skip(1), x);
        assert(a.push(x)[0] == a[0]);
        assert(a.push(x).len() == a.len() + 1);
        assert(a.push(x).skip(1) =~= a.skip(1).push(x));
        assert(cat_i32(a.push(x)) == be4(a[0] as u32) + cat_i32(a.skip(1).push(x)));
        assert(cat_i32(a.push(x)) == be4(a[0] as u32) + (cat_i32(a.skip(1)) + be4(x as u32)));
        assert(cat_i32(a) == be4(a[0] as u32) + cat_i32(a.skip(1)));
        assert(be4(a[0] as u32) + (cat_i32(a.skip(1)) + be4(x as u32)) =~= (be4(a[0] as u32) + cat_i32(a.skip(1))) + be4(x as u32));
    }
}

proof fn lemma_cat_u64_snoc(a: Seq<u64>, x: u64)
    ensures
        cat_u64(a.push(x)) == cat_u64(a) + be8(x),
    decreases a.len(),
{
    if a.len() == 0 {
        assert(a.push(x)[0] == x);
        assert(a.push(x).skip(1) =~= Seq::<u64>::empty());
        assert(cat_u64(a.push(x)) == be8(x) + cat_u64(Seq::<u64>::empty()));
        assert(cat_u64(a.push(x)) =~= cat_u64(a) + be8(x));
    } else {
        lemma_cat_u64_snoc(a.skip(1), x);
        assert(a.push(x)[0] == a[0]);
        assert(a.push(x).len() == a.len() + 1);
        assert(a.push(x).skip(1) =~= a.skip(1).push(x));
        assert(cat_u64(a.push(x)) == be8(a[0]) + cat_u64(a.skip(1).push(x)));
        assert(cat_u64(a.push(x)) == be8(a[0]) + (cat_u64(a.skip(1)) + be8(x)));
        assert(cat_u64(a) == be8(a[0]) + cat_u64(a.skip(1)));
        assert(be8(a[0]) + (cat_u64(a.skip(1)) + be8(x)) =~= (be8(a[0]) + cat_u64(a.skip(1))) + be8(x));
    }
}

proof fn lemma_cat_pstr_snoc(a: Seq<Seq<char>>, x: Seq<char>)
    ensures
        cat_pstr(a.push(x)) == cat_pstr(a) + be4(encode_utf8(x).len() as u32) + encode_utf8(x),
    decreases a.len(),
{
    if a.len() == 0 {
        assert(a.push(x)[0] == x);
        assert(a.push(x).skip(1) =~= Seq::<Seq<char>>::empty());
        assert(cat_pstr(a.push(x)) == be4(encode_utf8(x).len() as u32) + encode_utf8(x) + cat_pstr(
            Seq::<Seq<char>>::empty(),
        ));
        assert(cat_pstr(a.push(x)) =~= cat_pstr(a) + be4(encode_utf8(x).len() as u32)
            + encode_utf8(x));
    } else {
        lemma_cat_pstr_snoc(a.skip(1), x);
        assert(a.push(x)[0] == a[0]);
        assert(a.push(x).len() == a.len() + 1);
        assert(a.push(x).skip(1) =~= a.skip(1).push(x));
        assert(cat_pstr(a.push(x)) == be4(encode_utf8(a[0]).len() as u32) + encode_utf8(a[0])
            + cat_pstr(a.skip(1).push(x)));
        assert(cat_pstr(a.push(x)) == be4(encode_utf8(a[0]).len() as u32) + encode_utf8(a[0]) + (
        cat_pstr(a.skip(1)) + be4(encode_utf8(x).len() as u32) + encode_utf8(x)));
        assert(cat_pstr(a) == be4(encode_utf8(a[0]).len() as u32) + encode_utf8(a[0]) + cat_pstr(
            a.skip(1),
        ));
        assert(cat_pstr(a.push(x)) =~= cat_pstr(a) + be4(encode_utf8(x).len() as u32)
            + encode_utf8(x));
    }
}

proof fn lemma_cat_rows_snoc(m: Seq<Seq<u32>>, x: Seq<u32>)
    ensures
        cat_rows(m.push(x)) == cat_rows(m) + cat_u32(x),
    decreases m.len(),
{
    if m.len() == 0 {
        assert(m.push(x)[0] == x);
        assert(m.push(x).skip(1) =~= Seq::<Seq<u32>>::empty());
        assert(cat_rows(m.push(x)) == cat_u32(x) + cat_rows(Seq::<Seq<u32>>::empty()));
        assert(cat_rows(m.push(x)) =~= cat_rows(m) + cat_u32(x));
    } else {
        lemma_cat_rows_snoc(m.skip(1), x);
        assert(m.push(x)[0] == m[0]);
        assert(m.push(x).len() == m.len() + 1);
        assert(m.push(x).skip(1) =~= m.skip(1).push(x));
        assert(cat_rows(m.push(x)) == cat_u32(m[0]) + cat_rows(m.skip(1).push(x)));
        assert(cat_rows(m.push(x)) == cat_u32(m[0]) + (cat_rows(m.skip(1)) + cat_u32(x)));
        assert(cat_rows(m) == cat_u32(m[0]) + cat_rows(m.skip(1)));
        assert(cat_rows(m.push(x)) =~= cat_rows(m) + cat_u32(x));
    }
}

proof fn lemma_enc_list_snoc(vs: Seq<crate::value::ValV>, cs: Seq<TypeCode>, v: crate::value::ValV, c: TypeCode)
    requires
        vs.len() == cs.len(),
    ensures
        enc_list(vs.push(v), cs.push(c)) == enc_list(vs, cs) + enc_val(v, c),
    decreases vs.len(),
{
    if vs.len() == 0 {
        assert(vs.push(v)[0] == v);
        assert(cs.push(c)[0] == c);
        assert(vs.push(v).skip(1) =~= Seq::<crate::value::ValV>::empty());
        assert(cs.push(c).skip(1) =~= Seq::<TypeCode>::empty());
        assert(enc_list(vs.push(v), cs.push(c)) == enc_val(v, c) + enc_list(
            Seq::<crate::value::ValV>::empty(),
            Seq::<TypeCode>::empty(),
        ));
        assert(enc_list(vs.push(v), cs.push(c)) =~= enc_list(vs, cs) + enc_val(v, c));
    } else {
        lemma_enc_list_snoc(vs.skip(1), cs.skip(1), v, c);
        assert(vs.push(v)[0] == vs[0]);
        assert(cs.push(c)[0] == cs[0]);
        assert(vs.push(v).skip(1) =~= vs.skip(1).push(v));
        assert(cs.push(c).skip(1) =~= cs.skip(1).push(c));
        assert(enc_list(vs.push(v), cs.push(c)) == enc_val(vs[0], cs[0]) + enc_list(
            vs.skip(1).push(v),
            cs.skip(1).push(c),
        ));
        assert(enc_list(vs.push(v), cs.push(c)) == enc_val(vs[0], cs[0]) + (enc_list(
            vs.skip(1),
            cs.skip(1),
        ) + enc_val(v, c)));
        assert(enc_list(vs, cs) == enc_val(vs[0], cs[0]) + enc_list(vs.skip(1), cs.skip(1)));
        assert(enc_list(vs.push(v), cs.push(c)) =~= enc_list(vs, cs) + enc_val(v, c));
    }
}

pub(crate) fn push_u8s(out: &mut Vec<u8>, a: &Vec<u8>)
    ensures
        final(out)@ == old(out)@ + a@,
{
    let n = a.len();
    let mut i: usize = 0;
    while i < n
        invariant
            i <= n,
            n == a@.len(),
            out@ == old(out)@ + a@.take(i as int),
        decreases n - i,
    {
        out.push(a[i]);
        proof {
            assert(a@.take(i as int + 1) =~= a@.take(i as int).push(a@[i as int]));
            assert(old(out)@ + a@.take(i as int + 1) =~= (old(out)@ + a@.take(i as int)).push(
                a@[i as int],
            ));
        }
        i = i + 1;
    }
    proof {
        assert(a@.take(n as int) =~= a@);
    }
}

fn push_u16s(out: &mut Vec<u8>, a: &Vec<u16>)
    ensures
        final(out)@ == old(out)@ + cat_u16(a@),
{
    let n = a.len();
    let mut i: usize = 0;
    while i < n
        invariant
            i <= n,
            n == a@.len(),
            out@ == old(out)@ + cat_u16(a@.take(i as int)),
        decreases n - i,
    {
        proof {
            lemma_cat_u16_snoc(a@.take(i as int), a@[i as int]);
            assert(a@.take(i as int + 1) =~= a@.take(i as int).push(a@[i as int]));
        }
        push_be2(out, a[i]);
        i = i + 1;
    }
    proof {
        assert(a@.take(n as int) =~= a@);
    }
}

fn push_i16s(out: &mut Vec<u8>, a: &Vec<i16>)
    ensures
        final(out)@ == old(out)@ + cat_i16(a@),
{
    let n = a.len();
    let mut i: usize = 0;
    while i < n
        invariant
            i <= n,
            n == a@.len(),
            out@ == old(out)@ + cat_i16(a@.take(i as int)),
        decreases n - i,
    {
        proof {
            lemma_cat_i16_snoc(a@.take(i as int), a@[i as int]);
            assert(a@.take(i as int + 1) =~= a@.take(i as int).push(a@[i as int]));
        }
        push_be2(out, a[i] as u16);
        i = i + 1;
    }
    proof {
        assert(a@.take(n as int) =~= a@);
    }
}

fn push_u32s(out: &mut Vec<u8>, a: &Vec<u32>)
    ensures
        final(out)@ == old(out)@ + cat_u32(a@),
{
    let n = a.len();
    let mut i: usize = 0;
    while i < n
        invariant
            i <= n,
            n == a@.len(),
            out@ == old(out)@ + cat_u32(a@.take(i as int)),
        decreases n - i,
    {
        proof {
            lemma_cat_u32_snoc(a@.take(i as int), a@[i as int]);
            assert(a@.take(i as int + 1) =~= a@.take(i as int).push(a@[i as int]));
        }
        push_be4(out, a[i]);
        i = i + 1;
    }
    proof {
        assert(a@.take(n as int) =~= a@);
    }
}

fn push_i32s(out: &mut Vec<u8>, a: &Vec<i32>)
    ensures
        final(out)@ == old(out)@ + cat_i32(a@),
{
    let n = a.len();
    let mut i: usize = 0;
    while i < n
        invariant
            i <= n,
            n == a@.len(),
            out@ == old(out)@ + cat_i32(a@.take(i as int)),
        decreases n - i,
    {
        proof {
            lemma_cat_i32_snoc(a@.take(i as int), a@[i as int]);
            assert(a@.take(i as int + 1) =~= a@.take(i as int).push(a@[i as int]));
        }
        push_be4(out, a[i] as u32);
        i = i + 1;
    }
    proof {
        assert(a@.take(n as int) =~= a@);
    }
}

fn push_u64s(out: &mut Vec<u8>, a: &Vec<u64>)
    ensures
        final(out)@ == old(out)@ + cat_u64(a@),
{
    let n = a.len();
    let mut i: usize = 0;
    while i < n
        invariant
            i <= n,
            n == a@.len(),
            out@ == old(out)@ + cat_u64(a@.take(i as int)),
        decreases n - i,
    {
        proof {
            lemma_cat_u64_snoc(a@.take(i as int), a@[i as int]);
            assert(a@.take(i as int + 1) =~= a@.take(i as int).push(a@[i as int]));
        }
        push_be8(out, a[i]);
        i = i + 1;
    }
    proof {
        assert(a@.take(n as int) =~= a@);
    }
}

/// Append one length-prefixed UTF-8 string.
fn push_pstr(out: &mut Vec<u8>, s: &String) -> (r: Result<(), NanonisError>)
    ensures
        match r {
            Ok(()) => encode_utf8(s@).len() <= MAX_SIZE && final(out)@ == old(out)@ + be4(
                encode_utf8(s@).len() as u32,
            ) + encode_utf8(s@),
            Err(e) => !(encode_utf8(s@).len() <= MAX_SIZE) && final(out)@ == old(out)@ && e
                is InvalidInput,
        },
{
    let bytes = s.as_str().as_bytes_vec();
    if bytes.len() > MAX_SIZE as usize {
        return Err(NanonisError::InvalidInput("string too long for its size prefix".to_string()));
    }
    push_be4(out, bytes.len() as u32);
    push_u8s(out, &bytes);
    Ok(())
}

fn push_pstrs(out: &mut Vec<u8>, a: &Vec<String>) -> (r: Result<(), NanonisError>)
    ensures
        match r {
            Ok(()) => (forall|j: int|
                0 <= j < a.deep_view().len() ==> #[trigger] encode_utf8(a.deep_view()[j]).len()
                    <= MAX_SIZE) && final(out)@ == old(out)@ + cat_pstr(a.deep_view()),
            Err(e) => !(forall|j: int|
                0 <= j < a.deep_view().len() ==> #[trigger] encode_utf8(a.deep_view()[j]).len()
                    <= MAX_SIZE) && final(out)@ == old(out)@ && e is InvalidInput,
        },
{
    let n = a.len();
    proof {
        assert(a.deep_view().len() == a@.len());
    }
    let mut i: usize = 0;
    // validate every element before the first byte is written
    while i < n
        invariant
            i <= n,
            n == a@.len(),
            n == a.deep_view().len(),
            forall|j: int| 0 <= j < i ==> #[trigger] encode_utf8(a.deep_view()[j]).len() <= MAX_SIZE,
        decreases n - i,
    {
        proof {
            assert(a.deep_view()[i as int] == a@[i as int]@);
        }
        let blen = a[i].as_str().as_bytes_vec().len();
        if blen > MAX_SIZE as usize {
            assert(!(encode_utf8(a.deep_view()[i as int]).len() <= MAX_SIZE));
            return Err(NanonisError::InvalidInput(
                "string too long for its size prefix".to_string(),
            ));
        }
        i = i + 1;
    }
    let mut k: usize = 0;
    while k < n
        invariant
            k <= n,
            n == a@.len(),
            n == a.deep_view().len(),
            forall|j: int| 0 <= j < n ==> #[trigger] encode_utf8(a.deep_view()[j]).len() <= MAX_SIZE,
            out@ == old(out)@ + cat_pstr(a.deep_view().take(k as int)),
        decreases n - k,
    {
        proof {
            assert(a.deep_view()[k as int] == a@[k as int]@);
            lemma_cat_pstr_snoc(a.deep_view().take(k as int), a@[k as int]@);
            assert(a.deep_view().take(k as int + 1) =~= a.deep_view().take(k as int).push(
                a@[k as int]@,
            ));
        }
        let res = push_pstr(out, &a[k]);
        match res {
            Ok(()) => (),
            Err(_) => {
                proof {
                    assert(false);
                }
            },
        }
        proof {
            assert(old(out)@ + cat_pstr(a.deep_view().take(k as int)) + be4(
                encode_utf8(a@[k as int]@).len() as u32,
            ) + encode_utf8(a@[k as int]@) =~= old(out)@ + (cat_pstr(a.deep_view().take(k as int))
                + be4(encode_utf8(a@[k as int]@).len() as u32) + encode_utf8(a@[k as int]@)));
        }
        k = k + 1;
    }
    proof {
        assert(a.deep_view().take(n as int) =~= a.deep_view());
    }
    Ok(())
}

fn push_matrix(out: &mut Vec<u8>, m: &Vec<Vec<u32>>) -> (r: Result<(), NanonisError>)
    ensures
        match r {
            Ok(()) => val_encodable(
                crate::value::ValV::Arr2DF32(m.deep_view()),
                TypeCode::Arr2DF32,
            ) && final(out)@ == old(out)@ + enc_val(
                crate::value::ValV::Arr2DF32(m.deep_view()),
                TypeCode::Arr2DF32,
            ),
            Err(e) => !val_encodable(
                crate::value::ValV::Arr2DF32(m.deep_view()),
                TypeCode::Arr2DF32,
            ) && final(out)@ == old(out)@ && e is InvalidInput,
        },
{
    let rows = m.len();
    if rows > MAX_SIZE as usize {
        return Err(NanonisError::InvalidInput("too many rows for the row prefix".to_string()));
    }
    let cols: usize = if rows > 0 {
        m[0].len()
    } else {
        0
    };
    proof {
        assert(m.deep_view().len() == m@.len());
        if m@.len() > 0 {
            assert(m.deep_view()[0] == m@[0]@);
        }
        assert(cols as int == cols_of(m.deep_view()));
    }
    if cols > MAX_SIZE as usize {
        return Err(NanonisError::InvalidInput("too many columns for the column prefix".to_string()));
    }
    let mut i: usize = 0;
    while i < rows
        invariant
            i <= rows,
            rows == m@.len(),
            cols as int == cols_of(m.deep_view()),
            forall|j: int| 0 <= j < i ==> #[trigger] m.deep_view()[j].len() == cols as int,
        decreases rows - i,
    {
        proof {
            assert(m.deep_view()[i as int] =~= m@[i as int]@);
        }
        if m[i].len() != cols {
            proof {
                assert(m.deep_view()[i as int].len() != cols_of(m.deep_view()));
                assert(!val_encodable(
                    crate::value::ValV::Arr2DF32(m.deep_view()),
                    TypeCode::Arr2DF32,
                ));
            }
            return Err(NanonisError::InvalidInput(
                "two-dimensional array is not rectangular".to_string(),
            ));
        }
        i = i + 1;
    }
    push_be4(out, rows as u32);
    push_be4(out, cols as u32);
    let mut k: usize = 0;
    while k < rows
        invariant
            k <= rows,
            rows == m@.len(),
            rows <= MAX_SIZE as usize,
            cols <= MAX_SIZE as usize,
            cols as int == cols_of(m.deep_view()),
            forall|j: int| 0 <= j < rows ==> #[trigger] m.deep_view()[j].len() == cols as int,
            out@ == old(out)@ + be4(rows as u32) + be4(cols as u32) + cat_rows(
                m.deep_view().take(k as int),
            ),
        decreases rows - k,
    {
        proof {
            assert(m.deep_view()[k as int] =~= m@[k as int]@);
            lemma_cat_rows_snoc(m.deep_view().take(k as int), m@[k as int]@);
            assert(m.deep_view().take(k as int + 1) =~= m.deep_view().take(k as int).push(
                m@[k as int]@,
            ));
        }
        push_u32s(out, &m[k]);
        proof {
            assert(old(out)@ + be4(rows as u32) + be4(cols as u32) + cat_rows(
                m.deep_view().take(k as int),
            ) + cat_u32(m@[k as int]@) =~= old(out)@ + be4(rows as u32) + be4(cols as u32) + (
            cat_rows(m.deep_view().take(k as int)) + cat_u32(m@[k as int]@)));
        }
        k = k + 1;
    }
    proof {
        assert(m.deep_view().take(rows as int) =~= m.deep_view());
        assert(m.deep_view().len() as u32 == rows as u32);
        assert(cols_of(m.deep_view()) as u32 == cols as u32);
        assert(old(out)@ + be4(rows as u32) + be4(cols as u32) + cat_rows(m.deep_view()) =~= old(
            out,
        )@ + (be4(m.deep_view().len() as u32) + be4(cols_of(m.deep_view()) as u32) + cat_rows(
            m.deep_view(),
        )));
    }
    Ok(())
}

/// Append the byte image of one value under one code; on a tag mismatch or an
/// oversized field, fail without emitting anything.
fn encode_value(out: &mut Vec<u8>, v: &NanonisValue, c: TypeCode) -> (r: Result<(), NanonisError>)
    ensures
        match r {
            Ok(()) => val_encodable(v@, c) && final(out)@ == old(out)@ + enc_val(v@, c),
            Err(e) => !val_encodable(v@, c) && final(out)@ == old(out)@ && e is InvalidInput,
        },
{
    match (v, c) {
        (NanonisValue::U16(x), TypeCode::U16) => {
            push_be2(out, *x);
            Ok(())
        },
        (NanonisValue::I16(x), TypeCode::I16) => {
            push_be2(out, *x as u16);
            Ok(())
        },
        (NanonisValue::U32(x), TypeCode::U32) => {
            push_be4(out, *x);
            Ok(())
        },
        (NanonisValue::I32(x), TypeCode::I32) => {
            push_be4(out, *x as u32);
            Ok(())
        },
        (NanonisValue::F32(x), TypeCode::F32) => {
            push_be4(out, *x);
            Ok(())
        },
        (NanonisValue::F64(x), TypeCode::F64) => {
            push_be8(out, *x);
            Ok(())
        },
        (NanonisValue::String(s), TypeCode::Str) => push_pstr(out, s),
        (NanonisValue::String(s), TypeCode::StrPrev) => {
            let bytes = s.as_str().as_bytes_vec();
            if bytes.len() > MAX_SIZE as usize {
                return Err(NanonisError::InvalidInput(
                    "string too long for a size-by-context field".to_string(),
                ));
            }
            push_u8s(out, &bytes);
            Ok(())
        },
        (NanonisValue::ArrayString(a), TypeCode::StrArrayPrev) => {
            proof {
                assert(a.deep_view().len() == a@.len());
            }
            if a.len() > MAX_SIZE as usize {
                return Err(NanonisError::InvalidInput(
                    "too many strings for a size-by-context field".to_string(),
                ));
            }
            push_pstrs(out, a)
        },
        (NanonisValue::ArrayU8(a), TypeCode::ArrU8) => {
            if a.len() > MAX_SIZE as usize {
                return Err(NanonisError::InvalidInput("array too long for its size prefix".to_string()));
            }
            push_be4(out, a.len() as u32);
            push_u8s(out, a);
            Ok(())
        },
        (NanonisValue::ArrayU8(a), TypeCode::ArrU8Prev) => {
            if a.len() > MAX_SIZE as usize {
                return Err(NanonisError::InvalidInput("array too long for a size-by-context field".to_string()));
            }
            push_u8s(out, a);
            Ok(())
        },
        (NanonisValue::ArrayU16(a), TypeCode::ArrU16) => {
            if a.len() > MAX_SIZE as usize {
                return Err(NanonisError::InvalidInput("array too long for its size prefix".to_string()));
            }
            push_be4(out, a.len() as u32);
            push_u16s(out, a);
            Ok(())
        },
        (NanonisValue::ArrayU16(a), TypeCode::ArrU16Prev) => {
            if a.len() > MAX_SIZE as usize {
                return Err(NanonisError::InvalidInput("array too long for a size-by-context field".to_string()));
            }
            push_u16s(out, a);
            Ok(())
        },
        (NanonisValue::ArrayI16(a), TypeCode::ArrI16) => {
            if a.len() > MAX_SIZE as usize {
                return Err(NanonisError::InvalidInput("array too long for its size prefix".to_string()));
            }
            push_be4(out, a.len() as u32);
            push_i16s(out, a);
            Ok(())
        },
        (NanonisValue::ArrayI16(a), TypeCode::ArrI16Prev) => {
            if a.len() > MAX_SIZE as usize {
                return Err(NanonisError::InvalidInput("array too long for a size-by-context field".to_string()));
            }
            push_i16s(out, a);
            Ok(())
        },
        (NanonisValue::ArrayU32(a), TypeCode::ArrU32) => {
            if a.len() > MAX_SIZE as usize {
                return Err(NanonisError::InvalidInput("array too long for its size prefix".to_string()));
            }
            push_be4(out, a.len() as u32);
            push_u32s(out, a);
            Ok(())
        },
        (NanonisValue::ArrayU32(a), TypeCode::ArrU32Prev) => {
            if a.len() > MAX_SIZE as usize {
                return Err(NanonisError::InvalidInput("array too long for a size-by-context field".to_string()));
            }
            push_u32s(out, a);
            Ok(())
        },
        (NanonisValue::ArrayI32(a), TypeCode::ArrI32) => {
            if a.len() > MAX_SIZE as usize {
                return Err(NanonisError::InvalidInput("array too long for its size prefix".to_string()));
            }
            push_be4(out, a.len() as u32);
            push_i32s(out, a);
            Ok(())
        },
        (NanonisValue::ArrayI32(a), TypeCode::ArrI32Prev) => {
            if a.len() > MAX_SIZE as usize {
                return Err(NanonisError::InvalidInput("array too long for a size-by-context field".to_string()));
            }
            push_i32s(out, a);
            Ok(())
        },
        (NanonisValue::ArrayF32(a), TypeCode::ArrF32) => {
            if a.len() > MAX_SIZE as usize {
                return Err(NanonisError::InvalidInput("array too long for its size prefix".to_string()));
            }
            push_be4(out, a.len() as u32);
            push_u32s(out, a);
            Ok(())
        },
        (NanonisValue::ArrayF32(a), TypeCode::ArrF32Prev) => {
            if a.len() > MAX_SIZE as usize {
                return Err(NanonisError::InvalidInput("array too long for a size-by-context field".to_string()));
            }
            push_u32s(out, a);
            Ok(())
        },
        (NanonisValue::ArrayF64(a), TypeCode::ArrF64) => {
            if a.len() > MAX_SIZE as usize {
                return Err(NanonisError::InvalidInput("array too long for its size prefix".to_string()));
            }
            push_be4(out, a.len() as u32);
            push_u64s(out, a);
            Ok(())
        },
        (NanonisValue::ArrayF64(a), TypeCode::ArrF64Prev) => {
            if a.len() > MAX_SIZE as usize {
                return Err(NanonisError::InvalidInput("array too long for a size-by-context field".to_string()));
            }
            push_u64s(out, a);
            Ok(())
        },
        (NanonisValue::Array2DF32(m), TypeCode::Arr2DF32) => push_matrix(out, m),
        _ => Err(NanonisError::InvalidInput("value does not match its type code".to_string())),
    }
}

/// Encode an ordered (value, code) list into a contiguous byte body.
///
/// The result is exactly `enc_list` of the views; the call fails with
/// `InvalidInput`, producing nothing, when the lists differ in length, a
/// value's tag does not match its code, a size-prefixed field is too long for
/// its signed 32-bit prefix, or a two-dimensional array is not rectangular.
pub fn encode_body(args: &Vec<NanonisValue>, codes: &Vec<TypeCode>) -> (r: Result<
    Vec<u8>,
    NanonisError,
>)
    ensures
        match r {
            Ok(b) => list_encodable(views_of(args@), codes@) && b@ == enc_list(
                views_of(args@),
                codes@,
            ),
            Err(e) => !list_encodable(views_of(args@), codes@) && e is InvalidInput,
        },
{
    let n = args.len();
    if n != codes.len() {
        return Err(NanonisError::InvalidInput(
            "argument list and code list differ in length".to_string(),
        ));
    }
    let mut out: Vec<u8> = Vec::new();
    let mut k: usize = 0;
    while k < n
        invariant
            k <= n,
            n == args@.len(),
            n == codes@.len(),
            forall|i: int| 0 <= i < k ==> val_encodable(#[trigger] views_of(args@)[i], codes@[i]),
            out@ == enc_list(views_of(args@).take(k as int), codes@.take(k as int)),
        decreases n - k,
    {
        proof {
            assert(views_of(args@)[k as int] == args@[k as int]@);
        }
        let res = encode_value(&mut out, &args[k], codes[k]);
        match res {
            Ok(()) => (),
            Err(e) => {
                proof {
                    assert(!val_encodable(views_of(args@)[k as int], codes@[k as int]));
                }
                return Err(e);
            },
        }
        proof {
            lemma_enc_list_snoc(
                views_of(args@).take(k as int),
                codes@.take(k as int),
                views_of(args@)[k as int],
                codes@[k as int],
            );
            assert(views_of(args@).take(k as int + 1) =~= views_of(args@).take(k as int).push(
                views_of(args@)[k as int],
            ));
            assert(codes@.take(k as int + 1) =~= codes@.take(k as int).push(codes@[k as int]));
        }
        k = k + 1;
    }
    proof {
        assert(views_of(args@).take(n as int) =~= views_of(args@));
        assert(codes@.take(n as int) =~= codes@);
    }
    Ok(out)
}

} // verus!
