//! The executable decoder, proved equal to the deterministic decoder
//! [`crate::codec::dec_list`].
//!
//! Decoding consumes the body left to right, one result code at a time, and
//! fails with a `Protocol` error — never a panic — on a truncated body, a
//! negative or oversized size, invalid UTF-8, or trailing bytes.

use vstd::prelude::*;
use vstd::utf8::{decode_utf8, valid_utf8};

use crate::codec::{
    dec_list, dec_one, dec_pstrs, int_of, rd_i16s, rd_i32s, rd_rows, rd_u16s, rd_u32s, rd_u64s,
    views_of, MAX_SIZE,
};
use crate::codes::TypeCode;
use crate::error::NanonisError;
use crate::value::{NanonisValue, ValV};
use crate::wire::{read_be2, read_be4, read_be8};

verus! {

/// Relies on `String::from_utf8`: it returns the string spelled by the given
/// bytes exactly when they are valid UTF-8, and an error otherwise.
#[verifier::external_body]
fn string_from_utf8(bytes: Vec<u8>) -> (r: Option<String>)
    ensures
        match r {
            Some(s) => valid_utf8(bytes@) && s@ == decode_utf8(bytes@),
            None => !valid_utf8(bytes@),
        },
{
    match String::from_utf8(bytes) {
        Ok(s) => Some(s),
        Err(_) => None,
    }
}

/// The integer a decoded field hands to the next size-by-context field.
pub open spec fn prev_view(p: Option<i64>) -> Option<int> {
    match p {
        Some(n) => Some(n as int),
        None => None,
    }
}

fn int_of_exec(v: &NanonisValue) -> (r: Option<i64>)
    ensures
        prev_view(r) == int_of(v@),
{
    match v {
        NanonisValue::U16(x) => Some(*x as i64),
        NanonisValue::I16(x) => Some(*x as i64),
        NanonisValue::U32(x) => Some(*x as i64),
        NanonisValue::I32(x) => Some(*x as i64),
        _ => None,
    }
}

pub(crate) fn copy_bytes(body: &Vec<u8>, pos: usize, n: usize) -> (r: Vec<u8>)
    requires
        pos + n <= body@.len(),
    ensures
        r@ == body@.subrange(pos as int, pos as int + n as int),
{
    let len = body.len();
    let mut out: Vec<u8> = Vec::new();
    let mut i: usize = 0;
    while i < n
        invariant
            i <= n,
            len == body@.len(),
            pos + n <= body@.len(),
            out@.len() == i,
            forall|j: int| 0 <= j < i ==> out@[j] == body@[pos + j],
        decreases n - i,
    {
        out.push(body[pos + i]);
        i = i + 1;
    }
    proof {
        assert(out@ =~= body@.subrange(pos as int, pos as int + n as int));
    }
    out
}

fn read_u16s(body: &Vec<u8>, pos: usize, n: usize) -> (r: Vec<u16>)
    requires
        pos + 2 * n <= body@.len(),
    ensures
        r@ == rd_u16s(body@.skip(pos as int), n as int),
{
    let len = body.len();
    let mut out: Vec<u16> = Vec::new();
    let mut i: usize = 0;
    while i < n
        invariant
            i <= n,
            len == body@.len(),
            pos + 2 * n <= body@.len(),
            out@.len() == i,
            forall|j: int|
                0 <= j < i ==> out@[j] == crate::wire::rd2(
                    body@[pos + 2 * j],
                    body@[pos + 2 * j + 1],
                ),
        decreases n - i,
    {
        out.push(read_be2(body, pos + 2 * i));
        i = i + 1;
    }
    proof {
        assert(out@ =~= rd_u16s(body@.skip(pos as int), n as int));
    }
    out
}

fn read_i16s(body: &Vec<u8>, pos: usize, n: usize) -> (r: Vec<i16>)
    requires
        pos + 2 * n <= body@.len(),
    ensures
        r@ == rd_i16s(body@.skip(pos as int), n as int),
{
    let len = body.len();
    let mut out: Vec<i16> = Vec::new();
    let mut i: usize = 0;
    while i < n
        invariant
            i <= n,
            len == body@.len(),
            pos + 2 * n <= body@.len(),
            out@.len() == i,
            forall|j: int|
                0 <= j < i ==> out@[j] == crate::wire::rd2(
                    body@[pos + 2 * j],
                    body@[pos + 2 * j + 1],
                ) as i16,
        decreases n - i,
    {
        out.push(read_be2(body, pos + 2 * i) as i16);
        i = i + 1;
    }
    proof {
        assert(out@ =~= rd_i16s(body@.skip(pos as int), n as int));
    }
    out
}

fn read_u32s(body: &Vec<u8>, pos: usize, n: usize) -> (r: Vec<u32>)
    requires
        pos + 4 * n <= body@.len(),
    ensures
        r@ == rd_u32s(body@.skip(pos as int), n as int),
{
    let len = body.len();
    let mut out: Vec<u32> = Vec::new();
    let mut i: usize = 0;
    while i < n
        invariant
            i <= n,
            len == body@.len(),
            pos + 4 * n <= body@.len(),
            out@.len() == i,
            forall|j: int|
                0 <= j < i ==> out@[j] == crate::wire::rd4(
                    body@[pos + 4 * j],
                    body@[pos + 4 * j + 1],
                    body@[pos + 4 * j + 2],
                    body@[pos + 4 * j + 3],
                ),
        decreases n - i,
    {
        out.push(read_be4(body, pos + 4 * i));
        i = i + 1;
    }
    proof {
        assert(out@ =~= rd_u32s(body@.skip(pos as int), n as int));
    }
    out
}

fn read_i32s(body: &Vec<u8>, pos: usize, n: usize) -> (r: Vec<i32>)
    requires
        pos + 4 * n <= body@.len(),
    ensures
        r@ == rd_i32s(body@.skip(pos as int), n as int),
{
    let len = body.len();
    let mut out: Vec<i32> = Vec::new();
    let mut i: usize = 0;
    while i < n
        invariant
            i <= n,
            len == body@.len(),
            pos + 4 * n <= body@.len(),
            out@.len() == i,
            forall|j: int|
                0 <= j < i ==> out@[j] == crate::wire::rd4(
                    body@[pos + 4 * j],
                    body@[pos + 4 * j + 1],
                    body@[pos + 4 * j + 2],
                    body@[pos + 4 * j + 3],
                ) as i32,
        decreases n - i,
    {
        out.push(read_be4(body, pos + 4 * i) as i32);
        i = i + 1;
    }
    proof {
        assert(out@ =~= rd_i32s(body@.skip(pos as int), n as int));
    }
    out
}

fn read_u64s(body: &Vec<u8>, pos: usize, n: usize) -> (r: Vec<u64>)
    requires
        pos + 8 * n <= body@.len(),
    ensures
        r@ == rd_u64s(body@.skip(pos as int), n as int),
{
    let len = body.len();
    let mut out: Vec<u64> = Vec::new();
    let mut i: usize = 0;
    while i < n
        invariant
            i <= n,
            len == body@.len(),
            pos + 8 * n <= body@.len(),
            out@.len() == i,
            forall|j: int|
                0 <= j < i ==> out@[j] == crate::wire::rd8(
                    body@[pos + 8 * j],
                    body@[pos + 8 * j + 1],
                    body@[pos + 8 * j + 2],
                    body@[pos + 8 * j + 3],
                    body@[pos + 8 * j + 4],
                    body@[pos + 8 * j + 5],
                    body@[pos + 8 * j + 6],
                    body@[pos + 8 * j + 7],
                ),
        decreases n - i,
    {
        out.push(read_be8(body, pos + 8 * i));
        i = i + 1;
    }
    proof {
        assert(out@ =~= rd_u64s(body@.skip(pos as int), n as int));
    }
    out
}

/// How a partial parse of length-prefixed strings continues: if the remaining
/// strings parse from the current offset, the whole run parses to the strings
/// seen so far plus them; if they do not, the whole run fails.
pub open spec fn pstrs_continues(base: Seq<u8>, n: nat, parsed: Seq<Seq<char>>, off: int) -> bool {
    match dec_pstrs(base.skip(off), (n - parsed.len()) as nat) {
        Some(pr) => dec_pstrs(base, n) == Some::<(Seq<Seq<char>>, int)>((parsed + pr.0, off + pr.1)),
        None => dec_pstrs(base, n) is None,
    }
}

fn read_pstrs(body: &Vec<u8>, pos: usize, n: u64) -> (r: Result<(Vec<String>, usize), NanonisError>)
    requires
        pos <= body@.len(),
    ensures
        match r {
            Ok(p) => pos + p.1 <= body@.len() && dec_pstrs(body@.skip(pos as int), n as nat)
                == Some::<(Seq<Seq<char>>, int)>((p.0.deep_view(), p.1 as int)),
            Err(e) => dec_pstrs(body@.skip(pos as int), n as nat) is None && e is Protocol,
        },
{
    let len = body.len();
    let ghost base = body@.skip(pos as int);
    let mut vs: Vec<String> = Vec::new();
    let mut cur: usize = pos;
    let mut i: u64 = 0;
    proof {
        assert(base.skip(0) =~= base);
        assert(vs.deep_view() =~= Seq::<Seq<char>>::empty());
        if dec_pstrs(base, n as nat) is Some {
            let pr = dec_pstrs(base, n as nat)->Some_0;
            assert(vs.deep_view() + pr.0 =~= pr.0);
        }
    }
    while i < n
        invariant
            pos <= cur <= body@.len(),
            len == body@.len(),
            i <= n,
            vs.deep_view().len() == i,
            base == body@.skip(pos as int),
            pstrs_continues(base, n as nat, vs.deep_view(), cur - pos),
        decreases n - i,
    {
        let ghost rem = (n - i) as nat;
        let ghost bcur = base.skip(cur - pos);
        proof {
            assert(bcur =~= body@.skip(cur as int));
            assert(bcur.len() == len - cur);
        }
        // parse one 4-byte length prefix and its payload
        if len - cur < 4 {
            assert(dec_pstrs(bcur, rem) is None);
            return Err(NanonisError::Protocol("truncated response".to_string()));
        }
        let m = read_be4(body, cur);
        proof {
            assert(bcur[0] == body@[cur as int] && bcur[1] == body@[cur as int + 1] && bcur[2]
                == body@[cur as int + 2] && bcur[3] == body@[cur as int + 3]);
        }
        if m > MAX_SIZE {
            assert(dec_pstrs(bcur, rem) is None);
            return Err(NanonisError::Protocol("negative string size".to_string()));
        }
        if (m as u64) > (len - cur - 4) as u64 {
            assert(dec_pstrs(bcur, rem) is None);
            return Err(NanonisError::Protocol("truncated response".to_string()));
        }
        let mu = m as usize;
        let payload = copy_bytes(body, cur + 4, mu);
        proof {
            assert(payload@ =~= bcur.subrange(4, 4 + m as int));
        }
        let s = match string_from_utf8(payload) {
            Some(s) => s,
            None => {
                assert(dec_pstrs(bcur, rem) is None);
                return Err(NanonisError::Protocol("string is not valid UTF-8".to_string()));
            },
        };
        let ghost old_vs = vs.deep_view();
        let ghost old_cur = cur as int;
        vs.push(s);
        cur = cur + 4 + mu;
        i = i + 1;
        proof {
            let bnext = base.skip(cur - pos);
            assert(bnext =~= bcur.skip(4 + m as int));
            assert(vs.deep_view() =~= old_vs.push(s@));
            match dec_pstrs(bnext, (n - i) as nat) {
                Some(pr2) => {
                    assert(dec_pstrs(bcur, rem) == Some::<(Seq<Seq<char>>, int)>(
                        (seq![s@] + pr2.0, 4 + m + pr2.1),
                    ));
                    assert(old_vs + (seq![s@] + pr2.0) =~= vs.deep_view() + pr2.0);
                },
                None => {
                    assert(dec_pstrs(bcur, rem) is None);
                },
            }
        }
    }
    proof {
        let bcur = base.skip(cur - pos);
        assert(dec_pstrs(bcur, 0) == Some::<(Seq<Seq<char>>, int)>((Seq::empty(), 0)));
        assert(vs.deep_view() + Seq::<Seq<char>>::empty() =~= vs.deep_view());
    }
    Ok((vs, cur - pos))
}


/// Decode a two-dimensional float array: a 4-byte row count, a 4-byte column
/// count, then the row-major payload.
fn read_matrix(body: &Vec<u8>, pos: usize) -> (r: Result<(Vec<Vec<u32>>, usize), NanonisError>)
    requires
        pos <= body@.len(),
    ensures
        match r {
            Ok(p) => pos + p.1 <= body@.len() && dec_one(
                body@.skip(pos as int),
                TypeCode::Arr2DF32,
                None,
            ) == Some::<(ValV, int)>((ValV::Arr2DF32(p.0.deep_view()), p.1 as int)),
            Err(e) => dec_one(body@.skip(pos as int), TypeCode::Arr2DF32, None) is None && e
                is Protocol,
        },
{
    let len = body.len();
    let rem = len - pos;
    let ghost b = body@.skip(pos as int);
    proof {
        assert(b.len() == rem);
        assert(forall|j: int| 0 <= j < b.len() ==> b[j] == body@[pos + j]);
    }
    if rem < 8 {
        return Err(NanonisError::Protocol("truncated response".to_string()));
    }
    let rcount = read_be4(body, pos);
    let ccount = read_be4(body, pos + 4);
    proof {
        assert(b[4] == body@[pos as int + 4] && b[5] == body@[pos as int + 5] && b[6] == body@[pos
            as int + 6] && b[7] == body@[pos as int + 7]);
    }
    if rcount > MAX_SIZE || ccount > MAX_SIZE {
        return Err(NanonisError::Protocol("negative matrix size".to_string()));
    }
    proof {
        assert((rcount as int) * (ccount as int) < 0x8000_0000_0000_0000) by (nonlinear_arith)
            requires
                rcount as int <= 0x7FFF_FFFF,
                ccount as int <= 0x7FFF_FFFF,
                0 <= rcount as int,
                0 <= ccount as int,
        ;
    }
    let total: u64 = (rcount as u64) * (ccount as u64);
    let quarter: u64 = ((rem - 8) / 4) as u64;
    if total > quarter {
        proof {
            assert(b.len() < 8 + 4 * (rcount as int) * (ccount as int)) by (nonlinear_arith)
                requires
                    total as int == (rcount as int) * (ccount as int),
                    total as int > quarter as int,
                    quarter as int == (rem as int - 8) / 4,
                    b.len() == rem as int,
                    rem as int >= 8,
            ;
        }
        return Err(NanonisError::Protocol("truncated response".to_string()));
    }
    proof {
        assert(8 + 4 * (rcount as int) * (ccount as int) <= rem as int) by (nonlinear_arith)
            requires
                total as int == (rcount as int) * (ccount as int),
                total as int <= quarter as int,
                quarter as int == (rem as int - 8) / 4,
                rem as int >= 8,
        ;
    }
    let ru = rcount as usize;
    let cu = ccount as usize;
    let mut rows: Vec<Vec<u32>> = Vec::new();
    let mut off: usize = pos + 8;
    let mut i: usize = 0;
    while i < ru
        invariant
            i <= ru,
            len == body@.len(),
            pos + 8 <= len,
            off as int == pos + 8 + 4 * (cu as int) * (i as int),
            pos + 8 + 4 * (ru as int) * (cu as int) <= len,
            rows@.len() == i,
            forall|k: int|
                0 <= k < i ==> (#[trigger] rows@[k])@ == rd_u32s(
                    body@.skip(pos + 8 + 4 * (cu as int) * k),
                    cu as int,
                ),
        decreases ru - i,
    {
        proof {
            assert(4 * (cu as int) * (i as int + 1) == 4 * (cu as int) * (i as int) + 4 * (
            cu as int)) by (nonlinear_arith);
            assert(4 * (cu as int) * (i as int + 1) <= 4 * (ru as int) * (cu as int))
                by (nonlinear_arith)
                requires
                    0 <= cu as int,
                    i as int + 1 <= ru as int,
            ;
        }
        let row = read_u32s(body, off, cu);
        rows.push(row);
        off = off + 4 * cu;
        i = i + 1;
    }
    proof {
        assert forall|k: int|
            0 <= k < ru implies #[trigger] rd_rows(b.skip(8), ru as int, cu as int)[k]
            == rows.deep_view()[k] by {
            assert(0 <= 4 * (cu as int) * k && 8 + 4 * (cu as int) * k <= 8 + 4 * (ru as int) * (
            cu as int)) by (nonlinear_arith)
                requires
                    0 <= k,
                    k < ru as int,
                    0 <= cu as int,
            ;
            assert(b.skip(8).skip(4 * (cu as int) * k) =~= body@.skip(
                pos + 8 + 4 * (cu as int) * k,
            ));
            assert(rows.deep_view()[k] =~= rows@[k]@);
            assert(rd_u32s(b.skip(8).skip(4 * (cu as int) * k), cu as int) == rd_u32s(
                body@.skip(pos + 8 + 4 * (cu as int) * k),
                cu as int,
            ));
        }
        assert(rows.deep_view() =~= rd_rows(b.skip(8), ru as int, cu as int));
        assert(4 * (cu as int) * (ru as int) == 4 * (ru as int) * (cu as int)) by (nonlinear_arith);
        assert(off - pos == 8 + 4 * (rcount as int) * (ccount as int));
    }
    Ok((rows, off - pos))
}

/// Decode one field at a position. `prev` is the integer value of the field
/// decoded just before, if it was an integer.
#[verifier::rlimit(50)]
pub(crate) fn decode_value(body: &Vec<u8>, pos: usize, c: TypeCode, prev: Option<i64>) -> (r: Result<
    (NanonisValue, usize),
    NanonisError,
>)
    requires
        pos <= body@.len(),
    ensures
        match r {
            Ok(p) => pos + p.1 <= body@.len() && dec_one(body@.skip(pos as int), c, prev_view(prev))
                == Some::<(ValV, int)>((p.0@, p.1 as int)),
            Err(e) => dec_one(body@.skip(pos as int), c, prev_view(prev)) is None && e is Protocol,
        },
{
    let len = body.len();
    let rem = len - pos;
    let ghost b = body@.skip(pos as int);
    proof {
        assert(b.len() == rem);
        assert(forall|j: int| 0 <= j < b.len() ==> b[j] == body@[pos + j]);
    }
    match c {
        TypeCode::U16 => {
            if rem < 2 {
                return Err(NanonisError::Protocol("truncated response".to_string()));
            }
            Ok((NanonisValue::U16(read_be2(body, pos)), 2))
        },
        TypeCode::I16 => {
            if rem < 2 {
                return Err(NanonisError::Protocol("truncated response".to_string()));
            }
            Ok((NanonisValue::I16(read_be2(body, pos) as i16), 2))
        },
        TypeCode::U32 => {
            if rem < 4 {
                return Err(NanonisError::Protocol("truncated response".to_string()));
            }
            Ok((NanonisValue::U32(read_be4(body, pos)), 4))
        },
        TypeCode::I32 => {
            if rem < 4 {
                return Err(NanonisError::Protocol("truncated response".to_string()));
            }
            Ok((NanonisValue::I32(read_be4(body, pos) as i32), 4))
        },
        TypeCode::F32 => {
            if rem < 4 {
                return Err(NanonisError::Protocol("truncated response".to_string()));
            }
            Ok((NanonisValue::F32(read_be4(body, pos)), 4))
        },
        TypeCode::F64 => {
            if rem < 8 {
                return Err(NanonisError::Protocol("truncated response".to_string()));
            }
            Ok((NanonisValue::F64(read_be8(body, pos)), 8))
        },
        TypeCode::Str => {
            if rem < 4 {
                return Err(NanonisError::Protocol("truncated response".to_string()));
            }
            let m = read_be4(body, pos);
            if m > MAX_SIZE {
                return Err(NanonisError::Protocol("negative string size".to_string()));
            }
            if (m as u64) > (rem - 4) as u64 {
                return Err(NanonisError::Protocol("truncated response".to_string()));
            }
            let mu = m as usize;
            let payload = copy_bytes(body, pos + 4, mu);
            proof {
                assert(payload@ =~= b.subrange(4, 4 + m as int));
            }
            match string_from_utf8(payload) {
                Some(s) => Ok((NanonisValue::String(s), 4 + mu)),
                None => Err(NanonisError::Protocol("string is not valid UTF-8".to_string())),
            }
        },
        TypeCode::StrPrev => {
            let nn = match prev {
                Some(nn) => nn,
                None => {
                    return Err(NanonisError::Protocol(
                        "size-by-context field without a preceding integer".to_string(),
                    ));
                },
            };
            if nn < 0 || (nn as u64) > rem as u64 {
                return Err(NanonisError::Protocol("bad size-by-context string size".to_string()));
            }
            let mu = nn as usize;
            let payload = copy_bytes(body, pos, mu);
            proof {
                assert(payload@ =~= b.subrange(0, nn as int));
            }
            match string_from_utf8(payload) {
                Some(s) => Ok((NanonisValue::String(s), mu)),
                None => Err(NanonisError::Protocol("string is not valid UTF-8".to_string())),
            }
        },
        TypeCode::StrArrayPrev => {
            let nn = match prev {
                Some(nn) => nn,
                None => {
                    return Err(NanonisError::Protocol(
                        "size-by-context field without a preceding integer".to_string(),
                    ));
                },
            };
            if nn < 0 {
                return Err(NanonisError::Protocol("negative string count".to_string()));
            }
            match read_pstrs(body, pos, nn as u64) {
                Ok((vs, used)) => Ok((NanonisValue::ArrayString(vs), used)),
                Err(e) => Err(e),
            }
        },
        TypeCode::ArrU8 => {
            if rem < 4 {
                return Err(NanonisError::Protocol("truncated response".to_string()));
            }
            let m = read_be4(body, pos);
            if m > MAX_SIZE {
                return Err(NanonisError::Protocol("negative array size".to_string()));
            }
            if (m as u64) > (rem - 4) as u64 {
                return Err(NanonisError::Protocol("truncated response".to_string()));
            }
            let mu = m as usize;
            let payload = copy_bytes(body, pos + 4, mu);
            proof {
                assert(payload@ =~= b.subrange(4, 4 + m as int));
            }
            Ok((NanonisValue::ArrayU8(payload), 4 + mu))
        },
        TypeCode::ArrU8Prev => {
            let nn = match prev {
                Some(nn) => nn,
                None => {
                    return Err(NanonisError::Protocol(
                        "size-by-context field without a preceding integer".to_string(),
                    ));
                },
            };
            if nn < 0 || (nn as u64) > rem as u64 {
                return Err(NanonisError::Protocol("bad size-by-context array size".to_string()));
            }
            let mu = nn as usize;
            let payload = copy_bytes(body, pos, mu);
            proof {
                assert(payload@ =~= b.subrange(0, nn as int));
            }
            Ok((NanonisValue::ArrayU8(payload), mu))
        },
        TypeCode::ArrU16 => {
            if rem < 4 {
                return Err(NanonisError::Protocol("truncated response".to_string()));
            }
            let m = read_be4(body, pos);
            if m > MAX_SIZE {
                return Err(NanonisError::Protocol("negative array size".to_string()));
            }
            if (m as u64) > ((rem - 4) / 2) as u64 {
                return Err(NanonisError::Protocol("truncated response".to_string()));
            }
            let mu = m as usize;
            let a = read_u16s(body, pos + 4, mu);
            proof {
                assert(body@.skip(pos as int + 4) =~= b.skip(4));
            }
            Ok((NanonisValue::ArrayU16(a), 4 + 2 * mu))
        },
        TypeCode::ArrU16Prev => {
            let nn = match prev {
                Some(nn) => nn,
                None => {
                    return Err(NanonisError::Protocol(
                        "size-by-context field without a preceding integer".to_string(),
                    ));
                },
            };
            if nn < 0 || (nn as u64) > (rem / 2) as u64 {
                return Err(NanonisError::Protocol("bad size-by-context array size".to_string()));
            }
            let mu = nn as usize;
            let a = read_u16s(body, pos, mu);
            Ok((NanonisValue::ArrayU16(a), 2 * mu))
        },
        TypeCode::ArrI16 => {
            if rem < 4 {
                return Err(NanonisError::Protocol("truncated response".to_string()));
            }
            let m = read_be4(body, pos);
            if m > MAX_SIZE {
                return Err(NanonisError::Protocol("negative array size".to_string()));
            }
            if (m as u64) > ((rem - 4) / 2) as u64 {
                return Err(NanonisError::Protocol("truncated response".to_string()));
            }
            let mu = m as usize;
            let a = read_i16s(body, pos + 4, mu);
            proof {
                assert(body@.skip(pos as int + 4) =~= b.skip(4));
            }
            Ok((NanonisValue::ArrayI16(a), 4 + 2 * mu))
        },
        TypeCode::ArrI16Prev => {
            let nn = match prev {
                Some(nn) => nn,
                None => {
                    return Err(NanonisError::Protocol(
                        "size-by-context field without a preceding integer".to_string(),
                    ));
                },
            };
            if nn < 0 || (nn as u64) > (rem / 2) as u64 {
                return Err(NanonisError::Protocol("bad size-by-context array size".to_string()));
            }
            let mu = nn as usize;
            let a = read_i16s(body, pos, mu);
            Ok((NanonisValue::ArrayI16(a), 2 * mu))
        },
        TypeCode::ArrU32 => {
            if rem < 4 {
                return Err(NanonisError::Protocol("truncated response".to_string()));
            }
            let m = read_be4(body, pos);
            if m > MAX_SIZE {
                return Err(NanonisError::Protocol("negative array size".to_string()));
            }
            if (m as u64) > ((rem - 4) / 4) as u64 {
                return Err(NanonisError::Protocol("truncated response".to_string()));
            }
            let mu = m as usize;
            let a = read_u32s(body, pos + 4, mu);
            proof {
                assert(body@.skip(pos as int + 4) =~= b.skip(4));
            }
            Ok((NanonisValue::ArrayU32(a), 4 + 4 * mu))
        },
        TypeCode::ArrU32Prev => {
            let nn = match prev {
                Some(nn) => nn,
                None => {
                    return Err(NanonisError::Protocol(
                        "size-by-context field without a preceding integer".to_string(),
                    ));
                },
            };
            if nn < 0 || (nn as u64) > (rem / 4) as u64 {
                return Err(NanonisError::Protocol("bad size-by-context array size".to_string()));
            }
            let mu = nn as usize;
            let a = read_u32s(body, pos, mu);
            Ok((NanonisValue::ArrayU32(a), 4 * mu))
        },
        TypeCode::ArrI32 => {
            if rem < 4 {
                return Err(NanonisError::Protocol("truncated response".to_string()));
            }
            let m = read_be4(body, pos);
            if m > MAX_SIZE {
                return Err(NanonisError::Protocol("negative array size".to_string()));
            }
            if (m as u64) > ((rem - 4) / 4) as u64 {
                return Err(NanonisError::Protocol("truncated response".to_string()));
            }
            let mu = m as usize;
            let a = read_i32s(body, pos + 4, mu);
            proof {
                assert(body@.skip(pos as int + 4) =~= b.skip(4));
            }
            Ok((NanonisValue::ArrayI32(a), 4 + 4 * mu))
        },
        TypeCode::ArrI32Prev => {
            let nn = match prev {
                Some(nn) => nn,
                None => {
                    return Err(NanonisError::Protocol(
                        "size-by-context field without a preceding integer".to_string(),
                    ));
                },
            };
            if nn < 0 || (nn as u64) > (rem / 4) as u64 {
                return Err(NanonisError::Protocol("bad size-by-context array size".to_string()));
            }
            let mu = nn as usize;
            let a = read_i32s(body, pos, mu);
            Ok((NanonisValue::ArrayI32(a), 4 * mu))
        },
        TypeCode::ArrF32 => {
            if rem < 4 {
                return Err(NanonisError::Protocol("truncated response".to_string()));
            }
            let m = read_be4(body, pos);
            if m > MAX_SIZE {
                return Err(NanonisError::Protocol("negative array size".to_string()));
            }
            if (m as u64) > ((rem - 4) / 4) as u64 {
                return Err(NanonisError::Protocol("truncated response".to_string()));
            }
            let mu = m as usize;
            let a = read_u32s(body, pos + 4, mu);
            proof {
                assert(body@.skip(pos as int + 4) =~= b.skip(4));
            }
            Ok((NanonisValue::ArrayF32(a), 4 + 4 * mu))
        },
        TypeCode::ArrF32Prev => {
            let nn = match prev {
                Some(nn) => nn,
                None => {
                    return Err(NanonisError::Protocol(
                        "size-by-context field without a preceding integer".to_string(),
                    ));
                },
            };
            if nn < 0 || (nn as u64) > (rem / 4) as u64 {
                return Err(NanonisError::Protocol("bad size-by-context array size".to_string()));
            }
            let mu = nn as usize;
            let a = read_u32s(body, pos, mu);
            Ok((NanonisValue::ArrayF32(a), 4 * mu))
        },
        TypeCode::ArrF64 => {
            if rem < 4 {
                return Err(NanonisError::Protocol("truncated response".to_string()));
            }
            let m = read_be4(body, pos);
            if m > MAX_SIZE {
                return Err(NanonisError::Protocol("negative array size".to_string()));
            }
            if (m as u64) > ((rem - 4) / 8) as u64 {
                return Err(NanonisError::Protocol("truncated response".to_string()));
            }
            let mu = m as usize;
            let a = read_u64s(body, pos + 4, mu);
            proof {
                assert(body@.skip(pos as int + 4) =~= b.skip(4));
            }
            Ok((NanonisValue::ArrayF64(a), 4 + 8 * mu))
        },
        TypeCode::ArrF64Prev => {
            let nn = match prev {
                Some(nn) => nn,
                None => {
                    return Err(NanonisError::Protocol(
                        "size-by-context field without a preceding integer".to_string(),
                    ));
                },
            };
            if nn < 0 || (nn as u64) > (rem / 8) as u64 {
                return Err(NanonisError::Protocol("bad size-by-context array size".to_string()));
            }
            let mu = nn as usize;
            let a = read_u64s(body, pos, mu);
            Ok((NanonisValue::ArrayF64(a), 8 * mu))
        },
        TypeCode::Arr2DF32 => {
            match read_matrix(body, pos) {
                Ok((rows, used)) => Ok((NanonisValue::Array2DF32(rows), used)),
                Err(e) => Err(e),
            }
        },
    }
}

/// How a partial parse of the body continues: if the remaining codes parse
/// from the current offset, the whole body parses to the values seen so far
/// plus them; if they do not, the whole body fails to parse.
pub open spec fn list_continues(
    body: Seq<u8>,
    codes: Seq<TypeCode>,
    parsed: Seq<ValV>,
    off: int,
    prev: Option<int>,
) -> bool {
    match dec_list(body.skip(off), codes.skip(parsed.len() as int), prev) {
        Some(rest) => dec_list(body, codes, None) == Some(parsed + rest),
        None => dec_list(body, codes, None) is None,
    }
}

/// Decode a byte body against an ordered list of expected result codes.
///
/// The result is exactly what the deterministic decoder `dec_list` gives:
/// decoding fails with a `Protocol` error — never a panic — when the body is
/// exhausted before all codes are satisfied, a size prefix is negative or
/// over-long, a string is not valid UTF-8, a size-by-context field has no
/// preceding integer field, or bytes remain after all codes are satisfied.
pub fn decode_body(body: &Vec<u8>, codes: &Vec<TypeCode>) -> (r: Result<
    Vec<NanonisValue>,
    NanonisError,
>)
    ensures
        match r {
            Ok(vals) => dec_list(body@, codes@, None) == Some(views_of(vals@)),
            Err(e) => dec_list(body@, codes@, None) is None && e is Protocol,
        },
{
    let n = codes.len();
    let len = body.len();
    let mut vals: Vec<NanonisValue> = Vec::new();
    let mut pos: usize = 0;
    let mut prev: Option<i64> = None;
    let mut k: usize = 0;
    proof {
        assert(body@.skip(0) =~= body@);
        assert(codes@.skip(0) =~= codes@);
        assert(views_of(vals@) =~= Seq::<ValV>::empty());
        match dec_list(body@, codes@, None) {
            Some(rest) => {
                assert(views_of(vals@) + rest =~= rest);
            },
            None => {},
        }
    }
    while k < n
        invariant
            k <= n,
            n == codes@.len(),
            pos <= body@.len(),
            len == body@.len(),
            vals@.len() == k,
            views_of(vals@).len() == k,
            prev_view(prev) == (if k == 0 {
                Option::<int>::None
            } else {
                int_of(views_of(vals@)[k - 1])
            }),
            list_continues(body@, codes@, views_of(vals@), pos as int, prev_view(prev)),
        decreases n - k,
    {
        let ghost bcur = body@.skip(pos as int);
        let ghost ccur = codes@.skip(k as int);
        proof {
            assert(ccur[0] == codes@[k as int]);
        }
        let res = decode_value(body, pos, codes[k], prev);
        let (v, used) = match res {
            Ok(p) => p,
            Err(e) => {
                proof {
                    assert(dec_list(bcur, ccur, prev_view(prev)) is None);
                }
                return Err(e);
            },
        };
        let ghost old_vals = views_of(vals@);
        prev = int_of_exec(&v);
        pos = pos + used;
        vals.push(v);
        k = k + 1;
        proof {
            assert(views_of(vals@) =~= old_vals.push(v@));
            assert(body@.skip(pos as int) =~= bcur.skip(used as int));
            assert(codes@.skip(k as int) =~= ccur.skip(1));
            match dec_list(body@.skip(pos as int), codes@.skip(k as int), int_of(v@)) {
                Some(rest2) => {
                    assert(dec_list(bcur, ccur, int_of(old_vals[k - 1 as int])) is Some ==> true);
                    assert(old_vals + (seq![v@] + rest2) =~= views_of(vals@) + rest2);
                },
                None => {},
            }
        }
    }
    if pos != len {
        proof {
            assert(body@.skip(pos as int).len() > 0);
            assert(codes@.skip(k as int).len() == 0);
        }
        return Err(NanonisError::Protocol("trailing bytes after the last result".to_string()));
    }
    proof {
        assert(body@.skip(pos as int).len() == 0);
        assert(codes@.skip(k as int).len() == 0);
        assert(dec_list(body@.skip(pos as int), codes@.skip(k as int), prev_view(prev))
            == Some(Seq::<ValV>::empty()));
        assert(views_of(vals@) + Seq::<ValV>::empty() =~= views_of(vals@));
    }
    Ok(vals)
}

/// A field decoded under a code carries the tag that code describes.
pub proof fn lemma_dec_one_fits(b: Seq<u8>, c: TypeCode, p: Option<int>)
    requires
        dec_one(b, c, p) is Some,
    ensures
        crate::codec::fits(dec_one(b, c, p)->Some_0.0, c),
{
}

/// A decoded body has exactly one value per result code, and each value
/// carries the tag its code describes.
pub proof fn lemma_dec_list_fits(b: Seq<u8>, cs: Seq<TypeCode>, p: Option<int>)
    requires
        dec_list(b, cs, p) is Some,
    ensures
        dec_list(b, cs, p)->Some_0.len() == cs.len(),
        forall|i: int|
            0 <= i < cs.len() ==> crate::codec::fits(#[trigger] dec_list(b, cs, p)->Some_0[i], cs[i]),
    decreases cs.len(),
{
    if cs.len() == 0 {
    } else {
        let (v, used) = dec_one(b, cs[0], p)->Some_0;
        lemma_dec_one_fits(b, cs[0], p);
        lemma_dec_list_fits(b.skip(used), cs.skip(1), int_of(v));
        let rest = dec_list(b.skip(used), cs.skip(1), int_of(v))->Some_0;
        let whole = dec_list(b, cs, p)->Some_0;
        assert(whole == seq![v] + rest);
        assert forall|i: int| 0 <= i < cs.len() implies crate::codec::fits(
            #[trigger] whole[i],
            cs[i],
        ) by {
            if i == 0 {
                assert(whole[0] == v);
            } else {
                assert(whole[i] == rest[i - 1]);
                assert(cs[i] == cs.skip(1)[i - 1]);
            }
        }
    }
}

} // verus!
