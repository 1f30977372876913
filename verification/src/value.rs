//! The tagged union of every wire-representable value.
//!
//! Floating-point fields are carried as their IEEE-754 bit patterns (`u32`
//! for 32-bit floats, `u64` for 64-bit floats): the codec moves the bits to
//! and from the wire unchanged, and no floating-point arithmetic happens in
//! the library. Callers convert with `f32::to_bits` / `f32::from_bits` at the
//! boundary.

use vstd::prelude::*;

use crate::error::NanonisError;

verus! {

/// The mathematical model of a [`NanonisValue`]: the same tags over
/// mathematical sequences.
pub enum ValV {
    U16(u16),
    I16(i16),
    U32(u32),
    I32(i32),
    F32(u32),
    F64(u64),
    Str(Seq<char>),
    ArrU8(Seq<u8>),
    ArrU16(Seq<u16>),
    ArrI16(Seq<i16>),
    ArrU32(Seq<u32>),
    ArrI32(Seq<i32>),
    ArrF32(Seq<u32>),
    ArrF64(Seq<u64>),
    ArrStr(Seq<Seq<char>>),
    Arr2DF32(Seq<Seq<u32>>),
}

/// A value as sent to or received from the instrument. Once constructed its
/// tag never changes; element order in the array variants is
/// wire-significant.
#[derive(Debug, Clone)]
pub enum NanonisValue {
    U16(u16),
    I16(i16),
    U32(u32),
    I32(i32),
    /// A 32-bit float, carried as its IEEE-754 bit pattern.
    F32(u32),
    /// A 64-bit float, carried as its IEEE-754 bit pattern.
    F64(u64),
    String(String),
    ArrayU8(Vec<u8>),
    ArrayU16(Vec<u16>),
    ArrayI16(Vec<i16>),
    ArrayU32(Vec<u32>),
    ArrayI32(Vec<i32>),
    /// 32-bit floats, each carried as its IEEE-754 bit pattern.
    ArrayF32(Vec<u32>),
    /// 64-bit floats, each carried as its IEEE-754 bit pattern.
    ArrayF64(Vec<u64>),
    ArrayString(Vec<String>),
    /// A row-major two-dimensional array of 32-bit floats (bit patterns).
    Array2DF32(Vec<Vec<u32>>),
}

impl View for NanonisValue {
    type V = ValV;

    open spec fn view(&self) -> ValV {
        match self {
            NanonisValue::U16(v) => ValV::U16(*v),
            NanonisValue::I16(v) => ValV::I16(*v),
            NanonisValue::U32(v) => ValV::U32(*v),
            NanonisValue::I32(v) => ValV::I32(*v),
            NanonisValue::F32(v) => ValV::F32(*v),
            NanonisValue::F64(v) => ValV::F64(*v),
            NanonisValue::String(s) => ValV::Str(s@),
            NanonisValue::ArrayU8(v) => ValV::ArrU8(v@),
            NanonisValue::ArrayU16(v) => ValV::ArrU16(v@),
            NanonisValue::ArrayI16(v) => ValV::ArrI16(v@),
            NanonisValue::ArrayU32(v) => ValV::ArrU32(v@),
            NanonisValue::ArrayI32(v) => ValV::ArrI32(v@),
            NanonisValue::ArrayF32(v) => ValV::ArrF32(v@),
            NanonisValue::ArrayF64(v) => ValV::ArrF64(v@),
            NanonisValue::ArrayString(v) => ValV::ArrStr(v.deep_view()),
            NanonisValue::Array2DF32(v) => ValV::Arr2DF32(v.deep_view()),
        }
    }
}

impl NanonisValue {
    /// Extract a 32-bit float's bit pattern; fails unless the tag is `F32`.
    pub fn as_f32(&self) -> (r: Result<u32, NanonisError>)
        ensures
            match r {
                Ok(v) => self@ == ValV::F32(v),
                Err(e) => !(self@ is F32) && e is Type,
            },
    {
        match self {
            NanonisValue::F32(v) => Ok(*v),
            _ => Err(NanonisError::Type("expected f32".to_string())),
        }
    }

    /// Extract a 64-bit float's bit pattern; fails unless the tag is `F64`.
    pub fn as_f64(&self) -> (r: Result<u64, NanonisError>)
        ensures
            match r {
                Ok(v) => self@ == ValV::F64(v),
                Err(e) => !(self@ is F64) && e is Type,
            },
    {
        match self {
            NanonisValue::F64(v) => Ok(*v),
            _ => Err(NanonisError::Type("expected f64".to_string())),
        }
    }

    /// Extract an unsigned 16-bit integer; fails unless the tag is `U16`.
    pub fn as_u16(&self) -> (r: Result<u16, NanonisError>)
        ensures
            match r {
                Ok(v) => self@ == ValV::U16(v),
                Err(e) => !(self@ is U16) && e is Type,
            },
    {
        match self {
            NanonisValue::U16(v) => Ok(*v),
            _ => Err(NanonisError::Type("expected u16".to_string())),
        }
    }

    /// Extract a signed 16-bit integer; fails unless the tag is `I16`.
    pub fn as_i16(&self) -> (r: Result<i16, NanonisError>)
        ensures
            match r {
                Ok(v) => self@ == ValV::I16(v),
                Err(e) => !(self@ is I16) && e is Type,
            },
    {
        match self {
            NanonisValue::I16(v) => Ok(*v),
            _ => Err(NanonisError::Type("expected i16".to_string())),
        }
    }

    /// Extract an unsigned 32-bit integer; fails unless the tag is `U32`.
    pub fn as_u32(&self) -> (r: Result<u32, NanonisError>)
        ensures
            match r {
                Ok(v) => self@ == ValV::U32(v),
                Err(e) => !(self@ is U32) && e is Type,
            },
    {
        match self {
            NanonisValue::U32(v) => Ok(*v),
            _ => Err(NanonisError::Type("expected u32".to_string())),
        }
    }

    /// Extract a signed 32-bit integer; fails unless the tag is `I32`.
    pub fn as_i32(&self) -> (r: Result<i32, NanonisError>)
        ensures
            match r {
                Ok(v) => self@ == ValV::I32(v),
                Err(e) => !(self@ is I32) && e is Type,
            },
    {
        match self {
            NanonisValue::I32(v) => Ok(*v),
            _ => Err(NanonisError::Type("expected i32".to_string())),
        }
    }

    /// Borrow the held string; fails unless the tag is `String`.
    pub fn as_string(&self) -> (r: Result<&String, NanonisError>)
        ensures
            match r {
                Ok(s) => self@ == ValV::Str(s@),
                Err(e) => !(self@ is Str) && e is Type,
            },
    {
        match self {
            NanonisValue::String(s) => Ok(s),
            _ => Err(NanonisError::Type("expected string".to_string())),
        }
    }

    /// Borrow the held string array; fails unless the tag is `ArrayString`.
    pub fn as_string_array(&self) -> (r: Result<&Vec<String>, NanonisError>)
        ensures
            match r {
                Ok(v) => self@ == ValV::ArrStr(v.deep_view()),
                Err(e) => !(self@ is ArrStr) && e is Type,
            },
    {
        match self {
            NanonisValue::ArrayString(v) => Ok(v),
            _ => Err(NanonisError::Type("expected string array".to_string())),
        }
    }

    /// Borrow the held 32-bit float array (bit patterns); fails unless the
    /// tag is `ArrayF32`.
    pub fn as_f32_array(&self) -> (r: Result<&Vec<u32>, NanonisError>)
        ensures
            match r {
                Ok(v) => self@ == ValV::ArrF32(v@),
                Err(e) => !(self@ is ArrF32) && e is Type,
            },
    {
        match self {
            NanonisValue::ArrayF32(v) => Ok(v),
            _ => Err(NanonisError::Type("expected f32 array".to_string())),
        }
    }

    /// Borrow the held 64-bit float array (bit patterns); fails unless the
    /// tag is `ArrayF64`.
    pub fn as_f64_array(&self) -> (r: Result<&Vec<u64>, NanonisError>)
        ensures
            match r {
                Ok(v) => self@ == ValV::ArrF64(v@),
                Err(e) => !(self@ is ArrF64) && e is Type,
            },
    {
        match self {
            NanonisValue::ArrayF64(v) => Ok(v),
            _ => Err(NanonisError::Type("expected f64 array".to_string())),
        }
    }

    /// Borrow the held signed 32-bit integer array; fails unless the tag is
    /// `ArrayI32`.
    pub fn as_i32_array(&self) -> (r: Result<&Vec<i32>, NanonisError>)
        ensures
            match r {
                Ok(v) => self@ == ValV::ArrI32(v@),
                Err(e) => !(self@ is ArrI32) && e is Type,
            },
    {
        match self {
            NanonisValue::ArrayI32(v) => Ok(v),
            _ => Err(NanonisError::Type("expected i32 array".to_string())),
        }
    }

    /// Borrow the held unsigned 32-bit integer array; fails unless the tag is
    /// `ArrayU32`.
    pub fn as_u32_array(&self) -> (r: Result<&Vec<u32>, NanonisError>)
        ensures
            match r {
                Ok(v) => self@ == ValV::ArrU32(v@),
                Err(e) => !(self@ is ArrU32) && e is Type,
            },
    {
        match self {
            NanonisValue::ArrayU32(v) => Ok(v),
            _ => Err(NanonisError::Type("expected u32 array".to_string())),
        }
    }

    /// Borrow the held two-dimensional float array (bit patterns); fails
    /// unless the tag is `Array2DF32`.
    pub fn as_f32_2d_array(&self) -> (r: Result<&Vec<Vec<u32>>, NanonisError>)
        ensures
            match r {
                Ok(v) => self@ == ValV::Arr2DF32(v.deep_view()),
                Err(e) => !(self@ is Arr2DF32) && e is Type,
            },
    {
        match self {
            NanonisValue::Array2DF32(v) => Ok(v),
            _ => Err(NanonisError::Type("expected 2D f32 array".to_string())),
        }
    }
}


/// The row-major regrouping of a flat sequence into `rows` rows of `cols`
/// elements each: the inverse of the flattening the two-dimensional wire
/// code applies.
pub open spec fn spec_chunk(s: Seq<u32>, rows: int, cols: int) -> Seq<Seq<u32>> {
    Seq::new(rows as nat, |i: int| s.subrange(i * cols, i * cols + cols))
}

/// Regroup a flat row-major array — dimensions reported beside it on the
/// wire — into its rows.
pub fn chunk_rows(flat: &Vec<u32>, rows: usize, cols: usize) -> (r: Vec<Vec<u32>>)
    requires
        flat@.len() == rows * cols,
    ensures
        r.deep_view() == spec_chunk(flat@, rows as int, cols as int),
{
    let n = flat.len();
    let mut out: Vec<Vec<u32>> = Vec::new();
    let mut i: usize = 0;
    while i < rows
        invariant
            i <= rows,
            n == flat@.len(),
            flat@.len() == rows * cols,
            out@.len() == i,
            forall|k: int|
                0 <= k < i ==> (#[trigger] out@[k])@ == flat@.subrange(
                    k * (cols as int),
                    k * (cols as int) + cols as int,
                ),
        decreases rows - i,
    {
        proof {
            assert(0 <= (i as int) * (cols as int) && (i as int) * (cols as int) + cols as int <= (
            rows as int) * (cols as int)) by (nonlinear_arith)
                requires
                    0 <= (i as int),
                    (i as int) < (rows as int),
                    0 <= (cols as int),
            ;
        }
        let base: usize = i * cols;
        let mut row: Vec<u32> = Vec::new();
        let mut j: usize = 0;
        while j < cols
            invariant
                j <= cols,
                n == flat@.len(),
                flat@.len() == rows * cols,
                base as int == (i as int) * (cols as int),
                base + cols <= flat@.len(),
                row@.len() == j,
                forall|q: int| 0 <= q < j ==> row@[q] == flat@[base + q],
            decreases cols - j,
        {
            row.push(flat[base + j]);
            j = j + 1;
        }
        proof {
            assert(row@ =~= flat@.subrange(
                (i as int) * (cols as int),
                (i as int) * (cols as int) + cols as int,
            ));
        }
        out.push(row);
        i = i + 1;
    }
    proof {
        assert forall|k: int| 0 <= k < rows implies out.deep_view()[k] == spec_chunk(
            flat@,
            rows as int,
            cols as int,
        )[k] by {
            assert(out.deep_view()[k] =~= out@[k]@);
        }
        assert(out.deep_view() =~= spec_chunk(flat@, rows as int, cols as int));
    }
    out
}

} // verus!
