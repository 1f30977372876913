//! The closed vocabulary of per-argument wire-shape descriptors.
//!
//! A type code is metadata, not a value: it tells the codec how many bytes or
//! elements a field occupies and where its length is declared — in a 4-byte
//! size prefix of its own, or implicitly, as the value of the integer field
//! decoded immediately before it.
//!
//! Each code also has a compact string spelling (the form used at call sites
//! of the instrument's scripting interfaces): `"H"` for a 16-bit unsigned
//! scalar, `"+*c"` for a size-prefixed string, `"*f"` for a float array whose
//! element count is the preceding integer field, `"2f"` for a
//! row/column-prefixed two-dimensional float array, and so on. [`TypeCode::parse`]
//! reads that spelling.

use vstd::prelude::*;
use vstd::string::StrSliceExecFns;

verus! {

/// One wire-shape descriptor.
///
/// `Arr*` codes carry their own 4-byte element-count prefix; `Arr*Prev` codes
/// take their element count from the integer field decoded immediately before
/// them, and write no prefix of their own. `Str` carries a 4-byte byte-length
/// prefix; `StrPrev` takes its byte length from the preceding integer field.
/// `StrArrayPrev` is a sequence of individually length-prefixed strings whose
/// string count is the preceding integer field. `Arr2DF32` carries a 4-byte
/// row count and a 4-byte column count, then its row-major payload.
#[derive(Debug, Clone, Copy, PartialEq, Eq, Structural)]
pub enum TypeCode {
    U16,
    I16,
    U32,
    I32,
    F32,
    F64,
    Str,
    StrPrev,
    StrArrayPrev,
    ArrU8,
    ArrU8Prev,
    ArrU16,
    ArrU16Prev,
    ArrI16,
    ArrI16Prev,
    ArrU32,
    ArrU32Prev,
    ArrI32,
    ArrI32Prev,
    ArrF32,
    ArrF32Prev,
    ArrF64,
    ArrF64Prev,
    Arr2DF32,
}

/// The code spelled by a given character sequence, if any.
pub open spec fn spec_code_of(s: Seq<char>) -> Option<TypeCode> {
    if s.len() == 1 {
        if s[0] == 'H' {
            Some(TypeCode::U16)
        } else if s[0] == 'h' {
            Some(TypeCode::I16)
        } else if s[0] == 'I' {
            Some(TypeCode::U32)
        } else if s[0] == 'i' {
            Some(TypeCode::I32)
        } else if s[0] == 'f' {
            Some(TypeCode::F32)
        } else if s[0] == 'd' {
            Some(TypeCode::F64)
        } else {
            None
        }
    } else if s.len() == 2 && s[0] == '2' && s[1] == 'f' {
        Some(TypeCode::Arr2DF32)
    } else if s.len() == 2 && s[0] == '*' {
        if s[1] == 'b' {
            Some(TypeCode::ArrU8Prev)
        } else if s[1] == 'H' {
            Some(TypeCode::ArrU16Prev)
        } else if s[1] == 'h' {
            Some(TypeCode::ArrI16Prev)
        } else if s[1] == 'I' {
            Some(TypeCode::ArrU32Prev)
        } else if s[1] == 'i' {
            Some(TypeCode::ArrI32Prev)
        } else if s[1] == 'f' {
            Some(TypeCode::ArrF32Prev)
        } else if s[1] == 'd' {
            Some(TypeCode::ArrF64Prev)
        } else {
            None
        }
    } else if s.len() == 3 && s[0] == '+' && s[1] == '*' {
        if s[2] == 'c' {
            Some(TypeCode::Str)
        } else if s[2] == 'b' {
            Some(TypeCode::ArrU8)
        } else if s[2] == 'H' {
            Some(TypeCode::ArrU16)
        } else if s[2] == 'h' {
            Some(TypeCode::ArrI16)
        } else if s[2] == 'I' {
            Some(TypeCode::ArrU32)
        } else if s[2] == 'i' {
            Some(TypeCode::ArrI32)
        } else if s[2] == 'f' {
            Some(TypeCode::ArrF32)
        } else if s[2] == 'd' {
            Some(TypeCode::ArrF64)
        } else {
            None
        }
    } else if s.len() == 3 && s[0] == '*' && s[1] == '-' && s[2] == 'c' {
        Some(TypeCode::StrPrev)
    } else if s.len() == 3 && s[0] == '*' && s[1] == '+' {
        if s[2] == 'c' {
            Some(TypeCode::StrArrayPrev)
        } else if s[2] == 'i' {
            Some(TypeCode::ArrI32Prev)
        } else {
            None
        }
    } else {
        None
    }
}

impl TypeCode {
    /// Read a code from its compact string spelling.
    pub fn parse(s: &str) -> (r: Option<TypeCode>)
        ensures
            r == spec_code_of(s@),
    {
        let n = s.unicode_len();
        if n == 1 {
            let c = s.get_char(0);
            if c == 'H' {
                Some(TypeCode::U16)
            } else if c == 'h' {
                Some(TypeCode::I16)
            } else if c == 'I' {
                Some(TypeCode::U32)
            } else if c == 'i' {
                Some(TypeCode::I32)
            } else if c == 'f' {
                Some(TypeCode::F32)
            } else if c == 'd' {
                Some(TypeCode::F64)
            } else {
                None
            }
        } else if n == 2 {
            let c0 = s.get_char(0);
            let c1 = s.get_char(1);
            if c0 == '2' && c1 == 'f' {
                Some(TypeCode::Arr2DF32)
            } else if c0 == '*' {
                if c1 == 'b' {
                    Some(TypeCode::ArrU8Prev)
                } else if c1 == 'H' {
                    Some(TypeCode::ArrU16Prev)
                } else if c1 == 'h' {
                    Some(TypeCode::ArrI16Prev)
                } else if c1 == 'I' {
                    Some(TypeCode::ArrU32Prev)
                } else if c1 == 'i' {
                    Some(TypeCode::ArrI32Prev)
                } else if c1 == 'f' {
                    Some(TypeCode::ArrF32Prev)
                } else if c1 == 'd' {
                    Some(TypeCode::ArrF64Prev)
                } else {
                    None
                }
            } else {
                None
            }
        } else if n == 3 {
            let c0 = s.get_char(0);
            let c1 = s.get_char(1);
            let c2 = s.get_char(2);
            if c0 == '+' && c1 == '*' {
                if c2 == 'c' {
                    Some(TypeCode::Str)
                } else if c2 == 'b' {
                    Some(TypeCode::ArrU8)
                } else if c2 == 'H' {
                    Some(TypeCode::ArrU16)
                } else if c2 == 'h' {
                    Some(TypeCode::ArrI16)
                } else if c2 == 'I' {
                    Some(TypeCode::ArrU32)
                } else if c2 == 'i' {
                    Some(TypeCode::ArrI32)
                } else if c2 == 'f' {
                    Some(TypeCode::ArrF32)
                } else if c2 == 'd' {
                    Some(TypeCode::ArrF64)
                } else {
                    None
                }
            } else if c0 == '*' && c1 == '-' && c2 == 'c' {
                Some(TypeCode::StrPrev)
            } else if c0 == '*' && c1 == '+' {
                if c2 == 'c' {
                    Some(TypeCode::StrArrayPrev)
                } else if c2 == 'i' {
                    Some(TypeCode::ArrI32Prev)
                } else {
                    None
                }
            } else {
                None
            }
        } else {
            None
        }
    }
}

} // verus!
