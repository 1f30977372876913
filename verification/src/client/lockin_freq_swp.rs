//! Lock-in frequency sweep commands.

use vstd::prelude::*;

use crate::client::{lemma_scalar_frame, sent, transport_err, NanonisClient};
use crate::codec::views_of;
use crate::codes::TypeCode;
use crate::error::NanonisError;
use crate::value::{NanonisValue, ValV};

verus! {

/// The direction of a frequency sweep.
#[derive(Debug, Clone, Copy, PartialEq, Eq, Structural)]
pub enum FreqSwpDirection {
    /// Sweep down (from upper limit to lower limit)
    Down,
    /// Sweep up (from lower limit to upper limit)
    Up,
}

impl FreqSwpDirection {
    /// The wire value of the selector.
    pub open spec fn wire(self) -> u32 {
        match self {
            FreqSwpDirection::Down => 0,
            FreqSwpDirection::Up => 1,
        }
    }

    /// The wire value of the selector.
    pub fn as_u32(self) -> (r: u32)
        ensures
            r == self.wire(),
    {
        match self {
            FreqSwpDirection::Down => 0,
            FreqSwpDirection::Up => 1,
        }
    }
}


impl NanonisClient {
    pub fn lockin_freq_swp_open(&mut self) -> (r: Result<(), NanonisError>)
        ensures
            sent(
                old(self).transcript(),
                final(self).transcript(),
                "LockInFreqSwp.Open"@,
                Seq::empty(),
                Seq::empty(),
                Seq::empty(),
            ),
            match r {
                Ok(()) => final(self).transcript().last().response == Some(Seq::<ValV>::empty()),
                Err(e) => final(self).transcript().last().response is None && transport_err(e),
            },
    {
        let args: Vec<NanonisValue> = vec![];
        let codes: Vec<TypeCode> = vec![];
        proof {
            reveal_strlit("LockInFreqSwp.Open");
            vstd::utf8::is_ascii_chars_encode_utf8("LockInFreqSwp.Open"@);
            assert(views_of(args@) =~= Seq::<ValV>::empty());
            assert(codes@ =~= Seq::<TypeCode>::empty());
            lemma_scalar_frame(views_of(args@), codes@);
        }
        let rcodes: Vec<TypeCode> = vec![];
        proof {
            assert(rcodes@ =~= Seq::<TypeCode>::empty());
        }
        match self.quick_send("LockInFreqSwp.Open", args, codes, rcodes) {
            Ok(vs_) => {
                proof {
                    assert(views_of(vs_@) =~= Seq::<ValV>::empty());
                }
                Ok(())
            },
            Err(e) => Err(e),
        }
    }

    pub fn lockin_freq_swp_signal_set(&mut self, signal_index: i32) -> (r: Result<(), NanonisError>)
        ensures
            sent(
                old(self).transcript(),
                final(self).transcript(),
                "LockInFreqSwp.SignalSet"@,
                seq![ValV::I32(signal_index)],
                seq![TypeCode::I32],
                Seq::empty(),
            ),
            match r {
                Ok(()) => final(self).transcript().last().response == Some(Seq::<ValV>::empty()),
                Err(e) => final(self).transcript().last().response is None && transport_err(e),
            },
    {
        let args: Vec<NanonisValue> = vec![NanonisValue::I32(signal_index)];
        let codes: Vec<TypeCode> = vec![TypeCode::I32];
        proof {
            reveal_strlit("LockInFreqSwp.SignalSet");
            vstd::utf8::is_ascii_chars_encode_utf8("LockInFreqSwp.SignalSet"@);
            assert(views_of(args@) =~= seq![ValV::I32(signal_index)]);
            assert(codes@ =~= seq![TypeCode::I32]);
            lemma_scalar_frame(views_of(args@), codes@);
        }
        let rcodes: Vec<TypeCode> = vec![];
        proof {
            assert(rcodes@ =~= Seq::<TypeCode>::empty());
        }
        match self.quick_send("LockInFreqSwp.SignalSet", args, codes, rcodes) {
            Ok(vs_) => {
                proof {
                    assert(views_of(vs_@) =~= Seq::<ValV>::empty());
                }
                Ok(())
            },
            Err(e) => Err(e),
        }
    }

    pub fn lockin_freq_swp_signal_get(&mut self) -> (r: Result<i32, NanonisError>)
        ensures
            sent(
                old(self).transcript(),
                final(self).transcript(),
                "LockInFreqSwp.SignalGet"@,
                Seq::empty(),
                Seq::empty(),
                seq![TypeCode::I32],
            ),
            match r {
                Ok(v) => final(self).transcript().last().response matches Some(vals)
                    && vals.len() == 1 && v == vals[0]->I32_0,
                Err(e) => final(self).transcript().last().response is None && transport_err(e),
            },
    {
        let args: Vec<NanonisValue> = vec![];
        let codes: Vec<TypeCode> = vec![];
        proof {
            reveal_strlit("LockInFreqSwp.SignalGet");
            vstd::utf8::is_ascii_chars_encode_utf8("LockInFreqSwp.SignalGet"@);
            assert(views_of(args@) =~= Seq::<ValV>::empty());
            assert(codes@ =~= Seq::<TypeCode>::empty());
            lemma_scalar_frame(views_of(args@), codes@);
        }
        let rcodes: Vec<TypeCode> = vec![TypeCode::I32];
        proof {
            assert(rcodes@ =~= seq![TypeCode::I32]);
        }
        let result = match self.quick_send("LockInFreqSwp.SignalGet", args, codes, rcodes) {
            Ok(v) => v,
            Err(e) => {
                return Err(e);
            },
        };
        proof {
            assert(views_of(result@)[0] == result@[0]@);
        }
        if !result.is_empty() {
            Ok(result[0].as_i32()?)
        } else {
            Err(NanonisError::Protocol("Invalid response".to_string()))
        }
    }

}

} // verus!
