//! Beam deflection commands.

use vstd::prelude::*;

use crate::client::{lemma_scalar_frame, sent, transport_err, NanonisClient};
use crate::codec::views_of;
use crate::codes::TypeCode;
use crate::error::NanonisError;
use crate::value::{NanonisValue, ValV};

verus! {

/// Which beam-deflection signal is offset.
#[derive(Debug, Clone, Copy, PartialEq, Eq, Structural)]
pub enum DeflectionSignal {
    /// Horizontal deflection
    Horizontal,
    /// Vertical deflection
    Vertical,
    /// Beam intensity
    Intensity,
}

impl DeflectionSignal {
    /// The wire value of the selector.
    pub open spec fn wire(self) -> u16 {
        match self {
            DeflectionSignal::Horizontal => 0,
            DeflectionSignal::Vertical => 1,
            DeflectionSignal::Intensity => 2,
        }
    }

    /// The wire value of the selector.
    pub fn as_u16(self) -> (r: u16)
        ensures
            r == self.wire(),
    {
        match self {
            DeflectionSignal::Horizontal => 0,
            DeflectionSignal::Vertical => 1,
            DeflectionSignal::Intensity => 2,
        }
    }
}


impl NanonisClient {
    pub fn beam_defl_auto_offset(&mut self, signal: DeflectionSignal) -> (r: Result<(), NanonisError>)
        ensures
            sent(
                old(self).transcript(),
                final(self).transcript(),
                "BeamDefl.AutoOffset"@,
                seq![ValV::U16(signal.wire())],
                seq![TypeCode::U16],
                Seq::empty(),
            ),
            match r {
                Ok(()) => final(self).transcript().last().response == Some(Seq::<ValV>::empty()),
                Err(e) => final(self).transcript().last().response is None && transport_err(e),
            },
    {
        let args: Vec<NanonisValue> = vec![NanonisValue::U16(signal.as_u16())];
        let codes: Vec<TypeCode> = vec![TypeCode::U16];
        proof {
            reveal_strlit("BeamDefl.AutoOffset");
            vstd::utf8::is_ascii_chars_encode_utf8("BeamDefl.AutoOffset"@);
            assert(views_of(args@) =~= seq![ValV::U16(signal.wire())]);
            assert(codes@ =~= seq![TypeCode::U16]);
            lemma_scalar_frame(views_of(args@), codes@);
        }
        let rcodes: Vec<TypeCode> = vec![];
        proof {
            assert(rcodes@ =~= Seq::<TypeCode>::empty());
        }
        match self.quick_send("BeamDefl.AutoOffset", args, codes, rcodes) {
            Ok(vs_) => {
                proof {
                    assert(views_of(vs_@) =~= Seq::<ValV>::empty());
                }
                Ok(())
            },
            Err(e) => Err(e),
        }
    }

}

} // verus!
