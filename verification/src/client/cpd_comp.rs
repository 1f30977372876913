//! Contact-potential compensation commands.

use vstd::prelude::*;

use crate::client::{lemma_scalar_frame, sent, transport_err, NanonisClient};
use crate::error::NanonisError;
use crate::codec::views_of;
use crate::codes::TypeCode;
use crate::value::{NanonisValue, ValV};

verus! {

impl NanonisClient {
    pub fn cpd_comp_open(&mut self) -> (r: Result<(), NanonisError>)
        ensures
            sent(
                old(self).transcript(),
                final(self).transcript(),
                "CPDComp.Open"@,
                Seq::empty(),
                Seq::empty(),
                Seq::empty(),
            ),
            match r {
                Ok(()) => final(self).transcript().last().response == Some(Seq::<ValV>::empty()),
                Err(e) => final(self).transcript().last().response is None && transport_err(e),
            },
    {
        let args: Vec<NanonisValue> = vec![];
        let codes: Vec<TypeCode> = vec![];
        proof {
            reveal_strlit("CPDComp.Open");
            vstd::utf8::is_ascii_chars_encode_utf8("CPDComp.Open"@);
            assert(views_of(args@) =~= Seq::<ValV>::empty());
            assert(codes@ =~= Seq::<TypeCode>::empty());
            lemma_scalar_frame(views_of(args@), codes@);
        }
        let rcodes: Vec<TypeCode> = vec![];
        proof {
            assert(rcodes@ =~= Seq::<TypeCode>::empty());
        }
        match self.quick_send("CPDComp.Open", args, codes, rcodes) {
            Ok(vs_) => {
                proof {
                    assert(views_of(vs_@) =~= Seq::<ValV>::empty());
                }
                Ok(())
            },
            Err(e) => Err(e),
        }
    }

    pub fn cpd_comp_close(&mut self) -> (r: Result<(), NanonisError>)
        ensures
            sent(
                old(self).transcript(),
                final(self).transcript(),
                "CPDComp.Close"@,
                Seq::empty(),
                Seq::empty(),
                Seq::empty(),
            ),
            match r {
                Ok(()) => final(self).transcript().last().response == Some(Seq::<ValV>::empty()),
                Err(e) => final(self).transcript().last().response is None && transport_err(e),
            },
    {
        let args: Vec<NanonisValue> = vec![];
        let codes: Vec<TypeCode> = vec![];
        proof {
            reveal_strlit("CPDComp.Close");
            vstd::utf8::is_ascii_chars_encode_utf8("CPDComp.Close"@);
            assert(views_of(args@) =~= Seq::<ValV>::empty());
            assert(codes@ =~= Seq::<TypeCode>::empty());
            lemma_scalar_frame(views_of(args@), codes@);
        }
        let rcodes: Vec<TypeCode> = vec![];
        proof {
            assert(rcodes@ =~= Seq::<TypeCode>::empty());
        }
        match self.quick_send("CPDComp.Close", args, codes, rcodes) {
            Ok(vs_) => {
                proof {
                    assert(views_of(vs_@) =~= Seq::<ValV>::empty());
                }
                Ok(())
            },
            Err(e) => Err(e),
        }
    }

}

} // verus!
