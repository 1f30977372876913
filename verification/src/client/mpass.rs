//! Multi-pass commands.

use vstd::prelude::*;

use crate::client::{lemma_scalar_frame, sent, transport_err, NanonisClient};
use crate::codec::views_of;
use crate::codes::TypeCode;
use crate::error::NanonisError;
use crate::value::{NanonisValue, ValV};

verus! {

impl NanonisClient {
    pub fn mpass_activate(&mut self, on: bool) -> (r: Result<(), NanonisError>)
        ensures
            sent(
                old(self).transcript(),
                final(self).transcript(),
                "MPass.Activate"@,
                seq![ValV::U32(if on { 1 } else { 0 })],
                seq![TypeCode::U32],
                Seq::empty(),
            ),
            match r {
                Ok(()) => final(self).transcript().last().response == Some(Seq::<ValV>::empty()),
                Err(e) => final(self).transcript().last().response is None && transport_err(e),
            },
    {
        let args: Vec<NanonisValue> = vec![NanonisValue::U32(if on { 1 } else { 0 })];
        let codes: Vec<TypeCode> = vec![TypeCode::U32];
        proof {
            reveal_strlit("MPass.Activate");
            vstd::utf8::is_ascii_chars_encode_utf8("MPass.Activate"@);
            assert(views_of(args@) =~= seq![ValV::U32(if on { 1 } else { 0 })]);
            assert(codes@ =~= seq![TypeCode::U32]);
            lemma_scalar_frame(views_of(args@), codes@);
        }
        let rcodes: Vec<TypeCode> = vec![];
        proof {
            assert(rcodes@ =~= Seq::<TypeCode>::empty());
        }
        match self.quick_send("MPass.Activate", args, codes, rcodes) {
            Ok(vs_) => {
                proof {
                    assert(views_of(vs_@) =~= Seq::<ValV>::empty());
                }
                Ok(())
            },
            Err(e) => Err(e),
        }
    }

    pub fn mpass_load(&mut self, file_path: &str) -> (r: Result<(), NanonisError>)
        ensures
            ({
                let req_args = seq![ValV::Str(file_path@)];
                let req_codes = seq![TypeCode::Str];
                &&& crate::client::frame_ok("MPass.Load"@, req_args, req_codes) ==> sent(
                    old(self).transcript(),
                    final(self).transcript(),
                    "MPass.Load"@,
                    req_args,
                    req_codes,
                    Seq::empty(),
                ) && (match r {
                    Ok(()) => final(self).transcript().last().response == Some(
                        Seq::<ValV>::empty(),
                    ),
                    Err(e) => final(self).transcript().last().response is None && transport_err(
                        e,
                    ),
                })
                &&& !crate::client::frame_ok("MPass.Load"@, req_args, req_codes) ==> final(self).transcript()
                    == old(self).transcript() && (r matches Err(e) && (e is InvalidInput
                    || e is Protocol))
            }),
    {
        let args: Vec<NanonisValue> = vec![NanonisValue::String(file_path.to_owned())];
        let codes: Vec<TypeCode> = vec![TypeCode::Str];
        proof {
            reveal_strlit("MPass.Load");
            vstd::utf8::is_ascii_chars_encode_utf8("MPass.Load"@);
            assert(views_of(args@) =~= seq![ValV::Str(file_path@)]);
            assert(codes@ =~= seq![TypeCode::Str]);
        }
        let rcodes: Vec<TypeCode> = vec![];
        proof {
            assert(rcodes@ =~= Seq::<TypeCode>::empty());
        }
        match self.quick_send("MPass.Load", args, codes, rcodes) {
            Ok(vs_) => {
                proof {
                    assert(views_of(vs_@) =~= Seq::<ValV>::empty());
                }
                Ok(())
            },
            Err(e) => Err(e),
        }
    }

    pub fn mpass_save(&mut self, file_path: &str) -> (r: Result<(), NanonisError>)
        ensures
            ({
                let req_args = seq![ValV::Str(file_path@)];
                let req_codes = seq![TypeCode::Str];
                &&& crate::client::frame_ok("MPass.Save"@, req_args, req_codes) ==> sent(
                    old(self).transcript(),
                    final(self).transcript(),
                    "MPass.Save"@,
                    req_args,
                    req_codes,
                    Seq::empty(),
                ) && (match r {
                    Ok(()) => final(self).transcript().last().response == Some(
                        Seq::<ValV>::empty(),
                    ),
                    Err(e) => final(self).transcript().last().response is None && transport_err(
                        e,
                    ),
                })
                &&& !crate::client::frame_ok("MPass.Save"@, req_args, req_codes) ==> final(self).transcript()
                    == old(self).transcript() && (r matches Err(e) && (e is InvalidInput
                    || e is Protocol))
            }),
    {
        let args: Vec<NanonisValue> = vec![NanonisValue::String(file_path.to_owned())];
        let codes: Vec<TypeCode> = vec![TypeCode::Str];
        proof {
            reveal_strlit("MPass.Save");
            vstd::utf8::is_ascii_chars_encode_utf8("MPass.Save"@);
            assert(views_of(args@) =~= seq![ValV::Str(file_path@)]);
            assert(codes@ =~= seq![TypeCode::Str]);
        }
        let rcodes: Vec<TypeCode> = vec![];
        proof {
            assert(rcodes@ =~= Seq::<TypeCode>::empty());
        }
        match self.quick_send("MPass.Save", args, codes, rcodes) {
            Ok(vs_) => {
                proof {
                    assert(views_of(vs_@) =~= Seq::<ValV>::empty());
                }
                Ok(())
            },
            Err(e) => Err(e),
        }
    }

}

} // verus!
