//! Generic sweeper commands.

use vstd::prelude::*;

use crate::client::{lemma_scalar_frame, sent, transport_err, NanonisClient};
use crate::codec::views_of;
use crate::codes::TypeCode;
use crate::error::NanonisError;
use crate::value::{NanonisValue, ValV};

verus! {

impl NanonisClient {
    pub fn gen_swp_open(&mut self) -> (r: Result<(), NanonisError>)
        ensures
            sent(
                old(self).transcript(),
                final(self).transcript(),
                "GenSwp.Open"@,
                Seq::empty(),
                Seq::empty(),
                Seq::empty(),
            ),
            match r {
                Ok(()) => final(self).transcript().last().response == Some(Seq::<ValV>::empty()),
                Err(e) => final(self).transcript().last().response is None && transport_err(e),
            },
    {
        let args: Vec<NanonisValue> = vec![];
        let codes: Vec<TypeCode> = vec![];
        proof {
            reveal_strlit("GenSwp.Open");
            vstd::utf8::is_ascii_chars_encode_utf8("GenSwp.Open"@);
            assert(views_of(args@) =~= Seq::<ValV>::empty());
            assert(codes@ =~= Seq::<TypeCode>::empty());
            lemma_scalar_frame(views_of(args@), codes@);
        }
        let rcodes: Vec<TypeCode> = vec![];
        proof {
            assert(rcodes@ =~= Seq::<TypeCode>::empty());
        }
        match self.quick_send("GenSwp.Open", args, codes, rcodes) {
            Ok(vs_) => {
                proof {
                    assert(views_of(vs_@) =~= Seq::<ValV>::empty());
                }
                Ok(())
            },
            Err(e) => Err(e),
        }
    }

    pub fn gen_swp_acq_chs_set(
        &mut self,
        channel_indexes: &Vec<i32>,
        channel_names: &Vec<String>,
    ) -> (r: Result<(), NanonisError>) {
        self.quick_send(
            "GenSwp.AcqChsSet",
            vec![
                NanonisValue::ArrayI32(channel_indexes.clone()),
                NanonisValue::ArrayString(channel_names.clone()),
            ],
            vec![TypeCode::ArrI32, TypeCode::StrArrayPrev],
            vec![],
        )?;
        Ok(())
    }

    pub fn gen_swp_acq_chs_get(&mut self) -> (r: Result<(Vec<i32>, Vec<String>), NanonisError>) {
        let result = self.quick_send(
            "GenSwp.AcqChsGet",
            vec![],
            vec![],
            vec![TypeCode::I32, TypeCode::ArrI32Prev, TypeCode::I32, TypeCode::I32, TypeCode::StrArrayPrev],
        )?;

        if result.len() >= 5 {
            let indexes = result[1].as_i32_array()?.clone();
            let names = result[4].as_string_array()?.clone();
            Ok((indexes, names))
        } else {
            Err(NanonisError::Protocol("Invalid response".to_string()))
        }
    }

    pub fn gen_swp_swp_signal_set(&mut self, signal_name: &str) -> (r: Result<(), NanonisError>)
        ensures
            ({
                let req_args = seq![ValV::Str(signal_name@)];
                let req_codes = seq![TypeCode::Str];
                &&& crate::client::frame_ok("GenSwp.SwpSignalSet"@, req_args, req_codes) ==> sent(
                    old(self).transcript(),
                    final(self).transcript(),
                    "GenSwp.SwpSignalSet"@,
                    req_args,
                    req_codes,
                    Seq::empty(),
                ) && (match r {
                    Ok(()) => final(self).transcript().last().response == Some(
                        Seq::<ValV>::empty(),
                    ),
                    Err(e) => final(self).transcript().last().response is None && transport_err(
                        e,
                    ),
                })
                &&& !crate::client::frame_ok("GenSwp.SwpSignalSet"@, req_args, req_codes) ==> final(self).transcript()
                    == old(self).transcript() && (r matches Err(e) && (e is InvalidInput
                    || e is Protocol))
            }),
    {
        let args: Vec<NanonisValue> = vec![NanonisValue::String(signal_name.to_owned())];
        let codes: Vec<TypeCode> = vec![TypeCode::Str];
        proof {
            reveal_strlit("GenSwp.SwpSignalSet");
            vstd::utf8::is_ascii_chars_encode_utf8("GenSwp.SwpSignalSet"@);
            assert(views_of(args@) =~= seq![ValV::Str(signal_name@)]);
            assert(codes@ =~= seq![TypeCode::Str]);
        }
        let rcodes: Vec<TypeCode> = vec![];
        proof {
            assert(rcodes@ =~= Seq::<TypeCode>::empty());
        }
        match self.quick_send("GenSwp.SwpSignalSet", args, codes, rcodes) {
            Ok(vs_) => {
                proof {
                    assert(views_of(vs_@) =~= Seq::<ValV>::empty());
                }
                Ok(())
            },
            Err(e) => Err(e),
        }
    }

    pub fn gen_swp_swp_signal_get(&mut self) -> (r: Result<String, NanonisError>)
        ensures
            sent(
                old(self).transcript(),
                final(self).transcript(),
                "GenSwp.SwpSignalGet"@,
                Seq::empty(),
                Seq::empty(),
                seq![TypeCode::I32, TypeCode::StrPrev],
            ),
            match r {
                Ok(v) => final(self).transcript().last().response matches Some(vals)
                    && vals.len() == 2 && v@ == vals[1]->Str_0,
                Err(e) => final(self).transcript().last().response is None && transport_err(e),
            },
    {
        let args: Vec<NanonisValue> = vec![];
        let codes: Vec<TypeCode> = vec![];
        proof {
            reveal_strlit("GenSwp.SwpSignalGet");
            vstd::utf8::is_ascii_chars_encode_utf8("GenSwp.SwpSignalGet"@);
            assert(views_of(args@) =~= Seq::<ValV>::empty());
            assert(codes@ =~= Seq::<TypeCode>::empty());
            lemma_scalar_frame(views_of(args@), codes@);
        }
        let rcodes: Vec<TypeCode> = vec![TypeCode::I32, TypeCode::StrPrev];
        proof {
            assert(rcodes@ =~= seq![TypeCode::I32, TypeCode::StrPrev]);
        }
        let result = match self.quick_send("GenSwp.SwpSignalGet", args, codes, rcodes) {
            Ok(v) => v,
            Err(e) => {
                return Err(e);
            },
        };
        proof {
            assert(views_of(result@)[1] == result@[1]@);
        }
        if result.len() >= 2 {
            Ok(result[1].as_string()?.clone())
        } else {
            Err(NanonisError::Protocol("Invalid response".to_string()))
        }
    }

    pub fn gen_swp_swp_signal_list_get(&mut self) -> (r: Result<Vec<String>, NanonisError>) {
        let result =
            self.quick_send("GenSwp.SwpSignalListGet", vec![], vec![], vec![TypeCode::I32, TypeCode::I32, TypeCode::StrArrayPrev])?;

        if result.len() >= 3 {
            Ok(result[2].as_string_array()?.clone())
        } else {
            Err(NanonisError::Protocol("Invalid response".to_string()))
        }
    }

    pub fn gen_swp_stop(&mut self) -> (r: Result<(), NanonisError>)
        ensures
            sent(
                old(self).transcript(),
                final(self).transcript(),
                "GenSwp.Stop"@,
                Seq::empty(),
                Seq::empty(),
                Seq::empty(),
            ),
            match r {
                Ok(()) => final(self).transcript().last().response == Some(Seq::<ValV>::empty()),
                Err(e) => final(self).transcript().last().response is None && transport_err(e),
            },
    {
        let args: Vec<NanonisValue> = vec![];
        let codes: Vec<TypeCode> = vec![];
        proof {
            reveal_strlit("GenSwp.Stop");
            vstd::utf8::is_ascii_chars_encode_utf8("GenSwp.Stop"@);
            assert(views_of(args@) =~= Seq::<ValV>::empty());
            assert(codes@ =~= Seq::<TypeCode>::empty());
            lemma_scalar_frame(views_of(args@), codes@);
        }
        let rcodes: Vec<TypeCode> = vec![];
        proof {
            assert(rcodes@ =~= Seq::<TypeCode>::empty());
        }
        match self.quick_send("GenSwp.Stop", args, codes, rcodes) {
            Ok(vs_) => {
                proof {
                    assert(views_of(vs_@) =~= Seq::<ValV>::empty());
                }
                Ok(())
            },
            Err(e) => Err(e),
        }
    }

}

} // verus!
