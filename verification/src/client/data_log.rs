//! Data logger commands.

use vstd::prelude::*;

use crate::client::{lemma_scalar_frame, sent, transport_err, NanonisClient};
use crate::codec::views_of;
use crate::codes::TypeCode;
use crate::error::NanonisError;
use crate::value::{NanonisValue, ValV};

verus! {

/// How the data logger acquires.
#[derive(Debug, Clone, Copy, PartialEq, Eq, Structural)]
pub enum DataLogAcqMode {
    /// No change to current mode
    NoChange,
    /// Continuous acquisition until stopped
    Continuous,
    /// Timed acquisition for set duration
    Timed,
}

impl DataLogAcqMode {
    /// The wire value of the selector.
    pub open spec fn wire(self) -> u16 {
        match self {
            DataLogAcqMode::NoChange => 0,
            DataLogAcqMode::Continuous => 1,
            DataLogAcqMode::Timed => 2,
        }
    }

    /// The wire value of the selector.
    pub fn as_u16(self) -> (r: u16)
        ensures
            r == self.wire(),
    {
        match self {
            DataLogAcqMode::NoChange => 0,
            DataLogAcqMode::Continuous => 1,
            DataLogAcqMode::Timed => 2,
        }
    }
}


impl NanonisClient {
    pub fn data_log_open(&mut self) -> (r: Result<(), NanonisError>)
        ensures
            sent(
                old(self).transcript(),
                final(self).transcript(),
                "DataLog.Open"@,
                Seq::empty(),
                Seq::empty(),
                Seq::empty(),
            ),
            match r {
                Ok(()) => final(self).transcript().last().response == Some(Seq::<ValV>::empty()),
                Err(e) => final(self).transcript().last().response is None && transport_err(e),
            },
    {
        let args: Vec<NanonisValue> = vec![];
        let codes: Vec<TypeCode> = vec![];
        proof {
            reveal_strlit("DataLog.Open");
            vstd::utf8::is_ascii_chars_encode_utf8("DataLog.Open"@);
            assert(views_of(args@) =~= Seq::<ValV>::empty());
            assert(codes@ =~= Seq::<TypeCode>::empty());
            lemma_scalar_frame(views_of(args@), codes@);
        }
        let rcodes: Vec<TypeCode> = vec![];
        proof {
            assert(rcodes@ =~= Seq::<TypeCode>::empty());
        }
        match self.quick_send("DataLog.Open", args, codes, rcodes) {
            Ok(vs_) => {
                proof {
                    assert(views_of(vs_@) =~= Seq::<ValV>::empty());
                }
                Ok(())
            },
            Err(e) => Err(e),
        }
    }

    pub fn data_log_start(&mut self) -> (r: Result<(), NanonisError>)
        ensures
            sent(
                old(self).transcript(),
                final(self).transcript(),
                "DataLog.Start"@,
                Seq::empty(),
                Seq::empty(),
                Seq::empty(),
            ),
            match r {
                Ok(()) => final(self).transcript().last().response == Some(Seq::<ValV>::empty()),
                Err(e) => final(self).transcript().last().response is None && transport_err(e),
            },
    {
        let args: Vec<NanonisValue> = vec![];
        let codes: Vec<TypeCode> = vec![];
        proof {
            reveal_strlit("DataLog.Start");
            vstd::utf8::is_ascii_chars_encode_utf8("DataLog.Start"@);
            assert(views_of(args@) =~= Seq::<ValV>::empty());
            assert(codes@ =~= Seq::<TypeCode>::empty());
            lemma_scalar_frame(views_of(args@), codes@);
        }
        let rcodes: Vec<TypeCode> = vec![];
        proof {
            assert(rcodes@ =~= Seq::<TypeCode>::empty());
        }
        match self.quick_send("DataLog.Start", args, codes, rcodes) {
            Ok(vs_) => {
                proof {
                    assert(views_of(vs_@) =~= Seq::<ValV>::empty());
                }
                Ok(())
            },
            Err(e) => Err(e),
        }
    }

    pub fn data_log_stop(&mut self) -> (r: Result<(), NanonisError>)
        ensures
            sent(
                old(self).transcript(),
                final(self).transcript(),
                "DataLog.Stop"@,
                Seq::empty(),
                Seq::empty(),
                Seq::empty(),
            ),
            match r {
                Ok(()) => final(self).transcript().last().response == Some(Seq::<ValV>::empty()),
                Err(e) => final(self).transcript().last().response is None && transport_err(e),
            },
    {
        let args: Vec<NanonisValue> = vec![];
        let codes: Vec<TypeCode> = vec![];
        proof {
            reveal_strlit("DataLog.Stop");
            vstd::utf8::is_ascii_chars_encode_utf8("DataLog.Stop"@);
            assert(views_of(args@) =~= Seq::<ValV>::empty());
            assert(codes@ =~= Seq::<TypeCode>::empty());
            lemma_scalar_frame(views_of(args@), codes@);
        }
        let rcodes: Vec<TypeCode> = vec![];
        proof {
            assert(rcodes@ =~= Seq::<TypeCode>::empty());
        }
        match self.quick_send("DataLog.Stop", args, codes, rcodes) {
            Ok(vs_) => {
                proof {
                    assert(views_of(vs_@) =~= Seq::<ValV>::empty());
                }
                Ok(())
            },
            Err(e) => Err(e),
        }
    }

    pub fn data_log_chs_set(&mut self, channel_indexes: &Vec<i32>) -> (r: Result<(), NanonisError>)
        ensures
            ({
                let req_args = seq![ValV::ArrI32(channel_indexes@)];
                let req_codes = seq![TypeCode::ArrI32];
                &&& crate::client::frame_ok("DataLog.ChsSet"@, req_args, req_codes) ==> sent(
                    old(self).transcript(),
                    final(self).transcript(),
                    "DataLog.ChsSet"@,
                    req_args,
                    req_codes,
                    Seq::empty(),
                ) && (match r {
                    Ok(()) => final(self).transcript().last().response == Some(
                        Seq::<ValV>::empty(),
                    ),
                    Err(e) => final(self).transcript().last().response is None && transport_err(
                        e,
                    ),
                })
                &&& !crate::client::frame_ok("DataLog.ChsSet"@, req_args, req_codes) ==> final(self).transcript()
                    == old(self).transcript() && (r matches Err(e) && (e is InvalidInput
                    || e is Protocol))
            }),
    {
        let args: Vec<NanonisValue> = vec![NanonisValue::ArrayI32(channel_indexes.clone())];
        let codes: Vec<TypeCode> = vec![TypeCode::ArrI32];
        proof {
            reveal_strlit("DataLog.ChsSet");
            vstd::utf8::is_ascii_chars_encode_utf8("DataLog.ChsSet"@);
            assert(views_of(args@) =~= seq![ValV::ArrI32(channel_indexes@)]);
            assert(codes@ =~= seq![TypeCode::ArrI32]);
        }
        let rcodes: Vec<TypeCode> = vec![];
        proof {
            assert(rcodes@ =~= Seq::<TypeCode>::empty());
        }
        match self.quick_send("DataLog.ChsSet", args, codes, rcodes) {
            Ok(vs_) => {
                proof {
                    assert(views_of(vs_@) =~= Seq::<ValV>::empty());
                }
                Ok(())
            },
            Err(e) => Err(e),
        }
    }

    pub fn data_log_chs_get(&mut self) -> (r: Result<Vec<i32>, NanonisError>) {
        let result = self.quick_send("DataLog.ChsGet", vec![], vec![], vec![TypeCode::I32, TypeCode::ArrI32Prev])?;

        if result.len() >= 2 {
            Ok(result[1].as_i32_array()?.clone())
        } else {
            Err(NanonisError::Protocol("Invalid response".to_string()))
        }
    }

}

} // verus!
