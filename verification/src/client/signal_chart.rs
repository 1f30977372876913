//! Signal chart commands.

use vstd::prelude::*;

use crate::client::{lemma_scalar_frame, sent, transport_err, NanonisClient};
use crate::codec::views_of;
use crate::codes::TypeCode;
use crate::error::NanonisError;
use crate::value::{NanonisValue, ValV};

verus! {

#[derive(Debug, Clone, Copy, PartialEq, Eq, Structural)]
pub struct SignalChartChannels {
    /// Channel A signal index (-1 for none)
    pub channel_a_index: i32,
    /// Channel B signal index (-1 for none)
    pub channel_b_index: i32,
}


impl NanonisClient {
    pub fn signal_chart_open(&mut self) -> (r: Result<(), NanonisError>)
        ensures
            sent(
                old(self).transcript(),
                final(self).transcript(),
                "SignalChart.Open"@,
                Seq::empty(),
                Seq::empty(),
                Seq::empty(),
            ),
            match r {
                Ok(()) => final(self).transcript().last().response == Some(Seq::<ValV>::empty()),
                Err(e) => final(self).transcript().last().response is None && transport_err(e),
            },
    {
        let args: Vec<NanonisValue> = vec![];
        let codes: Vec<TypeCode> = vec![];
        proof {
            reveal_strlit("SignalChart.Open");
            vstd::utf8::is_ascii_chars_encode_utf8("SignalChart.Open"@);
            assert(views_of(args@) =~= Seq::<ValV>::empty());
            assert(codes@ =~= Seq::<TypeCode>::empty());
            lemma_scalar_frame(views_of(args@), codes@);
        }
        let rcodes: Vec<TypeCode> = vec![];
        proof {
            assert(rcodes@ =~= Seq::<TypeCode>::empty());
        }
        match self.quick_send("SignalChart.Open", args, codes, rcodes) {
            Ok(vs_) => {
                proof {
                    assert(views_of(vs_@) =~= Seq::<ValV>::empty());
                }
                Ok(())
            },
            Err(e) => Err(e),
        }
    }

    pub fn signal_chart_chs_set(
        &mut self,
        channels: &SignalChartChannels,
    ) -> (r: Result<(), NanonisError>)
        ensures
            sent(
                old(self).transcript(),
                final(self).transcript(),
                "SignalChart.ChsSet"@,
                seq![ValV::I32(channels.channel_a_index), ValV::I32(channels.channel_b_index)],
                seq![TypeCode::I32, TypeCode::I32],
                Seq::empty(),
            ),
            match r {
                Ok(()) => final(self).transcript().last().response == Some(Seq::<ValV>::empty()),
                Err(e) => final(self).transcript().last().response is None && transport_err(e),
            },
    {
        let args: Vec<NanonisValue> = vec![NanonisValue::I32(channels.channel_a_index),
                NanonisValue::I32(channels.channel_b_index),];
        let codes: Vec<TypeCode> = vec![TypeCode::I32, TypeCode::I32];
        proof {
            reveal_strlit("SignalChart.ChsSet");
            vstd::utf8::is_ascii_chars_encode_utf8("SignalChart.ChsSet"@);
            assert(views_of(args@) =~= seq![ValV::I32(channels.channel_a_index), ValV::I32(channels.channel_b_index)]);
            assert(codes@ =~= seq![TypeCode::I32, TypeCode::I32]);
            lemma_scalar_frame(views_of(args@), codes@);
        }
        let rcodes: Vec<TypeCode> = vec![];
        proof {
            assert(rcodes@ =~= Seq::<TypeCode>::empty());
        }
        match self.quick_send("SignalChart.ChsSet", args, codes, rcodes) {
            Ok(vs_) => {
                proof {
                    assert(views_of(vs_@) =~= Seq::<ValV>::empty());
                }
                Ok(())
            },
            Err(e) => Err(e),
        }
    }

    pub fn signal_chart_chs_get(&mut self) -> (r: Result<SignalChartChannels, NanonisError>)
        ensures
            sent(
                old(self).transcript(),
                final(self).transcript(),
                "SignalChart.ChsGet"@,
                Seq::empty(),
                Seq::empty(),
                seq![TypeCode::I32, TypeCode::I32],
            ),
            match r {
                Ok(v) => final(self).transcript().last().response matches Some(vals)
                    && vals.len() == 2 && v.channel_a_index == vals[0]->I32_0
                    && v.channel_b_index == vals[1]->I32_0,
                Err(e) => final(self).transcript().last().response is None && transport_err(e),
            },
    {
        let args: Vec<NanonisValue> = vec![];
        let codes: Vec<TypeCode> = vec![];
        proof {
            reveal_strlit("SignalChart.ChsGet");
            vstd::utf8::is_ascii_chars_encode_utf8("SignalChart.ChsGet"@);
            assert(views_of(args@) =~= Seq::<ValV>::empty());
            assert(codes@ =~= Seq::<TypeCode>::empty());
            lemma_scalar_frame(views_of(args@), codes@);
        }
        let rcodes: Vec<TypeCode> = vec![TypeCode::I32, TypeCode::I32];
        proof {
            assert(rcodes@ =~= seq![TypeCode::I32, TypeCode::I32]);
        }
        let result = match self.quick_send("SignalChart.ChsGet", args, codes, rcodes) {
            Ok(v) => v,
            Err(e) => {
                return Err(e);
            },
        };
        proof {
            assert(views_of(result@)[0] == result@[0]@);
            assert(views_of(result@)[1] == result@[1]@);
        }
        if result.len() >= 2 {
            Ok(SignalChartChannels {
                channel_a_index: result[0].as_i32()?,
                channel_b_index: result[1].as_i32()?,
            })
        } else {
            Err(NanonisError::Protocol("Invalid response".to_string()))
        }
    }

}

} // verus!
