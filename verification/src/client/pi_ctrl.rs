//! PI controller commands.

use vstd::prelude::*;

use crate::client::{lemma_scalar_frame, sent, transport_err, NanonisClient};
use crate::codec::views_of;
use crate::codes::TypeCode;
use crate::error::NanonisError;
use crate::value::{NanonisValue, ValV};

verus! {

/// The slope of the PI controller.
#[derive(Debug, Clone, Copy, PartialEq, Eq, Structural)]
pub enum PISlope {
    /// No change to current setting
    NoChange,
    /// Positive slope
    Positive,
    /// Negative slope
    Negative,
}

impl PISlope {
    /// The wire value of the selector.
    pub open spec fn wire(self) -> u16 {
        match self {
            PISlope::NoChange => 0,
            PISlope::Positive => 1,
            PISlope::Negative => 2,
        }
    }

    /// The wire value of the selector.
    pub fn as_u16(self) -> (r: u16)
        ensures
            r == self.wire(),
    {
        match self {
            PISlope::NoChange => 0,
            PISlope::Positive => 1,
            PISlope::Negative => 2,
        }
    }
}

#[derive(Debug, Clone)]
pub struct ControlSignalInfo {
    /// Currently selected signal index
    pub current_index: i32,
    /// Names of available signals
    pub signal_names: Vec<String>,
    /// Indexes of available signals
    pub signal_indexes: Vec<i32>,
}


impl NanonisClient {
    pub fn pi_ctrl_on_off_set(
        &mut self,
        controller_index: i32,
        enabled: bool,
    ) -> (r: Result<(), NanonisError>)
        ensures
            sent(
                old(self).transcript(),
                final(self).transcript(),
                "PICtrl.OnOffSet"@,
                seq![ValV::I32(controller_index), ValV::U32((if enabled { 1u32 } else { 0u32 }))],
                seq![TypeCode::I32, TypeCode::U32],
                Seq::empty(),
            ),
            match r {
                Ok(()) => final(self).transcript().last().response == Some(Seq::<ValV>::empty()),
                Err(e) => final(self).transcript().last().response is None && transport_err(e),
            },
    {

        let status = if enabled { 1u32 } else { 0u32 };
        let args: Vec<NanonisValue> = vec![NanonisValue::I32(controller_index),
                NanonisValue::U32(status),];
        let codes: Vec<TypeCode> = vec![TypeCode::I32, TypeCode::U32];
        proof {
            reveal_strlit("PICtrl.OnOffSet");
            vstd::utf8::is_ascii_chars_encode_utf8("PICtrl.OnOffSet"@);
            assert(views_of(args@) =~= seq![ValV::I32(controller_index), ValV::U32((if enabled { 1u32 } else { 0u32 }))]);
            assert(codes@ =~= seq![TypeCode::I32, TypeCode::U32]);
            lemma_scalar_frame(views_of(args@), codes@);
        }
        let rcodes: Vec<TypeCode> = vec![];
        proof {
            assert(rcodes@ =~= Seq::<TypeCode>::empty());
        }
        match self.quick_send("PICtrl.OnOffSet", args, codes, rcodes) {
            Ok(vs_) => {
                proof {
                    assert(views_of(vs_@) =~= Seq::<ValV>::empty());
                }
                Ok(())
            },
            Err(e) => Err(e),
        }
    }

    pub fn pi_ctrl_on_off_get(&mut self, controller_index: i32) -> (r: Result<bool, NanonisError>)
        ensures
            sent(
                old(self).transcript(),
                final(self).transcript(),
                "PICtrl.OnOffGet"@,
                seq![ValV::I32(controller_index)],
                seq![TypeCode::I32],
                seq![TypeCode::U32],
            ),
            match r {
                Ok(v) => final(self).transcript().last().response matches Some(vals)
                    && vals.len() == 1 && v == (vals[0]->U32_0 != 0),
                Err(e) => final(self).transcript().last().response is None && transport_err(e),
            },
    {
        let args: Vec<NanonisValue> = vec![NanonisValue::I32(controller_index)];
        let codes: Vec<TypeCode> = vec![TypeCode::I32];
        proof {
            reveal_strlit("PICtrl.OnOffGet");
            vstd::utf8::is_ascii_chars_encode_utf8("PICtrl.OnOffGet"@);
            assert(views_of(args@) =~= seq![ValV::I32(controller_index)]);
            assert(codes@ =~= seq![TypeCode::I32]);
            lemma_scalar_frame(views_of(args@), codes@);
        }
        let rcodes: Vec<TypeCode> = vec![TypeCode::U32];
        proof {
            assert(rcodes@ =~= seq![TypeCode::U32]);
        }
        let result = match self.quick_send("PICtrl.OnOffGet", args, codes, rcodes) {
            Ok(v) => v,
            Err(e) => {
                return Err(e);
            },
        };
        proof {
            assert(views_of(result@)[0] == result@[0]@);
        }
        if !result.is_empty() {
            Ok(result[0].as_u32()? != 0)
        } else {
            Err(NanonisError::Protocol("Invalid response".to_string()))
        }
    }

    pub fn pi_ctrl_ctrl_ch_set(
        &mut self,
        controller_index: i32,
        signal_index: i32,
    ) -> (r: Result<(), NanonisError>)
        ensures
            sent(
                old(self).transcript(),
                final(self).transcript(),
                "PICtrl.CtrlChSet"@,
                seq![ValV::I32(controller_index), ValV::I32(signal_index)],
                seq![TypeCode::I32, TypeCode::I32],
                Seq::empty(),
            ),
            match r {
                Ok(()) => final(self).transcript().last().response == Some(Seq::<ValV>::empty()),
                Err(e) => final(self).transcript().last().response is None && transport_err(e),
            },
    {
        let args: Vec<NanonisValue> = vec![NanonisValue::I32(controller_index),
                NanonisValue::I32(signal_index),];
        let codes: Vec<TypeCode> = vec![TypeCode::I32, TypeCode::I32];
        proof {
            reveal_strlit("PICtrl.CtrlChSet");
            vstd::utf8::is_ascii_chars_encode_utf8("PICtrl.CtrlChSet"@);
            assert(views_of(args@) =~= seq![ValV::I32(controller_index), ValV::I32(signal_index)]);
            assert(codes@ =~= seq![TypeCode::I32, TypeCode::I32]);
            lemma_scalar_frame(views_of(args@), codes@);
        }
        let rcodes: Vec<TypeCode> = vec![];
        proof {
            assert(rcodes@ =~= Seq::<TypeCode>::empty());
        }
        match self.quick_send("PICtrl.CtrlChSet", args, codes, rcodes) {
            Ok(vs_) => {
                proof {
                    assert(views_of(vs_@) =~= Seq::<ValV>::empty());
                }
                Ok(())
            },
            Err(e) => Err(e),
        }
    }

    pub fn pi_ctrl_ctrl_ch_get(
        &mut self,
        controller_index: i32,
    ) -> (r: Result<ControlSignalInfo, NanonisError>) {
        let result = self.quick_send(
            "PICtrl.CtrlChGet",
            vec![NanonisValue::I32(controller_index)],
            vec![TypeCode::I32],
            vec![TypeCode::I32, TypeCode::I32, TypeCode::I32, TypeCode::StrArrayPrev, TypeCode::I32, TypeCode::ArrI32Prev],
        )?;

        if result.len() >= 6 {
            Ok(ControlSignalInfo {
                current_index: result[0].as_i32()?,
                signal_names: result[3].as_string_array()?.clone(),
                signal_indexes: result[5].as_i32_array()?.clone(),
            })
        } else {
            Err(NanonisError::Protocol("Invalid response".to_string()))
        }
    }

    pub fn pi_ctrl_input_ch_set(
        &mut self,
        controller_index: i32,
        input_index: i32,
    ) -> (r: Result<(), NanonisError>)
        ensures
            sent(
                old(self).transcript(),
                final(self).transcript(),
                "PICtrl.InputChSet"@,
                seq![ValV::I32(controller_index), ValV::I32(input_index)],
                seq![TypeCode::I32, TypeCode::I32],
                Seq::empty(),
            ),
            match r {
                Ok(()) => final(self).transcript().last().response == Some(Seq::<ValV>::empty()),
                Err(e) => final(self).transcript().last().response is None && transport_err(e),
            },
    {
        let args: Vec<NanonisValue> = vec![NanonisValue::I32(controller_index),
                NanonisValue::I32(input_index),];
        let codes: Vec<TypeCode> = vec![TypeCode::I32, TypeCode::I32];
        proof {
            reveal_strlit("PICtrl.InputChSet");
            vstd::utf8::is_ascii_chars_encode_utf8("PICtrl.InputChSet"@);
            assert(views_of(args@) =~= seq![ValV::I32(controller_index), ValV::I32(input_index)]);
            assert(codes@ =~= seq![TypeCode::I32, TypeCode::I32]);
            lemma_scalar_frame(views_of(args@), codes@);
        }
        let rcodes: Vec<TypeCode> = vec![];
        proof {
            assert(rcodes@ =~= Seq::<TypeCode>::empty());
        }
        match self.quick_send("PICtrl.InputChSet", args, codes, rcodes) {
            Ok(vs_) => {
                proof {
                    assert(views_of(vs_@) =~= Seq::<ValV>::empty());
                }
                Ok(())
            },
            Err(e) => Err(e),
        }
    }

    pub fn pi_ctrl_input_ch_get(
        &mut self,
        controller_index: i32,
    ) -> (r: Result<ControlSignalInfo, NanonisError>) {
        let result = self.quick_send(
            "PICtrl.InputChGet",
            vec![NanonisValue::I32(controller_index)],
            vec![TypeCode::I32],
            vec![TypeCode::I32, TypeCode::I32, TypeCode::I32, TypeCode::StrArrayPrev, TypeCode::I32, TypeCode::ArrI32Prev],
        )?;

        if result.len() >= 6 {
            Ok(ControlSignalInfo {
                current_index: result[0].as_i32()?,
                signal_names: result[3].as_string_array()?.clone(),
                signal_indexes: result[5].as_i32_array()?.clone(),
            })
        } else {
            Err(NanonisError::Protocol("Invalid response".to_string()))
        }
    }

}

} // verus!
