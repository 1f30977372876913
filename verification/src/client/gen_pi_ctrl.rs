//! Generic PI controller commands.

use vstd::prelude::*;

use crate::client::{lemma_scalar_frame, sent, transport_err, NanonisClient};
use crate::codec::views_of;
use crate::codes::TypeCode;
use crate::error::NanonisError;
use crate::value::{NanonisValue, ValV};

verus! {

/// The slope of the generic PI controller.
#[derive(Debug, Clone, Copy, PartialEq, Eq, Structural)]
pub enum GenPISlope {
    /// No change to current setting
    NoChange,
    /// Positive slope
    Positive,
    /// Negative slope
    Negative,
}

impl GenPISlope {
    /// The wire value of the selector.
    pub open spec fn wire(self) -> u16 {
        match self {
            GenPISlope::NoChange => 0,
            GenPISlope::Positive => 1,
            GenPISlope::Negative => 2,
        }
    }

    /// The wire value of the selector.
    pub fn as_u16(self) -> (r: u16)
        ensures
            r == self.wire(),
    {
        match self {
            GenPISlope::NoChange => 0,
            GenPISlope::Positive => 1,
            GenPISlope::Negative => 2,
        }
    }
}

/// A three-way AC-mode setting.
#[derive(Debug, Clone, Copy, PartialEq, Eq, Structural)]
pub enum ACMode {
    /// No change to current setting
    NoChange,
    /// AC mode on
    On,
    /// AC mode off
    Off,
}

impl ACMode {
    /// The wire value of the selector.
    pub open spec fn wire(self) -> u16 {
        match self {
            ACMode::NoChange => 0,
            ACMode::On => 1,
            ACMode::Off => 2,
        }
    }

    /// The wire value of the selector.
    pub fn as_u16(self) -> (r: u16)
        ensures
            r == self.wire(),
    {
        match self {
            ACMode::NoChange => 0,
            ACMode::On => 1,
            ACMode::Off => 2,
        }
    }
}


impl NanonisClient {
    pub fn gen_pi_ctrl_on_off_set(&mut self, enabled: bool) -> (r: Result<(), NanonisError>)
        ensures
            sent(
                old(self).transcript(),
                final(self).transcript(),
                "GenPICtrl.OnOffSet"@,
                seq![ValV::U32((if enabled { 1u32 } else { 0u32 }))],
                seq![TypeCode::U32],
                Seq::empty(),
            ),
            match r {
                Ok(()) => final(self).transcript().last().response == Some(Seq::<ValV>::empty()),
                Err(e) => final(self).transcript().last().response is None && transport_err(e),
            },
    {

        let status = if enabled { 1u32 } else { 0u32 };
        let args: Vec<NanonisValue> = vec![NanonisValue::U32(status)];
        let codes: Vec<TypeCode> = vec![TypeCode::U32];
        proof {
            reveal_strlit("GenPICtrl.OnOffSet");
            vstd::utf8::is_ascii_chars_encode_utf8("GenPICtrl.OnOffSet"@);
            assert(views_of(args@) =~= seq![ValV::U32((if enabled { 1u32 } else { 0u32 }))]);
            assert(codes@ =~= seq![TypeCode::U32]);
            lemma_scalar_frame(views_of(args@), codes@);
        }
        let rcodes: Vec<TypeCode> = vec![];
        proof {
            assert(rcodes@ =~= Seq::<TypeCode>::empty());
        }
        match self.quick_send("GenPICtrl.OnOffSet", args, codes, rcodes) {
            Ok(vs_) => {
                proof {
                    assert(views_of(vs_@) =~= Seq::<ValV>::empty());
                }
                Ok(())
            },
            Err(e) => Err(e),
        }
    }

    pub fn gen_pi_ctrl_on_off_get(&mut self) -> (r: Result<bool, NanonisError>)
        ensures
            sent(
                old(self).transcript(),
                final(self).transcript(),
                "GenPICtrl.OnOffGet"@,
                Seq::empty(),
                Seq::empty(),
                seq![TypeCode::U32],
            ),
            match r {
                Ok(v) => final(self).transcript().last().response matches Some(vals)
                    && vals.len() == 1 && v == (vals[0]->U32_0 != 0),
                Err(e) => final(self).transcript().last().response is None && transport_err(e),
            },
    {
        let args: Vec<NanonisValue> = vec![];
        let codes: Vec<TypeCode> = vec![];
        proof {
            reveal_strlit("GenPICtrl.OnOffGet");
            vstd::utf8::is_ascii_chars_encode_utf8("GenPICtrl.OnOffGet"@);
            assert(views_of(args@) =~= Seq::<ValV>::empty());
            assert(codes@ =~= Seq::<TypeCode>::empty());
            lemma_scalar_frame(views_of(args@), codes@);
        }
        let rcodes: Vec<TypeCode> = vec![TypeCode::U32];
        proof {
            assert(rcodes@ =~= seq![TypeCode::U32]);
        }
        let result = match self.quick_send("GenPICtrl.OnOffGet", args, codes, rcodes) {
            Ok(v) => v,
            Err(e) => {
                return Err(e);
            },
        };
        proof {
            assert(views_of(result@)[0] == result@[0]@);
        }
        if !result.is_empty() {
            Ok(result[0].as_u32()? != 0)
        } else {
            Err(NanonisError::Protocol("Invalid response".to_string()))
        }
    }

    pub fn gen_pi_ctrl_mod_ch_set(&mut self, output_index: i32) -> (r: Result<(), NanonisError>)
        ensures
            sent(
                old(self).transcript(),
                final(self).transcript(),
                "GenPICtrl.ModChSet"@,
                seq![ValV::I32(output_index)],
                seq![TypeCode::I32],
                Seq::empty(),
            ),
            match r {
                Ok(()) => final(self).transcript().last().response == Some(Seq::<ValV>::empty()),
                Err(e) => final(self).transcript().last().response is None && transport_err(e),
            },
    {
        let args: Vec<NanonisValue> = vec![NanonisValue::I32(output_index)];
        let codes: Vec<TypeCode> = vec![TypeCode::I32];
        proof {
            reveal_strlit("GenPICtrl.ModChSet");
            vstd::utf8::is_ascii_chars_encode_utf8("GenPICtrl.ModChSet"@);
            assert(views_of(args@) =~= seq![ValV::I32(output_index)]);
            assert(codes@ =~= seq![TypeCode::I32]);
            lemma_scalar_frame(views_of(args@), codes@);
        }
        let rcodes: Vec<TypeCode> = vec![];
        proof {
            assert(rcodes@ =~= Seq::<TypeCode>::empty());
        }
        match self.quick_send("GenPICtrl.ModChSet", args, codes, rcodes) {
            Ok(vs_) => {
                proof {
                    assert(views_of(vs_@) =~= Seq::<ValV>::empty());
                }
                Ok(())
            },
            Err(e) => Err(e),
        }
    }

    pub fn gen_pi_ctrl_mod_ch_get(&mut self) -> (r: Result<i32, NanonisError>)
        ensures
            sent(
                old(self).transcript(),
                final(self).transcript(),
                "GenPICtrl.ModChGet"@,
                Seq::empty(),
                Seq::empty(),
                seq![TypeCode::I32],
            ),
            match r {
                Ok(v) => final(self).transcript().last().response matches Some(vals)
                    && vals.len() == 1 && v == vals[0]->I32_0,
                Err(e) => final(self).transcript().last().response is None && transport_err(e),
            },
    {
        let args: Vec<NanonisValue> = vec![];
        let codes: Vec<TypeCode> = vec![];
        proof {
            reveal_strlit("GenPICtrl.ModChGet");
            vstd::utf8::is_ascii_chars_encode_utf8("GenPICtrl.ModChGet"@);
            assert(views_of(args@) =~= Seq::<ValV>::empty());
            assert(codes@ =~= Seq::<TypeCode>::empty());
            lemma_scalar_frame(views_of(args@), codes@);
        }
        let rcodes: Vec<TypeCode> = vec![TypeCode::I32];
        proof {
            assert(rcodes@ =~= seq![TypeCode::I32]);
        }
        let result = match self.quick_send("GenPICtrl.ModChGet", args, codes, rcodes) {
            Ok(v) => v,
            Err(e) => {
                return Err(e);
            },
        };
        proof {
            assert(views_of(result@)[0] == result@[0]@);
        }
        if !result.is_empty() {
            Ok(result[0].as_i32()?)
        } else {
            Err(NanonisError::Protocol("Invalid response".to_string()))
        }
    }

    pub fn gen_pi_ctrl_demod_ch_set(
        &mut self,
        input_index: i32,
        ac_mode: ACMode,
    ) -> (r: Result<(), NanonisError>)
        ensures
            sent(
                old(self).transcript(),
                final(self).transcript(),
                "GenPICtrl.DemodChSet"@,
                seq![ValV::I32(input_index), ValV::U16(ac_mode.wire())],
                seq![TypeCode::I32, TypeCode::U16],
                Seq::empty(),
            ),
            match r {
                Ok(()) => final(self).transcript().last().response == Some(Seq::<ValV>::empty()),
                Err(e) => final(self).transcript().last().response is None && transport_err(e),
            },
    {
        let args: Vec<NanonisValue> = vec![NanonisValue::I32(input_index),
                NanonisValue::U16(ac_mode.as_u16()),];
        let codes: Vec<TypeCode> = vec![TypeCode::I32, TypeCode::U16];
        proof {
            reveal_strlit("GenPICtrl.DemodChSet");
            vstd::utf8::is_ascii_chars_encode_utf8("GenPICtrl.DemodChSet"@);
            assert(views_of(args@) =~= seq![ValV::I32(input_index), ValV::U16(ac_mode.wire())]);
            assert(codes@ =~= seq![TypeCode::I32, TypeCode::U16]);
            lemma_scalar_frame(views_of(args@), codes@);
        }
        let rcodes: Vec<TypeCode> = vec![];
        proof {
            assert(rcodes@ =~= Seq::<TypeCode>::empty());
        }
        match self.quick_send("GenPICtrl.DemodChSet", args, codes, rcodes) {
            Ok(vs_) => {
                proof {
                    assert(views_of(vs_@) =~= Seq::<ValV>::empty());
                }
                Ok(())
            },
            Err(e) => Err(e),
        }
    }

    pub fn gen_pi_ctrl_demod_ch_get(&mut self) -> (r: Result<i32, NanonisError>)
        ensures
            sent(
                old(self).transcript(),
                final(self).transcript(),
                "GenPICtrl.DemodChGet"@,
                Seq::empty(),
                Seq::empty(),
                seq![TypeCode::I32],
            ),
            match r {
                Ok(v) => final(self).transcript().last().response matches Some(vals)
                    && vals.len() == 1 && v == vals[0]->I32_0,
                Err(e) => final(self).transcript().last().response is None && transport_err(e),
            },
    {
        let args: Vec<NanonisValue> = vec![];
        let codes: Vec<TypeCode> = vec![];
        proof {
            reveal_strlit("GenPICtrl.DemodChGet");
            vstd::utf8::is_ascii_chars_encode_utf8("GenPICtrl.DemodChGet"@);
            assert(views_of(args@) =~= Seq::<ValV>::empty());
            assert(codes@ =~= Seq::<TypeCode>::empty());
            lemma_scalar_frame(views_of(args@), codes@);
        }
        let rcodes: Vec<TypeCode> = vec![TypeCode::I32];
        proof {
            assert(rcodes@ =~= seq![TypeCode::I32]);
        }
        let result = match self.quick_send("GenPICtrl.DemodChGet", args, codes, rcodes) {
            Ok(v) => v,
            Err(e) => {
                return Err(e);
            },
        };
        proof {
            assert(views_of(result@)[0] == result@[0]@);
        }
        if !result.is_empty() {
            Ok(result[0].as_i32()?)
        } else {
            Err(NanonisError::Protocol("Invalid response".to_string()))
        }
    }

}

} // verus!
