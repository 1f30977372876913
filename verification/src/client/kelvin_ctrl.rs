//! Kelvin controller commands.

use vstd::prelude::*;

use crate::client::{lemma_scalar_frame, sent, transport_err, NanonisClient};
use crate::codec::views_of;
use crate::codes::TypeCode;
use crate::error::NanonisError;
use crate::value::{NanonisValue, ValV};

verus! {

/// The slope of the Kelvin controller.
#[derive(Debug, Clone, Copy, PartialEq, Eq, Structural)]
pub enum KelvinSlope {
    /// No change to current setting
    NoChange,
    /// Positive slope
    Positive,
    /// Negative slope
    Negative,
}

impl KelvinSlope {
    /// The wire value of the selector.
    pub open spec fn wire(self) -> u16 {
        match self {
            KelvinSlope::NoChange => 0,
            KelvinSlope::Positive => 1,
            KelvinSlope::Negative => 2,
        }
    }

    /// The wire value of the selector.
    pub fn as_u16(self) -> (r: u16)
        ensures
            r == self.wire(),
    {
        match self {
            KelvinSlope::NoChange => 0,
            KelvinSlope::Positive => 1,
            KelvinSlope::Negative => 2,
        }
    }
}

/// A three-way AC-mode setting of the Kelvin controller.
#[derive(Debug, Clone, Copy, PartialEq, Eq, Structural)]
pub enum KelvinACMode {
    /// No change to current setting
    NoChange,
    /// AC mode on
    On,
    /// AC mode off
    Off,
}

impl KelvinACMode {
    /// The wire value of the selector.
    pub open spec fn wire(self) -> u16 {
        match self {
            KelvinACMode::NoChange => 0,
            KelvinACMode::On => 1,
            KelvinACMode::Off => 2,
        }
    }

    /// The wire value of the selector.
    pub fn as_u16(self) -> (r: u16)
        ensures
            r == self.wire(),
    {
        match self {
            KelvinACMode::NoChange => 0,
            KelvinACMode::On => 1,
            KelvinACMode::Off => 2,
        }
    }
}

#[derive(Debug, Clone, Copy, PartialEq, Eq, Structural)]
pub struct KelvinModStatus {
    /// AC mode enabled
    pub ac_mode: bool,
    /// Modulation enabled
    pub modulation: bool,
}


impl NanonisClient {
    pub fn kelvin_ctrl_on_off_set(&mut self, enabled: bool) -> (r: Result<(), NanonisError>)
        ensures
            sent(
                old(self).transcript(),
                final(self).transcript(),
                "KelvinCtrl.CtrlOnOffSet"@,
                seq![ValV::U32((if enabled { 1u32 } else { 0u32 }))],
                seq![TypeCode::U32],
                Seq::empty(),
            ),
            match r {
                Ok(()) => final(self).transcript().last().response == Some(Seq::<ValV>::empty()),
                Err(e) => final(self).transcript().last().response is None && transport_err(e),
            },
    {

        let flag = if enabled { 1u32 } else { 0u32 };
        let args: Vec<NanonisValue> = vec![NanonisValue::U32(flag)];
        let codes: Vec<TypeCode> = vec![TypeCode::U32];
        proof {
            reveal_strlit("KelvinCtrl.CtrlOnOffSet");
            vstd::utf8::is_ascii_chars_encode_utf8("KelvinCtrl.CtrlOnOffSet"@);
            assert(views_of(args@) =~= seq![ValV::U32((if enabled { 1u32 } else { 0u32 }))]);
            assert(codes@ =~= seq![TypeCode::U32]);
            lemma_scalar_frame(views_of(args@), codes@);
        }
        let rcodes: Vec<TypeCode> = vec![];
        proof {
            assert(rcodes@ =~= Seq::<TypeCode>::empty());
        }
        match self.quick_send("KelvinCtrl.CtrlOnOffSet", args, codes, rcodes) {
            Ok(vs_) => {
                proof {
                    assert(views_of(vs_@) =~= Seq::<ValV>::empty());
                }
                Ok(())
            },
            Err(e) => Err(e),
        }
    }

    pub fn kelvin_ctrl_on_off_get(&mut self) -> (r: Result<bool, NanonisError>)
        ensures
            sent(
                old(self).transcript(),
                final(self).transcript(),
                "KelvinCtrl.CtrlOnOffGet"@,
                Seq::empty(),
                Seq::empty(),
                seq![TypeCode::U32],
            ),
            match r {
                Ok(v) => final(self).transcript().last().response matches Some(vals)
                    && vals.len() == 1 && v == (vals[0]->U32_0 != 0),
                Err(e) => final(self).transcript().last().response is None && transport_err(e),
            },
    {
        let args: Vec<NanonisValue> = vec![];
        let codes: Vec<TypeCode> = vec![];
        proof {
            reveal_strlit("KelvinCtrl.CtrlOnOffGet");
            vstd::utf8::is_ascii_chars_encode_utf8("KelvinCtrl.CtrlOnOffGet"@);
            assert(views_of(args@) =~= Seq::<ValV>::empty());
            assert(codes@ =~= Seq::<TypeCode>::empty());
            lemma_scalar_frame(views_of(args@), codes@);
        }
        let rcodes: Vec<TypeCode> = vec![TypeCode::U32];
        proof {
            assert(rcodes@ =~= seq![TypeCode::U32]);
        }
        let result = match self.quick_send("KelvinCtrl.CtrlOnOffGet", args, codes, rcodes) {
            Ok(v) => v,
            Err(e) => {
                return Err(e);
            },
        };
        proof {
            assert(views_of(result@)[0] == result@[0]@);
        }
        if !result.is_empty() {
            Ok(result[0].as_u32()? != 0)
        } else {
            Err(NanonisError::Protocol("Invalid response".to_string()))
        }
    }

    pub fn kelvin_ctrl_mod_on_off_set(
        &mut self,
        ac_mode: KelvinACMode,
        modulation: bool,
    ) -> (r: Result<(), NanonisError>)
        ensures
            sent(
                old(self).transcript(),
                final(self).transcript(),
                "KelvinCtrl.ModOnOffSet"@,
                seq![ValV::U16(ac_mode.wire()), ValV::U16((if modulation { 1u16 } else { 0u16 }))],
                seq![TypeCode::U16, TypeCode::U16],
                Seq::empty(),
            ),
            match r {
                Ok(()) => final(self).transcript().last().response == Some(Seq::<ValV>::empty()),
                Err(e) => final(self).transcript().last().response is None && transport_err(e),
            },
    {

        let mod_flag = if modulation { 1u16 } else { 0u16 };
        let args: Vec<NanonisValue> = vec![NanonisValue::U16(ac_mode.as_u16()),
                NanonisValue::U16(mod_flag),];
        let codes: Vec<TypeCode> = vec![TypeCode::U16, TypeCode::U16];
        proof {
            reveal_strlit("KelvinCtrl.ModOnOffSet");
            vstd::utf8::is_ascii_chars_encode_utf8("KelvinCtrl.ModOnOffSet"@);
            assert(views_of(args@) =~= seq![ValV::U16(ac_mode.wire()), ValV::U16((if modulation { 1u16 } else { 0u16 }))]);
            assert(codes@ =~= seq![TypeCode::U16, TypeCode::U16]);
            lemma_scalar_frame(views_of(args@), codes@);
        }
        let rcodes: Vec<TypeCode> = vec![];
        proof {
            assert(rcodes@ =~= Seq::<TypeCode>::empty());
        }
        match self.quick_send("KelvinCtrl.ModOnOffSet", args, codes, rcodes) {
            Ok(vs_) => {
                proof {
                    assert(views_of(vs_@) =~= Seq::<ValV>::empty());
                }
                Ok(())
            },
            Err(e) => Err(e),
        }
    }

    pub fn kelvin_ctrl_mod_on_off_get(&mut self) -> (r: Result<KelvinModStatus, NanonisError>)
        ensures
            sent(
                old(self).transcript(),
                final(self).transcript(),
                "KelvinCtrl.ModOnOffGet"@,
                Seq::empty(),
                Seq::empty(),
                seq![TypeCode::U16, TypeCode::U16],
            ),
            match r {
                Ok(v) => final(self).transcript().last().response matches Some(vals)
                    && vals.len() == 2 && v.ac_mode == (vals[0]->U16_0 != 0)
                    && v.modulation == (vals[1]->U16_0 != 0),
                Err(e) => final(self).transcript().last().response is None && transport_err(e),
            },
    {
        let args: Vec<NanonisValue> = vec![];
        let codes: Vec<TypeCode> = vec![];
        proof {
            reveal_strlit("KelvinCtrl.ModOnOffGet");
            vstd::utf8::is_ascii_chars_encode_utf8("KelvinCtrl.ModOnOffGet"@);
            assert(views_of(args@) =~= Seq::<ValV>::empty());
            assert(codes@ =~= Seq::<TypeCode>::empty());
            lemma_scalar_frame(views_of(args@), codes@);
        }
        let rcodes: Vec<TypeCode> = vec![TypeCode::U16, TypeCode::U16];
        proof {
            assert(rcodes@ =~= seq![TypeCode::U16, TypeCode::U16]);
        }
        let result = match self.quick_send("KelvinCtrl.ModOnOffGet", args, codes, rcodes) {
            Ok(v) => v,
            Err(e) => {
                return Err(e);
            },
        };
        proof {
            assert(views_of(result@)[0] == result@[0]@);
            assert(views_of(result@)[1] == result@[1]@);
        }
        if result.len() >= 2 {
            Ok(KelvinModStatus {
                ac_mode: result[0].as_u16()? != 0,
                modulation: result[1].as_u16()? != 0,
            })
        } else {
            Err(NanonisError::Protocol("Invalid response".to_string()))
        }
    }

    pub fn kelvin_ctrl_signal_set(&mut self, signal_index: i32) -> (r: Result<(), NanonisError>)
        ensures
            sent(
                old(self).transcript(),
                final(self).transcript(),
                "KelvinCtrl.CtrlSignalSet"@,
                seq![ValV::I32(signal_index)],
                seq![TypeCode::I32],
                Seq::empty(),
            ),
            match r {
                Ok(()) => final(self).transcript().last().response == Some(Seq::<ValV>::empty()),
                Err(e) => final(self).transcript().last().response is None && transport_err(e),
            },
    {
        let args: Vec<NanonisValue> = vec![NanonisValue::I32(signal_index)];
        let codes: Vec<TypeCode> = vec![TypeCode::I32];
        proof {
            reveal_strlit("KelvinCtrl.CtrlSignalSet");
            vstd::utf8::is_ascii_chars_encode_utf8("KelvinCtrl.CtrlSignalSet"@);
            assert(views_of(args@) =~= seq![ValV::I32(signal_index)]);
            assert(codes@ =~= seq![TypeCode::I32]);
            lemma_scalar_frame(views_of(args@), codes@);
        }
        let rcodes: Vec<TypeCode> = vec![];
        proof {
            assert(rcodes@ =~= Seq::<TypeCode>::empty());
        }
        match self.quick_send("KelvinCtrl.CtrlSignalSet", args, codes, rcodes) {
            Ok(vs_) => {
                proof {
                    assert(views_of(vs_@) =~= Seq::<ValV>::empty());
                }
                Ok(())
            },
            Err(e) => Err(e),
        }
    }

    pub fn kelvin_ctrl_signal_get(&mut self) -> (r: Result<i32, NanonisError>)
        ensures
            sent(
                old(self).transcript(),
                final(self).transcript(),
                "KelvinCtrl.CtrlSignalGet"@,
                Seq::empty(),
                Seq::empty(),
                seq![TypeCode::I32],
            ),
            match r {
                Ok(v) => final(self).transcript().last().response matches Some(vals)
                    && vals.len() == 1 && v == vals[0]->I32_0,
                Err(e) => final(self).transcript().last().response is None && transport_err(e),
            },
    {
        let args: Vec<NanonisValue> = vec![];
        let codes: Vec<TypeCode> = vec![];
        proof {
            reveal_strlit("KelvinCtrl.CtrlSignalGet");
            vstd::utf8::is_ascii_chars_encode_utf8("KelvinCtrl.CtrlSignalGet"@);
            assert(views_of(args@) =~= Seq::<ValV>::empty());
            assert(codes@ =~= Seq::<TypeCode>::empty());
            lemma_scalar_frame(views_of(args@), codes@);
        }
        let rcodes: Vec<TypeCode> = vec![TypeCode::I32];
        proof {
            assert(rcodes@ =~= seq![TypeCode::I32]);
        }
        let result = match self.quick_send("KelvinCtrl.CtrlSignalGet", args, codes, rcodes) {
            Ok(v) => v,
            Err(e) => {
                return Err(e);
            },
        };
        proof {
            assert(views_of(result@)[0] == result@[0]@);
        }
        if !result.is_empty() {
            Ok(result[0].as_i32()?)
        } else {
            Err(NanonisError::Protocol("Invalid response".to_string()))
        }
    }

}

} // verus!
