//! Phase-locked-loop (PLL) modulator commands.

use vstd::prelude::*;

use crate::client::{lemma_scalar_frame, sent, transport_err, NanonisClient};
use crate::codec::views_of;
use crate::codes::TypeCode;
use crate::error::NanonisError;
use crate::value::{NanonisValue, ValV};

verus! {

/// The excitation output range of a PLL modulator.
#[derive(Debug, Clone, Copy, PartialEq, Eq, Structural)]
pub enum PLLExcRange {
    /// 10V range
    V10,
    /// 1V range
    V1,
    /// 0.1V range
    V01,
    /// 0.01V range
    V001,
    /// 0.001V range
    V0001,
}

impl PLLExcRange {
    /// The wire value of the selector.
    pub open spec fn wire(self) -> u16 {
        match self {
            PLLExcRange::V10 => 0,
            PLLExcRange::V1 => 1,
            PLLExcRange::V01 => 2,
            PLLExcRange::V001 => 3,
            PLLExcRange::V0001 => 4,
        }
    }

    /// The wire value of the selector.
    pub fn as_u16(self) -> (r: u16)
        ensures
            r == self.wire(),
    {
        match self {
            PLLExcRange::V10 => 0,
            PLLExcRange::V1 => 1,
            PLLExcRange::V01 => 2,
            PLLExcRange::V001 => 3,
            PLLExcRange::V0001 => 4,
        }
    }

    /// The selector a wire value names; out-of-range values are rejected.
    pub fn from_u16(value: u16) -> (r: Result<Self, NanonisError>)
        ensures
            match r {
                Ok(v) => v.wire() == value,
                Err(e) => value > 4 && e is Protocol,
            },
    {
        match value {
            0 => Ok(PLLExcRange::V10),
            1 => Ok(PLLExcRange::V1),
            2 => Ok(PLLExcRange::V01),
            3 => Ok(PLLExcRange::V001),
            4 => Ok(PLLExcRange::V0001),
            _ => Err(NanonisError::Protocol("value names no excitation range".to_string())),
        }
    }
}

/// The input conditioning of a PLL demodulator.
#[derive(Debug, Clone, Copy, PartialEq, Eq, Structural)]
pub struct PLLInputProps {
    /// Differential input enabled
    pub differential_input: bool,
    /// 1/10 divider enabled
    pub divider_1_10: bool,
}

/// What a PLL demodulator demodulates.
#[derive(Debug, Clone, Copy, PartialEq, Eq, Structural)]
pub struct PLLDemodInput {
    /// Input selection
    pub input: u16,
    /// Frequency generator selection
    pub freq_generator: u16,
}

/// Which signals overwrite the PLL outputs.
#[derive(Debug, Clone, Copy, PartialEq, Eq, Structural)]
pub struct PLLOverwrite {
    /// Excitation overwrite signal index (-1 for none)
    pub excitation_signal_index: i32,
    /// Frequency overwrite signal index (-1 for none)
    pub frequency_signal_index: i32,
}

impl NanonisClient {
    pub fn pll_inp_props_set(
        &mut self,
        modulator_index: i32,
        props: &PLLInputProps,
    ) -> (r: Result<(), NanonisError>)
        ensures
            sent(
                old(self).transcript(),
                final(self).transcript(),
                "PLL.InpPropsSet"@,
                seq![ValV::I32(modulator_index), ValV::U16((if props.differential_input { 1u16 } else { 0u16 })), ValV::U16((if props.divider_1_10 { 1u16 } else { 0u16 }))],
                seq![TypeCode::I32, TypeCode::U16, TypeCode::U16],
                Seq::empty(),
            ),
            match r {
                Ok(()) => final(self).transcript().last().response == Some(Seq::<ValV>::empty()),
                Err(e) => final(self).transcript().last().response is None && transport_err(e),
            },
    {

        let diff_flag = if props.differential_input { 1u16 } else { 0u16 };
        let div_flag = if props.divider_1_10 { 1u16 } else { 0u16 };
        let args: Vec<NanonisValue> = vec![NanonisValue::I32(modulator_index),
                NanonisValue::U16(diff_flag),
                NanonisValue::U16(div_flag),];
        let codes: Vec<TypeCode> = vec![TypeCode::I32, TypeCode::U16, TypeCode::U16];
        proof {
            reveal_strlit("PLL.InpPropsSet");
            vstd::utf8::is_ascii_chars_encode_utf8("PLL.InpPropsSet"@);
            assert(views_of(args@) =~= seq![ValV::I32(modulator_index), ValV::U16((if props.differential_input { 1u16 } else { 0u16 })), ValV::U16((if props.divider_1_10 { 1u16 } else { 0u16 }))]);
            assert(codes@ =~= seq![TypeCode::I32, TypeCode::U16, TypeCode::U16]);
            lemma_scalar_frame(views_of(args@), codes@);
        }
        let rcodes: Vec<TypeCode> = vec![];
        proof {
            assert(rcodes@ =~= Seq::<TypeCode>::empty());
        }
        match self.quick_send("PLL.InpPropsSet", args, codes, rcodes) {
            Ok(vs_) => {
                proof {
                    assert(views_of(vs_@) =~= Seq::<ValV>::empty());
                }
                Ok(())
            },
            Err(e) => Err(e),
        }
    }

    pub fn pll_inp_props_get(&mut self, modulator_index: i32) -> (r: Result<PLLInputProps, NanonisError>)
        ensures
            sent(
                old(self).transcript(),
                final(self).transcript(),
                "PLL.InpPropsGet"@,
                seq![ValV::I32(modulator_index)],
                seq![TypeCode::I32],
                seq![TypeCode::U16, TypeCode::U16],
            ),
            match r {
                Ok(v) => final(self).transcript().last().response matches Some(vals)
                    && vals.len() == 2 && v.differential_input == (vals[0]->U16_0 != 0)
                    && v.divider_1_10 == (vals[1]->U16_0 != 0),
                Err(e) => final(self).transcript().last().response is None && transport_err(e),
            },
    {
        let args: Vec<NanonisValue> = vec![NanonisValue::I32(modulator_index)];
        let codes: Vec<TypeCode> = vec![TypeCode::I32];
        proof {
            reveal_strlit("PLL.InpPropsGet");
            vstd::utf8::is_ascii_chars_encode_utf8("PLL.InpPropsGet"@);
            assert(views_of(args@) =~= seq![ValV::I32(modulator_index)]);
            assert(codes@ =~= seq![TypeCode::I32]);
            lemma_scalar_frame(views_of(args@), codes@);
        }
        let rcodes: Vec<TypeCode> = vec![TypeCode::U16, TypeCode::U16];
        proof {
            assert(rcodes@ =~= seq![TypeCode::U16, TypeCode::U16]);
        }
        let result = match self.quick_send("PLL.InpPropsGet", args, codes, rcodes) {
            Ok(v) => v,
            Err(e) => {
                return Err(e);
            },
        };
        proof {
            assert(views_of(result@)[0] == result@[0]@);
            assert(views_of(result@)[1] == result@[1]@);
        }
        if result.len() >= 2 {
            Ok(PLLInputProps {
                differential_input: result[0].as_u16()? != 0,
                divider_1_10: result[1].as_u16()? != 0,
            })
        } else {
            Err(NanonisError::Protocol("Invalid response".to_string()))
        }
    }

    pub fn pll_add_on_off_set(
        &mut self,
        modulator_index: i32,
        enabled: bool,
    ) -> (r: Result<(), NanonisError>)
        ensures
            sent(
                old(self).transcript(),
                final(self).transcript(),
                "PLL.AddOnOffSet"@,
                seq![ValV::I32(modulator_index), ValV::U32((if enabled { 1u32 } else { 0u32 }))],
                seq![TypeCode::I32, TypeCode::U32],
                Seq::empty(),
            ),
            match r {
                Ok(()) => final(self).transcript().last().response == Some(Seq::<ValV>::empty()),
                Err(e) => final(self).transcript().last().response is None && transport_err(e),
            },
    {

        let flag = if enabled { 1u32 } else { 0u32 };
        let args: Vec<NanonisValue> = vec![NanonisValue::I32(modulator_index), NanonisValue::U32(flag)];
        let codes: Vec<TypeCode> = vec![TypeCode::I32, TypeCode::U32];
        proof {
            reveal_strlit("PLL.AddOnOffSet");
            vstd::utf8::is_ascii_chars_encode_utf8("PLL.AddOnOffSet"@);
            assert(views_of(args@) =~= seq![ValV::I32(modulator_index), ValV::U32((if enabled { 1u32 } else { 0u32 }))]);
            assert(codes@ =~= seq![TypeCode::I32, TypeCode::U32]);
            lemma_scalar_frame(views_of(args@), codes@);
        }
        let rcodes: Vec<TypeCode> = vec![];
        proof {
            assert(rcodes@ =~= Seq::<TypeCode>::empty());
        }
        match self.quick_send("PLL.AddOnOffSet", args, codes, rcodes) {
            Ok(vs_) => {
                proof {
                    assert(views_of(vs_@) =~= Seq::<ValV>::empty());
                }
                Ok(())
            },
            Err(e) => Err(e),
        }
    }

    pub fn pll_add_on_off_get(&mut self, modulator_index: i32) -> (r: Result<bool, NanonisError>)
        ensures
            sent(
                old(self).transcript(),
                final(self).transcript(),
                "PLL.AddOnOffGet"@,
                seq![ValV::I32(modulator_index)],
                seq![TypeCode::I32],
                seq![TypeCode::U32],
            ),
            match r {
                Ok(v) => final(self).transcript().last().response matches Some(vals)
                    && vals.len() == 1 && v == (vals[0]->U32_0 != 0),
                Err(e) => final(self).transcript().last().response is None && transport_err(e),
            },
    {
        let args: Vec<NanonisValue> = vec![NanonisValue::I32(modulator_index)];
        let codes: Vec<TypeCode> = vec![TypeCode::I32];
        proof {
            reveal_strlit("PLL.AddOnOffGet");
            vstd::utf8::is_ascii_chars_encode_utf8("PLL.AddOnOffGet"@);
            assert(views_of(args@) =~= seq![ValV::I32(modulator_index)]);
            assert(codes@ =~= seq![TypeCode::I32]);
            lemma_scalar_frame(views_of(args@), codes@);
        }
        let rcodes: Vec<TypeCode> = vec![TypeCode::U32];
        proof {
            assert(rcodes@ =~= seq![TypeCode::U32]);
        }
        let result = match self.quick_send("PLL.AddOnOffGet", args, codes, rcodes) {
            Ok(v) => v,
            Err(e) => {
                return Err(e);
            },
        };
        proof {
            assert(views_of(result@)[0] == result@[0]@);
        }
        if !result.is_empty() {
            Ok(result[0].as_u32()? != 0)
        } else {
            Err(NanonisError::Protocol("Invalid response".to_string()))
        }
    }

    pub fn pll_out_on_off_set(
        &mut self,
        modulator_index: i32,
        enabled: bool,
    ) -> (r: Result<(), NanonisError>)
        ensures
            sent(
                old(self).transcript(),
                final(self).transcript(),
                "PLL.OutOnOffSet"@,
                seq![ValV::I32(modulator_index), ValV::U32((if enabled { 1u32 } else { 0u32 }))],
                seq![TypeCode::I32, TypeCode::U32],
                Seq::empty(),
            ),
            match r {
                Ok(()) => final(self).transcript().last().response == Some(Seq::<ValV>::empty()),
                Err(e) => final(self).transcript().last().response is None && transport_err(e),
            },
    {

        let flag = if enabled { 1u32 } else { 0u32 };
        let args: Vec<NanonisValue> = vec![NanonisValue::I32(modulator_index), NanonisValue::U32(flag)];
        let codes: Vec<TypeCode> = vec![TypeCode::I32, TypeCode::U32];
        proof {
            reveal_strlit("PLL.OutOnOffSet");
            vstd::utf8::is_ascii_chars_encode_utf8("PLL.OutOnOffSet"@);
            assert(views_of(args@) =~= seq![ValV::I32(modulator_index), ValV::U32((if enabled { 1u32 } else { 0u32 }))]);
            assert(codes@ =~= seq![TypeCode::I32, TypeCode::U32]);
            lemma_scalar_frame(views_of(args@), codes@);
        }
        let rcodes: Vec<TypeCode> = vec![];
        proof {
            assert(rcodes@ =~= Seq::<TypeCode>::empty());
        }
        match self.quick_send("PLL.OutOnOffSet", args, codes, rcodes) {
            Ok(vs_) => {
                proof {
                    assert(views_of(vs_@) =~= Seq::<ValV>::empty());
                }
                Ok(())
            },
            Err(e) => Err(e),
        }
    }

    pub fn pll_out_on_off_get(&mut self, modulator_index: i32) -> (r: Result<bool, NanonisError>)
        ensures
            sent(
                old(self).transcript(),
                final(self).transcript(),
                "PLL.OutOnOffGet"@,
                seq![ValV::I32(modulator_index)],
                seq![TypeCode::I32],
                seq![TypeCode::U32],
            ),
            match r {
                Ok(v) => final(self).transcript().last().response matches Some(vals)
                    && vals.len() == 1 && v == (vals[0]->U32_0 != 0),
                Err(e) => final(self).transcript().last().response is None && transport_err(e),
            },
    {
        let args: Vec<NanonisValue> = vec![NanonisValue::I32(modulator_index)];
        let codes: Vec<TypeCode> = vec![TypeCode::I32];
        proof {
            reveal_strlit("PLL.OutOnOffGet");
            vstd::utf8::is_ascii_chars_encode_utf8("PLL.OutOnOffGet"@);
            assert(views_of(args@) =~= seq![ValV::I32(modulator_index)]);
            assert(codes@ =~= seq![TypeCode::I32]);
            lemma_scalar_frame(views_of(args@), codes@);
        }
        let rcodes: Vec<TypeCode> = vec![TypeCode::U32];
        proof {
            assert(rcodes@ =~= seq![TypeCode::U32]);
        }
        let result = match self.quick_send("PLL.OutOnOffGet", args, codes, rcodes) {
            Ok(v) => v,
            Err(e) => {
                return Err(e);
            },
        };
        proof {
            assert(views_of(result@)[0] == result@[0]@);
        }
        if !result.is_empty() {
            Ok(result[0].as_u32()? != 0)
        } else {
            Err(NanonisError::Protocol("Invalid response".to_string()))
        }
    }

    pub fn pll_exc_range_set(
        &mut self,
        modulator_index: i32,
        range: PLLExcRange,
    ) -> (r: Result<(), NanonisError>)
        ensures
            sent(
                old(self).transcript(),
                final(self).transcript(),
                "PLL.ExcRangeSet"@,
                seq![ValV::I32(modulator_index), ValV::U16(range.wire())],
                seq![TypeCode::I32, TypeCode::U16],
                Seq::empty(),
            ),
            match r {
                Ok(()) => final(self).transcript().last().response == Some(Seq::<ValV>::empty()),
                Err(e) => final(self).transcript().last().response is None && transport_err(e),
            },
    {
        let args: Vec<NanonisValue> = vec![NanonisValue::I32(modulator_index),
                NanonisValue::U16(range.as_u16()),];
        let codes: Vec<TypeCode> = vec![TypeCode::I32, TypeCode::U16];
        proof {
            reveal_strlit("PLL.ExcRangeSet");
            vstd::utf8::is_ascii_chars_encode_utf8("PLL.ExcRangeSet"@);
            assert(views_of(args@) =~= seq![ValV::I32(modulator_index), ValV::U16(range.wire())]);
            assert(codes@ =~= seq![TypeCode::I32, TypeCode::U16]);
            lemma_scalar_frame(views_of(args@), codes@);
        }
        let rcodes: Vec<TypeCode> = vec![];
        proof {
            assert(rcodes@ =~= Seq::<TypeCode>::empty());
        }
        match self.quick_send("PLL.ExcRangeSet", args, codes, rcodes) {
            Ok(vs_) => {
                proof {
                    assert(views_of(vs_@) =~= Seq::<ValV>::empty());
                }
                Ok(())
            },
            Err(e) => Err(e),
        }
    }

    pub fn pll_exc_range_get(&mut self, modulator_index: i32) -> (r: Result<PLLExcRange, NanonisError>) {
        let result = self.quick_send(
            "PLL.ExcRangeGet",
            vec![NanonisValue::I32(modulator_index)],
            vec![TypeCode::I32],
            vec![TypeCode::U16],
        )?;

        if !result.is_empty() {
            PLLExcRange::from_u16(result[0].as_u16()?)
        } else {
            Err(NanonisError::Protocol("Invalid response".to_string()))
        }
    }

    pub fn pll_amp_ctrl_on_off_set(
        &mut self,
        modulator_index: i32,
        status: bool,
    ) -> (r: Result<(), NanonisError>)
        ensures
            sent(
                old(self).transcript(),
                final(self).transcript(),
                "PLL.AmpCtrlOnOffSet"@,
                seq![ValV::I32(modulator_index), ValV::U32((if status { 1u32 } else { 0u32 }))],
                seq![TypeCode::I32, TypeCode::U32],
                Seq::empty(),
            ),
            match r {
                Ok(()) => final(self).transcript().last().response == Some(Seq::<ValV>::empty()),
                Err(e) => final(self).transcript().last().response is None && transport_err(e),
            },
    {

        let status_u32 = if status { 1u32 } else { 0u32 };
        let args: Vec<NanonisValue> = vec![NanonisValue::I32(modulator_index),
                NanonisValue::U32(status_u32),];
        let codes: Vec<TypeCode> = vec![TypeCode::I32, TypeCode::U32];
        proof {
            reveal_strlit("PLL.AmpCtrlOnOffSet");
            vstd::utf8::is_ascii_chars_encode_utf8("PLL.AmpCtrlOnOffSet"@);
            assert(views_of(args@) =~= seq![ValV::I32(modulator_index), ValV::U32((if status { 1u32 } else { 0u32 }))]);
            assert(codes@ =~= seq![TypeCode::I32, TypeCode::U32]);
            lemma_scalar_frame(views_of(args@), codes@);
        }
        let rcodes: Vec<TypeCode> = vec![];
        proof {
            assert(rcodes@ =~= Seq::<TypeCode>::empty());
        }
        match self.quick_send("PLL.AmpCtrlOnOffSet", args, codes, rcodes) {
            Ok(vs_) => {
                proof {
                    assert(views_of(vs_@) =~= Seq::<ValV>::empty());
                }
                Ok(())
            },
            Err(e) => Err(e),
        }
    }

    pub fn pll_amp_ctrl_on_off_get(&mut self, modulator_index: i32) -> (r: Result<bool, NanonisError>) {
        let response = self.quick_send(
            "PLL.AmpCtrlOnOffGet",
            vec![NanonisValue::I32(modulator_index)],
            vec![TypeCode::I32],
            vec![TypeCode::U32],
        )?;

        if response.len() >= 1 {
            Ok(response[0].as_u32()? != 0)
        } else {
            Err(NanonisError::Protocol(
                "Expected u32 amplitude controller status".to_string(),
            ))
        }
    }

    pub fn pll_phas_ctrl_on_off_set(
        &mut self,
        modulator_index: i32,
        enabled: bool,
    ) -> (r: Result<(), NanonisError>)
        ensures
            sent(
                old(self).transcript(),
                final(self).transcript(),
                "PLL.PhasCtrlOnOffSet"@,
                seq![ValV::I32(modulator_index), ValV::U32((if enabled { 1u32 } else { 0u32 }))],
                seq![TypeCode::I32, TypeCode::U32],
                Seq::empty(),
            ),
            match r {
                Ok(()) => final(self).transcript().last().response == Some(Seq::<ValV>::empty()),
                Err(e) => final(self).transcript().last().response is None && transport_err(e),
            },
    {

        let flag = if enabled { 1u32 } else { 0u32 };
        let args: Vec<NanonisValue> = vec![NanonisValue::I32(modulator_index), NanonisValue::U32(flag)];
        let codes: Vec<TypeCode> = vec![TypeCode::I32, TypeCode::U32];
        proof {
            reveal_strlit("PLL.PhasCtrlOnOffSet");
            vstd::utf8::is_ascii_chars_encode_utf8("PLL.PhasCtrlOnOffSet"@);
            assert(views_of(args@) =~= seq![ValV::I32(modulator_index), ValV::U32((if enabled { 1u32 } else { 0u32 }))]);
            assert(codes@ =~= seq![TypeCode::I32, TypeCode::U32]);
            lemma_scalar_frame(views_of(args@), codes@);
        }
        let rcodes: Vec<TypeCode> = vec![];
        proof {
            assert(rcodes@ =~= Seq::<TypeCode>::empty());
        }
        match self.quick_send("PLL.PhasCtrlOnOffSet", args, codes, rcodes) {
            Ok(vs_) => {
                proof {
                    assert(views_of(vs_@) =~= Seq::<ValV>::empty());
                }
                Ok(())
            },
            Err(e) => Err(e),
        }
    }

    pub fn pll_phas_ctrl_on_off_get(&mut self, modulator_index: i32) -> (r: Result<bool, NanonisError>)
        ensures
            sent(
                old(self).transcript(),
                final(self).transcript(),
                "PLL.PhasCtrlOnOffGet"@,
                seq![ValV::I32(modulator_index)],
                seq![TypeCode::I32],
                seq![TypeCode::U32],
            ),
            match r {
                Ok(v) => final(self).transcript().last().response matches Some(vals)
                    && vals.len() == 1 && v == (vals[0]->U32_0 != 0),
                Err(e) => final(self).transcript().last().response is None && transport_err(e),
            },
    {
        let args: Vec<NanonisValue> = vec![NanonisValue::I32(modulator_index)];
        let codes: Vec<TypeCode> = vec![TypeCode::I32];
        proof {
            reveal_strlit("PLL.PhasCtrlOnOffGet");
            vstd::utf8::is_ascii_chars_encode_utf8("PLL.PhasCtrlOnOffGet"@);
            assert(views_of(args@) =~= seq![ValV::I32(modulator_index)]);
            assert(codes@ =~= seq![TypeCode::I32]);
            lemma_scalar_frame(views_of(args@), codes@);
        }
        let rcodes: Vec<TypeCode> = vec![TypeCode::U32];
        proof {
            assert(rcodes@ =~= seq![TypeCode::U32]);
        }
        let result = match self.quick_send("PLL.PhasCtrlOnOffGet", args, codes, rcodes) {
            Ok(v) => v,
            Err(e) => {
                return Err(e);
            },
        };
        proof {
            assert(views_of(result@)[0] == result@[0]@);
        }
        if !result.is_empty() {
            Ok(result[0].as_u32()? != 0)
        } else {
            Err(NanonisError::Protocol("Invalid response".to_string()))
        }
    }

    pub fn pll_freq_shift_auto_center(&mut self, modulator_index: i32) -> (r: Result<(), NanonisError>)
        ensures
            sent(
                old(self).transcript(),
                final(self).transcript(),
                "PLL.FreqShiftAutoCenter"@,
                seq![ValV::I32(modulator_index)],
                seq![TypeCode::I32],
                Seq::empty(),
            ),
            match r {
                Ok(()) => final(self).transcript().last().response == Some(Seq::<ValV>::empty()),
                Err(e) => final(self).transcript().last().response is None && transport_err(e),
            },
    {
        let args: Vec<NanonisValue> = vec![NanonisValue::I32(modulator_index)];
        let codes: Vec<TypeCode> = vec![TypeCode::I32];
        proof {
            reveal_strlit("PLL.FreqShiftAutoCenter");
            vstd::utf8::is_ascii_chars_encode_utf8("PLL.FreqShiftAutoCenter"@);
            assert(views_of(args@) =~= seq![ValV::I32(modulator_index)]);
            assert(codes@ =~= seq![TypeCode::I32]);
            lemma_scalar_frame(views_of(args@), codes@);
        }
        let rcodes: Vec<TypeCode> = vec![];
        proof {
            assert(rcodes@ =~= Seq::<TypeCode>::empty());
        }
        match self.quick_send("PLL.FreqShiftAutoCenter", args, codes, rcodes) {
            Ok(vs_) => {
                proof {
                    assert(views_of(vs_@) =~= Seq::<ValV>::empty());
                }
                Ok(())
            },
            Err(e) => Err(e),
        }
    }

    pub fn pll_freq_exc_overwrite_set(
        &mut self,
        modulator_index: i32,
        overwrite: &PLLOverwrite,
    ) -> (r: Result<(), NanonisError>)
        ensures
            sent(
                old(self).transcript(),
                final(self).transcript(),
                "PLL.FreqExcOverwriteSet"@,
                seq![ValV::I32(modulator_index), ValV::I32(overwrite.excitation_signal_index), ValV::I32(overwrite.frequency_signal_index)],
                seq![TypeCode::I32, TypeCode::I32, TypeCode::I32],
                Seq::empty(),
            ),
            match r {
                Ok(()) => final(self).transcript().last().response == Some(Seq::<ValV>::empty()),
                Err(e) => final(self).transcript().last().response is None && transport_err(e),
            },
    {
        let args: Vec<NanonisValue> = vec![NanonisValue::I32(modulator_index),
                NanonisValue::I32(overwrite.excitation_signal_index),
                NanonisValue::I32(overwrite.frequency_signal_index),];
        let codes: Vec<TypeCode> = vec![TypeCode::I32, TypeCode::I32, TypeCode::I32];
        proof {
            reveal_strlit("PLL.FreqExcOverwriteSet");
            vstd::utf8::is_ascii_chars_encode_utf8("PLL.FreqExcOverwriteSet"@);
            assert(views_of(args@) =~= seq![ValV::I32(modulator_index), ValV::I32(overwrite.excitation_signal_index), ValV::I32(overwrite.frequency_signal_index)]);
            assert(codes@ =~= seq![TypeCode::I32, TypeCode::I32, TypeCode::I32]);
            lemma_scalar_frame(views_of(args@), codes@);
        }
        let rcodes: Vec<TypeCode> = vec![];
        proof {
            assert(rcodes@ =~= Seq::<TypeCode>::empty());
        }
        match self.quick_send("PLL.FreqExcOverwriteSet", args, codes, rcodes) {
            Ok(vs_) => {
                proof {
                    assert(views_of(vs_@) =~= Seq::<ValV>::empty());
                }
                Ok(())
            },
            Err(e) => Err(e),
        }
    }

    pub fn pll_freq_exc_overwrite_get(
        &mut self,
        modulator_index: i32,
    ) -> (r: Result<PLLOverwrite, NanonisError>)
        ensures
            sent(
                old(self).transcript(),
                final(self).transcript(),
                "PLL.FreqExcOverwriteGet"@,
                seq![ValV::I32(modulator_index)],
                seq![TypeCode::I32],
                seq![TypeCode::I32, TypeCode::I32],
            ),
            match r {
                Ok(v) => final(self).transcript().last().response matches Some(vals)
                    && vals.len() == 2 && v.excitation_signal_index == vals[0]->I32_0
                    && v.frequency_signal_index == vals[1]->I32_0,
                Err(e) => final(self).transcript().last().response is None && transport_err(e),
            },
    {
        let args: Vec<NanonisValue> = vec![NanonisValue::I32(modulator_index)];
        let codes: Vec<TypeCode> = vec![TypeCode::I32];
        proof {
            reveal_strlit("PLL.FreqExcOverwriteGet");
            vstd::utf8::is_ascii_chars_encode_utf8("PLL.FreqExcOverwriteGet"@);
            assert(views_of(args@) =~= seq![ValV::I32(modulator_index)]);
            assert(codes@ =~= seq![TypeCode::I32]);
            lemma_scalar_frame(views_of(args@), codes@);
        }
        let rcodes: Vec<TypeCode> = vec![TypeCode::I32, TypeCode::I32];
        proof {
            assert(rcodes@ =~= seq![TypeCode::I32, TypeCode::I32]);
        }
        let result = match self.quick_send("PLL.FreqExcOverwriteGet", args, codes, rcodes) {
            Ok(v) => v,
            Err(e) => {
                return Err(e);
            },
        };
        proof {
            assert(views_of(result@)[0] == result@[0]@);
            assert(views_of(result@)[1] == result@[1]@);
        }
        if result.len() >= 2 {
            Ok(PLLOverwrite {
                excitation_signal_index: result[0].as_i32()?,
                frequency_signal_index: result[1].as_i32()?,
            })
        } else {
            Err(NanonisError::Protocol("Invalid response".to_string()))
        }
    }

    pub fn pll_demod_input_set(
        &mut self,
        demodulator_index: u16,
        input: &PLLDemodInput,
    ) -> (r: Result<(), NanonisError>)
        ensures
            sent(
                old(self).transcript(),
                final(self).transcript(),
                "PLL.DemodInputSet"@,
                seq![ValV::U16(demodulator_index), ValV::U16(input.input), ValV::U16(input.freq_generator)],
                seq![TypeCode::U16, TypeCode::U16, TypeCode::U16],
                Seq::empty(),
            ),
            match r {
                Ok(()) => final(self).transcript().last().response == Some(Seq::<ValV>::empty()),
                Err(e) => final(self).transcript().last().response is None && transport_err(e),
            },
    {
        let args: Vec<NanonisValue> = vec![NanonisValue::U16(demodulator_index),
                NanonisValue::U16(input.input),
                NanonisValue::U16(input.freq_generator),];
        let codes: Vec<TypeCode> = vec![TypeCode::U16, TypeCode::U16, TypeCode::U16];
        proof {
            reveal_strlit("PLL.DemodInputSet");
            vstd::utf8::is_ascii_chars_encode_utf8("PLL.DemodInputSet"@);
            assert(views_of(args@) =~= seq![ValV::U16(demodulator_index), ValV::U16(input.input), ValV::U16(input.freq_generator)]);
            assert(codes@ =~= seq![TypeCode::U16, TypeCode::U16, TypeCode::U16]);
            lemma_scalar_frame(views_of(args@), codes@);
        }
        let rcodes: Vec<TypeCode> = vec![];
        proof {
            assert(rcodes@ =~= Seq::<TypeCode>::empty());
        }
        match self.quick_send("PLL.DemodInputSet", args, codes, rcodes) {
            Ok(vs_) => {
                proof {
                    assert(views_of(vs_@) =~= Seq::<ValV>::empty());
                }
                Ok(())
            },
            Err(e) => Err(e),
        }
    }

    pub fn pll_demod_input_get(
        &mut self,
        demodulator_index: u16,
    ) -> (r: Result<PLLDemodInput, NanonisError>)
        ensures
            sent(
                old(self).transcript(),
                final(self).transcript(),
                "PLL.DemodInputGet"@,
                seq![ValV::U16(demodulator_index)],
                seq![TypeCode::U16],
                seq![TypeCode::U16, TypeCode::U16],
            ),
            match r {
                Ok(v) => final(self).transcript().last().response matches Some(vals)
                    && vals.len() == 2 && v.input == vals[0]->U16_0
                    && v.freq_generator == vals[1]->U16_0,
                Err(e) => final(self).transcript().last().response is None && transport_err(e),
            },
    {
        let args: Vec<NanonisValue> = vec![NanonisValue::U16(demodulator_index)];
        let codes: Vec<TypeCode> = vec![TypeCode::U16];
        proof {
            reveal_strlit("PLL.DemodInputGet");
            vstd::utf8::is_ascii_chars_encode_utf8("PLL.DemodInputGet"@);
            assert(views_of(args@) =~= seq![ValV::U16(demodulator_index)]);
            assert(codes@ =~= seq![TypeCode::U16]);
            lemma_scalar_frame(views_of(args@), codes@);
        }
        let rcodes: Vec<TypeCode> = vec![TypeCode::U16, TypeCode::U16];
        proof {
            assert(rcodes@ =~= seq![TypeCode::U16, TypeCode::U16]);
        }
        let result = match self.quick_send("PLL.DemodInputGet", args, codes, rcodes) {
            Ok(v) => v,
            Err(e) => {
                return Err(e);
            },
        };
        proof {
            assert(views_of(result@)[0] == result@[0]@);
            assert(views_of(result@)[1] == result@[1]@);
        }
        if result.len() >= 2 {
            Ok(PLLDemodInput {
                input: result[0].as_u16()?,
                freq_generator: result[1].as_u16()?,
            })
        } else {
            Err(NanonisError::Protocol("Invalid response".to_string()))
        }
    }

    pub fn pll_demod_harmonic_set(
        &mut self,
        demodulator_index: u16,
        harmonic: u16,
    ) -> (r: Result<(), NanonisError>)
        ensures
            sent(
                old(self).transcript(),
                final(self).transcript(),
                "PLL.DemodHarmonicSet"@,
                seq![ValV::U16(demodulator_index), ValV::U16(harmonic)],
                seq![TypeCode::U16, TypeCode::U16],
                Seq::empty(),
            ),
            match r {
                Ok(()) => final(self).transcript().last().response == Some(Seq::<ValV>::empty()),
                Err(e) => final(self).transcript().last().response is None && transport_err(e),
            },
    {
        let args: Vec<NanonisValue> = vec![NanonisValue::U16(demodulator_index),
                NanonisValue::U16(harmonic),];
        let codes: Vec<TypeCode> = vec![TypeCode::U16, TypeCode::U16];
        proof {
            reveal_strlit("PLL.DemodHarmonicSet");
            vstd::utf8::is_ascii_chars_encode_utf8("PLL.DemodHarmonicSet"@);
            assert(views_of(args@) =~= seq![ValV::U16(demodulator_index), ValV::U16(harmonic)]);
            assert(codes@ =~= seq![TypeCode::U16, TypeCode::U16]);
            lemma_scalar_frame(views_of(args@), codes@);
        }
        let rcodes: Vec<TypeCode> = vec![];
        proof {
            assert(rcodes@ =~= Seq::<TypeCode>::empty());
        }
        match self.quick_send("PLL.DemodHarmonicSet", args, codes, rcodes) {
            Ok(vs_) => {
                proof {
                    assert(views_of(vs_@) =~= Seq::<ValV>::empty());
                }
                Ok(())
            },
            Err(e) => Err(e),
        }
    }

    pub fn pll_demod_harmonic_get(&mut self, demodulator_index: u16) -> (r: Result<u16, NanonisError>)
        ensures
            sent(
                old(self).transcript(),
                final(self).transcript(),
                "PLL.DemodHarmonicGet"@,
                seq![ValV::U16(demodulator_index)],
                seq![TypeCode::U16],
                seq![TypeCode::U16],
            ),
            match r {
                Ok(v) => final(self).transcript().last().response matches Some(vals)
                    && vals.len() == 1 && v == vals[0]->U16_0,
                Err(e) => final(self).transcript().last().response is None && transport_err(e),
            },
    {
        let args: Vec<NanonisValue> = vec![NanonisValue::U16(demodulator_index)];
        let codes: Vec<TypeCode> = vec![TypeCode::U16];
        proof {
            reveal_strlit("PLL.DemodHarmonicGet");
            vstd::utf8::is_ascii_chars_encode_utf8("PLL.DemodHarmonicGet"@);
            assert(views_of(args@) =~= seq![ValV::U16(demodulator_index)]);
            assert(codes@ =~= seq![TypeCode::U16]);
            lemma_scalar_frame(views_of(args@), codes@);
        }
        let rcodes: Vec<TypeCode> = vec![TypeCode::U16];
        proof {
            assert(rcodes@ =~= seq![TypeCode::U16]);
        }
        let result = match self.quick_send("PLL.DemodHarmonicGet", args, codes, rcodes) {
            Ok(v) => v,
            Err(e) => {
                return Err(e);
            },
        };
        proof {
            assert(views_of(result@)[0] == result@[0]@);
        }
        if !result.is_empty() {
            Ok(result[0].as_u16()?)
        } else {
            Err(NanonisError::Protocol("Invalid response".to_string()))
        }
    }

    pub fn pll_demod_filter_set(
        &mut self,
        demodulator_index: u16,
        filter_order: u16,
    ) -> (r: Result<(), NanonisError>)
        ensures
            sent(
                old(self).transcript(),
                final(self).transcript(),
                "PLL.DemodFilterSet"@,
                seq![ValV::U16(demodulator_index), ValV::U16(filter_order)],
                seq![TypeCode::U16, TypeCode::U16],
                Seq::empty(),
            ),
            match r {
                Ok(()) => final(self).transcript().last().response == Some(Seq::<ValV>::empty()),
                Err(e) => final(self).transcript().last().response is None && transport_err(e),
            },
    {
        let args: Vec<NanonisValue> = vec![NanonisValue::U16(demodulator_index),
                NanonisValue::U16(filter_order),];
        let codes: Vec<TypeCode> = vec![TypeCode::U16, TypeCode::U16];
        proof {
            reveal_strlit("PLL.DemodFilterSet");
            vstd::utf8::is_ascii_chars_encode_utf8("PLL.DemodFilterSet"@);
            assert(views_of(args@) =~= seq![ValV::U16(demodulator_index), ValV::U16(filter_order)]);
            assert(codes@ =~= seq![TypeCode::U16, TypeCode::U16]);
            lemma_scalar_frame(views_of(args@), codes@);
        }
        let rcodes: Vec<TypeCode> = vec![];
        proof {
            assert(rcodes@ =~= Seq::<TypeCode>::empty());
        }
        match self.quick_send("PLL.DemodFilterSet", args, codes, rcodes) {
            Ok(vs_) => {
                proof {
                    assert(views_of(vs_@) =~= Seq::<ValV>::empty());
                }
                Ok(())
            },
            Err(e) => Err(e),
        }
    }

    pub fn pll_demod_filter_get(&mut self, demodulator_index: u16) -> (r: Result<u16, NanonisError>)
        ensures
            sent(
                old(self).transcript(),
                final(self).transcript(),
                "PLL.DemodFilterGet"@,
                seq![ValV::U16(demodulator_index)],
                seq![TypeCode::U16],
                seq![TypeCode::U16],
            ),
            match r {
                Ok(v) => final(self).transcript().last().response matches Some(vals)
                    && vals.len() == 1 && v == vals[0]->U16_0,
                Err(e) => final(self).transcript().last().response is None && transport_err(e),
            },
    {
        let args: Vec<NanonisValue> = vec![NanonisValue::U16(demodulator_index)];
        let codes: Vec<TypeCode> = vec![TypeCode::U16];
        proof {
            reveal_strlit("PLL.DemodFilterGet");
            vstd::utf8::is_ascii_chars_encode_utf8("PLL.DemodFilterGet"@);
            assert(views_of(args@) =~= seq![ValV::U16(demodulator_index)]);
            assert(codes@ =~= seq![TypeCode::U16]);
            lemma_scalar_frame(views_of(args@), codes@);
        }
        let rcodes: Vec<TypeCode> = vec![TypeCode::U16];
        proof {
            assert(rcodes@ =~= seq![TypeCode::U16]);
        }
        let result = match self.quick_send("PLL.DemodFilterGet", args, codes, rcodes) {
            Ok(v) => v,
            Err(e) => {
                return Err(e);
            },
        };
        proof {
            assert(views_of(result@)[0] == result@[0]@);
        }
        if !result.is_empty() {
            Ok(result[0].as_u16()?)
        } else {
            Err(NanonisError::Protocol("Invalid response".to_string()))
        }
    }

}

} // verus!
