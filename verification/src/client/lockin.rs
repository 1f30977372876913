//! Lock-in modulator and demodulator commands.

use vstd::prelude::*;

use crate::client::{lemma_scalar_frame, sent, transport_err, NanonisClient};
use crate::codec::views_of;
use crate::codes::TypeCode;
use crate::error::NanonisError;
use crate::value::{NanonisValue, ValV};

verus! {

/// Demodulator RT signal output mode.
#[derive(Debug, Clone, Copy, PartialEq, Eq, Structural)]
pub enum RTSignalMode {
    /// X/Y (Cartesian) output
    XY,
    /// R/phi (polar) output
    RPhi,
}

impl RTSignalMode {
    /// The wire value of the selector.
    pub open spec fn wire(self) -> u32 {
        match self {
            RTSignalMode::XY => 0,
            RTSignalMode::RPhi => 1,
        }
    }

    /// The wire value of the selector.
    pub fn as_u32(self) -> (r: u32)
        ensures
            r == self.wire(),
    {
        match self {
            RTSignalMode::XY => 0,
            RTSignalMode::RPhi => 1,
        }
    }

    /// The selector a wire value names; out-of-range values are rejected.
    pub fn from_u32(value: u32) -> (r: Result<Self, NanonisError>)
        ensures
            match r {
                Ok(v) => v.wire() == value,
                Err(e) => value > 1 && e is InvalidInput,
            },
    {
        match value {
            0 => Ok(RTSignalMode::XY),
            1 => Ok(RTSignalMode::RPhi),
            _ => Err(NanonisError::InvalidInput("value names no RTSignalMode variant".to_string())),
        }
    }
}

impl NanonisClient {
    pub fn lockin_mod_on_off_set(
        &mut self,
        modulator_num: i32,
        on: bool,
    ) -> (r: Result<(), NanonisError>)
        ensures
            sent(
                old(self).transcript(),
                final(self).transcript(),
                "LockIn.ModOnOffSet"@,
                seq![ValV::I32(modulator_num), ValV::U32((if on { 1u32 } else { 0u32 }))],
                seq![TypeCode::I32, TypeCode::U32],
                Seq::empty(),
            ),
            match r {
                Ok(()) => final(self).transcript().last().response == Some(Seq::<ValV>::empty()),
                Err(e) => final(self).transcript().last().response is None && transport_err(e),
            },
    {

        let on_flag = if on { 1u32 } else { 0u32 };
        let args: Vec<NanonisValue> = vec![NanonisValue::I32(modulator_num), NanonisValue::U32(on_flag)];
        let codes: Vec<TypeCode> = vec![TypeCode::I32, TypeCode::U32];
        proof {
            reveal_strlit("LockIn.ModOnOffSet");
            vstd::utf8::is_ascii_chars_encode_utf8("LockIn.ModOnOffSet"@);
            assert(views_of(args@) =~= seq![ValV::I32(modulator_num), ValV::U32((if on { 1u32 } else { 0u32 }))]);
            assert(codes@ =~= seq![TypeCode::I32, TypeCode::U32]);
            lemma_scalar_frame(views_of(args@), codes@);
        }
        let rcodes: Vec<TypeCode> = vec![];
        proof {
            assert(rcodes@ =~= Seq::<TypeCode>::empty());
        }
        match self.quick_send("LockIn.ModOnOffSet", args, codes, rcodes) {
            Ok(vs_) => {
                proof {
                    assert(views_of(vs_@) =~= Seq::<ValV>::empty());
                }
                Ok(())
            },
            Err(e) => Err(e),
        }
    }

    pub fn lockin_mod_on_off_get(&mut self, modulator_num: i32) -> (r: Result<bool, NanonisError>)
        ensures
            sent(
                old(self).transcript(),
                final(self).transcript(),
                "LockIn.ModOnOffGet"@,
                seq![ValV::I32(modulator_num)],
                seq![TypeCode::I32],
                seq![TypeCode::U32],
            ),
            match r {
                Ok(v) => final(self).transcript().last().response matches Some(vals)
                    && vals.len() == 1 && v == (vals[0]->U32_0 != 0),
                Err(e) => final(self).transcript().last().response is None && transport_err(e),
            },
    {
        let args: Vec<NanonisValue> = vec![NanonisValue::I32(modulator_num)];
        let codes: Vec<TypeCode> = vec![TypeCode::I32];
        proof {
            reveal_strlit("LockIn.ModOnOffGet");
            vstd::utf8::is_ascii_chars_encode_utf8("LockIn.ModOnOffGet"@);
            assert(views_of(args@) =~= seq![ValV::I32(modulator_num)]);
            assert(codes@ =~= seq![TypeCode::I32]);
            lemma_scalar_frame(views_of(args@), codes@);
        }
        let rcodes: Vec<TypeCode> = vec![TypeCode::U32];
        proof {
            assert(rcodes@ =~= seq![TypeCode::U32]);
        }
        let result = match self.quick_send("LockIn.ModOnOffGet", args, codes, rcodes) {
            Ok(v) => v,
            Err(e) => {
                return Err(e);
            },
        };
        proof {
            assert(views_of(result@)[0] == result@[0]@);
        }
        if result.len() >= 1 {
            let val = &result[0];
            Ok(val.as_u32()? != 0)
        } else {
            Err(NanonisError::Protocol("Invalid response".to_string()))
        }
    }

    pub fn lockin_mod_signal_set(
        &mut self,
        modulator_num: i32,
        signal_index: i32,
    ) -> (r: Result<(), NanonisError>)
        ensures
            sent(
                old(self).transcript(),
                final(self).transcript(),
                "LockIn.ModSignalSet"@,
                seq![ValV::I32(modulator_num), ValV::I32(signal_index)],
                seq![TypeCode::I32, TypeCode::I32],
                Seq::empty(),
            ),
            match r {
                Ok(()) => final(self).transcript().last().response == Some(Seq::<ValV>::empty()),
                Err(e) => final(self).transcript().last().response is None && transport_err(e),
            },
    {
        let args: Vec<NanonisValue> = vec![NanonisValue::I32(modulator_num),
                NanonisValue::I32(signal_index),];
        let codes: Vec<TypeCode> = vec![TypeCode::I32, TypeCode::I32];
        proof {
            reveal_strlit("LockIn.ModSignalSet");
            vstd::utf8::is_ascii_chars_encode_utf8("LockIn.ModSignalSet"@);
            assert(views_of(args@) =~= seq![ValV::I32(modulator_num), ValV::I32(signal_index)]);
            assert(codes@ =~= seq![TypeCode::I32, TypeCode::I32]);
            lemma_scalar_frame(views_of(args@), codes@);
        }
        let rcodes: Vec<TypeCode> = vec![];
        proof {
            assert(rcodes@ =~= Seq::<TypeCode>::empty());
        }
        match self.quick_send("LockIn.ModSignalSet", args, codes, rcodes) {
            Ok(vs_) => {
                proof {
                    assert(views_of(vs_@) =~= Seq::<ValV>::empty());
                }
                Ok(())
            },
            Err(e) => Err(e),
        }
    }

    pub fn lockin_mod_signal_get(&mut self, modulator_num: i32) -> (r: Result<i32, NanonisError>)
        ensures
            sent(
                old(self).transcript(),
                final(self).transcript(),
                "LockIn.ModSignalGet"@,
                seq![ValV::I32(modulator_num)],
                seq![TypeCode::I32],
                seq![TypeCode::I32],
            ),
            match r {
                Ok(v) => final(self).transcript().last().response matches Some(vals)
                    && vals.len() == 1 && v == vals[0]->I32_0,
                Err(e) => final(self).transcript().last().response is None && transport_err(e),
            },
    {
        let args: Vec<NanonisValue> = vec![NanonisValue::I32(modulator_num)];
        let codes: Vec<TypeCode> = vec![TypeCode::I32];
        proof {
            reveal_strlit("LockIn.ModSignalGet");
            vstd::utf8::is_ascii_chars_encode_utf8("LockIn.ModSignalGet"@);
            assert(views_of(args@) =~= seq![ValV::I32(modulator_num)]);
            assert(codes@ =~= seq![TypeCode::I32]);
            lemma_scalar_frame(views_of(args@), codes@);
        }
        let rcodes: Vec<TypeCode> = vec![TypeCode::I32];
        proof {
            assert(rcodes@ =~= seq![TypeCode::I32]);
        }
        let result = match self.quick_send("LockIn.ModSignalGet", args, codes, rcodes) {
            Ok(v) => v,
            Err(e) => {
                return Err(e);
            },
        };
        proof {
            assert(views_of(result@)[0] == result@[0]@);
        }
        if result.len() >= 1 {
            let val = &result[0];
            Ok(val.as_i32()?)
        } else {
            Err(NanonisError::Protocol("Invalid response".to_string()))
        }
    }

    pub fn lockin_mod_phas_reg_set(
        &mut self,
        modulator_num: i32,
        phase_register_index: i32,
    ) -> (r: Result<(), NanonisError>)
        ensures
            sent(
                old(self).transcript(),
                final(self).transcript(),
                "LockIn.ModPhasRegSet"@,
                seq![ValV::I32(modulator_num), ValV::I32(phase_register_index)],
                seq![TypeCode::I32, TypeCode::I32],
                Seq::empty(),
            ),
            match r {
                Ok(()) => final(self).transcript().last().response == Some(Seq::<ValV>::empty()),
                Err(e) => final(self).transcript().last().response is None && transport_err(e),
            },
    {
        let args: Vec<NanonisValue> = vec![NanonisValue::I32(modulator_num),
                NanonisValue::I32(phase_register_index),];
        let codes: Vec<TypeCode> = vec![TypeCode::I32, TypeCode::I32];
        proof {
            reveal_strlit("LockIn.ModPhasRegSet");
            vstd::utf8::is_ascii_chars_encode_utf8("LockIn.ModPhasRegSet"@);
            assert(views_of(args@) =~= seq![ValV::I32(modulator_num), ValV::I32(phase_register_index)]);
            assert(codes@ =~= seq![TypeCode::I32, TypeCode::I32]);
            lemma_scalar_frame(views_of(args@), codes@);
        }
        let rcodes: Vec<TypeCode> = vec![];
        proof {
            assert(rcodes@ =~= Seq::<TypeCode>::empty());
        }
        match self.quick_send("LockIn.ModPhasRegSet", args, codes, rcodes) {
            Ok(vs_) => {
                proof {
                    assert(views_of(vs_@) =~= Seq::<ValV>::empty());
                }
                Ok(())
            },
            Err(e) => Err(e),
        }
    }

    pub fn lockin_mod_phas_reg_get(&mut self, modulator_num: i32) -> (r: Result<i32, NanonisError>)
        ensures
            sent(
                old(self).transcript(),
                final(self).transcript(),
                "LockIn.ModPhasRegGet"@,
                seq![ValV::I32(modulator_num)],
                seq![TypeCode::I32],
                seq![TypeCode::I32],
            ),
            match r {
                Ok(v) => final(self).transcript().last().response matches Some(vals)
                    && vals.len() == 1 && v == vals[0]->I32_0,
                Err(e) => final(self).transcript().last().response is None && transport_err(e),
            },
    {
        let args: Vec<NanonisValue> = vec![NanonisValue::I32(modulator_num)];
        let codes: Vec<TypeCode> = vec![TypeCode::I32];
        proof {
            reveal_strlit("LockIn.ModPhasRegGet");
            vstd::utf8::is_ascii_chars_encode_utf8("LockIn.ModPhasRegGet"@);
            assert(views_of(args@) =~= seq![ValV::I32(modulator_num)]);
            assert(codes@ =~= seq![TypeCode::I32]);
            lemma_scalar_frame(views_of(args@), codes@);
        }
        let rcodes: Vec<TypeCode> = vec![TypeCode::I32];
        proof {
            assert(rcodes@ =~= seq![TypeCode::I32]);
        }
        let result = match self.quick_send("LockIn.ModPhasRegGet", args, codes, rcodes) {
            Ok(v) => v,
            Err(e) => {
                return Err(e);
            },
        };
        proof {
            assert(views_of(result@)[0] == result@[0]@);
        }
        if result.len() >= 1 {
            let val = &result[0];
            Ok(val.as_i32()?)
        } else {
            Err(NanonisError::Protocol("Invalid response".to_string()))
        }
    }

    pub fn lockin_mod_harmonic_set(
        &mut self,
        modulator_num: i32,
        harmonic: i32,
    ) -> (r: Result<(), NanonisError>)
        ensures
            sent(
                old(self).transcript(),
                final(self).transcript(),
                "LockIn.ModHarmonicSet"@,
                seq![ValV::I32(modulator_num), ValV::I32(harmonic)],
                seq![TypeCode::I32, TypeCode::I32],
                Seq::empty(),
            ),
            match r {
                Ok(()) => final(self).transcript().last().response == Some(Seq::<ValV>::empty()),
                Err(e) => final(self).transcript().last().response is None && transport_err(e),
            },
    {
        let args: Vec<NanonisValue> = vec![NanonisValue::I32(modulator_num),
                NanonisValue::I32(harmonic),];
        let codes: Vec<TypeCode> = vec![TypeCode::I32, TypeCode::I32];
        proof {
            reveal_strlit("LockIn.ModHarmonicSet");
            vstd::utf8::is_ascii_chars_encode_utf8("LockIn.ModHarmonicSet"@);
            assert(views_of(args@) =~= seq![ValV::I32(modulator_num), ValV::I32(harmonic)]);
            assert(codes@ =~= seq![TypeCode::I32, TypeCode::I32]);
            lemma_scalar_frame(views_of(args@), codes@);
        }
        let rcodes: Vec<TypeCode> = vec![];
        proof {
            assert(rcodes@ =~= Seq::<TypeCode>::empty());
        }
        match self.quick_send("LockIn.ModHarmonicSet", args, codes, rcodes) {
            Ok(vs_) => {
                proof {
                    assert(views_of(vs_@) =~= Seq::<ValV>::empty());
                }
                Ok(())
            },
            Err(e) => Err(e),
        }
    }

    pub fn lockin_mod_harmonic_get(&mut self, modulator_num: i32) -> (r: Result<i32, NanonisError>)
        ensures
            sent(
                old(self).transcript(),
                final(self).transcript(),
                "LockIn.ModHarmonicGet"@,
                seq![ValV::I32(modulator_num)],
                seq![TypeCode::I32],
                seq![TypeCode::I32],
            ),
            match r {
                Ok(v) => final(self).transcript().last().response matches Some(vals)
                    && vals.len() == 1 && v == vals[0]->I32_0,
                Err(e) => final(self).transcript().last().response is None && transport_err(e),
            },
    {
        let args: Vec<NanonisValue> = vec![NanonisValue::I32(modulator_num)];
        let codes: Vec<TypeCode> = vec![TypeCode::I32];
        proof {
            reveal_strlit("LockIn.ModHarmonicGet");
            vstd::utf8::is_ascii_chars_encode_utf8("LockIn.ModHarmonicGet"@);
            assert(views_of(args@) =~= seq![ValV::I32(modulator_num)]);
            assert(codes@ =~= seq![TypeCode::I32]);
            lemma_scalar_frame(views_of(args@), codes@);
        }
        let rcodes: Vec<TypeCode> = vec![TypeCode::I32];
        proof {
            assert(rcodes@ =~= seq![TypeCode::I32]);
        }
        let result = match self.quick_send("LockIn.ModHarmonicGet", args, codes, rcodes) {
            Ok(v) => v,
            Err(e) => {
                return Err(e);
            },
        };
        proof {
            assert(views_of(result@)[0] == result@[0]@);
        }
        if result.len() >= 1 {
            let val = &result[0];
            Ok(val.as_i32()?)
        } else {
            Err(NanonisError::Protocol("Invalid response".to_string()))
        }
    }

    pub fn lockin_demod_signal_set(
        &mut self,
        demodulator_num: i32,
        signal_index: i32,
    ) -> (r: Result<(), NanonisError>)
        ensures
            sent(
                old(self).transcript(),
                final(self).transcript(),
                "LockIn.DemodSignalSet"@,
                seq![ValV::I32(demodulator_num), ValV::I32(signal_index)],
                seq![TypeCode::I32, TypeCode::I32],
                Seq::empty(),
            ),
            match r {
                Ok(()) => final(self).transcript().last().response == Some(Seq::<ValV>::empty()),
                Err(e) => final(self).transcript().last().response is None && transport_err(e),
            },
    {
        let args: Vec<NanonisValue> = vec![NanonisValue::I32(demodulator_num),
                NanonisValue::I32(signal_index),];
        let codes: Vec<TypeCode> = vec![TypeCode::I32, TypeCode::I32];
        proof {
            reveal_strlit("LockIn.DemodSignalSet");
            vstd::utf8::is_ascii_chars_encode_utf8("LockIn.DemodSignalSet"@);
            assert(views_of(args@) =~= seq![ValV::I32(demodulator_num), ValV::I32(signal_index)]);
            assert(codes@ =~= seq![TypeCode::I32, TypeCode::I32]);
            lemma_scalar_frame(views_of(args@), codes@);
        }
        let rcodes: Vec<TypeCode> = vec![];
        proof {
            assert(rcodes@ =~= Seq::<TypeCode>::empty());
        }
        match self.quick_send("LockIn.DemodSignalSet", args, codes, rcodes) {
            Ok(vs_) => {
                proof {
                    assert(views_of(vs_@) =~= Seq::<ValV>::empty());
                }
                Ok(())
            },
            Err(e) => Err(e),
        }
    }

    pub fn lockin_demod_signal_get(&mut self, demodulator_num: i32) -> (r: Result<i32, NanonisError>)
        ensures
            sent(
                old(self).transcript(),
                final(self).transcript(),
                "LockIn.DemodSignalGet"@,
                seq![ValV::I32(demodulator_num)],
                seq![TypeCode::I32],
                seq![TypeCode::I32],
            ),
            match r {
                Ok(v) => final(self).transcript().last().response matches Some(vals)
                    && vals.len() == 1 && v == vals[0]->I32_0,
                Err(e) => final(self).transcript().last().response is None && transport_err(e),
            },
    {
        let args: Vec<NanonisValue> = vec![NanonisValue::I32(demodulator_num)];
        let codes: Vec<TypeCode> = vec![TypeCode::I32];
        proof {
            reveal_strlit("LockIn.DemodSignalGet");
            vstd::utf8::is_ascii_chars_encode_utf8("LockIn.DemodSignalGet"@);
            assert(views_of(args@) =~= seq![ValV::I32(demodulator_num)]);
            assert(codes@ =~= seq![TypeCode::I32]);
            lemma_scalar_frame(views_of(args@), codes@);
        }
        let rcodes: Vec<TypeCode> = vec![TypeCode::I32];
        proof {
            assert(rcodes@ =~= seq![TypeCode::I32]);
        }
        let result = match self.quick_send("LockIn.DemodSignalGet", args, codes, rcodes) {
            Ok(v) => v,
            Err(e) => {
                return Err(e);
            },
        };
        proof {
            assert(views_of(result@)[0] == result@[0]@);
        }
        if result.len() >= 1 {
            let val = &result[0];
            Ok(val.as_i32()?)
        } else {
            Err(NanonisError::Protocol("Invalid response".to_string()))
        }
    }

    pub fn lockin_demod_harmonic_set(
        &mut self,
        demodulator_num: i32,
        harmonic: i32,
    ) -> (r: Result<(), NanonisError>)
        ensures
            sent(
                old(self).transcript(),
                final(self).transcript(),
                "LockIn.DemodHarmonicSet"@,
                seq![ValV::I32(demodulator_num), ValV::I32(harmonic)],
                seq![TypeCode::I32, TypeCode::I32],
                Seq::empty(),
            ),
            match r {
                Ok(()) => final(self).transcript().last().response == Some(Seq::<ValV>::empty()),
                Err(e) => final(self).transcript().last().response is None && transport_err(e),
            },
    {
        let args: Vec<NanonisValue> = vec![NanonisValue::I32(demodulator_num),
                NanonisValue::I32(harmonic),];
        let codes: Vec<TypeCode> = vec![TypeCode::I32, TypeCode::I32];
        proof {
            reveal_strlit("LockIn.DemodHarmonicSet");
            vstd::utf8::is_ascii_chars_encode_utf8("LockIn.DemodHarmonicSet"@);
            assert(views_of(args@) =~= seq![ValV::I32(demodulator_num), ValV::I32(harmonic)]);
            assert(codes@ =~= seq![TypeCode::I32, TypeCode::I32]);
            lemma_scalar_frame(views_of(args@), codes@);
        }
        let rcodes: Vec<TypeCode> = vec![];
        proof {
            assert(rcodes@ =~= Seq::<TypeCode>::empty());
        }
        match self.quick_send("LockIn.DemodHarmonicSet", args, codes, rcodes) {
            Ok(vs_) => {
                proof {
                    assert(views_of(vs_@) =~= Seq::<ValV>::empty());
                }
                Ok(())
            },
            Err(e) => Err(e),
        }
    }

    pub fn lockin_demod_harmonic_get(&mut self, demodulator_num: i32) -> (r: Result<i32, NanonisError>)
        ensures
            sent(
                old(self).transcript(),
                final(self).transcript(),
                "LockIn.DemodHarmonicGet"@,
                seq![ValV::I32(demodulator_num)],
                seq![TypeCode::I32],
                seq![TypeCode::I32],
            ),
            match r {
                Ok(v) => final(self).transcript().last().response matches Some(vals)
                    && vals.len() == 1 && v == vals[0]->I32_0,
                Err(e) => final(self).transcript().last().response is None && transport_err(e),
            },
    {
        let args: Vec<NanonisValue> = vec![NanonisValue::I32(demodulator_num)];
        let codes: Vec<TypeCode> = vec![TypeCode::I32];
        proof {
            reveal_strlit("LockIn.DemodHarmonicGet");
            vstd::utf8::is_ascii_chars_encode_utf8("LockIn.DemodHarmonicGet"@);
            assert(views_of(args@) =~= seq![ValV::I32(demodulator_num)]);
            assert(codes@ =~= seq![TypeCode::I32]);
            lemma_scalar_frame(views_of(args@), codes@);
        }
        let rcodes: Vec<TypeCode> = vec![TypeCode::I32];
        proof {
            assert(rcodes@ =~= seq![TypeCode::I32]);
        }
        let result = match self.quick_send("LockIn.DemodHarmonicGet", args, codes, rcodes) {
            Ok(v) => v,
            Err(e) => {
                return Err(e);
            },
        };
        proof {
            assert(views_of(result@)[0] == result@[0]@);
        }
        if result.len() >= 1 {
            let val = &result[0];
            Ok(val.as_i32()?)
        } else {
            Err(NanonisError::Protocol("Invalid response".to_string()))
        }
    }

    pub fn lockin_demod_phas_reg_set(
        &mut self,
        demodulator_num: i32,
        phase_register_index: i32,
    ) -> (r: Result<(), NanonisError>)
        ensures
            sent(
                old(self).transcript(),
                final(self).transcript(),
                "LockIn.DemodPhasRegSet"@,
                seq![ValV::I32(demodulator_num), ValV::I32(phase_register_index)],
                seq![TypeCode::I32, TypeCode::I32],
                Seq::empty(),
            ),
            match r {
                Ok(()) => final(self).transcript().last().response == Some(Seq::<ValV>::empty()),
                Err(e) => final(self).transcript().last().response is None && transport_err(e),
            },
    {
        let args: Vec<NanonisValue> = vec![NanonisValue::I32(demodulator_num),
                NanonisValue::I32(phase_register_index),];
        let codes: Vec<TypeCode> = vec![TypeCode::I32, TypeCode::I32];
        proof {
            reveal_strlit("LockIn.DemodPhasRegSet");
            vstd::utf8::is_ascii_chars_encode_utf8("LockIn.DemodPhasRegSet"@);
            assert(views_of(args@) =~= seq![ValV::I32(demodulator_num), ValV::I32(phase_register_index)]);
            assert(codes@ =~= seq![TypeCode::I32, TypeCode::I32]);
            lemma_scalar_frame(views_of(args@), codes@);
        }
        let rcodes: Vec<TypeCode> = vec![];
        proof {
            assert(rcodes@ =~= Seq::<TypeCode>::empty());
        }
        match self.quick_send("LockIn.DemodPhasRegSet", args, codes, rcodes) {
            Ok(vs_) => {
                proof {
                    assert(views_of(vs_@) =~= Seq::<ValV>::empty());
                }
                Ok(())
            },
            Err(e) => Err(e),
        }
    }

    pub fn lockin_demod_phas_reg_get(
        &mut self,
        demodulator_num: i32,
    ) -> (r: Result<i32, NanonisError>)
        ensures
            sent(
                old(self).transcript(),
                final(self).transcript(),
                "LockIn.DemodPhasRegGet"@,
                seq![ValV::I32(demodulator_num)],
                seq![TypeCode::I32],
                seq![TypeCode::I32],
            ),
            match r {
                Ok(v) => final(self).transcript().last().response matches Some(vals)
                    && vals.len() == 1 && v == vals[0]->I32_0,
                Err(e) => final(self).transcript().last().response is None && transport_err(e),
            },
    {
        let args: Vec<NanonisValue> = vec![NanonisValue::I32(demodulator_num)];
        let codes: Vec<TypeCode> = vec![TypeCode::I32];
        proof {
            reveal_strlit("LockIn.DemodPhasRegGet");
            vstd::utf8::is_ascii_chars_encode_utf8("LockIn.DemodPhasRegGet"@);
            assert(views_of(args@) =~= seq![ValV::I32(demodulator_num)]);
            assert(codes@ =~= seq![TypeCode::I32]);
            lemma_scalar_frame(views_of(args@), codes@);
        }
        let rcodes: Vec<TypeCode> = vec![TypeCode::I32];
        proof {
            assert(rcodes@ =~= seq![TypeCode::I32]);
        }
        let result = match self.quick_send("LockIn.DemodPhasRegGet", args, codes, rcodes) {
            Ok(v) => v,
            Err(e) => {
                return Err(e);
            },
        };
        proof {
            assert(views_of(result@)[0] == result@[0]@);
        }
        if result.len() >= 1 {
            let val = &result[0];
            Ok(val.as_i32()?)
        } else {
            Err(NanonisError::Protocol("Invalid response".to_string()))
        }
    }

    pub fn lockin_demod_sync_filter_set(
        &mut self,
        demodulator_num: i32,
        on: bool,
    ) -> (r: Result<(), NanonisError>)
        ensures
            sent(
                old(self).transcript(),
                final(self).transcript(),
                "LockIn.DemodSyncFilterSet"@,
                seq![ValV::I32(demodulator_num), ValV::U32((if on { 1u32 } else { 0u32 }))],
                seq![TypeCode::I32, TypeCode::U32],
                Seq::empty(),
            ),
            match r {
                Ok(()) => final(self).transcript().last().response == Some(Seq::<ValV>::empty()),
                Err(e) => final(self).transcript().last().response is None && transport_err(e),
            },
    {

        let on_flag = if on { 1u32 } else { 0u32 };
        let args: Vec<NanonisValue> = vec![NanonisValue::I32(demodulator_num),
                NanonisValue::U32(on_flag),];
        let codes: Vec<TypeCode> = vec![TypeCode::I32, TypeCode::U32];
        proof {
            reveal_strlit("LockIn.DemodSyncFilterSet");
            vstd::utf8::is_ascii_chars_encode_utf8("LockIn.DemodSyncFilterSet"@);
            assert(views_of(args@) =~= seq![ValV::I32(demodulator_num), ValV::U32((if on { 1u32 } else { 0u32 }))]);
            assert(codes@ =~= seq![TypeCode::I32, TypeCode::U32]);
            lemma_scalar_frame(views_of(args@), codes@);
        }
        let rcodes: Vec<TypeCode> = vec![];
        proof {
            assert(rcodes@ =~= Seq::<TypeCode>::empty());
        }
        match self.quick_send("LockIn.DemodSyncFilterSet", args, codes, rcodes) {
            Ok(vs_) => {
                proof {
                    assert(views_of(vs_@) =~= Seq::<ValV>::empty());
                }
                Ok(())
            },
            Err(e) => Err(e),
        }
    }

    pub fn lockin_demod_sync_filter_get(
        &mut self,
        demodulator_num: i32,
    ) -> (r: Result<bool, NanonisError>)
        ensures
            sent(
                old(self).transcript(),
                final(self).transcript(),
                "LockIn.DemodSyncFilterGet"@,
                seq![ValV::I32(demodulator_num)],
                seq![TypeCode::I32],
                seq![TypeCode::U32],
            ),
            match r {
                Ok(v) => final(self).transcript().last().response matches Some(vals)
                    && vals.len() == 1 && v == (vals[0]->U32_0 != 0),
                Err(e) => final(self).transcript().last().response is None && transport_err(e),
            },
    {
        let args: Vec<NanonisValue> = vec![NanonisValue::I32(demodulator_num)];
        let codes: Vec<TypeCode> = vec![TypeCode::I32];
        proof {
            reveal_strlit("LockIn.DemodSyncFilterGet");
            vstd::utf8::is_ascii_chars_encode_utf8("LockIn.DemodSyncFilterGet"@);
            assert(views_of(args@) =~= seq![ValV::I32(demodulator_num)]);
            assert(codes@ =~= seq![TypeCode::I32]);
            lemma_scalar_frame(views_of(args@), codes@);
        }
        let rcodes: Vec<TypeCode> = vec![TypeCode::U32];
        proof {
            assert(rcodes@ =~= seq![TypeCode::U32]);
        }
        let result = match self.quick_send("LockIn.DemodSyncFilterGet", args, codes, rcodes) {
            Ok(v) => v,
            Err(e) => {
                return Err(e);
            },
        };
        proof {
            assert(views_of(result@)[0] == result@[0]@);
        }
        if result.len() >= 1 {
            let val = &result[0];
            Ok(val.as_u32()? != 0)
        } else {
            Err(NanonisError::Protocol("Invalid response".to_string()))
        }
    }

    pub fn lockin_demod_rt_signals_set(
        &mut self,
        demodulator_num: i32,
        mode: RTSignalMode,
    ) -> (r: Result<(), NanonisError>)
        ensures
            sent(
                old(self).transcript(),
                final(self).transcript(),
                "LockIn.DemodRTSignalsSet"@,
                seq![ValV::I32(demodulator_num), ValV::U32(mode.wire())],
                seq![TypeCode::I32, TypeCode::U32],
                Seq::empty(),
            ),
            match r {
                Ok(()) => final(self).transcript().last().response == Some(Seq::<ValV>::empty()),
                Err(e) => final(self).transcript().last().response is None && transport_err(e),
            },
    {
        let args: Vec<NanonisValue> = vec![NanonisValue::I32(demodulator_num),
                NanonisValue::U32(mode.as_u32()),];
        let codes: Vec<TypeCode> = vec![TypeCode::I32, TypeCode::U32];
        proof {
            reveal_strlit("LockIn.DemodRTSignalsSet");
            vstd::utf8::is_ascii_chars_encode_utf8("LockIn.DemodRTSignalsSet"@);
            assert(views_of(args@) =~= seq![ValV::I32(demodulator_num), ValV::U32(mode.wire())]);
            assert(codes@ =~= seq![TypeCode::I32, TypeCode::U32]);
            lemma_scalar_frame(views_of(args@), codes@);
        }
        let rcodes: Vec<TypeCode> = vec![];
        proof {
            assert(rcodes@ =~= Seq::<TypeCode>::empty());
        }
        match self.quick_send("LockIn.DemodRTSignalsSet", args, codes, rcodes) {
            Ok(vs_) => {
                proof {
                    assert(views_of(vs_@) =~= Seq::<ValV>::empty());
                }
                Ok(())
            },
            Err(e) => Err(e),
        }
    }

    pub fn lockin_demod_rt_signals_get(
        &mut self,
        demodulator_num: i32,
    ) -> (r: Result<RTSignalMode, NanonisError>) {
        let result = self.quick_send(
            "LockIn.DemodRTSignalsGet",
            vec![NanonisValue::I32(demodulator_num)],
            vec![TypeCode::I32],
            vec![TypeCode::U32],
        )?;
        if result.len() >= 1 {
            let val = &result[0];
            RTSignalMode::from_u32(val.as_u32()?)
        } else {
            Err(NanonisError::Protocol("Invalid response".to_string()))
        }
    }

}

} // verus!
