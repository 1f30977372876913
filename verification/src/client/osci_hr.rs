//! Oscilloscope High Resolution commands.

use vstd::prelude::*;

use crate::client::{lemma_scalar_frame, sent, transport_err, NanonisClient};
use crate::codec::views_of;
use crate::codes::TypeCode;
use crate::error::NanonisError;
use crate::types::{OscilloscopeIndex, SampleCount, SignalIndex, TriggerMode};
use crate::value::{NanonisValue, ValV};

verus! {

impl NanonisClient {
    pub fn osci_hr_ch_set(
        &mut self,
        osci_index: OscilloscopeIndex,
        signal: SignalIndex,
    ) -> (r: Result<(), NanonisError>)
        ensures
            sent(
                old(self).transcript(),
                final(self).transcript(),
                "OsciHR.ChSet"@,
                seq![ValV::I32(osci_index.0), ValV::I32(signal.0 as i32)],
                seq![TypeCode::I32, TypeCode::I32],
                Seq::empty(),
            ),
            match r {
                Ok(()) => final(self).transcript().last().response == Some(Seq::<ValV>::empty()),
                Err(e) => final(self).transcript().last().response is None && transport_err(e),
            },
    {
        let args: Vec<NanonisValue> = vec![NanonisValue::I32(osci_index.0),
                NanonisValue::I32(signal.0 as i32),];
        let codes: Vec<TypeCode> = vec![TypeCode::I32, TypeCode::I32];
        proof {
            reveal_strlit("OsciHR.ChSet");
            vstd::utf8::is_ascii_chars_encode_utf8("OsciHR.ChSet"@);
            assert(views_of(args@) =~= seq![ValV::I32(osci_index.0), ValV::I32(signal.0 as i32)]);
            assert(codes@ =~= seq![TypeCode::I32, TypeCode::I32]);
            lemma_scalar_frame(views_of(args@), codes@);
        }
        let rcodes: Vec<TypeCode> = vec![];
        proof {
            assert(rcodes@ =~= Seq::<TypeCode>::empty());
        }
        match self.quick_send("OsciHR.ChSet", args, codes, rcodes) {
            Ok(vs_) => {
                proof {
                    assert(views_of(vs_@) =~= Seq::<ValV>::empty());
                }
                Ok(())
            },
            Err(e) => Err(e),
        }
    }

    pub fn osci_hr_ch_get(
        &mut self,
        osci_index: OscilloscopeIndex,
    ) -> (r: Result<SignalIndex, NanonisError>) {
        let result = self.quick_send(
            "OsciHR.ChGet",
            vec![NanonisValue::I32(osci_index.0)],
            vec![TypeCode::I32],
            vec![TypeCode::I32],
        )?;
        if result.len() >= 1 {
            let value = &result[0];
            Ok(SignalIndex::new(value.as_i32()? as u8))
        } else {
            Err(NanonisError::Protocol(
                "No signal index returned".to_string(),
            ))
        }
    }

    pub fn osci_hr_oversampl_set(&mut self, oversampling_index: i32) -> (r: Result<(), NanonisError>)
        ensures
            sent(
                old(self).transcript(),
                final(self).transcript(),
                "OsciHR.OversamplSet"@,
                seq![ValV::I32(oversampling_index)],
                seq![TypeCode::I32],
                Seq::empty(),
            ),
            match r {
                Ok(()) => final(self).transcript().last().response == Some(Seq::<ValV>::empty()),
                Err(e) => final(self).transcript().last().response is None && transport_err(e),
            },
    {
        let args: Vec<NanonisValue> = vec![NanonisValue::I32(oversampling_index)];
        let codes: Vec<TypeCode> = vec![TypeCode::I32];
        proof {
            reveal_strlit("OsciHR.OversamplSet");
            vstd::utf8::is_ascii_chars_encode_utf8("OsciHR.OversamplSet"@);
            assert(views_of(args@) =~= seq![ValV::I32(oversampling_index)]);
            assert(codes@ =~= seq![TypeCode::I32]);
            lemma_scalar_frame(views_of(args@), codes@);
        }
        let rcodes: Vec<TypeCode> = vec![];
        proof {
            assert(rcodes@ =~= Seq::<TypeCode>::empty());
        }
        match self.quick_send("OsciHR.OversamplSet", args, codes, rcodes) {
            Ok(vs_) => {
                proof {
                    assert(views_of(vs_@) =~= Seq::<ValV>::empty());
                }
                Ok(())
            },
            Err(e) => Err(e),
        }
    }

    pub fn osci_hr_oversampl_get(&mut self) -> (r: Result<i32, NanonisError>)
        ensures
            sent(
                old(self).transcript(),
                final(self).transcript(),
                "OsciHR.OversamplGet"@,
                Seq::empty(),
                Seq::empty(),
                seq![TypeCode::I32],
            ),
            match r {
                Ok(v) => final(self).transcript().last().response matches Some(vals)
                    && vals.len() == 1 && v == vals[0]->I32_0,
                Err(e) => final(self).transcript().last().response is None && transport_err(e),
            },
    {
        let args: Vec<NanonisValue> = vec![];
        let codes: Vec<TypeCode> = vec![];
        proof {
            reveal_strlit("OsciHR.OversamplGet");
            vstd::utf8::is_ascii_chars_encode_utf8("OsciHR.OversamplGet"@);
            assert(views_of(args@) =~= Seq::<ValV>::empty());
            assert(codes@ =~= Seq::<TypeCode>::empty());
            lemma_scalar_frame(views_of(args@), codes@);
        }
        let rcodes: Vec<TypeCode> = vec![TypeCode::I32];
        proof {
            assert(rcodes@ =~= seq![TypeCode::I32]);
        }
        let result = match self.quick_send("OsciHR.OversamplGet", args, codes, rcodes) {
            Ok(v) => v,
            Err(e) => {
                return Err(e);
            },
        };
        proof {
            assert(views_of(result@)[0] == result@[0]@);
        }
        if result.len() >= 1 {
            let value = &result[0];
            Ok(value.as_i32()?)
        } else {
            Err(NanonisError::Protocol(
                "No oversampling index returned".to_string(),
            ))
        }
    }

    pub fn osci_hr_calibr_mode_set(
        &mut self,
        osci_index: i32,
        calibration_mode: u16,
    ) -> (r: Result<(), NanonisError>)
        ensures
            sent(
                old(self).transcript(),
                final(self).transcript(),
                "OsciHR.CalibrModeSet"@,
                seq![ValV::I32(osci_index), ValV::U16(calibration_mode)],
                seq![TypeCode::I32, TypeCode::U16],
                Seq::empty(),
            ),
            match r {
                Ok(()) => final(self).transcript().last().response == Some(Seq::<ValV>::empty()),
                Err(e) => final(self).transcript().last().response is None && transport_err(e),
            },
    {
        let args: Vec<NanonisValue> = vec![NanonisValue::I32(osci_index),
                NanonisValue::U16(calibration_mode),];
        let codes: Vec<TypeCode> = vec![TypeCode::I32, TypeCode::U16];
        proof {
            reveal_strlit("OsciHR.CalibrModeSet");
            vstd::utf8::is_ascii_chars_encode_utf8("OsciHR.CalibrModeSet"@);
            assert(views_of(args@) =~= seq![ValV::I32(osci_index), ValV::U16(calibration_mode)]);
            assert(codes@ =~= seq![TypeCode::I32, TypeCode::U16]);
            lemma_scalar_frame(views_of(args@), codes@);
        }
        let rcodes: Vec<TypeCode> = vec![];
        proof {
            assert(rcodes@ =~= Seq::<TypeCode>::empty());
        }
        match self.quick_send("OsciHR.CalibrModeSet", args, codes, rcodes) {
            Ok(vs_) => {
                proof {
                    assert(views_of(vs_@) =~= Seq::<ValV>::empty());
                }
                Ok(())
            },
            Err(e) => Err(e),
        }
    }

    pub fn osci_hr_calibr_mode_get(&mut self, osci_index: i32) -> (r: Result<u16, NanonisError>)
        ensures
            sent(
                old(self).transcript(),
                final(self).transcript(),
                "OsciHR.CalibrModeGet"@,
                seq![ValV::I32(osci_index)],
                seq![TypeCode::I32],
                seq![TypeCode::U16],
            ),
            match r {
                Ok(v) => final(self).transcript().last().response matches Some(vals)
                    && vals.len() == 1 && v == vals[0]->U16_0,
                Err(e) => final(self).transcript().last().response is None && transport_err(e),
            },
    {
        let args: Vec<NanonisValue> = vec![NanonisValue::I32(osci_index)];
        let codes: Vec<TypeCode> = vec![TypeCode::I32];
        proof {
            reveal_strlit("OsciHR.CalibrModeGet");
            vstd::utf8::is_ascii_chars_encode_utf8("OsciHR.CalibrModeGet"@);
            assert(views_of(args@) =~= seq![ValV::I32(osci_index)]);
            assert(codes@ =~= seq![TypeCode::I32]);
            lemma_scalar_frame(views_of(args@), codes@);
        }
        let rcodes: Vec<TypeCode> = vec![TypeCode::U16];
        proof {
            assert(rcodes@ =~= seq![TypeCode::U16]);
        }
        let result = match self.quick_send("OsciHR.CalibrModeGet", args, codes, rcodes) {
            Ok(v) => v,
            Err(e) => {
                return Err(e);
            },
        };
        proof {
            assert(views_of(result@)[0] == result@[0]@);
        }
        if result.len() >= 1 {
            let value = &result[0];
            Ok(value.as_u16()?)
        } else {
            Err(NanonisError::Protocol(
                "No calibration mode returned".to_string(),
            ))
        }
    }

    pub fn osci_hr_samples_set(
        &mut self,
        number_of_samples: SampleCount,
    ) -> (r: Result<(), NanonisError>)
        ensures
            sent(
                old(self).transcript(),
                final(self).transcript(),
                "OsciHR.SamplesSet"@,
                seq![ValV::I32(number_of_samples.0)],
                seq![TypeCode::I32],
                Seq::empty(),
            ),
            match r {
                Ok(()) => final(self).transcript().last().response == Some(Seq::<ValV>::empty()),
                Err(e) => final(self).transcript().last().response is None && transport_err(e),
            },
    {
        let args: Vec<NanonisValue> = vec![NanonisValue::I32(number_of_samples.0)];
        let codes: Vec<TypeCode> = vec![TypeCode::I32];
        proof {
            reveal_strlit("OsciHR.SamplesSet");
            vstd::utf8::is_ascii_chars_encode_utf8("OsciHR.SamplesSet"@);
            assert(views_of(args@) =~= seq![ValV::I32(number_of_samples.0)]);
            assert(codes@ =~= seq![TypeCode::I32]);
            lemma_scalar_frame(views_of(args@), codes@);
        }
        let rcodes: Vec<TypeCode> = vec![];
        proof {
            assert(rcodes@ =~= Seq::<TypeCode>::empty());
        }
        match self.quick_send("OsciHR.SamplesSet", args, codes, rcodes) {
            Ok(vs_) => {
                proof {
                    assert(views_of(vs_@) =~= Seq::<ValV>::empty());
                }
                Ok(())
            },
            Err(e) => Err(e),
        }
    }

    pub fn osci_hr_samples_get(&mut self) -> (r: Result<SampleCount, NanonisError>) {
        let result = self.quick_send("OsciHR.SamplesGet", vec![], vec![], vec![TypeCode::I32])?;
        if result.len() >= 1 {
            let value = &result[0];
            Ok(SampleCount::new(value.as_i32()?))
        } else {
            Err(NanonisError::Protocol(
                "No sample count returned".to_string(),
            ))
        }
    }

    pub fn osci_hr_pre_trig_get(&mut self) -> (r: Result<i32, NanonisError>)
        ensures
            sent(
                old(self).transcript(),
                final(self).transcript(),
                "OsciHR.PreTrigGet"@,
                Seq::empty(),
                Seq::empty(),
                seq![TypeCode::I32],
            ),
            match r {
                Ok(v) => final(self).transcript().last().response matches Some(vals)
                    && vals.len() == 1 && v == vals[0]->I32_0,
                Err(e) => final(self).transcript().last().response is None && transport_err(e),
            },
    {
        let args: Vec<NanonisValue> = vec![];
        let codes: Vec<TypeCode> = vec![];
        proof {
            reveal_strlit("OsciHR.PreTrigGet");
            vstd::utf8::is_ascii_chars_encode_utf8("OsciHR.PreTrigGet"@);
            assert(views_of(args@) =~= Seq::<ValV>::empty());
            assert(codes@ =~= Seq::<TypeCode>::empty());
            lemma_scalar_frame(views_of(args@), codes@);
        }
        let rcodes: Vec<TypeCode> = vec![TypeCode::I32];
        proof {
            assert(rcodes@ =~= seq![TypeCode::I32]);
        }
        let result = match self.quick_send("OsciHR.PreTrigGet", args, codes, rcodes) {
            Ok(v) => v,
            Err(e) => {
                return Err(e);
            },
        };
        proof {
            assert(views_of(result@)[0] == result@[0]@);
        }
        if result.len() >= 1 {
            let value = &result[0];
            Ok(value.as_i32()?)
        } else {
            Err(NanonisError::Protocol(
                "No pre-trigger samples returned".to_string(),
            ))
        }
    }

    pub fn osci_hr_run(&mut self) -> (r: Result<(), NanonisError>)
        ensures
            sent(
                old(self).transcript(),
                final(self).transcript(),
                "OsciHR.Run"@,
                Seq::empty(),
                Seq::empty(),
                Seq::empty(),
            ),
            match r {
                Ok(()) => final(self).transcript().last().response == Some(Seq::<ValV>::empty()),
                Err(e) => final(self).transcript().last().response is None && transport_err(e),
            },
    {
        let args: Vec<NanonisValue> = vec![];
        let codes: Vec<TypeCode> = vec![];
        proof {
            reveal_strlit("OsciHR.Run");
            vstd::utf8::is_ascii_chars_encode_utf8("OsciHR.Run"@);
            assert(views_of(args@) =~= Seq::<ValV>::empty());
            assert(codes@ =~= Seq::<TypeCode>::empty());
            lemma_scalar_frame(views_of(args@), codes@);
        }
        let rcodes: Vec<TypeCode> = vec![];
        proof {
            assert(rcodes@ =~= Seq::<TypeCode>::empty());
        }
        match self.quick_send("OsciHR.Run", args, codes, rcodes) {
            Ok(vs_) => {
                proof {
                    assert(views_of(vs_@) =~= Seq::<ValV>::empty());
                }
                Ok(())
            },
            Err(e) => Err(e),
        }
    }

    pub fn osci_hr_trig_mode_set(
        &mut self,
        trigger_mode: TriggerMode,
    ) -> (r: Result<(), NanonisError>)
        ensures
            sent(
                old(self).transcript(),
                final(self).transcript(),
                "OsciHR.TrigModeSet"@,
                seq![ValV::U16(trigger_mode.wire())],
                seq![TypeCode::U16],
                Seq::empty(),
            ),
            match r {
                Ok(()) => final(self).transcript().last().response == Some(Seq::<ValV>::empty()),
                Err(e) => final(self).transcript().last().response is None && transport_err(e),
            },
    {
        let args: Vec<NanonisValue> = vec![NanonisValue::U16(trigger_mode.as_u16())];
        let codes: Vec<TypeCode> = vec![TypeCode::U16];
        proof {
            reveal_strlit("OsciHR.TrigModeSet");
            vstd::utf8::is_ascii_chars_encode_utf8("OsciHR.TrigModeSet"@);
            assert(views_of(args@) =~= seq![ValV::U16(trigger_mode.wire())]);
            assert(codes@ =~= seq![TypeCode::U16]);
            lemma_scalar_frame(views_of(args@), codes@);
        }
        let rcodes: Vec<TypeCode> = vec![];
        proof {
            assert(rcodes@ =~= Seq::<TypeCode>::empty());
        }
        match self.quick_send("OsciHR.TrigModeSet", args, codes, rcodes) {
            Ok(vs_) => {
                proof {
                    assert(views_of(vs_@) =~= Seq::<ValV>::empty());
                }
                Ok(())
            },
            Err(e) => Err(e),
        }
    }

    pub fn osci_hr_trig_mode_get(&mut self) -> (r: Result<TriggerMode, NanonisError>) {
        let result = self.quick_send("OsciHR.TrigModeGet", vec![], vec![], vec![TypeCode::U16])?;
        if result.len() >= 1 {
            let value = &result[0];
            {
                let mode_val = value.as_u16()?;
                match mode_val {
                    0 => Ok(TriggerMode::Immediate),
                    1 => Ok(TriggerMode::Level),
                    2 => Ok(TriggerMode::Digital),
                    _ => Err(NanonisError::Protocol("Unknown trigger mode".to_string())),
                }
            }
        } else {
            Err(NanonisError::Protocol(
                "No trigger mode returned".to_string(),
            ))
        }
    }

    pub fn osci_hr_trig_lev_ch_set(
        &mut self,
        level_trigger_channel_index: i32,
    ) -> (r: Result<(), NanonisError>)
        ensures
            sent(
                old(self).transcript(),
                final(self).transcript(),
                "OsciHR.TrigLevChSet"@,
                seq![ValV::I32(level_trigger_channel_index)],
                seq![TypeCode::I32],
                Seq::empty(),
            ),
            match r {
                Ok(()) => final(self).transcript().last().response == Some(Seq::<ValV>::empty()),
                Err(e) => final(self).transcript().last().response is None && transport_err(e),
            },
    {
        let args: Vec<NanonisValue> = vec![NanonisValue::I32(level_trigger_channel_index)];
        let codes: Vec<TypeCode> = vec![TypeCode::I32];
        proof {
            reveal_strlit("OsciHR.TrigLevChSet");
            vstd::utf8::is_ascii_chars_encode_utf8("OsciHR.TrigLevChSet"@);
            assert(views_of(args@) =~= seq![ValV::I32(level_trigger_channel_index)]);
            assert(codes@ =~= seq![TypeCode::I32]);
            lemma_scalar_frame(views_of(args@), codes@);
        }
        let rcodes: Vec<TypeCode> = vec![];
        proof {
            assert(rcodes@ =~= Seq::<TypeCode>::empty());
        }
        match self.quick_send("OsciHR.TrigLevChSet", args, codes, rcodes) {
            Ok(vs_) => {
                proof {
                    assert(views_of(vs_@) =~= Seq::<ValV>::empty());
                }
                Ok(())
            },
            Err(e) => Err(e),
        }
    }

    pub fn osci_hr_trig_lev_ch_get(&mut self) -> (r: Result<i32, NanonisError>)
        ensures
            sent(
                old(self).transcript(),
                final(self).transcript(),
                "OsciHR.TrigLevChGet"@,
                Seq::empty(),
                Seq::empty(),
                seq![TypeCode::I32],
            ),
            match r {
                Ok(v) => final(self).transcript().last().response matches Some(vals)
                    && vals.len() == 1 && v == vals[0]->I32_0,
                Err(e) => final(self).transcript().last().response is None && transport_err(e),
            },
    {
        let args: Vec<NanonisValue> = vec![];
        let codes: Vec<TypeCode> = vec![];
        proof {
            reveal_strlit("OsciHR.TrigLevChGet");
            vstd::utf8::is_ascii_chars_encode_utf8("OsciHR.TrigLevChGet"@);
            assert(views_of(args@) =~= Seq::<ValV>::empty());
            assert(codes@ =~= Seq::<TypeCode>::empty());
            lemma_scalar_frame(views_of(args@), codes@);
        }
        let rcodes: Vec<TypeCode> = vec![TypeCode::I32];
        proof {
            assert(rcodes@ =~= seq![TypeCode::I32]);
        }
        let result = match self.quick_send("OsciHR.TrigLevChGet", args, codes, rcodes) {
            Ok(v) => v,
            Err(e) => {
                return Err(e);
            },
        };
        proof {
            assert(views_of(result@)[0] == result@[0]@);
        }
        if result.len() >= 1 {
            let value = &result[0];
            Ok(value.as_i32()?)
        } else {
            Err(NanonisError::Protocol(
                "No level trigger channel returned".to_string(),
            ))
        }
    }

    pub fn osci_hr_trig_arm_mode_set(
        &mut self,
        trigger_arming_mode: u16,
    ) -> (r: Result<(), NanonisError>)
        ensures
            sent(
                old(self).transcript(),
                final(self).transcript(),
                "OsciHR.TrigArmModeSet"@,
                seq![ValV::U16(trigger_arming_mode)],
                seq![TypeCode::U16],
                Seq::empty(),
            ),
            match r {
                Ok(()) => final(self).transcript().last().response == Some(Seq::<ValV>::empty()),
                Err(e) => final(self).transcript().last().response is None && transport_err(e),
            },
    {
        let args: Vec<NanonisValue> = vec![NanonisValue::U16(trigger_arming_mode)];
        let codes: Vec<TypeCode> = vec![TypeCode::U16];
        proof {
            reveal_strlit("OsciHR.TrigArmModeSet");
            vstd::utf8::is_ascii_chars_encode_utf8("OsciHR.TrigArmModeSet"@);
            assert(views_of(args@) =~= seq![ValV::U16(trigger_arming_mode)]);
            assert(codes@ =~= seq![TypeCode::U16]);
            lemma_scalar_frame(views_of(args@), codes@);
        }
        let rcodes: Vec<TypeCode> = vec![];
        proof {
            assert(rcodes@ =~= Seq::<TypeCode>::empty());
        }
        match self.quick_send("OsciHR.TrigArmModeSet", args, codes, rcodes) {
            Ok(vs_) => {
                proof {
                    assert(views_of(vs_@) =~= Seq::<ValV>::empty());
                }
                Ok(())
            },
            Err(e) => Err(e),
        }
    }

    pub fn osci_hr_trig_arm_mode_get(&mut self) -> (r: Result<u16, NanonisError>)
        ensures
            sent(
                old(self).transcript(),
                final(self).transcript(),
                "OsciHR.TrigArmModeGet"@,
                Seq::empty(),
                Seq::empty(),
                seq![TypeCode::U16],
            ),
            match r {
                Ok(v) => final(self).transcript().last().response matches Some(vals)
                    && vals.len() == 1 && v == vals[0]->U16_0,
                Err(e) => final(self).transcript().last().response is None && transport_err(e),
            },
    {
        let args: Vec<NanonisValue> = vec![];
        let codes: Vec<TypeCode> = vec![];
        proof {
            reveal_strlit("OsciHR.TrigArmModeGet");
            vstd::utf8::is_ascii_chars_encode_utf8("OsciHR.TrigArmModeGet"@);
            assert(views_of(args@) =~= Seq::<ValV>::empty());
            assert(codes@ =~= Seq::<TypeCode>::empty());
            lemma_scalar_frame(views_of(args@), codes@);
        }
        let rcodes: Vec<TypeCode> = vec![TypeCode::U16];
        proof {
            assert(rcodes@ =~= seq![TypeCode::U16]);
        }
        let result = match self.quick_send("OsciHR.TrigArmModeGet", args, codes, rcodes) {
            Ok(v) => v,
            Err(e) => {
                return Err(e);
            },
        };
        proof {
            assert(views_of(result@)[0] == result@[0]@);
        }
        if result.len() >= 1 {
            let value = &result[0];
            Ok(value.as_u16()?)
        } else {
            Err(NanonisError::Protocol(
                "No trigger arming mode returned".to_string(),
            ))
        }
    }

    pub fn osci_hr_trig_lev_slope_set(&mut self, slope: u16) -> (r: Result<(), NanonisError>)
        ensures
            sent(
                old(self).transcript(),
                final(self).transcript(),
                "OsciHR.TrigLevSlopeSet"@,
                seq![ValV::U16(slope)],
                seq![TypeCode::U16],
                Seq::empty(),
            ),
            match r {
                Ok(()) => final(self).transcript().last().response == Some(Seq::<ValV>::empty()),
                Err(e) => final(self).transcript().last().response is None && transport_err(e),
            },
    {
        let args: Vec<NanonisValue> = vec![NanonisValue::U16(slope)];
        let codes: Vec<TypeCode> = vec![TypeCode::U16];
        proof {
            reveal_strlit("OsciHR.TrigLevSlopeSet");
            vstd::utf8::is_ascii_chars_encode_utf8("OsciHR.TrigLevSlopeSet"@);
            assert(views_of(args@) =~= seq![ValV::U16(slope)]);
            assert(codes@ =~= seq![TypeCode::U16]);
            lemma_scalar_frame(views_of(args@), codes@);
        }
        let rcodes: Vec<TypeCode> = vec![];
        proof {
            assert(rcodes@ =~= Seq::<TypeCode>::empty());
        }
        match self.quick_send("OsciHR.TrigLevSlopeSet", args, codes, rcodes) {
            Ok(vs_) => {
                proof {
                    assert(views_of(vs_@) =~= Seq::<ValV>::empty());
                }
                Ok(())
            },
            Err(e) => Err(e),
        }
    }

    pub fn osci_hr_trig_lev_slope_get(&mut self) -> (r: Result<u16, NanonisError>)
        ensures
            sent(
                old(self).transcript(),
                final(self).transcript(),
                "OsciHR.TrigLevSlopeGet"@,
                Seq::empty(),
                Seq::empty(),
                seq![TypeCode::U16],
            ),
            match r {
                Ok(v) => final(self).transcript().last().response matches Some(vals)
                    && vals.len() == 1 && v == vals[0]->U16_0,
                Err(e) => final(self).transcript().last().response is None && transport_err(e),
            },
    {
        let args: Vec<NanonisValue> = vec![];
        let codes: Vec<TypeCode> = vec![];
        proof {
            reveal_strlit("OsciHR.TrigLevSlopeGet");
            vstd::utf8::is_ascii_chars_encode_utf8("OsciHR.TrigLevSlopeGet"@);
            assert(views_of(args@) =~= Seq::<ValV>::empty());
            assert(codes@ =~= Seq::<TypeCode>::empty());
            lemma_scalar_frame(views_of(args@), codes@);
        }
        let rcodes: Vec<TypeCode> = vec![TypeCode::U16];
        proof {
            assert(rcodes@ =~= seq![TypeCode::U16]);
        }
        let result = match self.quick_send("OsciHR.TrigLevSlopeGet", args, codes, rcodes) {
            Ok(v) => v,
            Err(e) => {
                return Err(e);
            },
        };
        proof {
            assert(views_of(result@)[0] == result@[0]@);
        }
        if result.len() >= 1 {
            let value = &result[0];
            Ok(value.as_u16()?)
        } else {
            Err(NanonisError::Protocol(
                "No trigger slope returned".to_string(),
            ))
        }
    }

    pub fn osci_hr_trig_dig_ch_set(
        &mut self,
        digital_trigger_channel: i32,
    ) -> (r: Result<(), NanonisError>)
        ensures
            sent(
                old(self).transcript(),
                final(self).transcript(),
                "OsciHR.TrigDigChSet"@,
                seq![ValV::I32(digital_trigger_channel)],
                seq![TypeCode::I32],
                Seq::empty(),
            ),
            match r {
                Ok(()) => final(self).transcript().last().response == Some(Seq::<ValV>::empty()),
                Err(e) => final(self).transcript().last().response is None && transport_err(e),
            },
    {
        let args: Vec<NanonisValue> = vec![NanonisValue::I32(digital_trigger_channel)];
        let codes: Vec<TypeCode> = vec![TypeCode::I32];
        proof {
            reveal_strlit("OsciHR.TrigDigChSet");
            vstd::utf8::is_ascii_chars_encode_utf8("OsciHR.TrigDigChSet"@);
            assert(views_of(args@) =~= seq![ValV::I32(digital_trigger_channel)]);
            assert(codes@ =~= seq![TypeCode::I32]);
            lemma_scalar_frame(views_of(args@), codes@);
        }
        let rcodes: Vec<TypeCode> = vec![];
        proof {
            assert(rcodes@ =~= Seq::<TypeCode>::empty());
        }
        match self.quick_send("OsciHR.TrigDigChSet", args, codes, rcodes) {
            Ok(vs_) => {
                proof {
                    assert(views_of(vs_@) =~= Seq::<ValV>::empty());
                }
                Ok(())
            },
            Err(e) => Err(e),
        }
    }

    pub fn osci_hr_trig_dig_ch_get(&mut self) -> (r: Result<i32, NanonisError>)
        ensures
            sent(
                old(self).transcript(),
                final(self).transcript(),
                "OsciHR.TrigDigChGet"@,
                Seq::empty(),
                Seq::empty(),
                seq![TypeCode::I32],
            ),
            match r {
                Ok(v) => final(self).transcript().last().response matches Some(vals)
                    && vals.len() == 1 && v == vals[0]->I32_0,
                Err(e) => final(self).transcript().last().response is None && transport_err(e),
            },
    {
        let args: Vec<NanonisValue> = vec![];
        let codes: Vec<TypeCode> = vec![];
        proof {
            reveal_strlit("OsciHR.TrigDigChGet");
            vstd::utf8::is_ascii_chars_encode_utf8("OsciHR.TrigDigChGet"@);
            assert(views_of(args@) =~= Seq::<ValV>::empty());
            assert(codes@ =~= Seq::<TypeCode>::empty());
            lemma_scalar_frame(views_of(args@), codes@);
        }
        let rcodes: Vec<TypeCode> = vec![TypeCode::I32];
        proof {
            assert(rcodes@ =~= seq![TypeCode::I32]);
        }
        let result = match self.quick_send("OsciHR.TrigDigChGet", args, codes, rcodes) {
            Ok(v) => v,
            Err(e) => {
                return Err(e);
            },
        };
        proof {
            assert(views_of(result@)[0] == result@[0]@);
        }
        if result.len() >= 1 {
            let value = &result[0];
            Ok(value.as_i32()?)
        } else {
            Err(NanonisError::Protocol(
                "No digital trigger channel returned".to_string(),
            ))
        }
    }

    pub fn osci_hr_trig_dig_slope_set(&mut self, slope: u16) -> (r: Result<(), NanonisError>)
        ensures
            sent(
                old(self).transcript(),
                final(self).transcript(),
                "OsciHR.TrigDigSlopeSet"@,
                seq![ValV::U16(slope)],
                seq![TypeCode::U16],
                Seq::empty(),
            ),
            match r {
                Ok(()) => final(self).transcript().last().response == Some(Seq::<ValV>::empty()),
                Err(e) => final(self).transcript().last().response is None && transport_err(e),
            },
    {
        let args: Vec<NanonisValue> = vec![NanonisValue::U16(slope)];
        let codes: Vec<TypeCode> = vec![TypeCode::U16];
        proof {
            reveal_strlit("OsciHR.TrigDigSlopeSet");
            vstd::utf8::is_ascii_chars_encode_utf8("OsciHR.TrigDigSlopeSet"@);
            assert(views_of(args@) =~= seq![ValV::U16(slope)]);
            assert(codes@ =~= seq![TypeCode::U16]);
            lemma_scalar_frame(views_of(args@), codes@);
        }
        let rcodes: Vec<TypeCode> = vec![];
        proof {
            assert(rcodes@ =~= Seq::<TypeCode>::empty());
        }
        match self.quick_send("OsciHR.TrigDigSlopeSet", args, codes, rcodes) {
            Ok(vs_) => {
                proof {
                    assert(views_of(vs_@) =~= Seq::<ValV>::empty());
                }
                Ok(())
            },
            Err(e) => Err(e),
        }
    }

    pub fn osci_hr_trig_dig_slope_get(&mut self) -> (r: Result<u16, NanonisError>)
        ensures
            sent(
                old(self).transcript(),
                final(self).transcript(),
                "OsciHR.TrigDigSlopeGet"@,
                Seq::empty(),
                Seq::empty(),
                seq![TypeCode::U16],
            ),
            match r {
                Ok(v) => final(self).transcript().last().response matches Some(vals)
                    && vals.len() == 1 && v == vals[0]->U16_0,
                Err(e) => final(self).transcript().last().response is None && transport_err(e),
            },
    {
        let args: Vec<NanonisValue> = vec![];
        let codes: Vec<TypeCode> = vec![];
        proof {
            reveal_strlit("OsciHR.TrigDigSlopeGet");
            vstd::utf8::is_ascii_chars_encode_utf8("OsciHR.TrigDigSlopeGet"@);
            assert(views_of(args@) =~= Seq::<ValV>::empty());
            assert(codes@ =~= Seq::<TypeCode>::empty());
            lemma_scalar_frame(views_of(args@), codes@);
        }
        let rcodes: Vec<TypeCode> = vec![TypeCode::U16];
        proof {
            assert(rcodes@ =~= seq![TypeCode::U16]);
        }
        let result = match self.quick_send("OsciHR.TrigDigSlopeGet", args, codes, rcodes) {
            Ok(v) => v,
            Err(e) => {
                return Err(e);
            },
        };
        proof {
            assert(views_of(result@)[0] == result@[0]@);
        }
        if result.len() >= 1 {
            let value = &result[0];
            Ok(value.as_u16()?)
        } else {
            Err(NanonisError::Protocol(
                "No digital trigger slope returned".to_string(),
            ))
        }
    }

    pub fn osci_hr_trig_rearm(&mut self) -> (r: Result<(), NanonisError>)
        ensures
            sent(
                old(self).transcript(),
                final(self).transcript(),
                "OsciHR.TrigRearm"@,
                Seq::empty(),
                Seq::empty(),
                Seq::empty(),
            ),
            match r {
                Ok(()) => final(self).transcript().last().response == Some(Seq::<ValV>::empty()),
                Err(e) => final(self).transcript().last().response is None && transport_err(e),
            },
    {
        let args: Vec<NanonisValue> = vec![];
        let codes: Vec<TypeCode> = vec![];
        proof {
            reveal_strlit("OsciHR.TrigRearm");
            vstd::utf8::is_ascii_chars_encode_utf8("OsciHR.TrigRearm"@);
            assert(views_of(args@) =~= Seq::<ValV>::empty());
            assert(codes@ =~= Seq::<TypeCode>::empty());
            lemma_scalar_frame(views_of(args@), codes@);
        }
        let rcodes: Vec<TypeCode> = vec![];
        proof {
            assert(rcodes@ =~= Seq::<TypeCode>::empty());
        }
        match self.quick_send("OsciHR.TrigRearm", args, codes, rcodes) {
            Ok(vs_) => {
                proof {
                    assert(views_of(vs_@) =~= Seq::<ValV>::empty());
                }
                Ok(())
            },
            Err(e) => Err(e),
        }
    }

    pub fn osci_hr_psd_show(&mut self) -> (r: Result<(), NanonisError>)
        ensures
            sent(
                old(self).transcript(),
                final(self).transcript(),
                "OsciHR.PSDShow"@,
                Seq::empty(),
                Seq::empty(),
                Seq::empty(),
            ),
            match r {
                Ok(()) => final(self).transcript().last().response == Some(Seq::<ValV>::empty()),
                Err(e) => final(self).transcript().last().response is None && transport_err(e),
            },
    {
        let args: Vec<NanonisValue> = vec![];
        let codes: Vec<TypeCode> = vec![];
        proof {
            reveal_strlit("OsciHR.PSDShow");
            vstd::utf8::is_ascii_chars_encode_utf8("OsciHR.PSDShow"@);
            assert(views_of(args@) =~= Seq::<ValV>::empty());
            assert(codes@ =~= Seq::<TypeCode>::empty());
            lemma_scalar_frame(views_of(args@), codes@);
        }
        let rcodes: Vec<TypeCode> = vec![];
        proof {
            assert(rcodes@ =~= Seq::<TypeCode>::empty());
        }
        match self.quick_send("OsciHR.PSDShow", args, codes, rcodes) {
            Ok(vs_) => {
                proof {
                    assert(views_of(vs_@) =~= Seq::<ValV>::empty());
                }
                Ok(())
            },
            Err(e) => Err(e),
        }
    }

    pub fn osci_hr_psd_weight_set(
        &mut self,
        osci_index: i32,
        weighting: u16,
    ) -> (r: Result<(), NanonisError>)
        ensures
            sent(
                old(self).transcript(),
                final(self).transcript(),
                "OsciHR.PSDWeightSet"@,
                seq![ValV::I32(osci_index), ValV::U16(weighting)],
                seq![TypeCode::I32, TypeCode::U16],
                Seq::empty(),
            ),
            match r {
                Ok(()) => final(self).transcript().last().response == Some(Seq::<ValV>::empty()),
                Err(e) => final(self).transcript().last().response is None && transport_err(e),
            },
    {
        let args: Vec<NanonisValue> = vec![NanonisValue::I32(osci_index),
                NanonisValue::U16(weighting),];
        let codes: Vec<TypeCode> = vec![TypeCode::I32, TypeCode::U16];
        proof {
            reveal_strlit("OsciHR.PSDWeightSet");
            vstd::utf8::is_ascii_chars_encode_utf8("OsciHR.PSDWeightSet"@);
            assert(views_of(args@) =~= seq![ValV::I32(osci_index), ValV::U16(weighting)]);
            assert(codes@ =~= seq![TypeCode::I32, TypeCode::U16]);
            lemma_scalar_frame(views_of(args@), codes@);
        }
        let rcodes: Vec<TypeCode> = vec![];
        proof {
            assert(rcodes@ =~= Seq::<TypeCode>::empty());
        }
        match self.quick_send("OsciHR.PSDWeightSet", args, codes, rcodes) {
            Ok(vs_) => {
                proof {
                    assert(views_of(vs_@) =~= Seq::<ValV>::empty());
                }
                Ok(())
            },
            Err(e) => Err(e),
        }
    }

    pub fn osci_hr_psd_weight_get(&mut self, osci_index: i32) -> (r: Result<u16, NanonisError>)
        ensures
            sent(
                old(self).transcript(),
                final(self).transcript(),
                "OsciHR.PSDWeightGet"@,
                seq![ValV::I32(osci_index)],
                seq![TypeCode::I32],
                seq![TypeCode::U16],
            ),
            match r {
                Ok(v) => final(self).transcript().last().response matches Some(vals)
                    && vals.len() == 1 && v == vals[0]->U16_0,
                Err(e) => final(self).transcript().last().response is None && transport_err(e),
            },
    {
        let args: Vec<NanonisValue> = vec![NanonisValue::I32(osci_index)];
        let codes: Vec<TypeCode> = vec![TypeCode::I32];
        proof {
            reveal_strlit("OsciHR.PSDWeightGet");
            vstd::utf8::is_ascii_chars_encode_utf8("OsciHR.PSDWeightGet"@);
            assert(views_of(args@) =~= seq![ValV::I32(osci_index)]);
            assert(codes@ =~= seq![TypeCode::I32]);
            lemma_scalar_frame(views_of(args@), codes@);
        }
        let rcodes: Vec<TypeCode> = vec![TypeCode::U16];
        proof {
            assert(rcodes@ =~= seq![TypeCode::U16]);
        }
        let result = match self.quick_send("OsciHR.PSDWeightGet", args, codes, rcodes) {
            Ok(v) => v,
            Err(e) => {
                return Err(e);
            },
        };
        proof {
            assert(views_of(result@)[0] == result@[0]@);
        }
        if result.len() >= 1 {
            let value = &result[0];
            Ok(value.as_u16()?)
        } else {
            Err(NanonisError::Protocol(
                "No PSD weighting returned".to_string(),
            ))
        }
    }

    pub fn osci_hr_psd_window_set(
        &mut self,
        osci_index: i32,
        window: u16,
    ) -> (r: Result<(), NanonisError>)
        ensures
            sent(
                old(self).transcript(),
                final(self).transcript(),
                "OsciHR.PSDWindowSet"@,
                seq![ValV::I32(osci_index), ValV::U16(window)],
                seq![TypeCode::I32, TypeCode::U16],
                Seq::empty(),
            ),
            match r {
                Ok(()) => final(self).transcript().last().response == Some(Seq::<ValV>::empty()),
                Err(e) => final(self).transcript().last().response is None && transport_err(e),
            },
    {
        let args: Vec<NanonisValue> = vec![NanonisValue::I32(osci_index),
                NanonisValue::U16(window),];
        let codes: Vec<TypeCode> = vec![TypeCode::I32, TypeCode::U16];
        proof {
            reveal_strlit("OsciHR.PSDWindowSet");
            vstd::utf8::is_ascii_chars_encode_utf8("OsciHR.PSDWindowSet"@);
            assert(views_of(args@) =~= seq![ValV::I32(osci_index), ValV::U16(window)]);
            assert(codes@ =~= seq![TypeCode::I32, TypeCode::U16]);
            lemma_scalar_frame(views_of(args@), codes@);
        }
        let rcodes: Vec<TypeCode> = vec![];
        proof {
            assert(rcodes@ =~= Seq::<TypeCode>::empty());
        }
        match self.quick_send("OsciHR.PSDWindowSet", args, codes, rcodes) {
            Ok(vs_) => {
                proof {
                    assert(views_of(vs_@) =~= Seq::<ValV>::empty());
                }
                Ok(())
            },
            Err(e) => Err(e),
        }
    }

    pub fn osci_hr_psd_window_get(&mut self, osci_index: i32) -> (r: Result<u16, NanonisError>)
        ensures
            sent(
                old(self).transcript(),
                final(self).transcript(),
                "OsciHR.PSDWindowGet"@,
                seq![ValV::I32(osci_index)],
                seq![TypeCode::I32],
                seq![TypeCode::U16],
            ),
            match r {
                Ok(v) => final(self).transcript().last().response matches Some(vals)
                    && vals.len() == 1 && v == vals[0]->U16_0,
                Err(e) => final(self).transcript().last().response is None && transport_err(e),
            },
    {
        let args: Vec<NanonisValue> = vec![NanonisValue::I32(osci_index)];
        let codes: Vec<TypeCode> = vec![TypeCode::I32];
        proof {
            reveal_strlit("OsciHR.PSDWindowGet");
            vstd::utf8::is_ascii_chars_encode_utf8("OsciHR.PSDWindowGet"@);
            assert(views_of(args@) =~= seq![ValV::I32(osci_index)]);
            assert(codes@ =~= seq![TypeCode::I32]);
            lemma_scalar_frame(views_of(args@), codes@);
        }
        let rcodes: Vec<TypeCode> = vec![TypeCode::U16];
        proof {
            assert(rcodes@ =~= seq![TypeCode::U16]);
        }
        let result = match self.quick_send("OsciHR.PSDWindowGet", args, codes, rcodes) {
            Ok(v) => v,
            Err(e) => {
                return Err(e);
            },
        };
        proof {
            assert(views_of(result@)[0] == result@[0]@);
        }
        if result.len() >= 1 {
            let value = &result[0];
            Ok(value.as_u16()?)
        } else {
            Err(NanonisError::Protocol(
                "No PSD window returned".to_string(),
            ))
        }
    }

    pub fn osci_hr_psd_avrg_type_set(
        &mut self,
        osci_index: i32,
        averaging_type: u16,
    ) -> (r: Result<(), NanonisError>)
        ensures
            sent(
                old(self).transcript(),
                final(self).transcript(),
                "OsciHR.PSDAvrgTypeSet"@,
                seq![ValV::I32(osci_index), ValV::U16(averaging_type)],
                seq![TypeCode::I32, TypeCode::U16],
                Seq::empty(),
            ),
            match r {
                Ok(()) => final(self).transcript().last().response == Some(Seq::<ValV>::empty()),
                Err(e) => final(self).transcript().last().response is None && transport_err(e),
            },
    {
        let args: Vec<NanonisValue> = vec![NanonisValue::I32(osci_index),
                NanonisValue::U16(averaging_type),];
        let codes: Vec<TypeCode> = vec![TypeCode::I32, TypeCode::U16];
        proof {
            reveal_strlit("OsciHR.PSDAvrgTypeSet");
            vstd::utf8::is_ascii_chars_encode_utf8("OsciHR.PSDAvrgTypeSet"@);
            assert(views_of(args@) =~= seq![ValV::I32(osci_index), ValV::U16(averaging_type)]);
            assert(codes@ =~= seq![TypeCode::I32, TypeCode::U16]);
            lemma_scalar_frame(views_of(args@), codes@);
        }
        let rcodes: Vec<TypeCode> = vec![];
        proof {
            assert(rcodes@ =~= Seq::<TypeCode>::empty());
        }
        match self.quick_send("OsciHR.PSDAvrgTypeSet", args, codes, rcodes) {
            Ok(vs_) => {
                proof {
                    assert(views_of(vs_@) =~= Seq::<ValV>::empty());
                }
                Ok(())
            },
            Err(e) => Err(e),
        }
    }

    pub fn osci_hr_psd_avrg_type_get(&mut self, osci_index: i32) -> (r: Result<u16, NanonisError>)
        ensures
            sent(
                old(self).transcript(),
                final(self).transcript(),
                "OsciHR.PSDAvrgTypeGet"@,
                seq![ValV::I32(osci_index)],
                seq![TypeCode::I32],
                seq![TypeCode::U16],
            ),
            match r {
                Ok(v) => final(self).transcript().last().response matches Some(vals)
                    && vals.len() == 1 && v == vals[0]->U16_0,
                Err(e) => final(self).transcript().last().response is None && transport_err(e),
            },
    {
        let args: Vec<NanonisValue> = vec![NanonisValue::I32(osci_index)];
        let codes: Vec<TypeCode> = vec![TypeCode::I32];
        proof {
            reveal_strlit("OsciHR.PSDAvrgTypeGet");
            vstd::utf8::is_ascii_chars_encode_utf8("OsciHR.PSDAvrgTypeGet"@);
            assert(views_of(args@) =~= seq![ValV::I32(osci_index)]);
            assert(codes@ =~= seq![TypeCode::I32]);
            lemma_scalar_frame(views_of(args@), codes@);
        }
        let rcodes: Vec<TypeCode> = vec![TypeCode::U16];
        proof {
            assert(rcodes@ =~= seq![TypeCode::U16]);
        }
        let result = match self.quick_send("OsciHR.PSDAvrgTypeGet", args, codes, rcodes) {
            Ok(v) => v,
            Err(e) => {
                return Err(e);
            },
        };
        proof {
            assert(views_of(result@)[0] == result@[0]@);
        }
        if result.len() >= 1 {
            let value = &result[0];
            Ok(value.as_u16()?)
        } else {
            Err(NanonisError::Protocol(
                "No PSD averaging type returned".to_string(),
            ))
        }
    }

    pub fn osci_hr_psd_avrg_count_set(
        &mut self,
        osci_index: i32,
        count: i32,
    ) -> (r: Result<(), NanonisError>)
        ensures
            sent(
                old(self).transcript(),
                final(self).transcript(),
                "OsciHR.PSDAvrgCountSet"@,
                seq![ValV::I32(osci_index), ValV::I32(count)],
                seq![TypeCode::I32, TypeCode::I32],
                Seq::empty(),
            ),
            match r {
                Ok(()) => final(self).transcript().last().response == Some(Seq::<ValV>::empty()),
                Err(e) => final(self).transcript().last().response is None && transport_err(e),
            },
    {
        let args: Vec<NanonisValue> = vec![NanonisValue::I32(osci_index),
                NanonisValue::I32(count),];
        let codes: Vec<TypeCode> = vec![TypeCode::I32, TypeCode::I32];
        proof {
            reveal_strlit("OsciHR.PSDAvrgCountSet");
            vstd::utf8::is_ascii_chars_encode_utf8("OsciHR.PSDAvrgCountSet"@);
            assert(views_of(args@) =~= seq![ValV::I32(osci_index), ValV::I32(count)]);
            assert(codes@ =~= seq![TypeCode::I32, TypeCode::I32]);
            lemma_scalar_frame(views_of(args@), codes@);
        }
        let rcodes: Vec<TypeCode> = vec![];
        proof {
            assert(rcodes@ =~= Seq::<TypeCode>::empty());
        }
        match self.quick_send("OsciHR.PSDAvrgCountSet", args, codes, rcodes) {
            Ok(vs_) => {
                proof {
                    assert(views_of(vs_@) =~= Seq::<ValV>::empty());
                }
                Ok(())
            },
            Err(e) => Err(e),
        }
    }

    pub fn osci_hr_psd_avrg_count_get(&mut self, osci_index: i32) -> (r: Result<i32, NanonisError>)
        ensures
            sent(
                old(self).transcript(),
                final(self).transcript(),
                "OsciHR.PSDAvrgCountGet"@,
                seq![ValV::I32(osci_index)],
                seq![TypeCode::I32],
                seq![TypeCode::I32],
            ),
            match r {
                Ok(v) => final(self).transcript().last().response matches Some(vals)
                    && vals.len() == 1 && v == vals[0]->I32_0,
                Err(e) => final(self).transcript().last().response is None && transport_err(e),
            },
    {
        let args: Vec<NanonisValue> = vec![NanonisValue::I32(osci_index)];
        let codes: Vec<TypeCode> = vec![TypeCode::I32];
        proof {
            reveal_strlit("OsciHR.PSDAvrgCountGet");
            vstd::utf8::is_ascii_chars_encode_utf8("OsciHR.PSDAvrgCountGet"@);
            assert(views_of(args@) =~= seq![ValV::I32(osci_index)]);
            assert(codes@ =~= seq![TypeCode::I32]);
            lemma_scalar_frame(views_of(args@), codes@);
        }
        let rcodes: Vec<TypeCode> = vec![TypeCode::I32];
        proof {
            assert(rcodes@ =~= seq![TypeCode::I32]);
        }
        let result = match self.quick_send("OsciHR.PSDAvrgCountGet", args, codes, rcodes) {
            Ok(v) => v,
            Err(e) => {
                return Err(e);
            },
        };
        proof {
            assert(views_of(result@)[0] == result@[0]@);
        }
        if result.len() >= 1 {
            let value = &result[0];
            Ok(value.as_i32()?)
        } else {
            Err(NanonisError::Protocol(
                "No PSD averaging count returned".to_string(),
            ))
        }
    }

    pub fn osci_hr_psd_avrg_restart(&mut self, osci_index: i32) -> (r: Result<(), NanonisError>)
        ensures
            sent(
                old(self).transcript(),
                final(self).transcript(),
                "OsciHR.PSDAvrgRestart"@,
                seq![ValV::I32(osci_index)],
                seq![TypeCode::I32],
                Seq::empty(),
            ),
            match r {
                Ok(()) => final(self).transcript().last().response == Some(Seq::<ValV>::empty()),
                Err(e) => final(self).transcript().last().response is None && transport_err(e),
            },
    {
        let args: Vec<NanonisValue> = vec![NanonisValue::I32(osci_index)];
        let codes: Vec<TypeCode> = vec![TypeCode::I32];
        proof {
            reveal_strlit("OsciHR.PSDAvrgRestart");
            vstd::utf8::is_ascii_chars_encode_utf8("OsciHR.PSDAvrgRestart"@);
            assert(views_of(args@) =~= seq![ValV::I32(osci_index)]);
            assert(codes@ =~= seq![TypeCode::I32]);
            lemma_scalar_frame(views_of(args@), codes@);
        }
        let rcodes: Vec<TypeCode> = vec![];
        proof {
            assert(rcodes@ =~= Seq::<TypeCode>::empty());
        }
        match self.quick_send("OsciHR.PSDAvrgRestart", args, codes, rcodes) {
            Ok(vs_) => {
                proof {
                    assert(views_of(vs_@) =~= Seq::<ValV>::empty());
                }
                Ok(())
            },
            Err(e) => Err(e),
        }
    }

}

} // verus!
