//! High-speed sweeper commands.

use vstd::prelude::*;

use crate::client::{lemma_scalar_frame, sent, transport_err, NanonisClient};
use crate::codec::views_of;
use crate::codes::TypeCode;
use crate::error::NanonisError;
use crate::value::{NanonisValue, ValV};

verus! {

/// The comparison a sweep-reverse condition applies to its signal.
#[derive(Debug, Clone, Copy, PartialEq, Eq, Structural)]
pub enum ReverseCondition {
    /// Signal greater than threshold
    GreaterThan,
    /// Signal less than threshold
    LessThan,
}

impl ReverseCondition {
    /// The wire value of the selector.
    pub open spec fn wire(self) -> u32 {
        match self {
            ReverseCondition::GreaterThan => 0,
            ReverseCondition::LessThan => 1,
        }
    }

    /// The wire value of the selector.
    pub fn as_u32(self) -> (r: u32)
        ensures
            r == self.wire(),
    {
        match self {
            ReverseCondition::GreaterThan => 0,
            ReverseCondition::LessThan => 1,
        }
    }
}

/// How the two sweep-reverse conditions combine.
#[derive(Debug, Clone, Copy, PartialEq, Eq, Structural)]
pub enum ConditionLinkage {
    /// No second condition
    Off,
    /// Either condition must be met
    Or,
    /// Both conditions must be met simultaneously
    And,
    /// The first condition must be met first, the second after it
    Then,
}

impl ConditionLinkage {
    /// The wire value of the selector.
    pub open spec fn wire(self) -> u32 {
        match self {
            ConditionLinkage::Off => 0,
            ConditionLinkage::Or => 1,
            ConditionLinkage::And => 2,
            ConditionLinkage::Then => 3,
        }
    }

    /// The wire value of the selector.
    pub fn as_u32(self) -> (r: u32)
        ensures
            r == self.wire(),
    {
        match self {
            ConditionLinkage::Off => 0,
            ConditionLinkage::Or => 1,
            ConditionLinkage::And => 2,
            ConditionLinkage::Then => 3,
        }
    }
}

/// The acquisition channels offered by the high-speed sweeper, and which of
/// them are selected.
#[derive(Debug, Clone)]
pub struct HSSwpAvailableChannels {
    /// Currently selected channel indices
    pub selected_indices: Vec<u32>,
    /// Names of available channels
    pub available_names: Vec<String>,
    /// Indices of available channels
    pub available_indices: Vec<i32>,
}

/// The signals a sweep channel can sweep.
#[derive(Debug, Clone)]
pub struct HSSwpSignalList {
    /// Signal names
    pub names: Vec<String>,
    /// Signal indices
    pub indices: Vec<i32>,
}

/// What is written beside the swept data when saving.
#[derive(Debug, Clone)]
pub struct HSSwpSaveOptions {
    /// Comment for file header
    pub comment: String,
    /// Module names for parameters to save
    pub modules: Vec<String>,
}

impl NanonisClient {
    pub fn hs_swp_acq_chs_set(&mut self, channel_indices: &Vec<i32>) -> (r: Result<(), NanonisError>)
        ensures
            ({
                let req_args = seq![ValV::ArrI32(channel_indices@)];
                let req_codes = seq![TypeCode::ArrI32];
                &&& crate::client::frame_ok("HSSwp.AcqChsSet"@, req_args, req_codes) ==> sent(
                    old(self).transcript(),
                    final(self).transcript(),
                    "HSSwp.AcqChsSet"@,
                    req_args,
                    req_codes,
                    Seq::empty(),
                ) && (match r {
                    Ok(()) => final(self).transcript().last().response == Some(
                        Seq::<ValV>::empty(),
                    ),
                    Err(e) => final(self).transcript().last().response is None && transport_err(
                        e,
                    ),
                })
                &&& !crate::client::frame_ok("HSSwp.AcqChsSet"@, req_args, req_codes) ==> final(self).transcript()
                    == old(self).transcript() && (r matches Err(e) && (e is InvalidInput
                    || e is Protocol))
            }),
    {
        let args: Vec<NanonisValue> = vec![NanonisValue::ArrayI32(channel_indices.clone())];
        let codes: Vec<TypeCode> = vec![TypeCode::ArrI32];
        proof {
            reveal_strlit("HSSwp.AcqChsSet");
            vstd::utf8::is_ascii_chars_encode_utf8("HSSwp.AcqChsSet"@);
            assert(views_of(args@) =~= seq![ValV::ArrI32(channel_indices@)]);
            assert(codes@ =~= seq![TypeCode::ArrI32]);
        }
        let rcodes: Vec<TypeCode> = vec![];
        proof {
            assert(rcodes@ =~= Seq::<TypeCode>::empty());
        }
        match self.quick_send("HSSwp.AcqChsSet", args, codes, rcodes) {
            Ok(vs_) => {
                proof {
                    assert(views_of(vs_@) =~= Seq::<ValV>::empty());
                }
                Ok(())
            },
            Err(e) => Err(e),
        }
    }

    pub fn hs_swp_acq_chs_get(&mut self) -> (r: Result<HSSwpAvailableChannels, NanonisError>) {
        let result = self.quick_send(
            "HSSwp.AcqChsGet",
            vec![],
            vec![],
            vec![TypeCode::I32, TypeCode::ArrU32Prev, TypeCode::I32, TypeCode::I32, TypeCode::StrArrayPrev, TypeCode::I32, TypeCode::ArrI32Prev],
        )?;

        if result.len() >= 7 {
            Ok(HSSwpAvailableChannels {
                selected_indices: result[1].as_u32_array()?.clone(),
                available_names: result[4].as_string_array()?.clone(),
                available_indices: result[6].as_i32_array()?.clone(),
            })
        } else {
            Err(NanonisError::Protocol("Invalid response".to_string()))
        }
    }

    pub fn hs_swp_num_sweeps_set(
        &mut self,
        num_sweeps: u32,
        continuous: bool,
    ) -> (r: Result<(), NanonisError>)
        ensures
            sent(
                old(self).transcript(),
                final(self).transcript(),
                "HSSwp.NumSweepsSet"@,
                seq![ValV::U32(num_sweeps), ValV::I32((if continuous { 1i32 } else { 0i32 }))],
                seq![TypeCode::U32, TypeCode::I32],
                Seq::empty(),
            ),
            match r {
                Ok(()) => final(self).transcript().last().response == Some(Seq::<ValV>::empty()),
                Err(e) => final(self).transcript().last().response is None && transport_err(e),
            },
    {

        let cont_flag = if continuous { 1i32 } else { 0i32 };
        let args: Vec<NanonisValue> = vec![NanonisValue::U32(num_sweeps), NanonisValue::I32(cont_flag)];
        let codes: Vec<TypeCode> = vec![TypeCode::U32, TypeCode::I32];
        proof {
            reveal_strlit("HSSwp.NumSweepsSet");
            vstd::utf8::is_ascii_chars_encode_utf8("HSSwp.NumSweepsSet"@);
            assert(views_of(args@) =~= seq![ValV::U32(num_sweeps), ValV::I32((if continuous { 1i32 } else { 0i32 }))]);
            assert(codes@ =~= seq![TypeCode::U32, TypeCode::I32]);
            lemma_scalar_frame(views_of(args@), codes@);
        }
        let rcodes: Vec<TypeCode> = vec![];
        proof {
            assert(rcodes@ =~= Seq::<TypeCode>::empty());
        }
        match self.quick_send("HSSwp.NumSweepsSet", args, codes, rcodes) {
            Ok(vs_) => {
                proof {
                    assert(views_of(vs_@) =~= Seq::<ValV>::empty());
                }
                Ok(())
            },
            Err(e) => Err(e),
        }
    }

    pub fn hs_swp_num_sweeps_get(&mut self) -> (r: Result<(u32, bool), NanonisError>)
        ensures
            sent(
                old(self).transcript(),
                final(self).transcript(),
                "HSSwp.NumSweepsGet"@,
                Seq::empty(),
                Seq::empty(),
                seq![TypeCode::U32, TypeCode::I32],
            ),
            match r {
                Ok(v) => final(self).transcript().last().response matches Some(vals)
                    && vals.len() == 2 && v.0 == vals[0]->U32_0
                    && v.1 == (vals[1]->I32_0 != 0),
                Err(e) => final(self).transcript().last().response is None && transport_err(e),
            },
    {
        let args: Vec<NanonisValue> = vec![];
        let codes: Vec<TypeCode> = vec![];
        proof {
            reveal_strlit("HSSwp.NumSweepsGet");
            vstd::utf8::is_ascii_chars_encode_utf8("HSSwp.NumSweepsGet"@);
            assert(views_of(args@) =~= Seq::<ValV>::empty());
            assert(codes@ =~= Seq::<TypeCode>::empty());
            lemma_scalar_frame(views_of(args@), codes@);
        }
        let rcodes: Vec<TypeCode> = vec![TypeCode::U32, TypeCode::I32];
        proof {
            assert(rcodes@ =~= seq![TypeCode::U32, TypeCode::I32]);
        }
        let result = match self.quick_send("HSSwp.NumSweepsGet", args, codes, rcodes) {
            Ok(v) => v,
            Err(e) => {
                return Err(e);
            },
        };
        proof {
            assert(views_of(result@)[0] == result@[0]@);
            assert(views_of(result@)[1] == result@[1]@);
        }
        if result.len() >= 2 {
            Ok((result[0].as_u32()?, result[1].as_i32()? != 0))
        } else {
            Err(NanonisError::Protocol("Invalid response".to_string()))
        }
    }

    pub fn hs_swp_reset_signals_set(&mut self, reset: bool) -> (r: Result<(), NanonisError>)
        ensures
            sent(
                old(self).transcript(),
                final(self).transcript(),
                "HSSwp.ResetSignalsSet"@,
                seq![ValV::I32((if reset { 1i32 } else { 0i32 }))],
                seq![TypeCode::I32],
                Seq::empty(),
            ),
            match r {
                Ok(()) => final(self).transcript().last().response == Some(Seq::<ValV>::empty()),
                Err(e) => final(self).transcript().last().response is None && transport_err(e),
            },
    {

        let flag = if reset { 1i32 } else { 0i32 };
        let args: Vec<NanonisValue> = vec![NanonisValue::I32(flag)];
        let codes: Vec<TypeCode> = vec![TypeCode::I32];
        proof {
            reveal_strlit("HSSwp.ResetSignalsSet");
            vstd::utf8::is_ascii_chars_encode_utf8("HSSwp.ResetSignalsSet"@);
            assert(views_of(args@) =~= seq![ValV::I32((if reset { 1i32 } else { 0i32 }))]);
            assert(codes@ =~= seq![TypeCode::I32]);
            lemma_scalar_frame(views_of(args@), codes@);
        }
        let rcodes: Vec<TypeCode> = vec![];
        proof {
            assert(rcodes@ =~= Seq::<TypeCode>::empty());
        }
        match self.quick_send("HSSwp.ResetSignalsSet", args, codes, rcodes) {
            Ok(vs_) => {
                proof {
                    assert(views_of(vs_@) =~= Seq::<ValV>::empty());
                }
                Ok(())
            },
            Err(e) => Err(e),
        }
    }

    pub fn hs_swp_reset_signals_get(&mut self) -> (r: Result<bool, NanonisError>)
        ensures
            sent(
                old(self).transcript(),
                final(self).transcript(),
                "HSSwp.ResetSignalsGet"@,
                Seq::empty(),
                Seq::empty(),
                seq![TypeCode::I32],
            ),
            match r {
                Ok(v) => final(self).transcript().last().response matches Some(vals)
                    && vals.len() == 1 && v == (vals[0]->I32_0 != 0),
                Err(e) => final(self).transcript().last().response is None && transport_err(e),
            },
    {
        let args: Vec<NanonisValue> = vec![];
        let codes: Vec<TypeCode> = vec![];
        proof {
            reveal_strlit("HSSwp.ResetSignalsGet");
            vstd::utf8::is_ascii_chars_encode_utf8("HSSwp.ResetSignalsGet"@);
            assert(views_of(args@) =~= Seq::<ValV>::empty());
            assert(codes@ =~= Seq::<TypeCode>::empty());
            lemma_scalar_frame(views_of(args@), codes@);
        }
        let rcodes: Vec<TypeCode> = vec![TypeCode::I32];
        proof {
            assert(rcodes@ =~= seq![TypeCode::I32]);
        }
        let result = match self.quick_send("HSSwp.ResetSignalsGet", args, codes, rcodes) {
            Ok(v) => v,
            Err(e) => {
                return Err(e);
            },
        };
        proof {
            assert(views_of(result@)[0] == result@[0]@);
        }
        if !result.is_empty() {
            Ok(result[0].as_i32()? != 0)
        } else {
            Err(NanonisError::Protocol("Invalid response".to_string()))
        }
    }

    pub fn hs_swp_save_basename_set(
        &mut self,
        basename: &str,
        path: &str,
    ) -> (r: Result<(), NanonisError>)
        ensures
            ({
                let req_args = seq![ValV::Str(basename@), ValV::Str(path@)];
                let req_codes = seq![TypeCode::Str, TypeCode::Str];
                &&& crate::client::frame_ok("HSSwp.SaveBasenameSet"@, req_args, req_codes) ==> sent(
                    old(self).transcript(),
                    final(self).transcript(),
                    "HSSwp.SaveBasenameSet"@,
                    req_args,
                    req_codes,
                    Seq::empty(),
                ) && (match r {
                    Ok(()) => final(self).transcript().last().response == Some(
                        Seq::<ValV>::empty(),
                    ),
                    Err(e) => final(self).transcript().last().response is None && transport_err(
                        e,
                    ),
                })
                &&& !crate::client::frame_ok("HSSwp.SaveBasenameSet"@, req_args, req_codes) ==> final(self).transcript()
                    == old(self).transcript() && (r matches Err(e) && (e is InvalidInput
                    || e is Protocol))
            }),
    {
        let args: Vec<NanonisValue> = vec![NanonisValue::String(basename.to_owned()), NanonisValue::String(path.to_owned())];
        let codes: Vec<TypeCode> = vec![TypeCode::Str, TypeCode::Str];
        proof {
            reveal_strlit("HSSwp.SaveBasenameSet");
            vstd::utf8::is_ascii_chars_encode_utf8("HSSwp.SaveBasenameSet"@);
            assert(views_of(args@) =~= seq![ValV::Str(basename@), ValV::Str(path@)]);
            assert(codes@ =~= seq![TypeCode::Str, TypeCode::Str]);
        }
        let rcodes: Vec<TypeCode> = vec![];
        proof {
            assert(rcodes@ =~= Seq::<TypeCode>::empty());
        }
        match self.quick_send("HSSwp.SaveBasenameSet", args, codes, rcodes) {
            Ok(vs_) => {
                proof {
                    assert(views_of(vs_@) =~= Seq::<ValV>::empty());
                }
                Ok(())
            },
            Err(e) => Err(e),
        }
    }

    pub fn hs_swp_save_basename_get(&mut self) -> (r: Result<(String, String), NanonisError>)
        ensures
            sent(
                old(self).transcript(),
                final(self).transcript(),
                "HSSwp.SaveBasenameGet"@,
                Seq::empty(),
                Seq::empty(),
                seq![TypeCode::I32, TypeCode::StrPrev, TypeCode::StrPrev],
            ),
            match r {
                Ok(v) => final(self).transcript().last().response matches Some(vals)
                    && vals.len() == 3 && v.0@ == vals[1]->Str_0
                    && v.1@ == vals[2]->Str_0,
                Err(e) => final(self).transcript().last().response is None && transport_err(e),
            },
    {
        let args: Vec<NanonisValue> = vec![];
        let codes: Vec<TypeCode> = vec![];
        proof {
            reveal_strlit("HSSwp.SaveBasenameGet");
            vstd::utf8::is_ascii_chars_encode_utf8("HSSwp.SaveBasenameGet"@);
            assert(views_of(args@) =~= Seq::<ValV>::empty());
            assert(codes@ =~= Seq::<TypeCode>::empty());
            lemma_scalar_frame(views_of(args@), codes@);
        }
        let rcodes: Vec<TypeCode> = vec![TypeCode::I32, TypeCode::StrPrev, TypeCode::StrPrev];
        proof {
            assert(rcodes@ =~= seq![TypeCode::I32, TypeCode::StrPrev, TypeCode::StrPrev]);
        }
        let result = match self.quick_send("HSSwp.SaveBasenameGet", args, codes, rcodes) {
            Ok(v) => v,
            Err(e) => {
                return Err(e);
            },
        };
        proof {
            assert(views_of(result@)[1] == result@[1]@);
            assert(views_of(result@)[2] == result@[2]@);
        }
        if result.len() >= 3 {
            Ok((
                result[1].as_string()?.clone(),
                result[2].as_string()?.clone(),
            ))
        } else {
            Err(NanonisError::Protocol("Invalid response".to_string()))
        }
    }

    pub fn hs_swp_save_data_set(&mut self, save: bool) -> (r: Result<(), NanonisError>)
        ensures
            sent(
                old(self).transcript(),
                final(self).transcript(),
                "HSSwp.SaveDataSet"@,
                seq![ValV::I32((if save { 1i32 } else { 0i32 }))],
                seq![TypeCode::I32],
                Seq::empty(),
            ),
            match r {
                Ok(()) => final(self).transcript().last().response == Some(Seq::<ValV>::empty()),
                Err(e) => final(self).transcript().last().response is None && transport_err(e),
            },
    {

        let flag = if save { 1i32 } else { 0i32 };
        let args: Vec<NanonisValue> = vec![NanonisValue::I32(flag)];
        let codes: Vec<TypeCode> = vec![TypeCode::I32];
        proof {
            reveal_strlit("HSSwp.SaveDataSet");
            vstd::utf8::is_ascii_chars_encode_utf8("HSSwp.SaveDataSet"@);
            assert(views_of(args@) =~= seq![ValV::I32((if save { 1i32 } else { 0i32 }))]);
            assert(codes@ =~= seq![TypeCode::I32]);
            lemma_scalar_frame(views_of(args@), codes@);
        }
        let rcodes: Vec<TypeCode> = vec![];
        proof {
            assert(rcodes@ =~= Seq::<TypeCode>::empty());
        }
        match self.quick_send("HSSwp.SaveDataSet", args, codes, rcodes) {
            Ok(vs_) => {
                proof {
                    assert(views_of(vs_@) =~= Seq::<ValV>::empty());
                }
                Ok(())
            },
            Err(e) => Err(e),
        }
    }

    pub fn hs_swp_save_data_get(&mut self) -> (r: Result<bool, NanonisError>)
        ensures
            sent(
                old(self).transcript(),
                final(self).transcript(),
                "HSSwp.SaveDataGet"@,
                Seq::empty(),
                Seq::empty(),
                seq![TypeCode::I32],
            ),
            match r {
                Ok(v) => final(self).transcript().last().response matches Some(vals)
                    && vals.len() == 1 && v == (vals[0]->I32_0 != 0),
                Err(e) => final(self).transcript().last().response is None && transport_err(e),
            },
    {
        let args: Vec<NanonisValue> = vec![];
        let codes: Vec<TypeCode> = vec![];
        proof {
            reveal_strlit("HSSwp.SaveDataGet");
            vstd::utf8::is_ascii_chars_encode_utf8("HSSwp.SaveDataGet"@);
            assert(views_of(args@) =~= Seq::<ValV>::empty());
            assert(codes@ =~= Seq::<TypeCode>::empty());
            lemma_scalar_frame(views_of(args@), codes@);
        }
        let rcodes: Vec<TypeCode> = vec![TypeCode::I32];
        proof {
            assert(rcodes@ =~= seq![TypeCode::I32]);
        }
        let result = match self.quick_send("HSSwp.SaveDataGet", args, codes, rcodes) {
            Ok(v) => v,
            Err(e) => {
                return Err(e);
            },
        };
        proof {
            assert(views_of(result@)[0] == result@[0]@);
        }
        if !result.is_empty() {
            Ok(result[0].as_i32()? != 0)
        } else {
            Err(NanonisError::Protocol("Invalid response".to_string()))
        }
    }

    pub fn hs_swp_save_options_set(&mut self, options: &HSSwpSaveOptions) -> (r: Result<(), NanonisError>) {
        self.quick_send(
            "HSSwp.SaveOptionsSet",
            vec![
                NanonisValue::String(options.comment.clone()),
                NanonisValue::I32(options.modules.len() as i32),
                NanonisValue::ArrayString(options.modules.clone()),
            ],
            vec![TypeCode::Str, TypeCode::I32, TypeCode::StrArrayPrev],
            vec![],
        )?;
        Ok(())
    }

    pub fn hs_swp_save_options_get(&mut self) -> (r: Result<HSSwpSaveOptions, NanonisError>) {
        let result = self.quick_send(
            "HSSwp.SaveOptionsGet",
            vec![],
            vec![],
            vec![TypeCode::I32, TypeCode::StrPrev, TypeCode::I32, TypeCode::I32, TypeCode::StrArrayPrev],
        )?;

        if result.len() >= 5 {
            Ok(HSSwpSaveOptions {
                comment: result[1].as_string()?.clone(),
                modules: result[4].as_string_array()?.clone(),
            })
        } else {
            Err(NanonisError::Protocol("Invalid response".to_string()))
        }
    }

    pub fn hs_swp_start(&mut self, wait_until_done: bool, timeout_ms: i32) -> (r: Result<(), NanonisError>)
        ensures
            sent(
                old(self).transcript(),
                final(self).transcript(),
                "HSSwp.Start"@,
                seq![ValV::I32((if wait_until_done { 1i32 } else { 0i32 })), ValV::I32(timeout_ms)],
                seq![TypeCode::I32, TypeCode::I32],
                Seq::empty(),
            ),
            match r {
                Ok(()) => final(self).transcript().last().response == Some(Seq::<ValV>::empty()),
                Err(e) => final(self).transcript().last().response is None && transport_err(e),
            },
    {

        let wait_flag = if wait_until_done { 1i32 } else { 0i32 };
        let args: Vec<NanonisValue> = vec![NanonisValue::I32(wait_flag), NanonisValue::I32(timeout_ms)];
        let codes: Vec<TypeCode> = vec![TypeCode::I32, TypeCode::I32];
        proof {
            reveal_strlit("HSSwp.Start");
            vstd::utf8::is_ascii_chars_encode_utf8("HSSwp.Start"@);
            assert(views_of(args@) =~= seq![ValV::I32((if wait_until_done { 1i32 } else { 0i32 })), ValV::I32(timeout_ms)]);
            assert(codes@ =~= seq![TypeCode::I32, TypeCode::I32]);
            lemma_scalar_frame(views_of(args@), codes@);
        }
        let rcodes: Vec<TypeCode> = vec![];
        proof {
            assert(rcodes@ =~= Seq::<TypeCode>::empty());
        }
        match self.quick_send("HSSwp.Start", args, codes, rcodes) {
            Ok(vs_) => {
                proof {
                    assert(views_of(vs_@) =~= Seq::<ValV>::empty());
                }
                Ok(())
            },
            Err(e) => Err(e),
        }
    }

    pub fn hs_swp_stop(&mut self) -> (r: Result<(), NanonisError>)
        ensures
            sent(
                old(self).transcript(),
                final(self).transcript(),
                "HSSwp.Stop"@,
                Seq::empty(),
                Seq::empty(),
                Seq::empty(),
            ),
            match r {
                Ok(()) => final(self).transcript().last().response == Some(Seq::<ValV>::empty()),
                Err(e) => final(self).transcript().last().response is None && transport_err(e),
            },
    {
        let args: Vec<NanonisValue> = vec![];
        let codes: Vec<TypeCode> = vec![];
        proof {
            reveal_strlit("HSSwp.Stop");
            vstd::utf8::is_ascii_chars_encode_utf8("HSSwp.Stop"@);
            assert(views_of(args@) =~= Seq::<ValV>::empty());
            assert(codes@ =~= Seq::<TypeCode>::empty());
            lemma_scalar_frame(views_of(args@), codes@);
        }
        let rcodes: Vec<TypeCode> = vec![];
        proof {
            assert(rcodes@ =~= Seq::<TypeCode>::empty());
        }
        match self.quick_send("HSSwp.Stop", args, codes, rcodes) {
            Ok(vs_) => {
                proof {
                    assert(views_of(vs_@) =~= Seq::<ValV>::empty());
                }
                Ok(())
            },
            Err(e) => Err(e),
        }
    }

    pub fn hs_swp_status_get(&mut self) -> (r: Result<bool, NanonisError>)
        ensures
            sent(
                old(self).transcript(),
                final(self).transcript(),
                "HSSwp.StatusGet"@,
                Seq::empty(),
                Seq::empty(),
                seq![TypeCode::U32],
            ),
            match r {
                Ok(v) => final(self).transcript().last().response matches Some(vals)
                    && vals.len() == 1 && v == (vals[0]->U32_0 != 0),
                Err(e) => final(self).transcript().last().response is None && transport_err(e),
            },
    {
        let args: Vec<NanonisValue> = vec![];
        let codes: Vec<TypeCode> = vec![];
        proof {
            reveal_strlit("HSSwp.StatusGet");
            vstd::utf8::is_ascii_chars_encode_utf8("HSSwp.StatusGet"@);
            assert(views_of(args@) =~= Seq::<ValV>::empty());
            assert(codes@ =~= Seq::<TypeCode>::empty());
            lemma_scalar_frame(views_of(args@), codes@);
        }
        let rcodes: Vec<TypeCode> = vec![TypeCode::U32];
        proof {
            assert(rcodes@ =~= seq![TypeCode::U32]);
        }
        let result = match self.quick_send("HSSwp.StatusGet", args, codes, rcodes) {
            Ok(v) => v,
            Err(e) => {
                return Err(e);
            },
        };
        proof {
            assert(views_of(result@)[0] == result@[0]@);
        }
        if !result.is_empty() {
            Ok(result[0].as_u32()? != 0)
        } else {
            Err(NanonisError::Protocol("Invalid response".to_string()))
        }
    }

    pub fn hs_swp_swp_ch_sig_list_get(&mut self) -> (r: Result<HSSwpSignalList, NanonisError>) {
        let result = self.quick_send(
            "HSSwp.SwpChSigListGet",
            vec![],
            vec![],
            vec![
                TypeCode::I32,
                TypeCode::I32,
                TypeCode::StrArrayPrev,
                TypeCode::I32,
                TypeCode::ArrI32Prev,
            ],
        )?;

        if result.len() >= 5 {
            Ok(HSSwpSignalList {
                names: result[2].as_string_array()?.clone(),
                indices: result[4].as_i32_array()?.clone(),
            })
        } else {
            Err(NanonisError::Protocol("Invalid response".to_string()))
        }
    }

    pub fn hs_swp_swp_ch_signal_set(
        &mut self,
        signal_index: i32,
        timed_sweep: bool,
    ) -> (r: Result<(), NanonisError>)
        ensures
            sent(
                old(self).transcript(),
                final(self).transcript(),
                "HSSwp.SwpChSignalSet"@,
                seq![ValV::I32(signal_index), ValV::I32((if timed_sweep { 1i32 } else { 0i32 }))],
                seq![TypeCode::I32, TypeCode::I32],
                Seq::empty(),
            ),
            match r {
                Ok(()) => final(self).transcript().last().response == Some(Seq::<ValV>::empty()),
                Err(e) => final(self).transcript().last().response is None && transport_err(e),
            },
    {

        let timed_flag = if timed_sweep { 1i32 } else { 0i32 };
        let args: Vec<NanonisValue> = vec![NanonisValue::I32(signal_index), NanonisValue::I32(timed_flag)];
        let codes: Vec<TypeCode> = vec![TypeCode::I32, TypeCode::I32];
        proof {
            reveal_strlit("HSSwp.SwpChSignalSet");
            vstd::utf8::is_ascii_chars_encode_utf8("HSSwp.SwpChSignalSet"@);
            assert(views_of(args@) =~= seq![ValV::I32(signal_index), ValV::I32((if timed_sweep { 1i32 } else { 0i32 }))]);
            assert(codes@ =~= seq![TypeCode::I32, TypeCode::I32]);
            lemma_scalar_frame(views_of(args@), codes@);
        }
        let rcodes: Vec<TypeCode> = vec![];
        proof {
            assert(rcodes@ =~= Seq::<TypeCode>::empty());
        }
        match self.quick_send("HSSwp.SwpChSignalSet", args, codes, rcodes) {
            Ok(vs_) => {
                proof {
                    assert(views_of(vs_@) =~= Seq::<ValV>::empty());
                }
                Ok(())
            },
            Err(e) => Err(e),
        }
    }

    pub fn hs_swp_swp_ch_signal_get(&mut self) -> (r: Result<(i32, bool), NanonisError>)
        ensures
            sent(
                old(self).transcript(),
                final(self).transcript(),
                "HSSwp.SwpChSignalGet"@,
                Seq::empty(),
                Seq::empty(),
                seq![TypeCode::I32, TypeCode::I32],
            ),
            match r {
                Ok(v) => final(self).transcript().last().response matches Some(vals)
                    && vals.len() == 2 && v.0 == vals[0]->I32_0
                    && v.1 == (vals[1]->I32_0 != 0),
                Err(e) => final(self).transcript().last().response is None && transport_err(e),
            },
    {
        let args: Vec<NanonisValue> = vec![];
        let codes: Vec<TypeCode> = vec![];
        proof {
            reveal_strlit("HSSwp.SwpChSignalGet");
            vstd::utf8::is_ascii_chars_encode_utf8("HSSwp.SwpChSignalGet"@);
            assert(views_of(args@) =~= Seq::<ValV>::empty());
            assert(codes@ =~= Seq::<TypeCode>::empty());
            lemma_scalar_frame(views_of(args@), codes@);
        }
        let rcodes: Vec<TypeCode> = vec![TypeCode::I32, TypeCode::I32];
        proof {
            assert(rcodes@ =~= seq![TypeCode::I32, TypeCode::I32]);
        }
        let result = match self.quick_send("HSSwp.SwpChSignalGet", args, codes, rcodes) {
            Ok(v) => v,
            Err(e) => {
                return Err(e);
            },
        };
        proof {
            assert(views_of(result@)[0] == result@[0]@);
            assert(views_of(result@)[1] == result@[1]@);
        }
        if result.len() >= 2 {
            Ok((result[0].as_i32()?, result[1].as_i32()? != 0))
        } else {
            Err(NanonisError::Protocol("Invalid response".to_string()))
        }
    }

    pub fn hs_swp_swp_ch_num_pts_set(&mut self, num_points: u32) -> (r: Result<(), NanonisError>)
        ensures
            sent(
                old(self).transcript(),
                final(self).transcript(),
                "HSSwp.SwpChNumPtsSet"@,
                seq![ValV::U32(num_points)],
                seq![TypeCode::U32],
                Seq::empty(),
            ),
            match r {
                Ok(()) => final(self).transcript().last().response == Some(Seq::<ValV>::empty()),
                Err(e) => final(self).transcript().last().response is None && transport_err(e),
            },
    {
        let args: Vec<NanonisValue> = vec![NanonisValue::U32(num_points)];
        let codes: Vec<TypeCode> = vec![TypeCode::U32];
        proof {
            reveal_strlit("HSSwp.SwpChNumPtsSet");
            vstd::utf8::is_ascii_chars_encode_utf8("HSSwp.SwpChNumPtsSet"@);
            assert(views_of(args@) =~= seq![ValV::U32(num_points)]);
            assert(codes@ =~= seq![TypeCode::U32]);
            lemma_scalar_frame(views_of(args@), codes@);
        }
        let rcodes: Vec<TypeCode> = vec![];
        proof {
            assert(rcodes@ =~= Seq::<TypeCode>::empty());
        }
        match self.quick_send("HSSwp.SwpChNumPtsSet", args, codes, rcodes) {
            Ok(vs_) => {
                proof {
                    assert(views_of(vs_@) =~= Seq::<ValV>::empty());
                }
                Ok(())
            },
            Err(e) => Err(e),
        }
    }

    pub fn hs_swp_swp_ch_num_pts_get(&mut self) -> (r: Result<i32, NanonisError>)
        ensures
            sent(
                old(self).transcript(),
                final(self).transcript(),
                "HSSwp.SwpChNumPtsGet"@,
                Seq::empty(),
                Seq::empty(),
                seq![TypeCode::I32],
            ),
            match r {
                Ok(v) => final(self).transcript().last().response matches Some(vals)
                    && vals.len() == 1 && v == vals[0]->I32_0,
                Err(e) => final(self).transcript().last().response is None && transport_err(e),
            },
    {
        let args: Vec<NanonisValue> = vec![];
        let codes: Vec<TypeCode> = vec![];
        proof {
            reveal_strlit("HSSwp.SwpChNumPtsGet");
            vstd::utf8::is_ascii_chars_encode_utf8("HSSwp.SwpChNumPtsGet"@);
            assert(views_of(args@) =~= Seq::<ValV>::empty());
            assert(codes@ =~= Seq::<TypeCode>::empty());
            lemma_scalar_frame(views_of(args@), codes@);
        }
        let rcodes: Vec<TypeCode> = vec![TypeCode::I32];
        proof {
            assert(rcodes@ =~= seq![TypeCode::I32]);
        }
        let result = match self.quick_send("HSSwp.SwpChNumPtsGet", args, codes, rcodes) {
            Ok(v) => v,
            Err(e) => {
                return Err(e);
            },
        };
        proof {
            assert(views_of(result@)[0] == result@[0]@);
        }
        if !result.is_empty() {
            Ok(result[0].as_i32()?)
        } else {
            Err(NanonisError::Protocol("Invalid response".to_string()))
        }
    }

    pub fn hs_swp_swp_ch_bwd_sw_set(&mut self, enabled: bool) -> (r: Result<(), NanonisError>)
        ensures
            sent(
                old(self).transcript(),
                final(self).transcript(),
                "HSSwp.SwpChBwdSwSet"@,
                seq![ValV::U32((if enabled { 1u32 } else { 0u32 }))],
                seq![TypeCode::U32],
                Seq::empty(),
            ),
            match r {
                Ok(()) => final(self).transcript().last().response == Some(Seq::<ValV>::empty()),
                Err(e) => final(self).transcript().last().response is None && transport_err(e),
            },
    {

        let flag = if enabled { 1u32 } else { 0u32 };
        let args: Vec<NanonisValue> = vec![NanonisValue::U32(flag)];
        let codes: Vec<TypeCode> = vec![TypeCode::U32];
        proof {
            reveal_strlit("HSSwp.SwpChBwdSwSet");
            vstd::utf8::is_ascii_chars_encode_utf8("HSSwp.SwpChBwdSwSet"@);
            assert(views_of(args@) =~= seq![ValV::U32((if enabled { 1u32 } else { 0u32 }))]);
            assert(codes@ =~= seq![TypeCode::U32]);
            lemma_scalar_frame(views_of(args@), codes@);
        }
        let rcodes: Vec<TypeCode> = vec![];
        proof {
            assert(rcodes@ =~= Seq::<TypeCode>::empty());
        }
        match self.quick_send("HSSwp.SwpChBwdSwSet", args, codes, rcodes) {
            Ok(vs_) => {
                proof {
                    assert(views_of(vs_@) =~= Seq::<ValV>::empty());
                }
                Ok(())
            },
            Err(e) => Err(e),
        }
    }

    pub fn hs_swp_swp_ch_bwd_sw_get(&mut self) -> (r: Result<bool, NanonisError>)
        ensures
            sent(
                old(self).transcript(),
                final(self).transcript(),
                "HSSwp.SwpChBwdSwGet"@,
                Seq::empty(),
                Seq::empty(),
                seq![TypeCode::U32],
            ),
            match r {
                Ok(v) => final(self).transcript().last().response matches Some(vals)
                    && vals.len() == 1 && v == (vals[0]->U32_0 != 0),
                Err(e) => final(self).transcript().last().response is None && transport_err(e),
            },
    {
        let args: Vec<NanonisValue> = vec![];
        let codes: Vec<TypeCode> = vec![];
        proof {
            reveal_strlit("HSSwp.SwpChBwdSwGet");
            vstd::utf8::is_ascii_chars_encode_utf8("HSSwp.SwpChBwdSwGet"@);
            assert(views_of(args@) =~= Seq::<ValV>::empty());
            assert(codes@ =~= Seq::<TypeCode>::empty());
            lemma_scalar_frame(views_of(args@), codes@);
        }
        let rcodes: Vec<TypeCode> = vec![TypeCode::U32];
        proof {
            assert(rcodes@ =~= seq![TypeCode::U32]);
        }
        let result = match self.quick_send("HSSwp.SwpChBwdSwGet", args, codes, rcodes) {
            Ok(v) => v,
            Err(e) => {
                return Err(e);
            },
        };
        proof {
            assert(views_of(result@)[0] == result@[0]@);
        }
        if !result.is_empty() {
            Ok(result[0].as_u32()? != 0)
        } else {
            Err(NanonisError::Protocol("Invalid response".to_string()))
        }
    }

}

} // verus!
