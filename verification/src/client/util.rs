//! Utility and session commands.

use vstd::prelude::*;

use crate::client::{lemma_scalar_frame, sent, transport_err, NanonisClient};
use crate::codec::views_of;
use crate::codes::TypeCode;
use crate::error::NanonisError;
use crate::value::{NanonisValue, ValV};

verus! {

/// The software version the instrument-control host reports.
#[derive(Debug, Clone)]
pub struct VersionInfo {
    /// Product line name (e.g., "Nanonis SPM Control Software" or "Nanonis Tramea Software")
    pub product_line: String,
    /// Software version string (e.g., "Generic 5")
    pub version: String,
    /// Host application release number
    pub host_app_release: u32,
    /// RT Engine application release number
    pub rt_engine_release: u32,
}

impl NanonisClient {
    pub fn util_session_path_get(&mut self) -> (r: Result<String, NanonisError>)
        ensures
            sent(
                old(self).transcript(),
                final(self).transcript(),
                "Util.SessionPathGet"@,
                Seq::empty(),
                Seq::empty(),
                seq![TypeCode::I32, TypeCode::StrPrev],
            ),
            match r {
                Ok(v) => final(self).transcript().last().response matches Some(vals)
                    && vals.len() == 2 && v@ == vals[1]->Str_0,
                Err(e) => final(self).transcript().last().response is None && transport_err(e),
            },
    {
        let args: Vec<NanonisValue> = vec![];
        let codes: Vec<TypeCode> = vec![];
        proof {
            reveal_strlit("Util.SessionPathGet");
            vstd::utf8::is_ascii_chars_encode_utf8("Util.SessionPathGet"@);
            assert(views_of(args@) =~= Seq::<ValV>::empty());
            assert(codes@ =~= Seq::<TypeCode>::empty());
            lemma_scalar_frame(views_of(args@), codes@);
        }
        let rcodes: Vec<TypeCode> = vec![TypeCode::I32, TypeCode::StrPrev];
        proof {
            assert(rcodes@ =~= seq![TypeCode::I32, TypeCode::StrPrev]);
        }
        let result = match self.quick_send("Util.SessionPathGet", args, codes, rcodes) {
            Ok(v) => v,
            Err(e) => {
                return Err(e);
            },
        };
        proof {
            assert(views_of(result@)[1] == result@[1]@);
        }
        if result.len() >= 2 {
            let value = &result[1];
            Ok(value.as_string()?.clone())
        } else {
            Err(NanonisError::Protocol(
                "No session path returned".to_string(),
            ))
        }
    }

    pub fn util_settings_load(
        &mut self,
        settings_file_path: &str,
        load_session_settings: bool,
    ) -> (r: Result<(), NanonisError>)
        ensures
            ({
                let req_args = seq![ValV::Str(settings_file_path@), ValV::U32(if load_session_settings { 1 } else { 0 })];
                let req_codes = seq![TypeCode::Str, TypeCode::U32];
                &&& crate::client::frame_ok("Util.SettingsLoad"@, req_args, req_codes) ==> sent(
                    old(self).transcript(),
                    final(self).transcript(),
                    "Util.SettingsLoad"@,
                    req_args,
                    req_codes,
                    Seq::empty(),
                ) && (match r {
                    Ok(()) => final(self).transcript().last().response == Some(
                        Seq::<ValV>::empty(),
                    ),
                    Err(e) => final(self).transcript().last().response is None && transport_err(
                        e,
                    ),
                })
                &&& !crate::client::frame_ok("Util.SettingsLoad"@, req_args, req_codes) ==> final(self).transcript()
                    == old(self).transcript() && (r matches Err(e) && (e is InvalidInput
                    || e is Protocol))
            }),
    {
        let args: Vec<NanonisValue> = vec![NanonisValue::String(settings_file_path.to_owned()), NanonisValue::U32(if load_session_settings { 1 } else { 0 })];
        let codes: Vec<TypeCode> = vec![TypeCode::Str, TypeCode::U32];
        proof {
            reveal_strlit("Util.SettingsLoad");
            vstd::utf8::is_ascii_chars_encode_utf8("Util.SettingsLoad"@);
            assert(views_of(args@) =~= seq![ValV::Str(settings_file_path@), ValV::U32(if load_session_settings { 1 } else { 0 })]);
            assert(codes@ =~= seq![TypeCode::Str, TypeCode::U32]);
        }
        let rcodes: Vec<TypeCode> = vec![];
        proof {
            assert(rcodes@ =~= Seq::<TypeCode>::empty());
        }
        match self.quick_send("Util.SettingsLoad", args, codes, rcodes) {
            Ok(vs_) => {
                proof {
                    assert(views_of(vs_@) =~= Seq::<ValV>::empty());
                }
                Ok(())
            },
            Err(e) => Err(e),
        }
    }

    pub fn util_settings_save(
        &mut self,
        settings_file_path: &str,
        save_session_settings: bool,
    ) -> (r: Result<(), NanonisError>)
        ensures
            ({
                let req_args = seq![ValV::Str(settings_file_path@), ValV::U32(if save_session_settings { 1 } else { 0 })];
                let req_codes = seq![TypeCode::Str, TypeCode::U32];
                &&& crate::client::frame_ok("Util.SettingsSave"@, req_args, req_codes) ==> sent(
                    old(self).transcript(),
                    final(self).transcript(),
                    "Util.SettingsSave"@,
                    req_args,
                    req_codes,
                    Seq::empty(),
                ) && (match r {
                    Ok(()) => final(self).transcript().last().response == Some(
                        Seq::<ValV>::empty(),
                    ),
                    Err(e) => final(self).transcript().last().response is None && transport_err(
                        e,
                    ),
                })
                &&& !crate::client::frame_ok("Util.SettingsSave"@, req_args, req_codes) ==> final(self).transcript()
                    == old(self).transcript() && (r matches Err(e) && (e is InvalidInput
                    || e is Protocol))
            }),
    {
        let args: Vec<NanonisValue> = vec![NanonisValue::String(settings_file_path.to_owned()), NanonisValue::U32(if save_session_settings { 1 } else { 0 })];
        let codes: Vec<TypeCode> = vec![TypeCode::Str, TypeCode::U32];
        proof {
            reveal_strlit("Util.SettingsSave");
            vstd::utf8::is_ascii_chars_encode_utf8("Util.SettingsSave"@);
            assert(views_of(args@) =~= seq![ValV::Str(settings_file_path@), ValV::U32(if save_session_settings { 1 } else { 0 })]);
            assert(codes@ =~= seq![TypeCode::Str, TypeCode::U32]);
        }
        let rcodes: Vec<TypeCode> = vec![];
        proof {
            assert(rcodes@ =~= Seq::<TypeCode>::empty());
        }
        match self.quick_send("Util.SettingsSave", args, codes, rcodes) {
            Ok(vs_) => {
                proof {
                    assert(views_of(vs_@) =~= Seq::<ValV>::empty());
                }
                Ok(())
            },
            Err(e) => Err(e),
        }
    }

    pub fn util_layout_load(
        &mut self,
        layout_file_path: &str,
        load_session_layout: bool,
    ) -> (r: Result<(), NanonisError>)
        ensures
            ({
                let req_args = seq![ValV::Str(layout_file_path@), ValV::U32(if load_session_layout { 1 } else { 0 })];
                let req_codes = seq![TypeCode::Str, TypeCode::U32];
                &&& crate::client::frame_ok("Util.LayoutLoad"@, req_args, req_codes) ==> sent(
                    old(self).transcript(),
                    final(self).transcript(),
                    "Util.LayoutLoad"@,
                    req_args,
                    req_codes,
                    Seq::empty(),
                ) && (match r {
                    Ok(()) => final(self).transcript().last().response == Some(
                        Seq::<ValV>::empty(),
                    ),
                    Err(e) => final(self).transcript().last().response is None && transport_err(
                        e,
                    ),
                })
                &&& !crate::client::frame_ok("Util.LayoutLoad"@, req_args, req_codes) ==> final(self).transcript()
                    == old(self).transcript() && (r matches Err(e) && (e is InvalidInput
                    || e is Protocol))
            }),
    {
        let args: Vec<NanonisValue> = vec![NanonisValue::String(layout_file_path.to_owned()), NanonisValue::U32(if load_session_layout { 1 } else { 0 })];
        let codes: Vec<TypeCode> = vec![TypeCode::Str, TypeCode::U32];
        proof {
            reveal_strlit("Util.LayoutLoad");
            vstd::utf8::is_ascii_chars_encode_utf8("Util.LayoutLoad"@);
            assert(views_of(args@) =~= seq![ValV::Str(layout_file_path@), ValV::U32(if load_session_layout { 1 } else { 0 })]);
            assert(codes@ =~= seq![TypeCode::Str, TypeCode::U32]);
        }
        let rcodes: Vec<TypeCode> = vec![];
        proof {
            assert(rcodes@ =~= Seq::<TypeCode>::empty());
        }
        match self.quick_send("Util.LayoutLoad", args, codes, rcodes) {
            Ok(vs_) => {
                proof {
                    assert(views_of(vs_@) =~= Seq::<ValV>::empty());
                }
                Ok(())
            },
            Err(e) => Err(e),
        }
    }

    pub fn util_layout_save(
        &mut self,
        layout_file_path: &str,
        save_session_layout: bool,
    ) -> (r: Result<(), NanonisError>)
        ensures
            ({
                let req_args = seq![ValV::Str(layout_file_path@), ValV::U32(if save_session_layout { 1 } else { 0 })];
                let req_codes = seq![TypeCode::Str, TypeCode::U32];
                &&& crate::client::frame_ok("Util.LayoutSave"@, req_args, req_codes) ==> sent(
                    old(self).transcript(),
                    final(self).transcript(),
                    "Util.LayoutSave"@,
                    req_args,
                    req_codes,
                    Seq::empty(),
                ) && (match r {
                    Ok(()) => final(self).transcript().last().response == Some(
                        Seq::<ValV>::empty(),
                    ),
                    Err(e) => final(self).transcript().last().response is None && transport_err(
                        e,
                    ),
                })
                &&& !crate::client::frame_ok("Util.LayoutSave"@, req_args, req_codes) ==> final(self).transcript()
                    == old(self).transcript() && (r matches Err(e) && (e is InvalidInput
                    || e is Protocol))
            }),
    {
        let args: Vec<NanonisValue> = vec![NanonisValue::String(layout_file_path.to_owned()), NanonisValue::U32(if save_session_layout { 1 } else { 0 })];
        let codes: Vec<TypeCode> = vec![TypeCode::Str, TypeCode::U32];
        proof {
            reveal_strlit("Util.LayoutSave");
            vstd::utf8::is_ascii_chars_encode_utf8("Util.LayoutSave"@);
            assert(views_of(args@) =~= seq![ValV::Str(layout_file_path@), ValV::U32(if save_session_layout { 1 } else { 0 })]);
            assert(codes@ =~= seq![TypeCode::Str, TypeCode::U32]);
        }
        let rcodes: Vec<TypeCode> = vec![];
        proof {
            assert(rcodes@ =~= Seq::<TypeCode>::empty());
        }
        match self.quick_send("Util.LayoutSave", args, codes, rcodes) {
            Ok(vs_) => {
                proof {
                    assert(views_of(vs_@) =~= Seq::<ValV>::empty());
                }
                Ok(())
            },
            Err(e) => Err(e),
        }
    }

    pub fn util_lock(&mut self) -> (r: Result<(), NanonisError>)
        ensures
            sent(
                old(self).transcript(),
                final(self).transcript(),
                "Util.Lock"@,
                Seq::empty(),
                Seq::empty(),
                Seq::empty(),
            ),
            match r {
                Ok(()) => final(self).transcript().last().response == Some(Seq::<ValV>::empty()),
                Err(e) => final(self).transcript().last().response is None && transport_err(e),
            },
    {
        let args: Vec<NanonisValue> = vec![];
        let codes: Vec<TypeCode> = vec![];
        proof {
            reveal_strlit("Util.Lock");
            vstd::utf8::is_ascii_chars_encode_utf8("Util.Lock"@);
            assert(views_of(args@) =~= Seq::<ValV>::empty());
            assert(codes@ =~= Seq::<TypeCode>::empty());
            lemma_scalar_frame(views_of(args@), codes@);
        }
        let rcodes: Vec<TypeCode> = vec![];
        proof {
            assert(rcodes@ =~= Seq::<TypeCode>::empty());
        }
        match self.quick_send("Util.Lock", args, codes, rcodes) {
            Ok(vs_) => {
                proof {
                    assert(views_of(vs_@) =~= Seq::<ValV>::empty());
                }
                Ok(())
            },
            Err(e) => Err(e),
        }
    }

    pub fn util_unlock(&mut self) -> (r: Result<(), NanonisError>)
        ensures
            sent(
                old(self).transcript(),
                final(self).transcript(),
                "Util.UnLock"@,
                Seq::empty(),
                Seq::empty(),
                Seq::empty(),
            ),
            match r {
                Ok(()) => final(self).transcript().last().response == Some(Seq::<ValV>::empty()),
                Err(e) => final(self).transcript().last().response is None && transport_err(e),
            },
    {
        let args: Vec<NanonisValue> = vec![];
        let codes: Vec<TypeCode> = vec![];
        proof {
            reveal_strlit("Util.UnLock");
            vstd::utf8::is_ascii_chars_encode_utf8("Util.UnLock"@);
            assert(views_of(args@) =~= Seq::<ValV>::empty());
            assert(codes@ =~= Seq::<TypeCode>::empty());
            lemma_scalar_frame(views_of(args@), codes@);
        }
        let rcodes: Vec<TypeCode> = vec![];
        proof {
            assert(rcodes@ =~= Seq::<TypeCode>::empty());
        }
        match self.quick_send("Util.UnLock", args, codes, rcodes) {
            Ok(vs_) => {
                proof {
                    assert(views_of(vs_@) =~= Seq::<ValV>::empty());
                }
                Ok(())
            },
            Err(e) => Err(e),
        }
    }

    pub fn util_rt_oversampl_set(&mut self, rt_oversampling: i32) -> (r: Result<(), NanonisError>)
        ensures
            sent(
                old(self).transcript(),
                final(self).transcript(),
                "Util.RTOversamplSet"@,
                seq![ValV::I32(rt_oversampling)],
                seq![TypeCode::I32],
                Seq::empty(),
            ),
            match r {
                Ok(()) => final(self).transcript().last().response == Some(Seq::<ValV>::empty()),
                Err(e) => final(self).transcript().last().response is None && transport_err(e),
            },
    {
        let args: Vec<NanonisValue> = vec![NanonisValue::I32(rt_oversampling)];
        let codes: Vec<TypeCode> = vec![TypeCode::I32];
        proof {
            reveal_strlit("Util.RTOversamplSet");
            vstd::utf8::is_ascii_chars_encode_utf8("Util.RTOversamplSet"@);
            assert(views_of(args@) =~= seq![ValV::I32(rt_oversampling)]);
            assert(codes@ =~= seq![TypeCode::I32]);
            lemma_scalar_frame(views_of(args@), codes@);
        }
        let rcodes: Vec<TypeCode> = vec![];
        proof {
            assert(rcodes@ =~= Seq::<TypeCode>::empty());
        }
        match self.quick_send("Util.RTOversamplSet", args, codes, rcodes) {
            Ok(vs_) => {
                proof {
                    assert(views_of(vs_@) =~= Seq::<ValV>::empty());
                }
                Ok(())
            },
            Err(e) => Err(e),
        }
    }

    pub fn util_rt_oversampl_get(&mut self) -> (r: Result<i32, NanonisError>)
        ensures
            sent(
                old(self).transcript(),
                final(self).transcript(),
                "Util.RTOversamplGet"@,
                Seq::empty(),
                Seq::empty(),
                seq![TypeCode::I32],
            ),
            match r {
                Ok(v) => final(self).transcript().last().response matches Some(vals)
                    && vals.len() == 1 && v == vals[0]->I32_0,
                Err(e) => final(self).transcript().last().response is None && transport_err(e),
            },
    {
        let args: Vec<NanonisValue> = vec![];
        let codes: Vec<TypeCode> = vec![];
        proof {
            reveal_strlit("Util.RTOversamplGet");
            vstd::utf8::is_ascii_chars_encode_utf8("Util.RTOversamplGet"@);
            assert(views_of(args@) =~= Seq::<ValV>::empty());
            assert(codes@ =~= Seq::<TypeCode>::empty());
            lemma_scalar_frame(views_of(args@), codes@);
        }
        let rcodes: Vec<TypeCode> = vec![TypeCode::I32];
        proof {
            assert(rcodes@ =~= seq![TypeCode::I32]);
        }
        let result = match self.quick_send("Util.RTOversamplGet", args, codes, rcodes) {
            Ok(v) => v,
            Err(e) => {
                return Err(e);
            },
        };
        proof {
            assert(views_of(result@)[0] == result@[0]@);
        }
        if result.len() >= 1 {
            let value = &result[0];
            Ok(value.as_i32()?)
        } else {
            Err(NanonisError::Protocol(
                "No RT oversampling returned".to_string(),
            ))
        }
    }

    pub fn util_quit(
        &mut self,
        use_stored_values: bool,
        settings_name: &str,
        layout_name: &str,
        save_signals: bool,
    ) -> (r: Result<(), NanonisError>)
        ensures
            ({
                let req_args = seq![ValV::U32(if use_stored_values { 1 } else { 0 }), ValV::Str(settings_name@), ValV::Str(layout_name@), ValV::U32(if save_signals { 1 } else { 0 })];
                let req_codes = seq![TypeCode::U32, TypeCode::Str, TypeCode::Str, TypeCode::U32];
                &&& crate::client::frame_ok("Util.Quit"@, req_args, req_codes) ==> sent(
                    old(self).transcript(),
                    final(self).transcript(),
                    "Util.Quit"@,
                    req_args,
                    req_codes,
                    Seq::empty(),
                ) && (match r {
                    Ok(()) => final(self).transcript().last().response == Some(
                        Seq::<ValV>::empty(),
                    ),
                    Err(e) => final(self).transcript().last().response is None && transport_err(
                        e,
                    ),
                })
                &&& !crate::client::frame_ok("Util.Quit"@, req_args, req_codes) ==> final(self).transcript()
                    == old(self).transcript() && (r matches Err(e) && (e is InvalidInput
                    || e is Protocol))
            }),
    {
        let args: Vec<NanonisValue> = vec![NanonisValue::U32(if use_stored_values { 1 } else { 0 }), NanonisValue::String(settings_name.to_owned()), NanonisValue::String(layout_name.to_owned()), NanonisValue::U32(if save_signals { 1 } else { 0 })];
        let codes: Vec<TypeCode> = vec![TypeCode::U32, TypeCode::Str, TypeCode::Str, TypeCode::U32];
        proof {
            reveal_strlit("Util.Quit");
            vstd::utf8::is_ascii_chars_encode_utf8("Util.Quit"@);
            assert(views_of(args@) =~= seq![ValV::U32(if use_stored_values { 1 } else { 0 }), ValV::Str(settings_name@), ValV::Str(layout_name@), ValV::U32(if save_signals { 1 } else { 0 })]);
            assert(codes@ =~= seq![TypeCode::U32, TypeCode::Str, TypeCode::Str, TypeCode::U32]);
        }
        let rcodes: Vec<TypeCode> = vec![];
        proof {
            assert(rcodes@ =~= Seq::<TypeCode>::empty());
        }
        match self.quick_send("Util.Quit", args, codes, rcodes) {
            Ok(vs_) => {
                proof {
                    assert(views_of(vs_@) =~= Seq::<ValV>::empty());
                }
                Ok(())
            },
            Err(e) => Err(e),
        }
    }

    pub fn util_version_get(&mut self) -> (r: Result<VersionInfo, NanonisError>)
        ensures
            sent(
                old(self).transcript(),
                final(self).transcript(),
                "Util.VersionGet"@,
                Seq::empty(),
                Seq::empty(),
                seq![TypeCode::Str, TypeCode::Str, TypeCode::U32, TypeCode::U32],
            ),
            match r {
                Ok(v) => final(self).transcript().last().response matches Some(vals)
                    && vals.len() == 4 && v.product_line@ == vals[0]->Str_0
                    && v.version@ == vals[1]->Str_0
                    && v.host_app_release == vals[2]->U32_0
                    && v.rt_engine_release == vals[3]->U32_0,
                Err(e) => final(self).transcript().last().response is None && transport_err(e),
            },
    {
        let args: Vec<NanonisValue> = vec![];
        let codes: Vec<TypeCode> = vec![];
        proof {
            reveal_strlit("Util.VersionGet");
            vstd::utf8::is_ascii_chars_encode_utf8("Util.VersionGet"@);
            assert(views_of(args@) =~= Seq::<ValV>::empty());
            assert(codes@ =~= Seq::<TypeCode>::empty());
            lemma_scalar_frame(views_of(args@), codes@);
        }
        let rcodes: Vec<TypeCode> = vec![TypeCode::Str, TypeCode::Str, TypeCode::U32, TypeCode::U32];
        proof {
            assert(rcodes@ =~= seq![TypeCode::Str, TypeCode::Str, TypeCode::U32, TypeCode::U32]);
        }
        let result = match self.quick_send("Util.VersionGet", args, codes, rcodes) {
            Ok(v) => v,
            Err(e) => {
                return Err(e);
            },
        };
        proof {
            assert(views_of(result@)[0] == result@[0]@);
            assert(views_of(result@)[1] == result@[1]@);
            assert(views_of(result@)[2] == result@[2]@);
            assert(views_of(result@)[3] == result@[3]@);
        }
        if result.len() >= 4 {
            Ok(VersionInfo {
                product_line: result[0].as_string()?.clone(),
                version: result[1].as_string()?.clone(),
                host_app_release: result[2].as_u32()?,
                rt_engine_release: result[3].as_u32()?,
            })
        } else {
            Err(NanonisError::Protocol(
                "Invalid version info response".to_string(),
            ))
        }
    }

}

} // verus!
