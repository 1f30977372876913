//! Piezo configuration commands.

use vstd::prelude::*;

use crate::client::{lemma_scalar_frame, sent, transport_err, NanonisClient};
use crate::codec::views_of;
use crate::codes::TypeCode;
use crate::error::NanonisError;
use crate::value::{NanonisValue, ValV};

verus! {

/// On/off toggle with a no-change option for piezo settings.
#[derive(Debug, Clone, Copy, PartialEq, Eq, Structural)]
pub enum PiezoToggle {
    /// No change to current state
    NoChange,
    /// Turn on
    On,
    /// Turn off
    Off,
}

impl PiezoToggle {
    /// The wire value of the selector.
    pub open spec fn wire(self) -> u16 {
        match self {
            PiezoToggle::NoChange => 0,
            PiezoToggle::On => 1,
            PiezoToggle::Off => 2,
        }
    }

    /// The wire value of the selector.
    pub fn as_u16(self) -> (r: u16)
        ensures
            r == self.wire(),
    {
        match self {
            PiezoToggle::NoChange => 0,
            PiezoToggle::On => 1,
            PiezoToggle::Off => 2,
        }
    }

    /// The wire value of the selector, as the wider integer some commands
    /// take.
    pub fn as_u32(self) -> (r: u32)
        ensures
            r == self.wire() as u32,
    {
        match self {
            PiezoToggle::NoChange => 0,
            PiezoToggle::On => 1,
            PiezoToggle::Off => 2,
        }
    }
}

/// HVA status LED indicators.
#[derive(Debug, Clone, Copy, PartialEq, Eq, Structural)]
pub struct HVAStatusLED {
    /// Overheated status
    pub overheated: bool,
    /// HV supply status
    pub hv_supply: bool,
    /// High temperature status
    pub high_temperature: bool,
    /// Output connector status
    pub output_connector: bool,
}

impl NanonisClient {
    pub fn piezo_hva_status_led_get(&mut self) -> (r: Result<HVAStatusLED, NanonisError>)
        ensures
            sent(
                old(self).transcript(),
                final(self).transcript(),
                "Piezo.HVAStatusLEDGet"@,
                Seq::empty(),
                Seq::empty(),
                seq![TypeCode::U32, TypeCode::U32, TypeCode::U32, TypeCode::U32],
            ),
            match r {
                Ok(v) => final(self).transcript().last().response matches Some(vals)
                    && vals.len() == 4 && v.overheated == (vals[0]->U32_0 != 0)
                    && v.hv_supply == (vals[1]->U32_0 != 0)
                    && v.high_temperature == (vals[2]->U32_0 != 0)
                    && v.output_connector == (vals[3]->U32_0 != 0),
                Err(e) => final(self).transcript().last().response is None && transport_err(e),
            },
    {
        let args: Vec<NanonisValue> = vec![];
        let codes: Vec<TypeCode> = vec![];
        proof {
            reveal_strlit("Piezo.HVAStatusLEDGet");
            vstd::utf8::is_ascii_chars_encode_utf8("Piezo.HVAStatusLEDGet"@);
            assert(views_of(args@) =~= Seq::<ValV>::empty());
            assert(codes@ =~= Seq::<TypeCode>::empty());
            lemma_scalar_frame(views_of(args@), codes@);
        }
        let rcodes: Vec<TypeCode> = vec![TypeCode::U32, TypeCode::U32, TypeCode::U32, TypeCode::U32];
        proof {
            assert(rcodes@ =~= seq![TypeCode::U32, TypeCode::U32, TypeCode::U32, TypeCode::U32]);
        }
        let result = match self.quick_send("Piezo.HVAStatusLEDGet", args, codes, rcodes) {
            Ok(v) => v,
            Err(e) => {
                return Err(e);
            },
        };
        proof {
            assert(views_of(result@)[0] == result@[0]@);
            assert(views_of(result@)[1] == result@[1]@);
            assert(views_of(result@)[2] == result@[2]@);
            assert(views_of(result@)[3] == result@[3]@);
        }
        if result.len() >= 4 {
            Ok(HVAStatusLED {
                overheated: result[0].as_u32()? != 0,
                hv_supply: result[1].as_u32()? != 0,
                high_temperature: result[2].as_u32()? != 0,
                output_connector: result[3].as_u32()? != 0,
            })
        } else {
            Err(NanonisError::Protocol("Invalid response".to_string()))
        }
    }

    pub fn piezo_hyst_on_off_set(&mut self, enabled: bool) -> (r: Result<(), NanonisError>)
        ensures
            sent(
                old(self).transcript(),
                final(self).transcript(),
                "Piezo.HystOnOffSet"@,
                seq![ValV::U32((if enabled { 1u32 } else { 0u32 }))],
                seq![TypeCode::U32],
                Seq::empty(),
            ),
            match r {
                Ok(()) => final(self).transcript().last().response == Some(Seq::<ValV>::empty()),
                Err(e) => final(self).transcript().last().response is None && transport_err(e),
            },
    {

        let flag = if enabled { 1u32 } else { 0u32 };
        let args: Vec<NanonisValue> = vec![NanonisValue::U32(flag)];
        let codes: Vec<TypeCode> = vec![TypeCode::U32];
        proof {
            reveal_strlit("Piezo.HystOnOffSet");
            vstd::utf8::is_ascii_chars_encode_utf8("Piezo.HystOnOffSet"@);
            assert(views_of(args@) =~= seq![ValV::U32((if enabled { 1u32 } else { 0u32 }))]);
            assert(codes@ =~= seq![TypeCode::U32]);
            lemma_scalar_frame(views_of(args@), codes@);
        }
        let rcodes: Vec<TypeCode> = vec![];
        proof {
            assert(rcodes@ =~= Seq::<TypeCode>::empty());
        }
        match self.quick_send("Piezo.HystOnOffSet", args, codes, rcodes) {
            Ok(vs_) => {
                proof {
                    assert(views_of(vs_@) =~= Seq::<ValV>::empty());
                }
                Ok(())
            },
            Err(e) => Err(e),
        }
    }

    pub fn piezo_hyst_on_off_get(&mut self) -> (r: Result<bool, NanonisError>)
        ensures
            sent(
                old(self).transcript(),
                final(self).transcript(),
                "Piezo.HystOnOffGet"@,
                Seq::empty(),
                Seq::empty(),
                seq![TypeCode::U32],
            ),
            match r {
                Ok(v) => final(self).transcript().last().response matches Some(vals)
                    && vals.len() == 1 && v == (vals[0]->U32_0 != 0),
                Err(e) => final(self).transcript().last().response is None && transport_err(e),
            },
    {
        let args: Vec<NanonisValue> = vec![];
        let codes: Vec<TypeCode> = vec![];
        proof {
            reveal_strlit("Piezo.HystOnOffGet");
            vstd::utf8::is_ascii_chars_encode_utf8("Piezo.HystOnOffGet"@);
            assert(views_of(args@) =~= Seq::<ValV>::empty());
            assert(codes@ =~= Seq::<TypeCode>::empty());
            lemma_scalar_frame(views_of(args@), codes@);
        }
        let rcodes: Vec<TypeCode> = vec![TypeCode::U32];
        proof {
            assert(rcodes@ =~= seq![TypeCode::U32]);
        }
        let result = match self.quick_send("Piezo.HystOnOffGet", args, codes, rcodes) {
            Ok(v) => v,
            Err(e) => {
                return Err(e);
            },
        };
        proof {
            assert(views_of(result@)[0] == result@[0]@);
        }
        if !result.is_empty() {
            Ok(result[0].as_u32()? != 0)
        } else {
            Err(NanonisError::Protocol("Invalid response".to_string()))
        }
    }

    pub fn piezo_hyst_file_load(&mut self, file_path: &str) -> (r: Result<(), NanonisError>)
        ensures
            ({
                let req_args = seq![ValV::Str(file_path@)];
                let req_codes = seq![TypeCode::Str];
                &&& crate::client::frame_ok("Piezo.HystFileLoad"@, req_args, req_codes) ==> sent(
                    old(self).transcript(),
                    final(self).transcript(),
                    "Piezo.HystFileLoad"@,
                    req_args,
                    req_codes,
                    Seq::empty(),
                ) && (match r {
                    Ok(()) => final(self).transcript().last().response == Some(
                        Seq::<ValV>::empty(),
                    ),
                    Err(e) => final(self).transcript().last().response is None && transport_err(
                        e,
                    ),
                })
                &&& !crate::client::frame_ok("Piezo.HystFileLoad"@, req_args, req_codes) ==> final(self).transcript()
                    == old(self).transcript() && (r matches Err(e) && (e is InvalidInput
                    || e is Protocol))
            }),
    {
        let args: Vec<NanonisValue> = vec![NanonisValue::String(file_path.to_owned())];
        let codes: Vec<TypeCode> = vec![TypeCode::Str];
        proof {
            reveal_strlit("Piezo.HystFileLoad");
            vstd::utf8::is_ascii_chars_encode_utf8("Piezo.HystFileLoad"@);
            assert(views_of(args@) =~= seq![ValV::Str(file_path@)]);
            assert(codes@ =~= seq![TypeCode::Str]);
        }
        let rcodes: Vec<TypeCode> = vec![];
        proof {
            assert(rcodes@ =~= Seq::<TypeCode>::empty());
        }
        match self.quick_send("Piezo.HystFileLoad", args, codes, rcodes) {
            Ok(vs_) => {
                proof {
                    assert(views_of(vs_@) =~= Seq::<ValV>::empty());
                }
                Ok(())
            },
            Err(e) => Err(e),
        }
    }

    pub fn piezo_hyst_file_save(&mut self, file_path: &str) -> (r: Result<(), NanonisError>)
        ensures
            ({
                let req_args = seq![ValV::Str(file_path@)];
                let req_codes = seq![TypeCode::Str];
                &&& crate::client::frame_ok("Piezo.HystFileSave"@, req_args, req_codes) ==> sent(
                    old(self).transcript(),
                    final(self).transcript(),
                    "Piezo.HystFileSave"@,
                    req_args,
                    req_codes,
                    Seq::empty(),
                ) && (match r {
                    Ok(()) => final(self).transcript().last().response == Some(
                        Seq::<ValV>::empty(),
                    ),
                    Err(e) => final(self).transcript().last().response is None && transport_err(
                        e,
                    ),
                })
                &&& !crate::client::frame_ok("Piezo.HystFileSave"@, req_args, req_codes) ==> final(self).transcript()
                    == old(self).transcript() && (r matches Err(e) && (e is InvalidInput
                    || e is Protocol))
            }),
    {
        let args: Vec<NanonisValue> = vec![NanonisValue::String(file_path.to_owned())];
        let codes: Vec<TypeCode> = vec![TypeCode::Str];
        proof {
            reveal_strlit("Piezo.HystFileSave");
            vstd::utf8::is_ascii_chars_encode_utf8("Piezo.HystFileSave"@);
            assert(views_of(args@) =~= seq![ValV::Str(file_path@)]);
            assert(codes@ =~= seq![TypeCode::Str]);
        }
        let rcodes: Vec<TypeCode> = vec![];
        proof {
            assert(rcodes@ =~= Seq::<TypeCode>::empty());
        }
        match self.quick_send("Piezo.HystFileSave", args, codes, rcodes) {
            Ok(vs_) => {
                proof {
                    assert(views_of(vs_@) =~= Seq::<ValV>::empty());
                }
                Ok(())
            },
            Err(e) => Err(e),
        }
    }

}

} // verus!
