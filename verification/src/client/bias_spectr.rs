//! Bias spectroscopy commands.

use vstd::prelude::*;
use vstd::string::StrSliceExecFns;

use crate::client::{lemma_scalar_frame, sent, transport_err, NanonisClient};
use crate::codec::views_of;
use crate::codes::TypeCode;
use crate::error::NanonisError;
use crate::value::{NanonisValue, ValV};

verus! {

/// Digital synchronization of the sweep.
#[derive(Debug, Clone, Copy, PartialEq, Eq, Structural)]
pub enum DigitalSync {
    /// No change to current setting
    NoChange,
    /// TTL synchronization disabled
    Off,
    /// TTL synchronization enabled
    TTLSync,
    /// Pulse sequence synchronization enabled
    PulseSequence,
}

impl DigitalSync {
    /// The wire value of the selector.
    pub open spec fn wire(self) -> u16 {
        match self {
            DigitalSync::NoChange => 0,
            DigitalSync::Off => 1,
            DigitalSync::TTLSync => 2,
            DigitalSync::PulseSequence => 3,
        }
    }

    /// The wire value of the selector.
    pub fn as_u16(self) -> (r: u16)
        ensures
            r == self.wire(),
    {
        match self {
            DigitalSync::NoChange => 0,
            DigitalSync::Off => 1,
            DigitalSync::TTLSync => 2,
            DigitalSync::PulseSequence => 3,
        }
    }

    /// The selector a wire value names; out-of-range values are rejected.
    pub fn from_u16(value: u16) -> (r: Result<Self, NanonisError>)
        ensures
            match r {
                Ok(v) => v.wire() == value,
                Err(e) => value > 3 && e is InvalidInput,
            },
    {
        match value {
            0 => Ok(DigitalSync::NoChange),
            1 => Ok(DigitalSync::Off),
            2 => Ok(DigitalSync::TTLSync),
            3 => Ok(DigitalSync::PulseSequence),
            _ => Err(NanonisError::InvalidInput("value names no DigitalSync variant".to_string())),
        }
    }
}

/// The high-speed digital line TTL synchronization drives.
#[derive(Debug, Clone, Copy, PartialEq, Eq, Structural)]
pub enum TTLLine {
    /// No change to current setting
    NoChange,
    /// High-speed digital line 1
    HSLine1,
    /// High-speed digital line 2
    HSLine2,
    /// High-speed digital line 3
    HSLine3,
    /// High-speed digital line 4
    HSLine4,
}

impl TTLLine {
    /// The wire value of the selector.
    pub open spec fn wire(self) -> u16 {
        match self {
            TTLLine::NoChange => 0,
            TTLLine::HSLine1 => 1,
            TTLLine::HSLine2 => 2,
            TTLLine::HSLine3 => 3,
            TTLLine::HSLine4 => 4,
        }
    }

    /// The wire value of the selector.
    pub fn as_u16(self) -> (r: u16)
        ensures
            r == self.wire(),
    {
        match self {
            TTLLine::NoChange => 0,
            TTLLine::HSLine1 => 1,
            TTLLine::HSLine2 => 2,
            TTLLine::HSLine3 => 3,
            TTLLine::HSLine4 => 4,
        }
    }

    /// The selector a wire value names; out-of-range values are rejected.
    pub fn from_u16(value: u16) -> (r: Result<Self, NanonisError>)
        ensures
            match r {
                Ok(v) => v.wire() == value,
                Err(e) => value > 4 && e is InvalidInput,
            },
    {
        match value {
            0 => Ok(TTLLine::NoChange),
            1 => Ok(TTLLine::HSLine1),
            2 => Ok(TTLLine::HSLine2),
            3 => Ok(TTLLine::HSLine3),
            4 => Ok(TTLLine::HSLine4),
            _ => Err(NanonisError::InvalidInput("value names no TTLLine variant".to_string())),
        }
    }
}

/// The polarity of the TTL synchronization line.
#[derive(Debug, Clone, Copy, PartialEq, Eq, Structural)]
pub enum TTLPolarity {
    /// No change to current setting
    NoChange,
    /// Active low polarity
    LowActive,
    /// Active high polarity
    HighActive,
}

impl TTLPolarity {
    /// The wire value of the selector.
    pub open spec fn wire(self) -> u16 {
        match self {
            TTLPolarity::NoChange => 0,
            TTLPolarity::LowActive => 1,
            TTLPolarity::HighActive => 2,
        }
    }

    /// The wire value of the selector.
    pub fn as_u16(self) -> (r: u16)
        ensures
            r == self.wire(),
    {
        match self {
            TTLPolarity::NoChange => 0,
            TTLPolarity::LowActive => 1,
            TTLPolarity::HighActive => 2,
        }
    }

    /// The selector a wire value names; out-of-range values are rejected.
    pub fn from_u16(value: u16) -> (r: Result<Self, NanonisError>)
        ensures
            match r {
                Ok(v) => v.wire() == value,
                Err(e) => value > 2 && e is InvalidInput,
            },
    {
        match value {
            0 => Ok(TTLPolarity::NoChange),
            1 => Ok(TTLPolarity::LowActive),
            2 => Ok(TTLPolarity::HighActive),
            _ => Err(NanonisError::InvalidInput("value names no TTLPolarity variant".to_string())),
        }
    }
}

/// A three-way setting: leave as it is, switch on, or switch off.
#[derive(Debug, Clone, Copy, PartialEq, Eq, Structural)]
pub enum OptionalFlag {
    /// No change to current setting
    NoChange,
    /// Enable the option
    On,
    /// Disable the option
    Off,
}

impl OptionalFlag {
    /// The wire value of the selector.
    pub open spec fn wire(self) -> u16 {
        match self {
            OptionalFlag::NoChange => 0,
            OptionalFlag::On => 1,
            OptionalFlag::Off => 2,
        }
    }

    /// The wire value of the selector.
    pub fn as_u16(self) -> (r: u16)
        ensures
            r == self.wire(),
    {
        match self {
            OptionalFlag::NoChange => 0,
            OptionalFlag::On => 1,
            OptionalFlag::Off => 2,
        }
    }

    /// The selector a wire value names; out-of-range values are rejected.
    pub fn from_u16(value: u16) -> (r: Result<Self, NanonisError>)
        ensures
            match r {
                Ok(v) => v.wire() == value,
                Err(e) => value > 2 && e is InvalidInput,
            },
    {
        match value {
            0 => Ok(OptionalFlag::NoChange),
            1 => Ok(OptionalFlag::On),
            2 => Ok(OptionalFlag::Off),
            _ => Err(NanonisError::InvalidInput("value names no OptionalFlag variant".to_string())),
        }
    }
}

/// The sweep mode: one linear ramp, or multiple line segments.
#[derive(Debug, Clone, Copy, PartialEq, Eq, Structural)]
pub enum SweepMode {
    /// Linear sweep mode
    Linear,
    /// Multi-line-segment sweep mode
    MLS,
}

impl SweepMode {
    /// The mode a reported mode name stands for, case-insensitively.
    pub fn parse(s: &str) -> (r: Result<Self, NanonisError>) {
        let n = s.unicode_len();
        if n == 6 {
            let c0 = s.get_char(0);
            let c1 = s.get_char(1);
            let c2 = s.get_char(2);
            let c3 = s.get_char(3);
            let c4 = s.get_char(4);
            let c5 = s.get_char(5);
            if (c0 == 'L' || c0 == 'l') && (c1 == 'I' || c1 == 'i') && (c2 == 'N' || c2 == 'n') && (
            c3 == 'E' || c3 == 'e') && (c4 == 'A' || c4 == 'a') && (c5 == 'R' || c5 == 'r') {
                return Ok(SweepMode::Linear);
            }
            Err(NanonisError::Type("unknown sweep mode".to_string()))
        } else if n == 3 {
            let c0 = s.get_char(0);
            let c1 = s.get_char(1);
            let c2 = s.get_char(2);
            if (c0 == 'M' || c0 == 'm') && (c1 == 'L' || c1 == 'l') && (c2 == 'S' || c2 == 's') {
                return Ok(SweepMode::MLS);
            }
            Err(NanonisError::Type("unknown sweep mode".to_string()))
        } else {
            Err(NanonisError::Type("unknown sweep mode".to_string()))
        }
    }
}

/// The general bias-spectroscopy acquisition settings.
#[derive(Debug, Clone)]
pub struct BiasSpectrProps {
    /// Whether to save individual sweep data beside the average
    pub save_all: bool,
    /// Number of sweeps to measure and average
    pub num_sweeps: i32,
    /// Whether to acquire the backward sweep too
    pub backward_sweep: bool,
    /// Number of points in the sweep
    pub num_points: i32,
    /// Names of the recorded channels
    pub channels: Vec<String>,
    /// Names of the sweep parameters
    pub parameters: Vec<String>,
    /// Names of the fixed parameters
    pub fixed_parameters: Vec<String>,
}

/// The advanced bias-spectroscopy settings, as currently configured.
#[derive(Debug, Clone, Copy, PartialEq, Eq, Structural)]
pub struct BiasSpectrAdvProps {
    /// Whether the bias is reset after the sweep
    pub reset_bias: bool,
    /// Whether the controller is held during the sweep
    pub z_controller_hold: bool,
    /// Whether the final height is recorded
    pub record_final_z: bool,
    /// Whether the lock-in runs during the sweep
    pub lockin_run: bool,
}

/// TTL synchronization settings. The two times are in seconds, carried as
/// IEEE-754 bit patterns of 32-bit floats, like every float of the library.
#[derive(Debug, Clone, Copy, PartialEq, Eq, Structural)]
pub struct TTLSyncConfig {
    /// The driven high-speed digital line
    pub line: TTLLine,
    /// The polarity of the line
    pub polarity: TTLPolarity,
    /// Delay before the line turns on, in seconds (float bit pattern)
    pub time_to_on_s: u32,
    /// How long the line stays on, in seconds (float bit pattern)
    pub on_duration_s: u32,
}

/// Pulse-sequence synchronization settings.
#[derive(Debug, Clone, Copy, PartialEq, Eq, Structural)]
pub struct PulseSeqSyncConfig {
    /// Which pulse sequence to play
    pub sequence_nr: u16,
    /// How many periods to play it for
    pub num_periods: u32,
}

impl NanonisClient {
    pub fn bias_spectr_open(&mut self) -> (r: Result<(), NanonisError>)
        ensures
            sent(
                old(self).transcript(),
                final(self).transcript(),
                "BiasSpectr.Open"@,
                Seq::empty(),
                Seq::empty(),
                Seq::empty(),
            ),
            match r {
                Ok(()) => final(self).transcript().last().response == Some(Seq::<ValV>::empty()),
                Err(e) => final(self).transcript().last().response is None && transport_err(e),
            },
    {
        let args: Vec<NanonisValue> = vec![];
        let codes: Vec<TypeCode> = vec![];
        proof {
            reveal_strlit("BiasSpectr.Open");
            vstd::utf8::is_ascii_chars_encode_utf8("BiasSpectr.Open"@);
            assert(views_of(args@) =~= Seq::<ValV>::empty());
            assert(codes@ =~= Seq::<TypeCode>::empty());
            lemma_scalar_frame(views_of(args@), codes@);
        }
        let rcodes: Vec<TypeCode> = vec![];
        proof {
            assert(rcodes@ =~= Seq::<TypeCode>::empty());
        }
        match self.quick_send("BiasSpectr.Open", args, codes, rcodes) {
            Ok(vs_) => {
                proof {
                    assert(views_of(vs_@) =~= Seq::<ValV>::empty());
                }
                Ok(())
            },
            Err(e) => Err(e),
        }
    }

    pub fn bias_spectr_stop(&mut self) -> (r: Result<(), NanonisError>)
        ensures
            sent(
                old(self).transcript(),
                final(self).transcript(),
                "BiasSpectr.Stop"@,
                Seq::empty(),
                Seq::empty(),
                Seq::empty(),
            ),
            match r {
                Ok(()) => final(self).transcript().last().response == Some(Seq::<ValV>::empty()),
                Err(e) => final(self).transcript().last().response is None && transport_err(e),
            },
    {
        let args: Vec<NanonisValue> = vec![];
        let codes: Vec<TypeCode> = vec![];
        proof {
            reveal_strlit("BiasSpectr.Stop");
            vstd::utf8::is_ascii_chars_encode_utf8("BiasSpectr.Stop"@);
            assert(views_of(args@) =~= Seq::<ValV>::empty());
            assert(codes@ =~= Seq::<TypeCode>::empty());
            lemma_scalar_frame(views_of(args@), codes@);
        }
        let rcodes: Vec<TypeCode> = vec![];
        proof {
            assert(rcodes@ =~= Seq::<TypeCode>::empty());
        }
        match self.quick_send("BiasSpectr.Stop", args, codes, rcodes) {
            Ok(vs_) => {
                proof {
                    assert(views_of(vs_@) =~= Seq::<ValV>::empty());
                }
                Ok(())
            },
            Err(e) => Err(e),
        }
    }

    pub fn bias_spectr_status_get(&mut self) -> (r: Result<bool, NanonisError>)
        ensures
            sent(
                old(self).transcript(),
                final(self).transcript(),
                "BiasSpectr.StatusGet"@,
                Seq::empty(),
                Seq::empty(),
                seq![TypeCode::U32],
            ),
            match r {
                Ok(v) => final(self).transcript().last().response matches Some(vals)
                    && vals.len() == 1 && v == (vals[0]->U32_0 != 0),
                Err(e) => final(self).transcript().last().response is None && transport_err(e),
            },
    {
        let args: Vec<NanonisValue> = vec![];
        let codes: Vec<TypeCode> = vec![];
        proof {
            reveal_strlit("BiasSpectr.StatusGet");
            vstd::utf8::is_ascii_chars_encode_utf8("BiasSpectr.StatusGet"@);
            assert(views_of(args@) =~= Seq::<ValV>::empty());
            assert(codes@ =~= Seq::<TypeCode>::empty());
            lemma_scalar_frame(views_of(args@), codes@);
        }
        let rcodes: Vec<TypeCode> = vec![TypeCode::U32];
        proof {
            assert(rcodes@ =~= seq![TypeCode::U32]);
        }
        let result = match self.quick_send("BiasSpectr.StatusGet", args, codes, rcodes) {
            Ok(v) => v,
            Err(e) => {
                return Err(e);
            },
        };
        proof {
            assert(views_of(result@)[0] == result@[0]@);
        }
        if result.len() >= 1 {
            let val = &result[0];
            Ok(val.as_u32()? != 0)
        } else {
            Err(NanonisError::Protocol(
                "Invalid status response".to_string(),
            ))
        }
    }

    pub fn bias_spectr_chs_set(&mut self, channel_indexes: &Vec<i32>) -> (r: Result<(), NanonisError>)
        ensures
            ({
                let req_args = seq![ValV::ArrI32(channel_indexes@)];
                let req_codes = seq![TypeCode::ArrI32];
                &&& crate::client::frame_ok("BiasSpectr.ChsSet"@, req_args, req_codes) ==> sent(
                    old(self).transcript(),
                    final(self).transcript(),
                    "BiasSpectr.ChsSet"@,
                    req_args,
                    req_codes,
                    Seq::empty(),
                ) && (match r {
                    Ok(()) => final(self).transcript().last().response == Some(
                        Seq::<ValV>::empty(),
                    ),
                    Err(e) => final(self).transcript().last().response is None && transport_err(
                        e,
                    ),
                })
                &&& !crate::client::frame_ok("BiasSpectr.ChsSet"@, req_args, req_codes) ==> final(self).transcript()
                    == old(self).transcript() && (r matches Err(e) && (e is InvalidInput
                    || e is Protocol))
            }),
    {
        let args: Vec<NanonisValue> = vec![NanonisValue::ArrayI32(channel_indexes.clone())];
        let codes: Vec<TypeCode> = vec![TypeCode::ArrI32];
        proof {
            reveal_strlit("BiasSpectr.ChsSet");
            vstd::utf8::is_ascii_chars_encode_utf8("BiasSpectr.ChsSet"@);
            assert(views_of(args@) =~= seq![ValV::ArrI32(channel_indexes@)]);
            assert(codes@ =~= seq![TypeCode::ArrI32]);
        }
        let rcodes: Vec<TypeCode> = vec![];
        proof {
            assert(rcodes@ =~= Seq::<TypeCode>::empty());
        }
        match self.quick_send("BiasSpectr.ChsSet", args, codes, rcodes) {
            Ok(vs_) => {
                proof {
                    assert(views_of(vs_@) =~= Seq::<ValV>::empty());
                }
                Ok(())
            },
            Err(e) => Err(e),
        }
    }

    pub fn bias_spectr_chs_get(&mut self) -> (r: Result<(Vec<i32>, Vec<String>), NanonisError>) {
        let result = self.quick_send(
            "BiasSpectr.ChsGet",
            vec![],
            vec![],
            vec![TypeCode::I32, TypeCode::ArrI32Prev, TypeCode::I32, TypeCode::I32, TypeCode::StrArrayPrev],
        )?;

        if result.len() >= 5 {
            let indexes = result[1].as_i32_array()?.clone();
            let names = result[4].as_string_array()?.clone();
            Ok((indexes, names))
        } else {
            Err(NanonisError::Protocol(
                "Invalid channels response".to_string(),
            ))
        }
    }

    pub fn bias_spectr_props_get(&mut self) -> (r: Result<BiasSpectrProps, NanonisError>) {
        let result = self.quick_send(
            "BiasSpectr.PropsGet",
            vec![],
            vec![],
            vec![
                TypeCode::U16,
                TypeCode::I32,
                TypeCode::U16,
                TypeCode::I32,
                TypeCode::I32,
                TypeCode::I32,
                TypeCode::StrArrayPrev,
                TypeCode::I32,
                TypeCode::I32,
                TypeCode::StrArrayPrev,
                TypeCode::I32,
                TypeCode::I32,
                TypeCode::StrArrayPrev,
            ],
        )?;

        if result.len() >= 13 {
            Ok(BiasSpectrProps {
                save_all: result[0].as_u16()? != 0,
                num_sweeps: result[1].as_i32()?,
                backward_sweep: result[2].as_u16()? != 0,
                num_points: result[3].as_i32()?,
                channels: result[6].as_string_array()?.clone(),
                parameters: result[9].as_string_array()?.clone(),
                fixed_parameters: result[12].as_string_array()?.clone(),
            })
        } else {
            Err(NanonisError::Protocol(
                "Invalid props response".to_string(),
            ))
        }
    }

    pub fn bias_spectr_adv_props_set(
        &mut self,
        reset_bias: OptionalFlag,
        z_controller_hold: OptionalFlag,
        record_final_z: OptionalFlag,
        lockin_run: OptionalFlag,
    ) -> (r: Result<(), NanonisError>)
        ensures
            sent(
                old(self).transcript(),
                final(self).transcript(),
                "BiasSpectr.AdvPropsSet"@,
                seq![ValV::U16(reset_bias.wire()), ValV::U16(z_controller_hold.wire()), ValV::U16(record_final_z.wire()), ValV::U16(lockin_run.wire())],
                seq![TypeCode::U16, TypeCode::U16, TypeCode::U16, TypeCode::U16],
                Seq::empty(),
            ),
            match r {
                Ok(()) => final(self).transcript().last().response == Some(Seq::<ValV>::empty()),
                Err(e) => final(self).transcript().last().response is None && transport_err(e),
            },
    {
        let args: Vec<NanonisValue> = vec![NanonisValue::U16(reset_bias.as_u16()),
                NanonisValue::U16(z_controller_hold.as_u16()),
                NanonisValue::U16(record_final_z.as_u16()),
                NanonisValue::U16(lockin_run.as_u16()),];
        let codes: Vec<TypeCode> = vec![TypeCode::U16, TypeCode::U16, TypeCode::U16, TypeCode::U16];
        proof {
            reveal_strlit("BiasSpectr.AdvPropsSet");
            vstd::utf8::is_ascii_chars_encode_utf8("BiasSpectr.AdvPropsSet"@);
            assert(views_of(args@) =~= seq![ValV::U16(reset_bias.wire()), ValV::U16(z_controller_hold.wire()), ValV::U16(record_final_z.wire()), ValV::U16(lockin_run.wire())]);
            assert(codes@ =~= seq![TypeCode::U16, TypeCode::U16, TypeCode::U16, TypeCode::U16]);
            lemma_scalar_frame(views_of(args@), codes@);
        }
        let rcodes: Vec<TypeCode> = vec![];
        proof {
            assert(rcodes@ =~= Seq::<TypeCode>::empty());
        }
        match self.quick_send("BiasSpectr.AdvPropsSet", args, codes, rcodes) {
            Ok(vs_) => {
                proof {
                    assert(views_of(vs_@) =~= Seq::<ValV>::empty());
                }
                Ok(())
            },
            Err(e) => Err(e),
        }
    }

    pub fn bias_spectr_adv_props_get(&mut self) -> (r: Result<BiasSpectrAdvProps, NanonisError>)
        ensures
            sent(
                old(self).transcript(),
                final(self).transcript(),
                "BiasSpectr.AdvPropsGet"@,
                Seq::empty(),
                Seq::empty(),
                seq![TypeCode::U16, TypeCode::U16, TypeCode::U16, TypeCode::U16],
            ),
            match r {
                Ok(v) => final(self).transcript().last().response matches Some(vals)
                    && vals.len() == 4 && v.reset_bias == (vals[0]->U16_0 != 0)
                    && v.z_controller_hold == (vals[1]->U16_0 != 0)
                    && v.record_final_z == (vals[2]->U16_0 != 0)
                    && v.lockin_run == (vals[3]->U16_0 != 0),
                Err(e) => final(self).transcript().last().response is None && transport_err(e),
            },
    {
        let args: Vec<NanonisValue> = vec![];
        let codes: Vec<TypeCode> = vec![];
        proof {
            reveal_strlit("BiasSpectr.AdvPropsGet");
            vstd::utf8::is_ascii_chars_encode_utf8("BiasSpectr.AdvPropsGet"@);
            assert(views_of(args@) =~= Seq::<ValV>::empty());
            assert(codes@ =~= Seq::<TypeCode>::empty());
            lemma_scalar_frame(views_of(args@), codes@);
        }
        let rcodes: Vec<TypeCode> = vec![TypeCode::U16, TypeCode::U16, TypeCode::U16, TypeCode::U16];
        proof {
            assert(rcodes@ =~= seq![TypeCode::U16, TypeCode::U16, TypeCode::U16, TypeCode::U16]);
        }
        let result = match self.quick_send("BiasSpectr.AdvPropsGet", args, codes, rcodes) {
            Ok(v) => v,
            Err(e) => {
                return Err(e);
            },
        };
        proof {
            assert(views_of(result@)[0] == result@[0]@);
            assert(views_of(result@)[1] == result@[1]@);
            assert(views_of(result@)[2] == result@[2]@);
            assert(views_of(result@)[3] == result@[3]@);
        }
        if result.len() >= 4 {
            Ok(BiasSpectrAdvProps {
                reset_bias: result[0].as_u16()? != 0,
                z_controller_hold: result[1].as_u16()? != 0,
                record_final_z: result[2].as_u16()? != 0,
                lockin_run: result[3].as_u16()? != 0,
            })
        } else {
            Err(NanonisError::Protocol(
                "Invalid adv props response".to_string(),
            ))
        }
    }

    pub fn bias_spectr_dig_sync_set(&mut self, mode: DigitalSync) -> (r: Result<(), NanonisError>)
        ensures
            sent(
                old(self).transcript(),
                final(self).transcript(),
                "BiasSpectr.DigSyncSet"@,
                seq![ValV::U16(mode.wire())],
                seq![TypeCode::U16],
                Seq::empty(),
            ),
            match r {
                Ok(()) => final(self).transcript().last().response == Some(Seq::<ValV>::empty()),
                Err(e) => final(self).transcript().last().response is None && transport_err(e),
            },
    {
        let args: Vec<NanonisValue> = vec![NanonisValue::U16(mode.as_u16())];
        let codes: Vec<TypeCode> = vec![TypeCode::U16];
        proof {
            reveal_strlit("BiasSpectr.DigSyncSet");
            vstd::utf8::is_ascii_chars_encode_utf8("BiasSpectr.DigSyncSet"@);
            assert(views_of(args@) =~= seq![ValV::U16(mode.wire())]);
            assert(codes@ =~= seq![TypeCode::U16]);
            lemma_scalar_frame(views_of(args@), codes@);
        }
        let rcodes: Vec<TypeCode> = vec![];
        proof {
            assert(rcodes@ =~= Seq::<TypeCode>::empty());
        }
        match self.quick_send("BiasSpectr.DigSyncSet", args, codes, rcodes) {
            Ok(vs_) => {
                proof {
                    assert(views_of(vs_@) =~= Seq::<ValV>::empty());
                }
                Ok(())
            },
            Err(e) => Err(e),
        }
    }

    pub fn bias_spectr_dig_sync_get(&mut self) -> (r: Result<DigitalSync, NanonisError>)
        ensures
            sent(
                old(self).transcript(),
                final(self).transcript(),
                "BiasSpectr.DigSyncGet"@,
                Seq::empty(),
                Seq::empty(),
                seq![TypeCode::U16],
            ),
            match r {
                Ok(mode) => final(self).transcript().last().response matches Some(vals)
                    && vals.len() == 1 && mode.wire() == vals[0]->U16_0,
                Err(e) => (final(self).transcript().last().response is None && transport_err(e)) || (
                final(self).transcript().last().response matches Some(vals) && vals.len() == 1
                    && vals[0]->U16_0 > 3 && e is InvalidInput),
            },
    {
        let args: Vec<NanonisValue> = vec![];
        let codes: Vec<TypeCode> = vec![];
        proof {
            reveal_strlit("BiasSpectr.DigSyncGet");
            vstd::utf8::is_ascii_chars_encode_utf8("BiasSpectr.DigSyncGet"@);
            assert(views_of(args@) =~= Seq::<ValV>::empty());
            assert(codes@ =~= Seq::<TypeCode>::empty());
            lemma_scalar_frame(views_of(args@), codes@);
        }
        let rcodes: Vec<TypeCode> = vec![TypeCode::U16];
        proof {
            assert(rcodes@ =~= seq![TypeCode::U16]);
        }
        let result = match self.quick_send("BiasSpectr.DigSyncGet", args, codes, rcodes) {
            Ok(v) => v,
            Err(e) => {
                return Err(e);
            },
        };
        proof {
            assert(views_of(result@)[0] == result@[0]@);
        }
        if result.len() >= 1 {
            let val = &result[0];
            DigitalSync::from_u16(val.as_u16()?)
        } else {
            Err(NanonisError::Protocol(
                "Invalid dig sync response".to_string(),
            ))
        }
    }

    pub fn bias_spectr_ttl_sync_set(&mut self, config: &TTLSyncConfig) -> (r: Result<(), NanonisError>)
        ensures
            sent(
                old(self).transcript(),
                final(self).transcript(),
                "BiasSpectr.TTLSyncSet"@,
                seq![ValV::U16(config.line.wire()), ValV::U16(config.polarity.wire()), ValV::F32(config.time_to_on_s), ValV::F32(config.on_duration_s)],
                seq![TypeCode::U16, TypeCode::U16, TypeCode::F32, TypeCode::F32],
                Seq::empty(),
            ),
            match r {
                Ok(()) => final(self).transcript().last().response == Some(Seq::<ValV>::empty()),
                Err(e) => final(self).transcript().last().response is None && transport_err(e),
            },
    {
        let args: Vec<NanonisValue> = vec![NanonisValue::U16(config.line.as_u16()),
                NanonisValue::U16(config.polarity.as_u16()),
                NanonisValue::F32(config.time_to_on_s),
                NanonisValue::F32(config.on_duration_s),];
        let codes: Vec<TypeCode> = vec![TypeCode::U16, TypeCode::U16, TypeCode::F32, TypeCode::F32];
        proof {
            reveal_strlit("BiasSpectr.TTLSyncSet");
            vstd::utf8::is_ascii_chars_encode_utf8("BiasSpectr.TTLSyncSet"@);
            assert(views_of(args@) =~= seq![ValV::U16(config.line.wire()), ValV::U16(config.polarity.wire()), ValV::F32(config.time_to_on_s), ValV::F32(config.on_duration_s)]);
            assert(codes@ =~= seq![TypeCode::U16, TypeCode::U16, TypeCode::F32, TypeCode::F32]);
            lemma_scalar_frame(views_of(args@), codes@);
        }
        let rcodes: Vec<TypeCode> = vec![];
        proof {
            assert(rcodes@ =~= Seq::<TypeCode>::empty());
        }
        match self.quick_send("BiasSpectr.TTLSyncSet", args, codes, rcodes) {
            Ok(vs_) => {
                proof {
                    assert(views_of(vs_@) =~= Seq::<ValV>::empty());
                }
                Ok(())
            },
            Err(e) => Err(e),
        }
    }

    pub fn bias_spectr_ttl_sync_get(&mut self) -> (r: Result<TTLSyncConfig, NanonisError>)
        ensures
            sent(
                old(self).transcript(),
                final(self).transcript(),
                "BiasSpectr.TTLSyncGet"@,
                Seq::empty(),
                Seq::empty(),
                seq![TypeCode::U16, TypeCode::U16, TypeCode::F32, TypeCode::F32],
            ),
            match r {
                Ok(cfg) => final(self).transcript().last().response matches Some(vals)
                    && vals.len() == 4 && cfg.line.wire() == vals[0]->U16_0 && cfg.polarity.wire()
                    == vals[1]->U16_0 && cfg.time_to_on_s == vals[2]->F32_0 && cfg.on_duration_s
                    == vals[3]->F32_0,
                Err(e) => (final(self).transcript().last().response is None && transport_err(e)) || (
                final(self).transcript().last().response matches Some(vals) && vals.len() == 4 && (
                vals[0]->U16_0 > 4 || vals[1]->U16_0 > 2) && e is InvalidInput),
            },
    {
        let args: Vec<NanonisValue> = vec![];
        let codes: Vec<TypeCode> = vec![];
        proof {
            reveal_strlit("BiasSpectr.TTLSyncGet");
            vstd::utf8::is_ascii_chars_encode_utf8("BiasSpectr.TTLSyncGet"@);
            assert(views_of(args@) =~= Seq::<ValV>::empty());
            assert(codes@ =~= Seq::<TypeCode>::empty());
            lemma_scalar_frame(views_of(args@), codes@);
        }
        let rcodes: Vec<TypeCode> = vec![TypeCode::U16, TypeCode::U16, TypeCode::F32, TypeCode::F32];
        proof {
            assert(rcodes@ =~= seq![TypeCode::U16, TypeCode::U16, TypeCode::F32, TypeCode::F32]);
        }
        let result = match self.quick_send("BiasSpectr.TTLSyncGet", args, codes, rcodes) {
            Ok(v) => v,
            Err(e) => {
                return Err(e);
            },
        };
        proof {
            assert(views_of(result@)[0] == result@[0]@);
            assert(views_of(result@)[1] == result@[1]@);
            assert(views_of(result@)[2] == result@[2]@);
            assert(views_of(result@)[3] == result@[3]@);
        }
        if result.len() >= 4 {
            let line = match TTLLine::from_u16(result[0].as_u16()?) {
                Ok(l) => l,
                Err(e) => {
                    return Err(e);
                },
            };
            let polarity = match TTLPolarity::from_u16(result[1].as_u16()?) {
                Ok(p) => p,
                Err(e) => {
                    return Err(e);
                },
            };
            Ok(TTLSyncConfig {
                line,
                polarity,
                time_to_on_s: result[2].as_f32()?,
                on_duration_s: result[3].as_f32()?,
            })
        } else {
            Err(NanonisError::Protocol(
                "Invalid TTL sync response".to_string(),
            ))
        }
    }

    pub fn bias_spectr_pulse_seq_sync_set(
        &mut self,
        config: &PulseSeqSyncConfig,
    ) -> (r: Result<(), NanonisError>)
        ensures
            sent(
                old(self).transcript(),
                final(self).transcript(),
                "BiasSpectr.PulseSeqSyncSet"@,
                seq![ValV::U16(config.sequence_nr), ValV::U32(config.num_periods)],
                seq![TypeCode::U16, TypeCode::U32],
                Seq::empty(),
            ),
            match r {
                Ok(()) => final(self).transcript().last().response == Some(Seq::<ValV>::empty()),
                Err(e) => final(self).transcript().last().response is None && transport_err(e),
            },
    {
        let args: Vec<NanonisValue> = vec![NanonisValue::U16(config.sequence_nr),
                NanonisValue::U32(config.num_periods),];
        let codes: Vec<TypeCode> = vec![TypeCode::U16, TypeCode::U32];
        proof {
            reveal_strlit("BiasSpectr.PulseSeqSyncSet");
            vstd::utf8::is_ascii_chars_encode_utf8("BiasSpectr.PulseSeqSyncSet"@);
            assert(views_of(args@) =~= seq![ValV::U16(config.sequence_nr), ValV::U32(config.num_periods)]);
            assert(codes@ =~= seq![TypeCode::U16, TypeCode::U32]);
            lemma_scalar_frame(views_of(args@), codes@);
        }
        let rcodes: Vec<TypeCode> = vec![];
        proof {
            assert(rcodes@ =~= Seq::<TypeCode>::empty());
        }
        match self.quick_send("BiasSpectr.PulseSeqSyncSet", args, codes, rcodes) {
            Ok(vs_) => {
                proof {
                    assert(views_of(vs_@) =~= Seq::<ValV>::empty());
                }
                Ok(())
            },
            Err(e) => Err(e),
        }
    }

    pub fn bias_spectr_pulse_seq_sync_get(&mut self) -> (r: Result<PulseSeqSyncConfig, NanonisError>)
        ensures
            sent(
                old(self).transcript(),
                final(self).transcript(),
                "BiasSpectr.PulseSeqSyncGet"@,
                Seq::empty(),
                Seq::empty(),
                seq![TypeCode::U16, TypeCode::U32],
            ),
            match r {
                Ok(cfg) => final(self).transcript().last().response matches Some(vals)
                    && vals.len() == 2 && cfg.sequence_nr == vals[0]->U16_0 && cfg.num_periods
                    == vals[1]->U32_0,
                Err(e) => final(self).transcript().last().response is None && transport_err(e),
            },
    {
        let args: Vec<NanonisValue> = vec![];
        let codes: Vec<TypeCode> = vec![];
        proof {
            reveal_strlit("BiasSpectr.PulseSeqSyncGet");
            vstd::utf8::is_ascii_chars_encode_utf8("BiasSpectr.PulseSeqSyncGet"@);
            assert(views_of(args@) =~= Seq::<ValV>::empty());
            assert(codes@ =~= Seq::<TypeCode>::empty());
            lemma_scalar_frame(views_of(args@), codes@);
        }
        let rcodes: Vec<TypeCode> = vec![TypeCode::U16, TypeCode::U32];
        proof {
            assert(rcodes@ =~= seq![TypeCode::U16, TypeCode::U32]);
        }
        let result = match self.quick_send("BiasSpectr.PulseSeqSyncGet", args, codes, rcodes) {
            Ok(v) => v,
            Err(e) => {
                return Err(e);
            },
        };
        proof {
            assert(views_of(result@)[0] == result@[0]@);
            assert(views_of(result@)[1] == result@[1]@);
        }
        if result.len() >= 2 {
            Ok(PulseSeqSyncConfig {
                sequence_nr: result[0].as_u16()?,
                num_periods: result[1].as_u32()?,
            })
        } else {
            Err(NanonisError::Protocol(
                "Invalid pulse seq sync response".to_string(),
            ))
        }
    }

    pub fn bias_spectr_z_off_revert_set(&mut self, revert: OptionalFlag) -> (r: Result<(), NanonisError>)
        ensures
            sent(
                old(self).transcript(),
                final(self).transcript(),
                "BiasSpectr.ZOffRevertSet"@,
                seq![ValV::U16(revert.wire())],
                seq![TypeCode::U16],
                Seq::empty(),
            ),
            match r {
                Ok(()) => final(self).transcript().last().response == Some(Seq::<ValV>::empty()),
                Err(e) => final(self).transcript().last().response is None && transport_err(e),
            },
    {
        let args: Vec<NanonisValue> = vec![NanonisValue::U16(revert.as_u16())];
        let codes: Vec<TypeCode> = vec![TypeCode::U16];
        proof {
            reveal_strlit("BiasSpectr.ZOffRevertSet");
            vstd::utf8::is_ascii_chars_encode_utf8("BiasSpectr.ZOffRevertSet"@);
            assert(views_of(args@) =~= seq![ValV::U16(revert.wire())]);
            assert(codes@ =~= seq![TypeCode::U16]);
            lemma_scalar_frame(views_of(args@), codes@);
        }
        let rcodes: Vec<TypeCode> = vec![];
        proof {
            assert(rcodes@ =~= Seq::<TypeCode>::empty());
        }
        match self.quick_send("BiasSpectr.ZOffRevertSet", args, codes, rcodes) {
            Ok(vs_) => {
                proof {
                    assert(views_of(vs_@) =~= Seq::<ValV>::empty());
                }
                Ok(())
            },
            Err(e) => Err(e),
        }
    }

    pub fn bias_spectr_z_off_revert_get(&mut self) -> (r: Result<bool, NanonisError>)
        ensures
            sent(
                old(self).transcript(),
                final(self).transcript(),
                "BiasSpectr.ZOffRevertGet"@,
                Seq::empty(),
                Seq::empty(),
                seq![TypeCode::U16],
            ),
            match r {
                Ok(v) => final(self).transcript().last().response matches Some(vals)
                    && vals.len() == 1 && v == (vals[0]->U16_0 != 0),
                Err(e) => final(self).transcript().last().response is None && transport_err(e),
            },
    {
        let args: Vec<NanonisValue> = vec![];
        let codes: Vec<TypeCode> = vec![];
        proof {
            reveal_strlit("BiasSpectr.ZOffRevertGet");
            vstd::utf8::is_ascii_chars_encode_utf8("BiasSpectr.ZOffRevertGet"@);
            assert(views_of(args@) =~= Seq::<ValV>::empty());
            assert(codes@ =~= Seq::<TypeCode>::empty());
            lemma_scalar_frame(views_of(args@), codes@);
        }
        let rcodes: Vec<TypeCode> = vec![TypeCode::U16];
        proof {
            assert(rcodes@ =~= seq![TypeCode::U16]);
        }
        let result = match self.quick_send("BiasSpectr.ZOffRevertGet", args, codes, rcodes) {
            Ok(v) => v,
            Err(e) => {
                return Err(e);
            },
        };
        proof {
            assert(views_of(result@)[0] == result@[0]@);
        }
        if result.len() >= 1 {
            let val = &result[0];
            Ok(val.as_u16()? != 0)
        } else {
            Err(NanonisError::Protocol(
                "Invalid z off revert response".to_string(),
            ))
        }
    }

    pub fn bias_spectr_mls_lockin_per_seg_set(&mut self, enabled: bool) -> (r: Result<(), NanonisError>)
        ensures
            sent(
                old(self).transcript(),
                final(self).transcript(),
                "BiasSpectr.MLSLockinPerSegSet"@,
                seq![ValV::U32((if enabled { 1u32 } else { 0u32 }))],
                seq![TypeCode::U32],
                Seq::empty(),
            ),
            match r {
                Ok(()) => final(self).transcript().last().response == Some(Seq::<ValV>::empty()),
                Err(e) => final(self).transcript().last().response is None && transport_err(e),
            },
    {

        let flag = if enabled { 1u32 } else { 0u32 };
        let args: Vec<NanonisValue> = vec![NanonisValue::U32(flag)];
        let codes: Vec<TypeCode> = vec![TypeCode::U32];
        proof {
            reveal_strlit("BiasSpectr.MLSLockinPerSegSet");
            vstd::utf8::is_ascii_chars_encode_utf8("BiasSpectr.MLSLockinPerSegSet"@);
            assert(views_of(args@) =~= seq![ValV::U32((if enabled { 1u32 } else { 0u32 }))]);
            assert(codes@ =~= seq![TypeCode::U32]);
            lemma_scalar_frame(views_of(args@), codes@);
        }
        let rcodes: Vec<TypeCode> = vec![];
        proof {
            assert(rcodes@ =~= Seq::<TypeCode>::empty());
        }
        match self.quick_send("BiasSpectr.MLSLockinPerSegSet", args, codes, rcodes) {
            Ok(vs_) => {
                proof {
                    assert(views_of(vs_@) =~= Seq::<ValV>::empty());
                }
                Ok(())
            },
            Err(e) => Err(e),
        }
    }

    pub fn bias_spectr_mls_lockin_per_seg_get(&mut self) -> (r: Result<bool, NanonisError>)
        ensures
            sent(
                old(self).transcript(),
                final(self).transcript(),
                "BiasSpectr.MLSLockinPerSegGet"@,
                Seq::empty(),
                Seq::empty(),
                seq![TypeCode::U32],
            ),
            match r {
                Ok(v) => final(self).transcript().last().response matches Some(vals)
                    && vals.len() == 1 && v == (vals[0]->U32_0 != 0),
                Err(e) => final(self).transcript().last().response is None && transport_err(e),
            },
    {
        let args: Vec<NanonisValue> = vec![];
        let codes: Vec<TypeCode> = vec![];
        proof {
            reveal_strlit("BiasSpectr.MLSLockinPerSegGet");
            vstd::utf8::is_ascii_chars_encode_utf8("BiasSpectr.MLSLockinPerSegGet"@);
            assert(views_of(args@) =~= Seq::<ValV>::empty());
            assert(codes@ =~= Seq::<TypeCode>::empty());
            lemma_scalar_frame(views_of(args@), codes@);
        }
        let rcodes: Vec<TypeCode> = vec![TypeCode::U32];
        proof {
            assert(rcodes@ =~= seq![TypeCode::U32]);
        }
        let result = match self.quick_send("BiasSpectr.MLSLockinPerSegGet", args, codes, rcodes) {
            Ok(v) => v,
            Err(e) => {
                return Err(e);
            },
        };
        proof {
            assert(views_of(result@)[0] == result@[0]@);
        }
        if result.len() >= 1 {
            let val = &result[0];
            Ok(val.as_u32()? != 0)
        } else {
            Err(NanonisError::Protocol(
                "Invalid MLS lockin per seg response".to_string(),
            ))
        }
    }

    pub fn bias_spectr_mls_mode_set(&mut self, mode: SweepMode) -> (r: Result<(), NanonisError>) {
        let mode_str = match mode {
            SweepMode::Linear => "Linear".to_string(),
            SweepMode::MLS => "MLS".to_string(),
        };
        self.quick_send(
            "BiasSpectr.MLSModeSet",
            vec![NanonisValue::String(mode_str)],
            vec![TypeCode::Str],
            vec![],
        )?;
        Ok(())
    }

    pub fn bias_spectr_mls_mode_get(&mut self) -> (r: Result<SweepMode, NanonisError>) {
        let result = self.quick_send(
            "BiasSpectr.MLSModeGet",
            vec![],
            vec![],
            vec![TypeCode::I32, TypeCode::I32, TypeCode::StrArrayPrev],
        )?;

        if result.len() >= 3 {
            let modes = result[2].as_string_array()?;
            if modes.len() >= 1 {
                SweepMode::parse(modes[0].as_str())
            } else {
                Ok(SweepMode::Linear)
            }
        } else {
            Err(NanonisError::Protocol(
                "Invalid MLS mode response".to_string(),
            ))
        }
    }

}

} // verus!
