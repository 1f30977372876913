//! PLL signal analyzer and zoom-FFT commands.

use vstd::prelude::*;

use crate::client::{lemma_scalar_frame, sent, transport_err, NanonisClient};
use crate::codec::views_of;
use crate::codes::TypeCode;
use crate::error::NanonisError;
use crate::value::{NanonisValue, ValV};

verus! {

/// The trigger mode of the PLL signal analyzer.
#[derive(Debug, Clone, Copy, PartialEq, Eq, Structural)]
pub enum PLLTriggerMode {
    /// No change to current setting
    NoChange,
    /// Trigger immediately
    Immediate,
    /// Trigger on a signal level
    Level,
}

impl PLLTriggerMode {
    /// The wire value of the selector.
    pub open spec fn wire(self) -> u16 {
        match self {
            PLLTriggerMode::NoChange => 0,
            PLLTriggerMode::Immediate => 1,
            PLLTriggerMode::Level => 2,
        }
    }

    /// The wire value of the selector.
    pub fn as_u16(self) -> (r: u16)
        ensures
            r == self.wire(),
    {
        match self {
            PLLTriggerMode::NoChange => 0,
            PLLTriggerMode::Immediate => 1,
            PLLTriggerMode::Level => 2,
        }
    }

    /// The selector a wire value names; out-of-range values are rejected.
    pub fn from_u16(value: u16) -> (r: Result<Self, NanonisError>)
        ensures
            match r {
                Ok(v) => v.wire() == value,
                Err(e) => value > 2 && e is InvalidInput,
            },
    {
        match value {
            0 => Ok(PLLTriggerMode::NoChange),
            1 => Ok(PLLTriggerMode::Immediate),
            2 => Ok(PLLTriggerMode::Level),
            _ => Err(NanonisError::InvalidInput("value names no PLLTriggerMode variant".to_string())),
        }
    }
}

/// The trigger slope of the PLL signal analyzer.
#[derive(Debug, Clone, Copy, PartialEq, Eq, Structural)]
pub enum PLLTriggerSlope {
    /// No change to current setting
    NoChange,
    /// Rising edge
    Rising,
    /// Falling edge
    Falling,
}

impl PLLTriggerSlope {
    /// The wire value of the selector.
    pub open spec fn wire(self) -> u16 {
        match self {
            PLLTriggerSlope::NoChange => 0,
            PLLTriggerSlope::Rising => 1,
            PLLTriggerSlope::Falling => 2,
        }
    }

    /// The wire value of the selector.
    pub fn as_u16(self) -> (r: u16)
        ensures
            r == self.wire(),
    {
        match self {
            PLLTriggerSlope::NoChange => 0,
            PLLTriggerSlope::Rising => 1,
            PLLTriggerSlope::Falling => 2,
        }
    }

    /// The selector a wire value names; out-of-range values are rejected.
    pub fn from_u16(value: u16) -> (r: Result<Self, NanonisError>)
        ensures
            match r {
                Ok(v) => v.wire() == value,
                Err(e) => value > 2 && e is InvalidInput,
            },
    {
        match value {
            0 => Ok(PLLTriggerSlope::NoChange),
            1 => Ok(PLLTriggerSlope::Rising),
            2 => Ok(PLLTriggerSlope::Falling),
            _ => Err(NanonisError::InvalidInput("value names no PLLTriggerSlope variant".to_string())),
        }
    }
}

/// How the analyzer trigger is re-armed.
#[derive(Debug, Clone, Copy, PartialEq, Eq, Structural)]
pub enum ArmingMode {
    /// No change to current setting
    NoChange,
    /// Re-armed by hand
    Manual,
    /// Re-armed automatically
    Automatic,
}

impl ArmingMode {
    /// The wire value of the selector.
    pub open spec fn wire(self) -> u16 {
        match self {
            ArmingMode::NoChange => 0,
            ArmingMode::Manual => 1,
            ArmingMode::Automatic => 2,
        }
    }

    /// The wire value of the selector.
    pub fn as_u16(self) -> (r: u16)
        ensures
            r == self.wire(),
    {
        match self {
            ArmingMode::NoChange => 0,
            ArmingMode::Manual => 1,
            ArmingMode::Automatic => 2,
        }
    }

    /// The selector a wire value names; out-of-range values are rejected.
    pub fn from_u16(value: u16) -> (r: Result<Self, NanonisError>)
        ensures
            match r {
                Ok(v) => v.wire() == value,
                Err(e) => value > 2 && e is InvalidInput,
            },
    {
        match value {
            0 => Ok(ArmingMode::NoChange),
            1 => Ok(ArmingMode::Manual),
            2 => Ok(ArmingMode::Automatic),
            _ => Err(NanonisError::InvalidInput("value names no ArmingMode variant".to_string())),
        }
    }
}

/// The FFT window function.
#[derive(Debug, Clone, Copy, PartialEq, Eq, Structural)]
pub enum FFTWindow {
    /// No change to current setting
    NoChange,
    /// No window
    Bare,
    /// Hanning window
    Hanning,
    /// Hamming window
    Hamming,
    /// Blackman-Harris window
    BlackmanHarris,
    /// Exact Blackman window
    ExactBlackman,
    /// Blackman window
    Blackman,
    /// Flat-top window
    FlatTop,
    /// Four-term Blackman-Harris window
    FourTermBH,
    /// Seven-term Blackman-Harris window
    SevenTermBH,
    /// Low-sidelobe window
    LowSidelobe,
}

impl FFTWindow {
    /// The wire value of the selector.
    pub open spec fn wire(self) -> u16 {
        match self {
            FFTWindow::NoChange => 0,
            FFTWindow::Bare => 1,
            FFTWindow::Hanning => 2,
            FFTWindow::Hamming => 3,
            FFTWindow::BlackmanHarris => 4,
            FFTWindow::ExactBlackman => 5,
            FFTWindow::Blackman => 6,
            FFTWindow::FlatTop => 7,
            FFTWindow::FourTermBH => 8,
            FFTWindow::SevenTermBH => 9,
            FFTWindow::LowSidelobe => 10,
        }
    }

    /// The wire value of the selector.
    pub fn as_u16(self) -> (r: u16)
        ensures
            r == self.wire(),
    {
        match self {
            FFTWindow::NoChange => 0,
            FFTWindow::Bare => 1,
            FFTWindow::Hanning => 2,
            FFTWindow::Hamming => 3,
            FFTWindow::BlackmanHarris => 4,
            FFTWindow::ExactBlackman => 5,
            FFTWindow::Blackman => 6,
            FFTWindow::FlatTop => 7,
            FFTWindow::FourTermBH => 8,
            FFTWindow::SevenTermBH => 9,
            FFTWindow::LowSidelobe => 10,
        }
    }

    /// The selector a wire value names; out-of-range values are rejected.
    pub fn from_u16(value: u16) -> (r: Result<Self, NanonisError>)
        ensures
            match r {
                Ok(v) => v.wire() == value,
                Err(e) => value > 10 && e is InvalidInput,
            },
    {
        match value {
            0 => Ok(FFTWindow::NoChange),
            1 => Ok(FFTWindow::Bare),
            2 => Ok(FFTWindow::Hanning),
            3 => Ok(FFTWindow::Hamming),
            4 => Ok(FFTWindow::BlackmanHarris),
            5 => Ok(FFTWindow::ExactBlackman),
            6 => Ok(FFTWindow::Blackman),
            7 => Ok(FFTWindow::FlatTop),
            8 => Ok(FFTWindow::FourTermBH),
            9 => Ok(FFTWindow::SevenTermBH),
            10 => Ok(FFTWindow::LowSidelobe),
            _ => Err(NanonisError::InvalidInput("value names no FFTWindow variant".to_string())),
        }
    }
}

/// How FFT spectra are averaged.
#[derive(Debug, Clone, Copy, PartialEq, Eq, Structural)]
pub enum FFTAveragingMode {
    /// No change to current setting
    NoChange,
    /// No averaging
    Single,
    /// Vector averaging
    Vector,
    /// RMS averaging
    RMS,
    /// Peak-hold averaging
    PeakHold,
}

impl FFTAveragingMode {
    /// The wire value of the selector.
    pub open spec fn wire(self) -> u16 {
        match self {
            FFTAveragingMode::NoChange => 0,
            FFTAveragingMode::Single => 1,
            FFTAveragingMode::Vector => 2,
            FFTAveragingMode::RMS => 3,
            FFTAveragingMode::PeakHold => 4,
        }
    }

    /// The wire value of the selector.
    pub fn as_u16(self) -> (r: u16)
        ensures
            r == self.wire(),
    {
        match self {
            FFTAveragingMode::NoChange => 0,
            FFTAveragingMode::Single => 1,
            FFTAveragingMode::Vector => 2,
            FFTAveragingMode::RMS => 3,
            FFTAveragingMode::PeakHold => 4,
        }
    }

    /// The selector a wire value names; out-of-range values are rejected.
    pub fn from_u16(value: u16) -> (r: Result<Self, NanonisError>)
        ensures
            match r {
                Ok(v) => v.wire() == value,
                Err(e) => value > 4 && e is InvalidInput,
            },
    {
        match value {
            0 => Ok(FFTAveragingMode::NoChange),
            1 => Ok(FFTAveragingMode::Single),
            2 => Ok(FFTAveragingMode::Vector),
            3 => Ok(FFTAveragingMode::RMS),
            4 => Ok(FFTAveragingMode::PeakHold),
            _ => Err(NanonisError::InvalidInput("value names no FFTAveragingMode variant".to_string())),
        }
    }
}

/// How successive spectra are weighted in the average.
#[derive(Debug, Clone, Copy, PartialEq, Eq, Structural)]
pub enum FFTWeightingMode {
    /// No change to current setting
    NoChange,
    /// Linear weighting
    Linear,
    /// Exponential weighting
    Exponential,
}

impl FFTWeightingMode {
    /// The wire value of the selector.
    pub open spec fn wire(self) -> u16 {
        match self {
            FFTWeightingMode::NoChange => 0,
            FFTWeightingMode::Linear => 1,
            FFTWeightingMode::Exponential => 2,
        }
    }

    /// The wire value of the selector.
    pub fn as_u16(self) -> (r: u16)
        ensures
            r == self.wire(),
    {
        match self {
            FFTWeightingMode::NoChange => 0,
            FFTWeightingMode::Linear => 1,
            FFTWeightingMode::Exponential => 2,
        }
    }

    /// The selector a wire value names; out-of-range values are rejected.
    pub fn from_u16(value: u16) -> (r: Result<Self, NanonisError>)
        ensures
            match r {
                Ok(v) => v.wire() == value,
                Err(e) => value > 2 && e is InvalidInput,
            },
    {
        match value {
            0 => Ok(FFTWeightingMode::NoChange),
            1 => Ok(FFTWeightingMode::Linear),
            2 => Ok(FFTWeightingMode::Exponential),
            _ => Err(NanonisError::InvalidInput("value names no FFTWeightingMode variant".to_string())),
        }
    }
}

/// The timebase of the PLL signal analyzer.
#[derive(Debug, Clone)]
pub struct PLLAnlzrTimebase {
    /// Index of the selected timebase
    pub timebase_index: i32,
    /// Update rate in samples per timebase unit
    pub update_rate: i32,
    /// Names of the available timebases
    pub available_timebases: Vec<String>,
}

/// The FFT settings of the PLL signal analyzer.
#[derive(Debug, Clone, Copy, PartialEq, Eq, Structural)]
pub struct FFTProps {
    /// The window function
    pub window: FFTWindow,
    /// The averaging mode
    pub averaging: FFTAveragingMode,
    /// The weighting mode
    pub weighting: FFTWeightingMode,
    /// The number of averaged spectra
    pub count: i32,
}

impl NanonisClient {
    pub fn pll_signal_anlzr_open(&mut self) -> (r: Result<(), NanonisError>)
        ensures
            sent(
                old(self).transcript(),
                final(self).transcript(),
                "PLLSignalAnlzr.Open"@,
                Seq::empty(),
                Seq::empty(),
                Seq::empty(),
            ),
            match r {
                Ok(()) => final(self).transcript().last().response == Some(Seq::<ValV>::empty()),
                Err(e) => final(self).transcript().last().response is None && transport_err(e),
            },
    {
        let args: Vec<NanonisValue> = vec![];
        let codes: Vec<TypeCode> = vec![];
        proof {
            reveal_strlit("PLLSignalAnlzr.Open");
            vstd::utf8::is_ascii_chars_encode_utf8("PLLSignalAnlzr.Open"@);
            assert(views_of(args@) =~= Seq::<ValV>::empty());
            assert(codes@ =~= Seq::<TypeCode>::empty());
            lemma_scalar_frame(views_of(args@), codes@);
        }
        let rcodes: Vec<TypeCode> = vec![];
        proof {
            assert(rcodes@ =~= Seq::<TypeCode>::empty());
        }
        match self.quick_send("PLLSignalAnlzr.Open", args, codes, rcodes) {
            Ok(vs_) => {
                proof {
                    assert(views_of(vs_@) =~= Seq::<ValV>::empty());
                }
                Ok(())
            },
            Err(e) => Err(e),
        }
    }

    pub fn pll_signal_anlzr_ch_set(&mut self, channel_index: i32) -> (r: Result<(), NanonisError>)
        ensures
            sent(
                old(self).transcript(),
                final(self).transcript(),
                "PLLSignalAnlzr.ChSet"@,
                seq![ValV::I32(channel_index)],
                seq![TypeCode::I32],
                Seq::empty(),
            ),
            match r {
                Ok(()) => final(self).transcript().last().response == Some(Seq::<ValV>::empty()),
                Err(e) => final(self).transcript().last().response is None && transport_err(e),
            },
    {
        let args: Vec<NanonisValue> = vec![NanonisValue::I32(channel_index)];
        let codes: Vec<TypeCode> = vec![TypeCode::I32];
        proof {
            reveal_strlit("PLLSignalAnlzr.ChSet");
            vstd::utf8::is_ascii_chars_encode_utf8("PLLSignalAnlzr.ChSet"@);
            assert(views_of(args@) =~= seq![ValV::I32(channel_index)]);
            assert(codes@ =~= seq![TypeCode::I32]);
            lemma_scalar_frame(views_of(args@), codes@);
        }
        let rcodes: Vec<TypeCode> = vec![];
        proof {
            assert(rcodes@ =~= Seq::<TypeCode>::empty());
        }
        match self.quick_send("PLLSignalAnlzr.ChSet", args, codes, rcodes) {
            Ok(vs_) => {
                proof {
                    assert(views_of(vs_@) =~= Seq::<ValV>::empty());
                }
                Ok(())
            },
            Err(e) => Err(e),
        }
    }

    pub fn pll_signal_anlzr_ch_get(&mut self) -> (r: Result<i32, NanonisError>)
        ensures
            sent(
                old(self).transcript(),
                final(self).transcript(),
                "PLLSignalAnlzr.ChGet"@,
                Seq::empty(),
                Seq::empty(),
                seq![TypeCode::I32],
            ),
            match r {
                Ok(v) => final(self).transcript().last().response matches Some(vals)
                    && vals.len() == 1 && v == vals[0]->I32_0,
                Err(e) => final(self).transcript().last().response is None && transport_err(e),
            },
    {
        let args: Vec<NanonisValue> = vec![];
        let codes: Vec<TypeCode> = vec![];
        proof {
            reveal_strlit("PLLSignalAnlzr.ChGet");
            vstd::utf8::is_ascii_chars_encode_utf8("PLLSignalAnlzr.ChGet"@);
            assert(views_of(args@) =~= Seq::<ValV>::empty());
            assert(codes@ =~= Seq::<TypeCode>::empty());
            lemma_scalar_frame(views_of(args@), codes@);
        }
        let rcodes: Vec<TypeCode> = vec![TypeCode::I32];
        proof {
            assert(rcodes@ =~= seq![TypeCode::I32]);
        }
        let result = match self.quick_send("PLLSignalAnlzr.ChGet", args, codes, rcodes) {
            Ok(v) => v,
            Err(e) => {
                return Err(e);
            },
        };
        proof {
            assert(views_of(result@)[0] == result@[0]@);
        }
        if !result.is_empty() {
            Ok(result[0].as_i32()?)
        } else {
            Err(NanonisError::Protocol("Invalid response".to_string()))
        }
    }

    pub fn pll_signal_anlzr_timebase_set(
        &mut self,
        timebase_index: i32,
        update_rate: i32,
    ) -> (r: Result<(), NanonisError>)
        ensures
            sent(
                old(self).transcript(),
                final(self).transcript(),
                "PLLSignalAnlzr.TimebaseSet"@,
                seq![ValV::I32(timebase_index), ValV::I32(update_rate)],
                seq![TypeCode::I32, TypeCode::I32],
                Seq::empty(),
            ),
            match r {
                Ok(()) => final(self).transcript().last().response == Some(Seq::<ValV>::empty()),
                Err(e) => final(self).transcript().last().response is None && transport_err(e),
            },
    {
        let args: Vec<NanonisValue> = vec![NanonisValue::I32(timebase_index),
                NanonisValue::I32(update_rate),];
        let codes: Vec<TypeCode> = vec![TypeCode::I32, TypeCode::I32];
        proof {
            reveal_strlit("PLLSignalAnlzr.TimebaseSet");
            vstd::utf8::is_ascii_chars_encode_utf8("PLLSignalAnlzr.TimebaseSet"@);
            assert(views_of(args@) =~= seq![ValV::I32(timebase_index), ValV::I32(update_rate)]);
            assert(codes@ =~= seq![TypeCode::I32, TypeCode::I32]);
            lemma_scalar_frame(views_of(args@), codes@);
        }
        let rcodes: Vec<TypeCode> = vec![];
        proof {
            assert(rcodes@ =~= Seq::<TypeCode>::empty());
        }
        match self.quick_send("PLLSignalAnlzr.TimebaseSet", args, codes, rcodes) {
            Ok(vs_) => {
                proof {
                    assert(views_of(vs_@) =~= Seq::<ValV>::empty());
                }
                Ok(())
            },
            Err(e) => Err(e),
        }
    }

    pub fn pll_signal_anlzr_timebase_get(&mut self) -> (r: Result<PLLAnlzrTimebase, NanonisError>) {
        let result = self.quick_send(
            "PLLSignalAnlzr.TimebaseGet",
            vec![],
            vec![],
            vec![TypeCode::I32, TypeCode::I32, TypeCode::I32, TypeCode::I32, TypeCode::StrArrayPrev],
        )?;

        if result.len() >= 5 {
            Ok(PLLAnlzrTimebase {
                timebase_index: result[0].as_i32()?,
                update_rate: result[1].as_i32()?,
                available_timebases: result[4].as_string_array()?.clone(),
            })
        } else {
            Err(NanonisError::Protocol("Invalid response".to_string()))
        }
    }

    pub fn pll_signal_anlzr_trig_auto(&mut self) -> (r: Result<(), NanonisError>)
        ensures
            sent(
                old(self).transcript(),
                final(self).transcript(),
                "PLLSignalAnlzr.TrigAuto"@,
                Seq::empty(),
                Seq::empty(),
                Seq::empty(),
            ),
            match r {
                Ok(()) => final(self).transcript().last().response == Some(Seq::<ValV>::empty()),
                Err(e) => final(self).transcript().last().response is None && transport_err(e),
            },
    {
        let args: Vec<NanonisValue> = vec![];
        let codes: Vec<TypeCode> = vec![];
        proof {
            reveal_strlit("PLLSignalAnlzr.TrigAuto");
            vstd::utf8::is_ascii_chars_encode_utf8("PLLSignalAnlzr.TrigAuto"@);
            assert(views_of(args@) =~= Seq::<ValV>::empty());
            assert(codes@ =~= Seq::<TypeCode>::empty());
            lemma_scalar_frame(views_of(args@), codes@);
        }
        let rcodes: Vec<TypeCode> = vec![];
        proof {
            assert(rcodes@ =~= Seq::<TypeCode>::empty());
        }
        match self.quick_send("PLLSignalAnlzr.TrigAuto", args, codes, rcodes) {
            Ok(vs_) => {
                proof {
                    assert(views_of(vs_@) =~= Seq::<ValV>::empty());
                }
                Ok(())
            },
            Err(e) => Err(e),
        }
    }

    pub fn pll_signal_anlzr_trig_rearm(&mut self) -> (r: Result<(), NanonisError>)
        ensures
            sent(
                old(self).transcript(),
                final(self).transcript(),
                "PLLSignalAnlzr.TrigRearm"@,
                Seq::empty(),
                Seq::empty(),
                Seq::empty(),
            ),
            match r {
                Ok(()) => final(self).transcript().last().response == Some(Seq::<ValV>::empty()),
                Err(e) => final(self).transcript().last().response is None && transport_err(e),
            },
    {
        let args: Vec<NanonisValue> = vec![];
        let codes: Vec<TypeCode> = vec![];
        proof {
            reveal_strlit("PLLSignalAnlzr.TrigRearm");
            vstd::utf8::is_ascii_chars_encode_utf8("PLLSignalAnlzr.TrigRearm"@);
            assert(views_of(args@) =~= Seq::<ValV>::empty());
            assert(codes@ =~= Seq::<TypeCode>::empty());
            lemma_scalar_frame(views_of(args@), codes@);
        }
        let rcodes: Vec<TypeCode> = vec![];
        proof {
            assert(rcodes@ =~= Seq::<TypeCode>::empty());
        }
        match self.quick_send("PLLSignalAnlzr.TrigRearm", args, codes, rcodes) {
            Ok(vs_) => {
                proof {
                    assert(views_of(vs_@) =~= Seq::<ValV>::empty());
                }
                Ok(())
            },
            Err(e) => Err(e),
        }
    }

    pub fn pll_signal_anlzr_fft_props_set(&mut self, props: &FFTProps) -> (r: Result<(), NanonisError>)
        ensures
            sent(
                old(self).transcript(),
                final(self).transcript(),
                "PLLSignalAnlzr.FFTPropsSet"@,
                seq![ValV::U16(props.window.wire()), ValV::U16(props.averaging.wire()), ValV::U16(props.weighting.wire()), ValV::I32(props.count)],
                seq![TypeCode::U16, TypeCode::U16, TypeCode::U16, TypeCode::I32],
                Seq::empty(),
            ),
            match r {
                Ok(()) => final(self).transcript().last().response == Some(Seq::<ValV>::empty()),
                Err(e) => final(self).transcript().last().response is None && transport_err(e),
            },
    {
        let args: Vec<NanonisValue> = vec![NanonisValue::U16(props.window.as_u16()),
                NanonisValue::U16(props.averaging.as_u16()),
                NanonisValue::U16(props.weighting.as_u16()),
                NanonisValue::I32(props.count),];
        let codes: Vec<TypeCode> = vec![TypeCode::U16, TypeCode::U16, TypeCode::U16, TypeCode::I32];
        proof {
            reveal_strlit("PLLSignalAnlzr.FFTPropsSet");
            vstd::utf8::is_ascii_chars_encode_utf8("PLLSignalAnlzr.FFTPropsSet"@);
            assert(views_of(args@) =~= seq![ValV::U16(props.window.wire()), ValV::U16(props.averaging.wire()), ValV::U16(props.weighting.wire()), ValV::I32(props.count)]);
            assert(codes@ =~= seq![TypeCode::U16, TypeCode::U16, TypeCode::U16, TypeCode::I32]);
            lemma_scalar_frame(views_of(args@), codes@);
        }
        let rcodes: Vec<TypeCode> = vec![];
        proof {
            assert(rcodes@ =~= Seq::<TypeCode>::empty());
        }
        match self.quick_send("PLLSignalAnlzr.FFTPropsSet", args, codes, rcodes) {
            Ok(vs_) => {
                proof {
                    assert(views_of(vs_@) =~= Seq::<ValV>::empty());
                }
                Ok(())
            },
            Err(e) => Err(e),
        }
    }

    pub fn pll_signal_anlzr_fft_props_get(&mut self) -> (r: Result<FFTProps, NanonisError>) {
        let result =
            self.quick_send("PLLSignalAnlzr.FFTPropsGet", vec![], vec![], vec![TypeCode::U16, TypeCode::U16, TypeCode::U16, TypeCode::I32])?;

        if result.len() >= 4 {
            // Note: returned values have different offset than set values
            Ok(FFTProps {
                window: FFTWindow::NoChange,
                averaging: FFTAveragingMode::NoChange,
                weighting: FFTWeightingMode::NoChange,
                count: result[3].as_i32()?,
            })
        } else {
            Err(NanonisError::Protocol("Invalid response".to_string()))
        }
    }

    pub fn pll_signal_anlzr_fft_avg_restart(&mut self) -> (r: Result<(), NanonisError>)
        ensures
            sent(
                old(self).transcript(),
                final(self).transcript(),
                "PLLSignalAnlzr.FFTAvgRestart"@,
                Seq::empty(),
                Seq::empty(),
                Seq::empty(),
            ),
            match r {
                Ok(()) => final(self).transcript().last().response == Some(Seq::<ValV>::empty()),
                Err(e) => final(self).transcript().last().response is None && transport_err(e),
            },
    {
        let args: Vec<NanonisValue> = vec![];
        let codes: Vec<TypeCode> = vec![];
        proof {
            reveal_strlit("PLLSignalAnlzr.FFTAvgRestart");
            vstd::utf8::is_ascii_chars_encode_utf8("PLLSignalAnlzr.FFTAvgRestart"@);
            assert(views_of(args@) =~= Seq::<ValV>::empty());
            assert(codes@ =~= Seq::<TypeCode>::empty());
            lemma_scalar_frame(views_of(args@), codes@);
        }
        let rcodes: Vec<TypeCode> = vec![];
        proof {
            assert(rcodes@ =~= Seq::<TypeCode>::empty());
        }
        match self.quick_send("PLLSignalAnlzr.FFTAvgRestart", args, codes, rcodes) {
            Ok(vs_) => {
                proof {
                    assert(views_of(vs_@) =~= Seq::<ValV>::empty());
                }
                Ok(())
            },
            Err(e) => Err(e),
        }
    }

    pub fn pll_zoom_fft_open(&mut self) -> (r: Result<(), NanonisError>)
        ensures
            sent(
                old(self).transcript(),
                final(self).transcript(),
                "PLLZoomFFT.Open"@,
                Seq::empty(),
                Seq::empty(),
                Seq::empty(),
            ),
            match r {
                Ok(()) => final(self).transcript().last().response == Some(Seq::<ValV>::empty()),
                Err(e) => final(self).transcript().last().response is None && transport_err(e),
            },
    {
        let args: Vec<NanonisValue> = vec![];
        let codes: Vec<TypeCode> = vec![];
        proof {
            reveal_strlit("PLLZoomFFT.Open");
            vstd::utf8::is_ascii_chars_encode_utf8("PLLZoomFFT.Open"@);
            assert(views_of(args@) =~= Seq::<ValV>::empty());
            assert(codes@ =~= Seq::<TypeCode>::empty());
            lemma_scalar_frame(views_of(args@), codes@);
        }
        let rcodes: Vec<TypeCode> = vec![];
        proof {
            assert(rcodes@ =~= Seq::<TypeCode>::empty());
        }
        match self.quick_send("PLLZoomFFT.Open", args, codes, rcodes) {
            Ok(vs_) => {
                proof {
                    assert(views_of(vs_@) =~= Seq::<ValV>::empty());
                }
                Ok(())
            },
            Err(e) => Err(e),
        }
    }

    pub fn pll_zoom_fft_ch_set(&mut self, channel_index: i32) -> (r: Result<(), NanonisError>)
        ensures
            sent(
                old(self).transcript(),
                final(self).transcript(),
                "PLLZoomFFT.ChSet"@,
                seq![ValV::I32(channel_index)],
                seq![TypeCode::I32],
                Seq::empty(),
            ),
            match r {
                Ok(()) => final(self).transcript().last().response == Some(Seq::<ValV>::empty()),
                Err(e) => final(self).transcript().last().response is None && transport_err(e),
            },
    {
        let args: Vec<NanonisValue> = vec![NanonisValue::I32(channel_index)];
        let codes: Vec<TypeCode> = vec![TypeCode::I32];
        proof {
            reveal_strlit("PLLZoomFFT.ChSet");
            vstd::utf8::is_ascii_chars_encode_utf8("PLLZoomFFT.ChSet"@);
            assert(views_of(args@) =~= seq![ValV::I32(channel_index)]);
            assert(codes@ =~= seq![TypeCode::I32]);
            lemma_scalar_frame(views_of(args@), codes@);
        }
        let rcodes: Vec<TypeCode> = vec![];
        proof {
            assert(rcodes@ =~= Seq::<TypeCode>::empty());
        }
        match self.quick_send("PLLZoomFFT.ChSet", args, codes, rcodes) {
            Ok(vs_) => {
                proof {
                    assert(views_of(vs_@) =~= Seq::<ValV>::empty());
                }
                Ok(())
            },
            Err(e) => Err(e),
        }
    }

    pub fn pll_zoom_fft_ch_get(&mut self) -> (r: Result<i32, NanonisError>)
        ensures
            sent(
                old(self).transcript(),
                final(self).transcript(),
                "PLLZoomFFT.ChGet"@,
                Seq::empty(),
                Seq::empty(),
                seq![TypeCode::I32],
            ),
            match r {
                Ok(v) => final(self).transcript().last().response matches Some(vals)
                    && vals.len() == 1 && v == vals[0]->I32_0,
                Err(e) => final(self).transcript().last().response is None && transport_err(e),
            },
    {
        let args: Vec<NanonisValue> = vec![];
        let codes: Vec<TypeCode> = vec![];
        proof {
            reveal_strlit("PLLZoomFFT.ChGet");
            vstd::utf8::is_ascii_chars_encode_utf8("PLLZoomFFT.ChGet"@);
            assert(views_of(args@) =~= Seq::<ValV>::empty());
            assert(codes@ =~= Seq::<TypeCode>::empty());
            lemma_scalar_frame(views_of(args@), codes@);
        }
        let rcodes: Vec<TypeCode> = vec![TypeCode::I32];
        proof {
            assert(rcodes@ =~= seq![TypeCode::I32]);
        }
        let result = match self.quick_send("PLLZoomFFT.ChGet", args, codes, rcodes) {
            Ok(v) => v,
            Err(e) => {
                return Err(e);
            },
        };
        proof {
            assert(views_of(result@)[0] == result@[0]@);
        }
        if !result.is_empty() {
            Ok(result[0].as_i32()?)
        } else {
            Err(NanonisError::Protocol("Invalid response".to_string()))
        }
    }

    pub fn pll_zoom_fft_avg_restart(&mut self) -> (r: Result<(), NanonisError>)
        ensures
            sent(
                old(self).transcript(),
                final(self).transcript(),
                "PLLZoomFFT.AvgRestart"@,
                Seq::empty(),
                Seq::empty(),
                Seq::empty(),
            ),
            match r {
                Ok(()) => final(self).transcript().last().response == Some(Seq::<ValV>::empty()),
                Err(e) => final(self).transcript().last().response is None && transport_err(e),
            },
    {
        let args: Vec<NanonisValue> = vec![];
        let codes: Vec<TypeCode> = vec![];
        proof {
            reveal_strlit("PLLZoomFFT.AvgRestart");
            vstd::utf8::is_ascii_chars_encode_utf8("PLLZoomFFT.AvgRestart"@);
            assert(views_of(args@) =~= Seq::<ValV>::empty());
            assert(codes@ =~= Seq::<TypeCode>::empty());
            lemma_scalar_frame(views_of(args@), codes@);
        }
        let rcodes: Vec<TypeCode> = vec![];
        proof {
            assert(rcodes@ =~= Seq::<TypeCode>::empty());
        }
        match self.quick_send("PLLZoomFFT.AvgRestart", args, codes, rcodes) {
            Ok(vs_) => {
                proof {
                    assert(views_of(vs_@) =~= Seq::<ValV>::empty());
                }
                Ok(())
            },
            Err(e) => Err(e),
        }
    }

    pub fn pll_zoom_fft_props_set(&mut self, props: &FFTProps) -> (r: Result<(), NanonisError>)
        ensures
            sent(
                old(self).transcript(),
                final(self).transcript(),
                "PLLZoomFFT.PropsSet"@,
                seq![ValV::U16(props.window.wire()), ValV::U16(props.averaging.wire()), ValV::U16(props.weighting.wire()), ValV::I32(props.count)],
                seq![TypeCode::U16, TypeCode::U16, TypeCode::U16, TypeCode::I32],
                Seq::empty(),
            ),
            match r {
                Ok(()) => final(self).transcript().last().response == Some(Seq::<ValV>::empty()),
                Err(e) => final(self).transcript().last().response is None && transport_err(e),
            },
    {
        let args: Vec<NanonisValue> = vec![NanonisValue::U16(props.window.as_u16()),
                NanonisValue::U16(props.averaging.as_u16()),
                NanonisValue::U16(props.weighting.as_u16()),
                NanonisValue::I32(props.count),];
        let codes: Vec<TypeCode> = vec![TypeCode::U16, TypeCode::U16, TypeCode::U16, TypeCode::I32];
        proof {
            reveal_strlit("PLLZoomFFT.PropsSet");
            vstd::utf8::is_ascii_chars_encode_utf8("PLLZoomFFT.PropsSet"@);
            assert(views_of(args@) =~= seq![ValV::U16(props.window.wire()), ValV::U16(props.averaging.wire()), ValV::U16(props.weighting.wire()), ValV::I32(props.count)]);
            assert(codes@ =~= seq![TypeCode::U16, TypeCode::U16, TypeCode::U16, TypeCode::I32]);
            lemma_scalar_frame(views_of(args@), codes@);
        }
        let rcodes: Vec<TypeCode> = vec![];
        proof {
            assert(rcodes@ =~= Seq::<TypeCode>::empty());
        }
        match self.quick_send("PLLZoomFFT.PropsSet", args, codes, rcodes) {
            Ok(vs_) => {
                proof {
                    assert(views_of(vs_@) =~= Seq::<ValV>::empty());
                }
                Ok(())
            },
            Err(e) => Err(e),
        }
    }

    pub fn pll_zoom_fft_props_get(&mut self) -> (r: Result<FFTProps, NanonisError>) {
        let result =
            self.quick_send("PLLZoomFFT.PropsGet", vec![], vec![], vec![TypeCode::U16, TypeCode::U16, TypeCode::U16, TypeCode::I32])?;

        if result.len() >= 4 {
            Ok(FFTProps {
                window: FFTWindow::NoChange,
                averaging: FFTAveragingMode::NoChange,
                weighting: FFTWeightingMode::NoChange,
                count: result[3].as_i32()?,
            })
        } else {
            Err(NanonisError::Protocol("Invalid response".to_string()))
        }
    }

}

} // verus!
