//! Spectrum analyzer commands.

use vstd::prelude::*;

use crate::client::{lemma_scalar_frame, sent, transport_err, NanonisClient};
use crate::codec::views_of;
use crate::codes::TypeCode;
use crate::error::NanonisError;
use crate::value::{NanonisValue, ValV};

verus! {

/// The FFT window function of the spectrum analyzer.
#[derive(Debug, Clone, Copy, PartialEq, Eq, Structural)]
pub enum SpectrumFFTWindow {
    /// No window
    Bare,
    /// Hanning window
    Hanning,
    /// Hamming window
    Hamming,
    /// Blackman-Harris window
    BlackmanHarris,
    /// Exact Blackman window
    ExactBlackman,
    /// Blackman window
    Blackman,
    /// Flat-top window
    FlatTop,
    /// Four-term Blackman-Harris window
    FourTermBHarris,
    /// Seven-term Blackman-Harris window
    SevenTermBHarris,
    /// Low-sidelobe window
    LowSidelobe,
}

impl SpectrumFFTWindow {
    /// The wire value of the selector.
    pub open spec fn wire(self) -> u16 {
        match self {
            SpectrumFFTWindow::Bare => 0,
            SpectrumFFTWindow::Hanning => 1,
            SpectrumFFTWindow::Hamming => 2,
            SpectrumFFTWindow::BlackmanHarris => 3,
            SpectrumFFTWindow::ExactBlackman => 4,
            SpectrumFFTWindow::Blackman => 5,
            SpectrumFFTWindow::FlatTop => 6,
            SpectrumFFTWindow::FourTermBHarris => 7,
            SpectrumFFTWindow::SevenTermBHarris => 8,
            SpectrumFFTWindow::LowSidelobe => 9,
        }
    }

    /// The wire value of the selector.
    pub fn as_u16(self) -> (r: u16)
        ensures
            r == self.wire(),
    {
        match self {
            SpectrumFFTWindow::Bare => 0,
            SpectrumFFTWindow::Hanning => 1,
            SpectrumFFTWindow::Hamming => 2,
            SpectrumFFTWindow::BlackmanHarris => 3,
            SpectrumFFTWindow::ExactBlackman => 4,
            SpectrumFFTWindow::Blackman => 5,
            SpectrumFFTWindow::FlatTop => 6,
            SpectrumFFTWindow::FourTermBHarris => 7,
            SpectrumFFTWindow::SevenTermBHarris => 8,
            SpectrumFFTWindow::LowSidelobe => 9,
        }
    }

    /// The selector a wire value names; out-of-range values are rejected.
    pub fn from_u16(value: u16) -> (r: Result<Self, NanonisError>)
        ensures
            match r {
                Ok(v) => v.wire() == value,
                Err(e) => value > 9 && e is Type,
            },
    {
        match value {
            0 => Ok(SpectrumFFTWindow::Bare),
            1 => Ok(SpectrumFFTWindow::Hanning),
            2 => Ok(SpectrumFFTWindow::Hamming),
            3 => Ok(SpectrumFFTWindow::BlackmanHarris),
            4 => Ok(SpectrumFFTWindow::ExactBlackman),
            5 => Ok(SpectrumFFTWindow::Blackman),
            6 => Ok(SpectrumFFTWindow::FlatTop),
            7 => Ok(SpectrumFFTWindow::FourTermBHarris),
            8 => Ok(SpectrumFFTWindow::SevenTermBHarris),
            9 => Ok(SpectrumFFTWindow::LowSidelobe),
            _ => Err(NanonisError::Type("value names no SpectrumFFTWindow variant".to_string())),
        }
    }
}

/// How the spectrum analyzer averages spectra.
#[derive(Debug, Clone, Copy, PartialEq, Eq, Structural)]
pub enum SpectrumAveragingMode {
    /// No averaging
    Single,
    /// Vector averaging
    Vector,
    /// RMS averaging
    RMS,
    /// Peak-hold averaging
    PeakHold,
}

impl SpectrumAveragingMode {
    /// The wire value of the selector.
    pub open spec fn wire(self) -> u16 {
        match self {
            SpectrumAveragingMode::Single => 0,
            SpectrumAveragingMode::Vector => 1,
            SpectrumAveragingMode::RMS => 2,
            SpectrumAveragingMode::PeakHold => 3,
        }
    }

    /// The wire value of the selector.
    pub fn as_u16(self) -> (r: u16)
        ensures
            r == self.wire(),
    {
        match self {
            SpectrumAveragingMode::Single => 0,
            SpectrumAveragingMode::Vector => 1,
            SpectrumAveragingMode::RMS => 2,
            SpectrumAveragingMode::PeakHold => 3,
        }
    }

    /// The selector a wire value names; out-of-range values are rejected.
    pub fn from_u16(value: u16) -> (r: Result<Self, NanonisError>)
        ensures
            match r {
                Ok(v) => v.wire() == value,
                Err(e) => value > 3 && e is Type,
            },
    {
        match value {
            0 => Ok(SpectrumAveragingMode::Single),
            1 => Ok(SpectrumAveragingMode::Vector),
            2 => Ok(SpectrumAveragingMode::RMS),
            3 => Ok(SpectrumAveragingMode::PeakHold),
            _ => Err(NanonisError::Type("value names no SpectrumAveragingMode variant".to_string())),
        }
    }
}

/// How successive spectra are weighted in the average.
#[derive(Debug, Clone, Copy, PartialEq, Eq, Structural)]
pub enum SpectrumWeightingMode {
    /// Linear weighting
    Linear,
    /// Exponential weighting
    Exponential,
}

impl SpectrumWeightingMode {
    /// The wire value of the selector.
    pub open spec fn wire(self) -> u16 {
        match self {
            SpectrumWeightingMode::Linear => 0,
            SpectrumWeightingMode::Exponential => 1,
        }
    }

    /// The wire value of the selector.
    pub fn as_u16(self) -> (r: u16)
        ensures
            r == self.wire(),
    {
        match self {
            SpectrumWeightingMode::Linear => 0,
            SpectrumWeightingMode::Exponential => 1,
        }
    }

    /// The selector a wire value names; out-of-range values are rejected.
    pub fn from_u16(value: u16) -> (r: Result<Self, NanonisError>)
        ensures
            match r {
                Ok(v) => v.wire() == value,
                Err(e) => value > 1 && e is Type,
            },
    {
        match value {
            0 => Ok(SpectrumWeightingMode::Linear),
            1 => Ok(SpectrumWeightingMode::Exponential),
            _ => Err(NanonisError::Type("value names no SpectrumWeightingMode variant".to_string())),
        }
    }
}

/// What the spectrum analyzer cursor reads out.
#[derive(Debug, Clone, Copy, PartialEq, Eq, Structural)]
pub enum SpectrumCursorType {
    /// Position readout
    XY,
    /// Difference readout
    DxDy,
    /// Two vertical cursors
    X1X2Dx,
    /// Two horizontal cursors
    Y1Y2Dy,
    /// RMS over a band
    RMSDf,
    /// No change to current setting
    NoChange,
}

impl SpectrumCursorType {
    /// The wire value of the selector.
    pub open spec fn wire(self) -> u16 {
        match self {
            SpectrumCursorType::XY => 0,
            SpectrumCursorType::DxDy => 1,
            SpectrumCursorType::X1X2Dx => 2,
            SpectrumCursorType::Y1Y2Dy => 3,
            SpectrumCursorType::RMSDf => 4,
            SpectrumCursorType::NoChange => 5,
        }
    }

    /// The wire value of the selector.
    pub fn as_u16(self) -> (r: u16)
        ensures
            r == self.wire(),
    {
        match self {
            SpectrumCursorType::XY => 0,
            SpectrumCursorType::DxDy => 1,
            SpectrumCursorType::X1X2Dx => 2,
            SpectrumCursorType::Y1Y2Dy => 3,
            SpectrumCursorType::RMSDf => 4,
            SpectrumCursorType::NoChange => 5,
        }
    }
}

/// Which spectrum analyzer instance a command addresses.
#[derive(Debug, Clone, Copy, PartialEq, Eq, Structural)]
pub enum SpectrumAnalyzerInstance {
    /// First analyzer
    Analyzer1,
    /// Second analyzer
    Analyzer2,
}

impl SpectrumAnalyzerInstance {
    /// The wire value of the selector.
    pub open spec fn wire(self) -> i32 {
        match self {
            SpectrumAnalyzerInstance::Analyzer1 => 1,
            SpectrumAnalyzerInstance::Analyzer2 => 2,
        }
    }

    /// The wire value of the selector.
    pub fn as_i32(self) -> (r: i32)
        ensures
            r == self.wire(),
    {
        match self {
            SpectrumAnalyzerInstance::Analyzer1 => 1,
            SpectrumAnalyzerInstance::Analyzer2 => 2,
        }
    }
}

/// The averaging settings of the spectrum analyzer.
#[derive(Debug, Clone, Copy, PartialEq, Eq, Structural)]
pub struct SpectrumAveraging {
    /// Averaging mode
    pub mode: SpectrumAveragingMode,
    /// Weighting mode
    pub weighting: SpectrumWeightingMode,
    /// Number of averages
    pub count: u32,
}

impl NanonisClient {
    pub fn spectrum_anlzr_ch_set(
        &mut self,
        instance: SpectrumAnalyzerInstance,
        channel_index: i32,
    ) -> (r: Result<(), NanonisError>)
        ensures
            sent(
                old(self).transcript(),
                final(self).transcript(),
                "SpectrumAnlzr.ChSet"@,
                seq![ValV::I32(instance.wire()), ValV::I32(channel_index)],
                seq![TypeCode::I32, TypeCode::I32],
                Seq::empty(),
            ),
            match r {
                Ok(()) => final(self).transcript().last().response == Some(Seq::<ValV>::empty()),
                Err(e) => final(self).transcript().last().response is None && transport_err(e),
            },
    {
        let args: Vec<NanonisValue> = vec![NanonisValue::I32(instance.as_i32()),
                NanonisValue::I32(channel_index),];
        let codes: Vec<TypeCode> = vec![TypeCode::I32, TypeCode::I32];
        proof {
            reveal_strlit("SpectrumAnlzr.ChSet");
            vstd::utf8::is_ascii_chars_encode_utf8("SpectrumAnlzr.ChSet"@);
            assert(views_of(args@) =~= seq![ValV::I32(instance.wire()), ValV::I32(channel_index)]);
            assert(codes@ =~= seq![TypeCode::I32, TypeCode::I32]);
            lemma_scalar_frame(views_of(args@), codes@);
        }
        let rcodes: Vec<TypeCode> = vec![];
        proof {
            assert(rcodes@ =~= Seq::<TypeCode>::empty());
        }
        match self.quick_send("SpectrumAnlzr.ChSet", args, codes, rcodes) {
            Ok(vs_) => {
                proof {
                    assert(views_of(vs_@) =~= Seq::<ValV>::empty());
                }
                Ok(())
            },
            Err(e) => Err(e),
        }
    }

    pub fn spectrum_anlzr_ch_get(
        &mut self,
        instance: SpectrumAnalyzerInstance,
    ) -> (r: Result<i32, NanonisError>) {
        let result = self.quick_send(
            "SpectrumAnlzr.ChGet",
            vec![NanonisValue::I32(instance.as_i32())],
            vec![TypeCode::I32],
            vec![TypeCode::I32],
        )?;

        result[0].as_i32()
    }

    pub fn spectrum_anlzr_freq_range_set(
        &mut self,
        instance: SpectrumAnalyzerInstance,
        range_index: i32,
    ) -> (r: Result<(), NanonisError>)
        ensures
            sent(
                old(self).transcript(),
                final(self).transcript(),
                "SpectrumAnlzr.FreqRangeSet"@,
                seq![ValV::I32(instance.wire()), ValV::I32(range_index)],
                seq![TypeCode::I32, TypeCode::I32],
                Seq::empty(),
            ),
            match r {
                Ok(()) => final(self).transcript().last().response == Some(Seq::<ValV>::empty()),
                Err(e) => final(self).transcript().last().response is None && transport_err(e),
            },
    {
        let args: Vec<NanonisValue> = vec![NanonisValue::I32(instance.as_i32()),
                NanonisValue::I32(range_index),];
        let codes: Vec<TypeCode> = vec![TypeCode::I32, TypeCode::I32];
        proof {
            reveal_strlit("SpectrumAnlzr.FreqRangeSet");
            vstd::utf8::is_ascii_chars_encode_utf8("SpectrumAnlzr.FreqRangeSet"@);
            assert(views_of(args@) =~= seq![ValV::I32(instance.wire()), ValV::I32(range_index)]);
            assert(codes@ =~= seq![TypeCode::I32, TypeCode::I32]);
            lemma_scalar_frame(views_of(args@), codes@);
        }
        let rcodes: Vec<TypeCode> = vec![];
        proof {
            assert(rcodes@ =~= Seq::<TypeCode>::empty());
        }
        match self.quick_send("SpectrumAnlzr.FreqRangeSet", args, codes, rcodes) {
            Ok(vs_) => {
                proof {
                    assert(views_of(vs_@) =~= Seq::<ValV>::empty());
                }
                Ok(())
            },
            Err(e) => Err(e),
        }
    }

    pub fn spectrum_anlzr_freq_res_set(
        &mut self,
        instance: SpectrumAnalyzerInstance,
        resolution_index: u16,
    ) -> (r: Result<(), NanonisError>)
        ensures
            sent(
                old(self).transcript(),
                final(self).transcript(),
                "SpectrumAnlzr.FreqResSet"@,
                seq![ValV::I32(instance.wire()), ValV::U16(resolution_index)],
                seq![TypeCode::I32, TypeCode::U16],
                Seq::empty(),
            ),
            match r {
                Ok(()) => final(self).transcript().last().response == Some(Seq::<ValV>::empty()),
                Err(e) => final(self).transcript().last().response is None && transport_err(e),
            },
    {
        let args: Vec<NanonisValue> = vec![NanonisValue::I32(instance.as_i32()),
                NanonisValue::U16(resolution_index),];
        let codes: Vec<TypeCode> = vec![TypeCode::I32, TypeCode::U16];
        proof {
            reveal_strlit("SpectrumAnlzr.FreqResSet");
            vstd::utf8::is_ascii_chars_encode_utf8("SpectrumAnlzr.FreqResSet"@);
            assert(views_of(args@) =~= seq![ValV::I32(instance.wire()), ValV::U16(resolution_index)]);
            assert(codes@ =~= seq![TypeCode::I32, TypeCode::U16]);
            lemma_scalar_frame(views_of(args@), codes@);
        }
        let rcodes: Vec<TypeCode> = vec![];
        proof {
            assert(rcodes@ =~= Seq::<TypeCode>::empty());
        }
        match self.quick_send("SpectrumAnlzr.FreqResSet", args, codes, rcodes) {
            Ok(vs_) => {
                proof {
                    assert(views_of(vs_@) =~= Seq::<ValV>::empty());
                }
                Ok(())
            },
            Err(e) => Err(e),
        }
    }

    pub fn spectrum_anlzr_fft_window_set(
        &mut self,
        instance: SpectrumAnalyzerInstance,
        window: SpectrumFFTWindow,
    ) -> (r: Result<(), NanonisError>)
        ensures
            sent(
                old(self).transcript(),
                final(self).transcript(),
                "SpectrumAnlzr.FFTWindowSet"@,
                seq![ValV::I32(instance.wire()), ValV::U16(window.wire())],
                seq![TypeCode::I32, TypeCode::U16],
                Seq::empty(),
            ),
            match r {
                Ok(()) => final(self).transcript().last().response == Some(Seq::<ValV>::empty()),
                Err(e) => final(self).transcript().last().response is None && transport_err(e),
            },
    {
        let args: Vec<NanonisValue> = vec![NanonisValue::I32(instance.as_i32()),
                NanonisValue::U16(window.as_u16()),];
        let codes: Vec<TypeCode> = vec![TypeCode::I32, TypeCode::U16];
        proof {
            reveal_strlit("SpectrumAnlzr.FFTWindowSet");
            vstd::utf8::is_ascii_chars_encode_utf8("SpectrumAnlzr.FFTWindowSet"@);
            assert(views_of(args@) =~= seq![ValV::I32(instance.wire()), ValV::U16(window.wire())]);
            assert(codes@ =~= seq![TypeCode::I32, TypeCode::U16]);
            lemma_scalar_frame(views_of(args@), codes@);
        }
        let rcodes: Vec<TypeCode> = vec![];
        proof {
            assert(rcodes@ =~= Seq::<TypeCode>::empty());
        }
        match self.quick_send("SpectrumAnlzr.FFTWindowSet", args, codes, rcodes) {
            Ok(vs_) => {
                proof {
                    assert(views_of(vs_@) =~= Seq::<ValV>::empty());
                }
                Ok(())
            },
            Err(e) => Err(e),
        }
    }

    pub fn spectrum_anlzr_fft_window_get(
        &mut self,
        instance: SpectrumAnalyzerInstance,
    ) -> (r: Result<SpectrumFFTWindow, NanonisError>) {
        let result = self.quick_send(
            "SpectrumAnlzr.FFTWindowGet",
            vec![NanonisValue::I32(instance.as_i32())],
            vec![TypeCode::I32],
            vec![TypeCode::U16],
        )?;

        SpectrumFFTWindow::from_u16(result[0].as_u16()?)
    }

    pub fn spectrum_anlzr_averag_set(
        &mut self,
        instance: SpectrumAnalyzerInstance,
        averaging: &SpectrumAveraging,
    ) -> (r: Result<(), NanonisError>)
        ensures
            sent(
                old(self).transcript(),
                final(self).transcript(),
                "SpectrumAnlzr.AveragSet"@,
                seq![ValV::I32(instance.wire()), ValV::U16(averaging.mode.wire()), ValV::U16(averaging.weighting.wire()), ValV::U32(averaging.count)],
                seq![TypeCode::I32, TypeCode::U16, TypeCode::U16, TypeCode::U32],
                Seq::empty(),
            ),
            match r {
                Ok(()) => final(self).transcript().last().response == Some(Seq::<ValV>::empty()),
                Err(e) => final(self).transcript().last().response is None && transport_err(e),
            },
    {
        let args: Vec<NanonisValue> = vec![NanonisValue::I32(instance.as_i32()),
                NanonisValue::U16(averaging.mode.as_u16()),
                NanonisValue::U16(averaging.weighting.as_u16()),
                NanonisValue::U32(averaging.count),];
        let codes: Vec<TypeCode> = vec![TypeCode::I32, TypeCode::U16, TypeCode::U16, TypeCode::U32];
        proof {
            reveal_strlit("SpectrumAnlzr.AveragSet");
            vstd::utf8::is_ascii_chars_encode_utf8("SpectrumAnlzr.AveragSet"@);
            assert(views_of(args@) =~= seq![ValV::I32(instance.wire()), ValV::U16(averaging.mode.wire()), ValV::U16(averaging.weighting.wire()), ValV::U32(averaging.count)]);
            assert(codes@ =~= seq![TypeCode::I32, TypeCode::U16, TypeCode::U16, TypeCode::U32]);
            lemma_scalar_frame(views_of(args@), codes@);
        }
        let rcodes: Vec<TypeCode> = vec![];
        proof {
            assert(rcodes@ =~= Seq::<TypeCode>::empty());
        }
        match self.quick_send("SpectrumAnlzr.AveragSet", args, codes, rcodes) {
            Ok(vs_) => {
                proof {
                    assert(views_of(vs_@) =~= Seq::<ValV>::empty());
                }
                Ok(())
            },
            Err(e) => Err(e),
        }
    }

    pub fn spectrum_anlzr_averag_get(
        &mut self,
        instance: SpectrumAnalyzerInstance,
    ) -> (r: Result<SpectrumAveraging, NanonisError>) {
        let result = self.quick_send(
            "SpectrumAnlzr.AveragGet",
            vec![NanonisValue::I32(instance.as_i32())],
            vec![TypeCode::I32],
            vec![TypeCode::U16, TypeCode::U16, TypeCode::U32],
        )?;

        Ok(SpectrumAveraging {
            mode: SpectrumAveragingMode::from_u16(result[0].as_u16()?)?,
            weighting: SpectrumWeightingMode::from_u16(result[1].as_u16()?)?,
            count: result[2].as_u32()?,
        })
    }

    pub fn spectrum_anlzr_ac_coupling_set(
        &mut self,
        instance: SpectrumAnalyzerInstance,
        enabled: bool,
    ) -> (r: Result<(), NanonisError>)
        ensures
            sent(
                old(self).transcript(),
                final(self).transcript(),
                "SpectrumAnlzr.ACCouplingSet"@,
                seq![ValV::I32(instance.wire()), ValV::U32(if enabled { 1 } else { 0 })],
                seq![TypeCode::I32, TypeCode::U32],
                Seq::empty(),
            ),
            match r {
                Ok(()) => final(self).transcript().last().response == Some(Seq::<ValV>::empty()),
                Err(e) => final(self).transcript().last().response is None && transport_err(e),
            },
    {
        let args: Vec<NanonisValue> = vec![NanonisValue::I32(instance.as_i32()),
                NanonisValue::U32(if enabled { 1 } else { 0 }),];
        let codes: Vec<TypeCode> = vec![TypeCode::I32, TypeCode::U32];
        proof {
            reveal_strlit("SpectrumAnlzr.ACCouplingSet");
            vstd::utf8::is_ascii_chars_encode_utf8("SpectrumAnlzr.ACCouplingSet"@);
            assert(views_of(args@) =~= seq![ValV::I32(instance.wire()), ValV::U32(if enabled { 1 } else { 0 })]);
            assert(codes@ =~= seq![TypeCode::I32, TypeCode::U32]);
            lemma_scalar_frame(views_of(args@), codes@);
        }
        let rcodes: Vec<TypeCode> = vec![];
        proof {
            assert(rcodes@ =~= Seq::<TypeCode>::empty());
        }
        match self.quick_send("SpectrumAnlzr.ACCouplingSet", args, codes, rcodes) {
            Ok(vs_) => {
                proof {
                    assert(views_of(vs_@) =~= Seq::<ValV>::empty());
                }
                Ok(())
            },
            Err(e) => Err(e),
        }
    }

    pub fn spectrum_anlzr_ac_coupling_get(
        &mut self,
        instance: SpectrumAnalyzerInstance,
    ) -> (r: Result<bool, NanonisError>)
        ensures
            sent(
                old(self).transcript(),
                final(self).transcript(),
                "SpectrumAnlzr.ACCouplingGet"@,
                seq![ValV::I32(instance.wire())],
                seq![TypeCode::I32],
                seq![TypeCode::U32],
            ),
            match r {
                Ok(v) => final(self).transcript().last().response matches Some(vals)
                    && vals.len() == 1 && v == (vals[0]->U32_0 != 0),
                Err(e) => final(self).transcript().last().response is None && transport_err(e),
            },
    {
        let args: Vec<NanonisValue> = vec![NanonisValue::I32(instance.as_i32())];
        let codes: Vec<TypeCode> = vec![TypeCode::I32];
        proof {
            reveal_strlit("SpectrumAnlzr.ACCouplingGet");
            vstd::utf8::is_ascii_chars_encode_utf8("SpectrumAnlzr.ACCouplingGet"@);
            assert(views_of(args@) =~= seq![ValV::I32(instance.wire())]);
            assert(codes@ =~= seq![TypeCode::I32]);
            lemma_scalar_frame(views_of(args@), codes@);
        }
        let rcodes: Vec<TypeCode> = vec![TypeCode::U32];
        proof {
            assert(rcodes@ =~= seq![TypeCode::U32]);
        }
        let result = match self.quick_send("SpectrumAnlzr.ACCouplingGet", args, codes, rcodes) {
            Ok(v) => v,
            Err(e) => {
                return Err(e);
            },
        };
        proof {
            assert(views_of(result@)[0] == result@[0]@);
        }
        Ok(result[0].as_u32()? != 0)
    }

    pub fn spectrum_anlzr_run(
        &mut self,
        instance: SpectrumAnalyzerInstance,
    ) -> (r: Result<(), NanonisError>)
        ensures
            sent(
                old(self).transcript(),
                final(self).transcript(),
                "SpectrumAnlzr.Run"@,
                seq![ValV::I32(instance.wire())],
                seq![TypeCode::I32],
                Seq::empty(),
            ),
            match r {
                Ok(()) => final(self).transcript().last().response == Some(Seq::<ValV>::empty()),
                Err(e) => final(self).transcript().last().response is None && transport_err(e),
            },
    {
        let args: Vec<NanonisValue> = vec![NanonisValue::I32(instance.as_i32())];
        let codes: Vec<TypeCode> = vec![TypeCode::I32];
        proof {
            reveal_strlit("SpectrumAnlzr.Run");
            vstd::utf8::is_ascii_chars_encode_utf8("SpectrumAnlzr.Run"@);
            assert(views_of(args@) =~= seq![ValV::I32(instance.wire())]);
            assert(codes@ =~= seq![TypeCode::I32]);
            lemma_scalar_frame(views_of(args@), codes@);
        }
        let rcodes: Vec<TypeCode> = vec![];
        proof {
            assert(rcodes@ =~= Seq::<TypeCode>::empty());
        }
        match self.quick_send("SpectrumAnlzr.Run", args, codes, rcodes) {
            Ok(vs_) => {
                proof {
                    assert(views_of(vs_@) =~= Seq::<ValV>::empty());
                }
                Ok(())
            },
            Err(e) => Err(e),
        }
    }

}

} // verus!
