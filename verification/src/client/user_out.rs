//! User output commands.

use vstd::prelude::*;

use crate::client::{lemma_scalar_frame, sent, transport_err, NanonisClient};
use crate::codec::views_of;
use crate::codes::TypeCode;
use crate::error::NanonisError;
use crate::value::{NanonisValue, ValV};

verus! {

/// What a user output produces.
#[derive(Debug, Clone, Copy, PartialEq, Eq, Structural)]
pub enum OutputMode {
    /// A user-set value
    UserOutput,
    /// A monitored signal
    Monitor,
    /// A calculated signal
    CalcSignal,
    /// An override value
    Override,
}

impl OutputMode {
    /// The wire value of the selector.
    pub open spec fn wire(self) -> u16 {
        match self {
            OutputMode::UserOutput => 0,
            OutputMode::Monitor => 1,
            OutputMode::CalcSignal => 2,
            OutputMode::Override => 3,
        }
    }

    /// The wire value of the selector.
    pub fn as_u16(self) -> (r: u16)
        ensures
            r == self.wire(),
    {
        match self {
            OutputMode::UserOutput => 0,
            OutputMode::Monitor => 1,
            OutputMode::CalcSignal => 2,
            OutputMode::Override => 3,
        }
    }

    /// The selector a wire value names; out-of-range values are rejected.
    pub fn from_u16(value: u16) -> (r: Result<Self, NanonisError>)
        ensures
            match r {
                Ok(v) => v.wire() == value,
                Err(e) => value > 3 && e is InvalidInput,
            },
    {
        match value {
            0 => Ok(OutputMode::UserOutput),
            1 => Ok(OutputMode::Monitor),
            2 => Ok(OutputMode::CalcSignal),
            3 => Ok(OutputMode::Override),
            _ => Err(NanonisError::InvalidInput("value names no OutputMode variant".to_string())),
        }
    }
}

/// How a calculated signal combines its two inputs.
#[derive(Debug, Clone, Copy, PartialEq, Eq, Structural)]
pub enum CalcOperation {
    /// No operation
    NoOperation,
    /// Sum of the signals
    Add,
    /// Difference of the signals
    Subtract,
    /// Product of the signals
    Multiply,
    /// Quotient of the signals
    Divide,
    /// Logarithm
    Log,
}

impl CalcOperation {
    /// The wire value of the selector.
    pub open spec fn wire(self) -> u16 {
        match self {
            CalcOperation::NoOperation => 0,
            CalcOperation::Add => 1,
            CalcOperation::Subtract => 2,
            CalcOperation::Multiply => 3,
            CalcOperation::Divide => 4,
            CalcOperation::Log => 6,
        }
    }

    /// The wire value of the selector.
    pub fn as_u16(self) -> (r: u16)
        ensures
            r == self.wire(),
    {
        match self {
            CalcOperation::NoOperation => 0,
            CalcOperation::Add => 1,
            CalcOperation::Subtract => 2,
            CalcOperation::Multiply => 3,
            CalcOperation::Divide => 4,
            CalcOperation::Log => 6,
        }
    }

    /// The selector a wire value names; unassigned values are rejected.
    pub fn from_u16(value: u16) -> (r: Result<Self, NanonisError>)
        ensures
            match r {
                Ok(v) => v.wire() == value,
                Err(e) => (value == 5 || value > 6) && e is InvalidInput,
            },
    {
        match value {
            0 => Ok(CalcOperation::NoOperation),
            1 => Ok(CalcOperation::Add),
            2 => Ok(CalcOperation::Subtract),
            3 => Ok(CalcOperation::Multiply),
            4 => Ok(CalcOperation::Divide),
            6 => Ok(CalcOperation::Log),
            _ => Err(NanonisError::InvalidInput("value names no CalcOperation variant".to_string())),
        }
    }
}

/// A calculated signal: two source signals and the operation between them.
#[derive(Debug, Clone, Copy, PartialEq, Eq, Structural)]
pub struct CalcSignalConfig {
    /// First source signal index
    pub signal_1: u16,
    /// The operation applied
    pub operation: CalcOperation,
    /// Second source signal index
    pub signal_2: u16,
}

impl CalcSignalConfig {
    /// A configuration from its parts.
    pub fn new(signal_1: u16, operation: CalcOperation, signal_2: u16) -> (r: Self)
        ensures
            r == (CalcSignalConfig { signal_1, operation, signal_2 }),
    {
        CalcSignalConfig { signal_1, operation, signal_2 }
    }
}

impl NanonisClient {
    pub fn user_out_mode_set(
        &mut self,
        output_index: i32,
        output_mode: OutputMode,
    ) -> (r: Result<(), NanonisError>)
        ensures
            sent(
                old(self).transcript(),
                final(self).transcript(),
                "UserOut.ModeSet"@,
                seq![ValV::I32(output_index), ValV::U16(output_mode.wire())],
                seq![TypeCode::I32, TypeCode::U16],
                Seq::empty(),
            ),
            match r {
                Ok(()) => final(self).transcript().last().response == Some(Seq::<ValV>::empty()),
                Err(e) => final(self).transcript().last().response is None && transport_err(e),
            },
    {
        let args: Vec<NanonisValue> = vec![NanonisValue::I32(output_index), NanonisValue::U16(output_mode.as_u16())];
        let codes: Vec<TypeCode> = vec![TypeCode::I32, TypeCode::U16];
        proof {
            reveal_strlit("UserOut.ModeSet");
            vstd::utf8::is_ascii_chars_encode_utf8("UserOut.ModeSet"@);
            assert(views_of(args@) =~= seq![ValV::I32(output_index), ValV::U16(output_mode.wire())]);
            assert(codes@ =~= seq![TypeCode::I32, TypeCode::U16]);
            lemma_scalar_frame(views_of(args@), codes@);
        }
        let rcodes: Vec<TypeCode> = vec![];
        proof {
            assert(rcodes@ =~= Seq::<TypeCode>::empty());
        }
        match self.quick_send("UserOut.ModeSet", args, codes, rcodes) {
            Ok(vs_) => {
                proof {
                    assert(views_of(vs_@) =~= Seq::<ValV>::empty());
                }
                Ok(())
            },
            Err(e) => Err(e),
        }
    }

    pub fn user_out_mode_get(&mut self, output_index: i32) -> (r: Result<OutputMode, NanonisError>) {
        let result = self.quick_send(
            "UserOut.ModeGet",
            vec![NanonisValue::I32(output_index)],
            vec![TypeCode::I32],
            vec![TypeCode::U16],
        )?;
        if result.len() >= 1 {
            let value = &result[0];
            {
                let mode_val = value.as_u16()?;
                OutputMode::from_u16(mode_val)
            }
        } else {
            Err(NanonisError::Protocol(
                "No output mode value returned".to_string(),
            ))
        }
    }

    pub fn user_out_monitor_ch_set(
        &mut self,
        output_index: i32,
        monitor_channel_index: i32,
    ) -> (r: Result<(), NanonisError>)
        ensures
            sent(
                old(self).transcript(),
                final(self).transcript(),
                "UserOut.MonitorChSet"@,
                seq![ValV::I32(output_index), ValV::I32(monitor_channel_index)],
                seq![TypeCode::I32, TypeCode::I32],
                Seq::empty(),
            ),
            match r {
                Ok(()) => final(self).transcript().last().response == Some(Seq::<ValV>::empty()),
                Err(e) => final(self).transcript().last().response is None && transport_err(e),
            },
    {
        let args: Vec<NanonisValue> = vec![NanonisValue::I32(output_index), NanonisValue::I32(monitor_channel_index)];
        let codes: Vec<TypeCode> = vec![TypeCode::I32, TypeCode::I32];
        proof {
            reveal_strlit("UserOut.MonitorChSet");
            vstd::utf8::is_ascii_chars_encode_utf8("UserOut.MonitorChSet"@);
            assert(views_of(args@) =~= seq![ValV::I32(output_index), ValV::I32(monitor_channel_index)]);
            assert(codes@ =~= seq![TypeCode::I32, TypeCode::I32]);
            lemma_scalar_frame(views_of(args@), codes@);
        }
        let rcodes: Vec<TypeCode> = vec![];
        proof {
            assert(rcodes@ =~= Seq::<TypeCode>::empty());
        }
        match self.quick_send("UserOut.MonitorChSet", args, codes, rcodes) {
            Ok(vs_) => {
                proof {
                    assert(views_of(vs_@) =~= Seq::<ValV>::empty());
                }
                Ok(())
            },
            Err(e) => Err(e),
        }
    }

    pub fn user_out_monitor_ch_get(&mut self, output_index: i32) -> (r: Result<i32, NanonisError>)
        ensures
            sent(
                old(self).transcript(),
                final(self).transcript(),
                "UserOut.MonitorChGet"@,
                seq![ValV::I32(output_index)],
                seq![TypeCode::I32],
                seq![TypeCode::I32],
            ),
            match r {
                Ok(v) => final(self).transcript().last().response matches Some(vals)
                    && vals.len() == 1 && v == vals[0]->I32_0,
                Err(e) => final(self).transcript().last().response is None && transport_err(e),
            },
    {
        let args: Vec<NanonisValue> = vec![NanonisValue::I32(output_index)];
        let codes: Vec<TypeCode> = vec![TypeCode::I32];
        proof {
            reveal_strlit("UserOut.MonitorChGet");
            vstd::utf8::is_ascii_chars_encode_utf8("UserOut.MonitorChGet"@);
            assert(views_of(args@) =~= seq![ValV::I32(output_index)]);
            assert(codes@ =~= seq![TypeCode::I32]);
            lemma_scalar_frame(views_of(args@), codes@);
        }
        let rcodes: Vec<TypeCode> = vec![TypeCode::I32];
        proof {
            assert(rcodes@ =~= seq![TypeCode::I32]);
        }
        let result = match self.quick_send("UserOut.MonitorChGet", args, codes, rcodes) {
            Ok(v) => v,
            Err(e) => {
                return Err(e);
            },
        };
        proof {
            assert(views_of(result@)[0] == result@[0]@);
        }
        if result.len() >= 1 {
            let value = &result[0];
            Ok(value.as_i32()?)
        } else {
            Err(NanonisError::Protocol(
                "No monitor channel value returned".to_string(),
            ))
        }
    }

    pub fn user_out_calc_signal_name_set(
        &mut self,
        output_index: i32,
        calculated_signal_name: String,
    ) -> (r: Result<(), NanonisError>)
        ensures
            ({
                let req_args = seq![ValV::I32(output_index), ValV::Str(calculated_signal_name@)];
                let req_codes = seq![TypeCode::I32, TypeCode::Str];
                &&& crate::client::frame_ok("UserOut.CalcSignalNameSet"@, req_args, req_codes) ==> sent(
                    old(self).transcript(),
                    final(self).transcript(),
                    "UserOut.CalcSignalNameSet"@,
                    req_args,
                    req_codes,
                    Seq::empty(),
                ) && (match r {
                    Ok(()) => final(self).transcript().last().response == Some(
                        Seq::<ValV>::empty(),
                    ),
                    Err(e) => final(self).transcript().last().response is None && transport_err(
                        e,
                    ),
                })
                &&& !crate::client::frame_ok("UserOut.CalcSignalNameSet"@, req_args, req_codes) ==> final(self).transcript()
                    == old(self).transcript() && (r matches Err(e) && (e is InvalidInput
                    || e is Protocol))
            }),
    {
        let args: Vec<NanonisValue> = vec![NanonisValue::I32(output_index), NanonisValue::String(calculated_signal_name)];
        let codes: Vec<TypeCode> = vec![TypeCode::I32, TypeCode::Str];
        proof {
            reveal_strlit("UserOut.CalcSignalNameSet");
            vstd::utf8::is_ascii_chars_encode_utf8("UserOut.CalcSignalNameSet"@);
            assert(views_of(args@) =~= seq![ValV::I32(output_index), ValV::Str(calculated_signal_name@)]);
            assert(codes@ =~= seq![TypeCode::I32, TypeCode::Str]);
        }
        let rcodes: Vec<TypeCode> = vec![];
        proof {
            assert(rcodes@ =~= Seq::<TypeCode>::empty());
        }
        match self.quick_send("UserOut.CalcSignalNameSet", args, codes, rcodes) {
            Ok(vs_) => {
                proof {
                    assert(views_of(vs_@) =~= Seq::<ValV>::empty());
                }
                Ok(())
            },
            Err(e) => Err(e),
        }
    }

    pub fn user_out_calc_signal_name_get(
        &mut self,
        output_index: i32,
    ) -> (r: Result<String, NanonisError>)
        ensures
            sent(
                old(self).transcript(),
                final(self).transcript(),
                "UserOut.CalcSignalNameGet"@,
                seq![ValV::I32(output_index)],
                seq![TypeCode::I32],
                seq![TypeCode::I32, TypeCode::StrPrev],
            ),
            match r {
                Ok(v) => final(self).transcript().last().response matches Some(vals)
                    && vals.len() == 2 && v@ == vals[1]->Str_0,
                Err(e) => final(self).transcript().last().response is None && transport_err(e),
            },
    {
        let args: Vec<NanonisValue> = vec![NanonisValue::I32(output_index)];
        let codes: Vec<TypeCode> = vec![TypeCode::I32];
        proof {
            reveal_strlit("UserOut.CalcSignalNameGet");
            vstd::utf8::is_ascii_chars_encode_utf8("UserOut.CalcSignalNameGet"@);
            assert(views_of(args@) =~= seq![ValV::I32(output_index)]);
            assert(codes@ =~= seq![TypeCode::I32]);
            lemma_scalar_frame(views_of(args@), codes@);
        }
        let rcodes: Vec<TypeCode> = vec![TypeCode::I32, TypeCode::StrPrev];
        proof {
            assert(rcodes@ =~= seq![TypeCode::I32, TypeCode::StrPrev]);
        }
        let result = match self.quick_send("UserOut.CalcSignalNameGet", args, codes, rcodes) {
            Ok(v) => v,
            Err(e) => {
                return Err(e);
            },
        };
        proof {
            assert(views_of(result@)[1] == result@[1]@);
        }
        if result.len() >= 2 {
            Ok(result[1].as_string()?.clone())
        } else {
            Err(NanonisError::Protocol(
                "Invalid calc signal name response".to_string(),
            ))
        }
    }

    pub fn user_out_calc_signal_config_set(
        &mut self,
        output_index: i32,
        config: CalcSignalConfig,
    ) -> (r: Result<(), NanonisError>)
        ensures
            sent(
                old(self).transcript(),
                final(self).transcript(),
                "UserOut.CalcSignalConfigSet"@,
                seq![ValV::I32(output_index), ValV::U16(config.signal_1), ValV::U16(config.operation.wire()), ValV::U16(config.signal_2)],
                seq![TypeCode::I32, TypeCode::U16, TypeCode::U16, TypeCode::U16],
                Seq::empty(),
            ),
            match r {
                Ok(()) => final(self).transcript().last().response == Some(Seq::<ValV>::empty()),
                Err(e) => final(self).transcript().last().response is None && transport_err(e),
            },
    {
        let args: Vec<NanonisValue> = vec![NanonisValue::I32(output_index),
                NanonisValue::U16(config.signal_1),
                NanonisValue::U16(config.operation.as_u16()),
                NanonisValue::U16(config.signal_2),];
        let codes: Vec<TypeCode> = vec![TypeCode::I32, TypeCode::U16, TypeCode::U16, TypeCode::U16];
        proof {
            reveal_strlit("UserOut.CalcSignalConfigSet");
            vstd::utf8::is_ascii_chars_encode_utf8("UserOut.CalcSignalConfigSet"@);
            assert(views_of(args@) =~= seq![ValV::I32(output_index), ValV::U16(config.signal_1), ValV::U16(config.operation.wire()), ValV::U16(config.signal_2)]);
            assert(codes@ =~= seq![TypeCode::I32, TypeCode::U16, TypeCode::U16, TypeCode::U16]);
            lemma_scalar_frame(views_of(args@), codes@);
        }
        let rcodes: Vec<TypeCode> = vec![];
        proof {
            assert(rcodes@ =~= Seq::<TypeCode>::empty());
        }
        match self.quick_send("UserOut.CalcSignalConfigSet", args, codes, rcodes) {
            Ok(vs_) => {
                proof {
                    assert(views_of(vs_@) =~= Seq::<ValV>::empty());
                }
                Ok(())
            },
            Err(e) => Err(e),
        }
    }

    pub fn user_out_calc_signal_config_get(
        &mut self,
        output_index: i32,
    ) -> (r: Result<CalcSignalConfig, NanonisError>) {
        let result = self.quick_send(
            "UserOut.CalcSignalConfigGet",
            vec![NanonisValue::I32(output_index)],
            vec![TypeCode::I32],
            vec![TypeCode::U16, TypeCode::U16, TypeCode::U16],
        )?;
        if result.len() >= 3 {
            let signal_1 = result[0].as_u16()?;
            let operation = CalcOperation::from_u16(result[1].as_u16()?)?;
            let signal_2 = result[2].as_u16()?;
            Ok(CalcSignalConfig::new(signal_1, operation, signal_2))
        } else {
            Err(NanonisError::Protocol(
                "Invalid calc signal config response".to_string(),
            ))
        }
    }

}

} // verus!
