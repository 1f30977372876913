//! Digital line commands.

use vstd::prelude::*;

use crate::client::{lemma_scalar_frame, sent, transport_err, NanonisClient};
use crate::codec::views_of;
use crate::codes::TypeCode;
use crate::error::NanonisError;
use crate::value::{NanonisValue, ValV};

verus! {

/// Which digital port a command addresses.
#[derive(Debug, Clone, Copy, PartialEq, Eq, Structural)]
pub enum DigitalPort {
    /// Port A
    PortA,
    /// Port B
    PortB,
    /// Port C
    PortC,
    /// Port D
    PortD,
}

impl DigitalPort {
    /// The wire value of the selector.
    pub open spec fn wire(self) -> u16 {
        match self {
            DigitalPort::PortA => 0,
            DigitalPort::PortB => 1,
            DigitalPort::PortC => 2,
            DigitalPort::PortD => 3,
        }
    }

    /// The wire value of the selector.
    pub fn as_u16(self) -> (r: u16)
        ensures
            r == self.wire(),
    {
        match self {
            DigitalPort::PortA => 0,
            DigitalPort::PortB => 1,
            DigitalPort::PortC => 2,
            DigitalPort::PortD => 3,
        }
    }
    /// The wire value of the selector, as the wider integer some commands
    /// take.
    pub fn as_u32(self) -> (r: u32)
        ensures
            r == self.wire() as u32,
    {
        match self {
            DigitalPort::PortA => 0,
            DigitalPort::PortB => 1,
            DigitalPort::PortC => 2,
            DigitalPort::PortD => 3,
        }
    }
}

/// The direction of a digital line.
#[derive(Debug, Clone, Copy, PartialEq, Eq, Structural)]
pub enum DigitalDirection {
    /// Input direction
    Input,
    /// Output direction
    Output,
}

impl DigitalDirection {
    /// The wire value of the selector.
    pub open spec fn wire(self) -> u32 {
        match self {
            DigitalDirection::Input => 0,
            DigitalDirection::Output => 1,
        }
    }

    /// The wire value of the selector.
    pub fn as_u32(self) -> (r: u32)
        ensures
            r == self.wire(),
    {
        match self {
            DigitalDirection::Input => 0,
            DigitalDirection::Output => 1,
        }
    }
}

/// The polarity of a digital line.
#[derive(Debug, Clone, Copy, PartialEq, Eq, Structural)]
pub enum DigitalPolarity {
    /// Low active
    LowActive,
    /// High active
    HighActive,
}

impl DigitalPolarity {
    /// The wire value of the selector.
    pub open spec fn wire(self) -> u32 {
        match self {
            DigitalPolarity::LowActive => 0,
            DigitalPolarity::HighActive => 1,
        }
    }

    /// The wire value of the selector.
    pub fn as_u32(self) -> (r: u32)
        ensures
            r == self.wire(),
    {
        match self {
            DigitalPolarity::LowActive => 0,
            DigitalPolarity::HighActive => 1,
        }
    }
}

#[derive(Debug, Clone, Copy, PartialEq, Eq, Structural)]
pub struct DigitalLineConfig {
    /// Digital line number (1-8)
    pub line: u32,
    /// Port selection
    pub port: DigitalPort,
    /// Line direction (input/output)
    pub direction: DigitalDirection,
    /// Line polarity
    pub polarity: DigitalPolarity,
}


impl NanonisClient {
    pub fn dig_lines_props_set(&mut self, config: &DigitalLineConfig) -> (r: Result<(), NanonisError>)
        ensures
            sent(
                old(self).transcript(),
                final(self).transcript(),
                "DigLines.PropsSet"@,
                seq![ValV::U32(config.line), ValV::U32(config.port.wire() as u32), ValV::U32(config.direction.wire()), ValV::U32(config.polarity.wire())],
                seq![TypeCode::U32, TypeCode::U32, TypeCode::U32, TypeCode::U32],
                Seq::empty(),
            ),
            match r {
                Ok(()) => final(self).transcript().last().response == Some(Seq::<ValV>::empty()),
                Err(e) => final(self).transcript().last().response is None && transport_err(e),
            },
    {
        let args: Vec<NanonisValue> = vec![NanonisValue::U32(config.line),
                NanonisValue::U32(config.port.as_u32()),
                NanonisValue::U32(config.direction.as_u32()),
                NanonisValue::U32(config.polarity.as_u32()),];
        let codes: Vec<TypeCode> = vec![TypeCode::U32, TypeCode::U32, TypeCode::U32, TypeCode::U32];
        proof {
            reveal_strlit("DigLines.PropsSet");
            vstd::utf8::is_ascii_chars_encode_utf8("DigLines.PropsSet"@);
            assert(views_of(args@) =~= seq![ValV::U32(config.line), ValV::U32(config.port.wire() as u32), ValV::U32(config.direction.wire()), ValV::U32(config.polarity.wire())]);
            assert(codes@ =~= seq![TypeCode::U32, TypeCode::U32, TypeCode::U32, TypeCode::U32]);
            lemma_scalar_frame(views_of(args@), codes@);
        }
        let rcodes: Vec<TypeCode> = vec![];
        proof {
            assert(rcodes@ =~= Seq::<TypeCode>::empty());
        }
        match self.quick_send("DigLines.PropsSet", args, codes, rcodes) {
            Ok(vs_) => {
                proof {
                    assert(views_of(vs_@) =~= Seq::<ValV>::empty());
                }
                Ok(())
            },
            Err(e) => Err(e),
        }
    }

    pub fn dig_lines_out_status_set(
        &mut self,
        port: DigitalPort,
        line: u32,
        active: bool,
    ) -> (r: Result<(), NanonisError>)
        ensures
            sent(
                old(self).transcript(),
                final(self).transcript(),
                "DigLines.OutStatusSet"@,
                seq![ValV::U32(port.wire() as u32), ValV::U32(line), ValV::U32((if active { 1u32 } else { 0u32 }))],
                seq![TypeCode::U32, TypeCode::U32, TypeCode::U32],
                Seq::empty(),
            ),
            match r {
                Ok(()) => final(self).transcript().last().response == Some(Seq::<ValV>::empty()),
                Err(e) => final(self).transcript().last().response is None && transport_err(e),
            },
    {

        let status = if active { 1u32 } else { 0u32 };
        let args: Vec<NanonisValue> = vec![NanonisValue::U32(port.as_u32()),
                NanonisValue::U32(line),
                NanonisValue::U32(status),];
        let codes: Vec<TypeCode> = vec![TypeCode::U32, TypeCode::U32, TypeCode::U32];
        proof {
            reveal_strlit("DigLines.OutStatusSet");
            vstd::utf8::is_ascii_chars_encode_utf8("DigLines.OutStatusSet"@);
            assert(views_of(args@) =~= seq![ValV::U32(port.wire() as u32), ValV::U32(line), ValV::U32((if active { 1u32 } else { 0u32 }))]);
            assert(codes@ =~= seq![TypeCode::U32, TypeCode::U32, TypeCode::U32]);
            lemma_scalar_frame(views_of(args@), codes@);
        }
        let rcodes: Vec<TypeCode> = vec![];
        proof {
            assert(rcodes@ =~= Seq::<TypeCode>::empty());
        }
        match self.quick_send("DigLines.OutStatusSet", args, codes, rcodes) {
            Ok(vs_) => {
                proof {
                    assert(views_of(vs_@) =~= Seq::<ValV>::empty());
                }
                Ok(())
            },
            Err(e) => Err(e),
        }
    }

    pub fn dig_lines_ttl_val_get(&mut self, port: DigitalPort) -> (r: Result<Vec<u32>, NanonisError>) {
        let result = self.quick_send(
            "DigLines.TTLValGet",
            vec![NanonisValue::U16(port.as_u16())],
            vec![TypeCode::U16],
            vec![TypeCode::I32, TypeCode::ArrU32Prev],
        )?;

        if result.len() >= 2 {
            Ok(result[1].as_u32_array()?.clone())
        } else {
            Err(NanonisError::Protocol("Invalid response".to_string()))
        }
    }

}

} // verus!
