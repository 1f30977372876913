//! Atom Tracking commands.

use vstd::prelude::*;

use crate::client::{lemma_scalar_frame, sent, transport_err, NanonisClient};
use crate::codec::views_of;
use crate::codes::TypeCode;
use crate::error::NanonisError;
use crate::value::{NanonisValue, ValV};

verus! {

/// Atom Tracking control type.
#[derive(Debug, Clone, Copy, PartialEq, Eq, Structural)]
pub enum ATControl {
    /// Modulation control
    Modulation,
    /// Controller
    Controller,
    /// Drift measurement
    DriftMeasurement,
}

impl ATControl {
    /// The wire value of the control selector.
    pub fn as_u16(self) -> (r: u16)
        ensures
            r == self.wire(),
    {
        match self {
            ATControl::Modulation => 0,
            ATControl::Controller => 1,
            ATControl::DriftMeasurement => 2,
        }
    }

    /// The wire value of the control selector.
    pub open spec fn wire(self) -> u16 {
        match self {
            ATControl::Modulation => 0,
            ATControl::Controller => 1,
            ATControl::DriftMeasurement => 2,
        }
    }
}

/// Quick compensation type.
#[derive(Debug, Clone, Copy, PartialEq, Eq, Structural)]
pub enum QuickCompType {
    /// Tilt compensation
    Tilt,
    /// Drift compensation
    Drift,
}

impl QuickCompType {
    /// The wire value of the compensation selector.
    pub fn as_u16(self) -> (r: u16)
        ensures
            r == self.wire(),
    {
        match self {
            QuickCompType::Tilt => 0,
            QuickCompType::Drift => 1,
        }
    }

    /// The wire value of the compensation selector.
    pub open spec fn wire(self) -> u16 {
        match self {
            QuickCompType::Tilt => 0,
            QuickCompType::Drift => 1,
        }
    }
}

impl NanonisClient {
    /// Turn the selected Atom Tracking control on or off.
    pub fn atom_track_ctrl_set(&mut self, control: ATControl, enabled: bool) -> (r: Result<
        (),
        NanonisError,
    >)
        ensures
            sent(
                old(self).transcript(),
                final(self).transcript(),
                "AtomTrack.CtrlSet"@,
                seq![
                    ValV::U16(control.wire()),
                    ValV::U16(
                        if enabled {
                            1u16
                        } else {
                            0u16
                        },
                    ),
                ],
                seq![TypeCode::U16, TypeCode::U16],
                Seq::empty(),
            ),
            match r {
                Ok(()) => final(self).transcript().last().response == Some(Seq::<ValV>::empty()),
                Err(e) => final(self).transcript().last().response is None && transport_err(e),
            },
    {
        let status: u16 = if enabled {
            1
        } else {
            0
        };
        let args = vec![NanonisValue::U16(control.as_u16()), NanonisValue::U16(status)];
        let codes = vec![TypeCode::U16, TypeCode::U16];
        proof {
            reveal_strlit("AtomTrack.CtrlSet");
            vstd::utf8::is_ascii_chars_encode_utf8("AtomTrack.CtrlSet"@);
            assert(views_of(args@) =~= seq![
                ValV::U16(control.wire()),
                ValV::U16(
                    if enabled {
                        1u16
                    } else {
                        0u16
                    },
                ),
            ]);
            assert(codes@ =~= seq![TypeCode::U16, TypeCode::U16]);
            lemma_scalar_frame(views_of(args@), codes@);
        }
        let rcodes: Vec<TypeCode> = vec![];
        proof {
            assert(rcodes@ =~= Seq::<TypeCode>::empty());
        }
        match self.quick_send("AtomTrack.CtrlSet", args, codes, rcodes) {
            Ok(vs_) => {
                proof {
                    assert(views_of(vs_@) =~= Seq::<ValV>::empty());
                }
                Ok(())
            },
            Err(e) => Err(e),
        }
    }

    /// Get the status of the selected Atom Tracking control.
    pub fn atom_track_status_get(&mut self, control: ATControl) -> (r: Result<bool, NanonisError>)
        ensures
            sent(
                old(self).transcript(),
                final(self).transcript(),
                "AtomTrack.StatusGet"@,
                seq![ValV::U16(control.wire())],
                seq![TypeCode::U16],
                seq![TypeCode::U16],
            ),
            match r {
                Ok(on) => final(self).transcript().last().response matches Some(vals)
                    && vals.len() == 1 && on == (vals[0]->U16_0 != 0),
                Err(e) => final(self).transcript().last().response is None && transport_err(e),
            },
    {
        let args = vec![NanonisValue::U16(control.as_u16())];
        let codes = vec![TypeCode::U16];
        proof {
            reveal_strlit("AtomTrack.StatusGet");
            vstd::utf8::is_ascii_chars_encode_utf8("AtomTrack.StatusGet"@);
            assert(views_of(args@) =~= seq![ValV::U16(control.wire())]);
            assert(codes@ =~= seq![TypeCode::U16]);
            lemma_scalar_frame(views_of(args@), codes@);
        }
        let rcodes: Vec<TypeCode> = vec![TypeCode::U16];
        proof {
            assert(rcodes@ =~= seq![TypeCode::U16]);
        }
        let result = match self.quick_send("AtomTrack.StatusGet", args, codes, rcodes) {
            Ok(v) => v,
            Err(e) => {
                return Err(e);
            },
        };
        proof {
            assert(views_of(result@)[0] == result@[0]@);
        }
        if result.len() >= 1 {
            Ok(result[0].as_u16()? != 0)
        } else {
            Err(NanonisError::Protocol("invalid response".to_string()))
        }
    }

    /// Start the tilt or drift compensation.
    pub fn atom_track_quick_comp_start(&mut self, comp_type: QuickCompType) -> (r: Result<
        (),
        NanonisError,
    >)
        ensures
            sent(
                old(self).transcript(),
                final(self).transcript(),
                "AtomTrack.QuickCompStart"@,
                seq![ValV::U16(comp_type.wire())],
                seq![TypeCode::U16],
                Seq::empty(),
            ),
            match r {
                Ok(()) => final(self).transcript().last().response == Some(Seq::<ValV>::empty()),
                Err(e) => final(self).transcript().last().response is None && transport_err(e),
            },
    {
        let args = vec![NanonisValue::U16(comp_type.as_u16())];
        let codes = vec![TypeCode::U16];
        proof {
            reveal_strlit("AtomTrack.QuickCompStart");
            vstd::utf8::is_ascii_chars_encode_utf8("AtomTrack.QuickCompStart"@);
            assert(views_of(args@) =~= seq![ValV::U16(comp_type.wire())]);
            assert(codes@ =~= seq![TypeCode::U16]);
            lemma_scalar_frame(views_of(args@), codes@);
        }
        let rcodes: Vec<TypeCode> = vec![];
        proof {
            assert(rcodes@ =~= Seq::<TypeCode>::empty());
        }
        match self.quick_send("AtomTrack.QuickCompStart", args, codes, rcodes) {
            Ok(vs_) => {
                proof {
                    assert(views_of(vs_@) =~= Seq::<ValV>::empty());
                }
                Ok(())
            },
            Err(e) => Err(e),
        }
    }

    /// Apply the drift measurement to the drift compensation and turn the
    /// compensation on.
    pub fn atom_track_drift_comp(&mut self) -> (r: Result<(), NanonisError>)
        ensures
            sent(
                old(self).transcript(),
                final(self).transcript(),
                "AtomTrack.DriftComp"@,
                Seq::empty(),
                Seq::empty(),
                Seq::empty(),
            ),
            match r {
                Ok(()) => final(self).transcript().last().response == Some(Seq::<ValV>::empty()),
                Err(e) => final(self).transcript().last().response is None && transport_err(e),
            },
    {
        let args: Vec<NanonisValue> = vec![];
        let codes: Vec<TypeCode> = vec![];
        proof {
            reveal_strlit("AtomTrack.DriftComp");
            vstd::utf8::is_ascii_chars_encode_utf8("AtomTrack.DriftComp"@);
            assert(views_of(args@) =~= Seq::<ValV>::empty());
            assert(codes@ =~= Seq::<TypeCode>::empty());
            lemma_scalar_frame(views_of(args@), codes@);
        }
        let rcodes: Vec<TypeCode> = vec![];
        proof {
            assert(rcodes@ =~= Seq::<TypeCode>::empty());
        }
        match self.quick_send("AtomTrack.DriftComp", args, codes, rcodes) {
            Ok(vs_) => {
                proof {
                    assert(views_of(vs_@) =~= Seq::<ValV>::empty());
                }
                Ok(())
            },
            Err(e) => Err(e),
        }
    }
}

} // verus!
