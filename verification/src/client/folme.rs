//! Follow-me (tip positioning) commands.

use vstd::prelude::*;

use crate::client::{lemma_scalar_frame, sent, transport_err, NanonisClient};
use crate::codec::views_of;
use crate::codes::TypeCode;
use crate::error::NanonisError;
use crate::value::{NanonisValue, ValV};

verus! {

#[derive(Debug, Clone)]
pub struct FolMePSExperiment {
    /// Selected experiment index
    pub selected: u16,
    /// List of available experiments
    pub experiments: Vec<String>,
}

/// Whether a paused pattern experiment resumes after the move.
#[derive(Debug, Clone, Copy, PartialEq, Eq, Structural)]
pub enum PSAutoResume {
    /// No change to current setting
    NoChange,
    /// Resume the experiment after the move
    Resume,
    /// Leave the experiment paused
    DontResume,
}

impl PSAutoResume {
    /// The wire value of the selector.
    pub open spec fn wire(self) -> u16 {
        match self {
            PSAutoResume::NoChange => 0,
            PSAutoResume::Resume => 1,
            PSAutoResume::DontResume => 2,
        }
    }

    /// The wire value of the selector.
    pub fn as_u16(self) -> (r: u16)
        ensures
            r == self.wire(),
    {
        match self {
            PSAutoResume::NoChange => 0,
            PSAutoResume::Resume => 1,
            PSAutoResume::DontResume => 2,
        }
    }
}

/// Which base name a pattern experiment saves under.
#[derive(Debug, Clone, Copy, PartialEq, Eq, Structural)]
pub enum PSBasenameMode {
    /// No change to current setting
    NoChange,
    /// Save under the experiment base name
    UseExperimentBasename,
    /// Save under the pattern base name
    UsePSBasename,
}

impl PSBasenameMode {
    /// The wire value of the selector.
    pub open spec fn wire(self) -> u16 {
        match self {
            PSBasenameMode::NoChange => 0,
            PSBasenameMode::UseExperimentBasename => 1,
            PSBasenameMode::UsePSBasename => 2,
        }
    }

    /// The wire value of the selector.
    pub fn as_u16(self) -> (r: u16)
        ensures
            r == self.wire(),
    {
        match self {
            PSBasenameMode::NoChange => 0,
            PSBasenameMode::UseExperimentBasename => 1,
            PSBasenameMode::UsePSBasename => 2,
        }
    }
}


impl NanonisClient {
    pub fn folme_oversampl_set(&mut self, oversampling: i32) -> (r: Result<(), NanonisError>)
        ensures
            sent(
                old(self).transcript(),
                final(self).transcript(),
                "FolMe.OversamplSet"@,
                seq![ValV::I32(oversampling)],
                seq![TypeCode::I32],
                Seq::empty(),
            ),
            match r {
                Ok(()) => final(self).transcript().last().response == Some(Seq::<ValV>::empty()),
                Err(e) => final(self).transcript().last().response is None && transport_err(e),
            },
    {
        let args: Vec<NanonisValue> = vec![NanonisValue::I32(oversampling)];
        let codes: Vec<TypeCode> = vec![TypeCode::I32];
        proof {
            reveal_strlit("FolMe.OversamplSet");
            vstd::utf8::is_ascii_chars_encode_utf8("FolMe.OversamplSet"@);
            assert(views_of(args@) =~= seq![ValV::I32(oversampling)]);
            assert(codes@ =~= seq![TypeCode::I32]);
            lemma_scalar_frame(views_of(args@), codes@);
        }
        let rcodes: Vec<TypeCode> = vec![];
        proof {
            assert(rcodes@ =~= Seq::<TypeCode>::empty());
        }
        match self.quick_send("FolMe.OversamplSet", args, codes, rcodes) {
            Ok(vs_) => {
                proof {
                    assert(views_of(vs_@) =~= Seq::<ValV>::empty());
                }
                Ok(())
            },
            Err(e) => Err(e),
        }
    }

    pub fn folme_stop(&mut self) -> (r: Result<(), NanonisError>)
        ensures
            sent(
                old(self).transcript(),
                final(self).transcript(),
                "FolMe.Stop"@,
                Seq::empty(),
                Seq::empty(),
                Seq::empty(),
            ),
            match r {
                Ok(()) => final(self).transcript().last().response == Some(Seq::<ValV>::empty()),
                Err(e) => final(self).transcript().last().response is None && transport_err(e),
            },
    {
        let args: Vec<NanonisValue> = vec![];
        let codes: Vec<TypeCode> = vec![];
        proof {
            reveal_strlit("FolMe.Stop");
            vstd::utf8::is_ascii_chars_encode_utf8("FolMe.Stop"@);
            assert(views_of(args@) =~= Seq::<ValV>::empty());
            assert(codes@ =~= Seq::<TypeCode>::empty());
            lemma_scalar_frame(views_of(args@), codes@);
        }
        let rcodes: Vec<TypeCode> = vec![];
        proof {
            assert(rcodes@ =~= Seq::<TypeCode>::empty());
        }
        match self.quick_send("FolMe.Stop", args, codes, rcodes) {
            Ok(vs_) => {
                proof {
                    assert(views_of(vs_@) =~= Seq::<ValV>::empty());
                }
                Ok(())
            },
            Err(e) => Err(e),
        }
    }

    pub fn folme_ps_on_off_get(&mut self) -> (r: Result<bool, NanonisError>)
        ensures
            sent(
                old(self).transcript(),
                final(self).transcript(),
                "FolMe.PSOnOffGet"@,
                Seq::empty(),
                Seq::empty(),
                seq![TypeCode::U32],
            ),
            match r {
                Ok(v) => final(self).transcript().last().response matches Some(vals)
                    && vals.len() == 1 && v == (vals[0]->U32_0 != 0),
                Err(e) => final(self).transcript().last().response is None && transport_err(e),
            },
    {
        let args: Vec<NanonisValue> = vec![];
        let codes: Vec<TypeCode> = vec![];
        proof {
            reveal_strlit("FolMe.PSOnOffGet");
            vstd::utf8::is_ascii_chars_encode_utf8("FolMe.PSOnOffGet"@);
            assert(views_of(args@) =~= Seq::<ValV>::empty());
            assert(codes@ =~= Seq::<TypeCode>::empty());
            lemma_scalar_frame(views_of(args@), codes@);
        }
        let rcodes: Vec<TypeCode> = vec![TypeCode::U32];
        proof {
            assert(rcodes@ =~= seq![TypeCode::U32]);
        }
        let result = match self.quick_send("FolMe.PSOnOffGet", args, codes, rcodes) {
            Ok(v) => v,
            Err(e) => {
                return Err(e);
            },
        };
        proof {
            assert(views_of(result@)[0] == result@[0]@);
        }
        Ok(result[0].as_u32()? != 0)
    }

    pub fn folme_ps_on_off_set(&mut self, enabled: bool) -> (r: Result<(), NanonisError>)
        ensures
            sent(
                old(self).transcript(),
                final(self).transcript(),
                "FolMe.PSOnOffSet"@,
                seq![ValV::U32(if enabled { 1 } else { 0 })],
                seq![TypeCode::U32],
                Seq::empty(),
            ),
            match r {
                Ok(()) => final(self).transcript().last().response == Some(Seq::<ValV>::empty()),
                Err(e) => final(self).transcript().last().response is None && transport_err(e),
            },
    {
        let args: Vec<NanonisValue> = vec![NanonisValue::U32(if enabled { 1 } else { 0 })];
        let codes: Vec<TypeCode> = vec![TypeCode::U32];
        proof {
            reveal_strlit("FolMe.PSOnOffSet");
            vstd::utf8::is_ascii_chars_encode_utf8("FolMe.PSOnOffSet"@);
            assert(views_of(args@) =~= seq![ValV::U32(if enabled { 1 } else { 0 })]);
            assert(codes@ =~= seq![TypeCode::U32]);
            lemma_scalar_frame(views_of(args@), codes@);
        }
        let rcodes: Vec<TypeCode> = vec![];
        proof {
            assert(rcodes@ =~= Seq::<TypeCode>::empty());
        }
        match self.quick_send("FolMe.PSOnOffSet", args, codes, rcodes) {
            Ok(vs_) => {
                proof {
                    assert(views_of(vs_@) =~= Seq::<ValV>::empty());
                }
                Ok(())
            },
            Err(e) => Err(e),
        }
    }

    pub fn folme_ps_exp_get(&mut self) -> (r: Result<FolMePSExperiment, NanonisError>) {
        let result = self.quick_send(
            "FolMe.PSExpGet",
            vec![],
            vec![],
            vec![TypeCode::U16, TypeCode::I32, TypeCode::I32, TypeCode::StrArrayPrev],
        )?;

        Ok(FolMePSExperiment {
            selected: result[0].as_u16()?,
            experiments: result[3].as_string_array()?.clone(),
        })
    }

    pub fn folme_ps_exp_set(&mut self, experiment_index: u16) -> (r: Result<(), NanonisError>)
        ensures
            sent(
                old(self).transcript(),
                final(self).transcript(),
                "FolMe.PSExpSet"@,
                seq![ValV::U16(experiment_index)],
                seq![TypeCode::U16],
                Seq::empty(),
            ),
            match r {
                Ok(()) => final(self).transcript().last().response == Some(Seq::<ValV>::empty()),
                Err(e) => final(self).transcript().last().response is None && transport_err(e),
            },
    {
        let args: Vec<NanonisValue> = vec![NanonisValue::U16(experiment_index)];
        let codes: Vec<TypeCode> = vec![TypeCode::U16];
        proof {
            reveal_strlit("FolMe.PSExpSet");
            vstd::utf8::is_ascii_chars_encode_utf8("FolMe.PSExpSet"@);
            assert(views_of(args@) =~= seq![ValV::U16(experiment_index)]);
            assert(codes@ =~= seq![TypeCode::U16]);
            lemma_scalar_frame(views_of(args@), codes@);
        }
        let rcodes: Vec<TypeCode> = vec![];
        proof {
            assert(rcodes@ =~= Seq::<TypeCode>::empty());
        }
        match self.quick_send("FolMe.PSExpSet", args, codes, rcodes) {
            Ok(vs_) => {
                proof {
                    assert(views_of(vs_@) =~= Seq::<ValV>::empty());
                }
                Ok(())
            },
            Err(e) => Err(e),
        }
    }

}

} // verus!
