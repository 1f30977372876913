//! Oscillation-control synchronization commands.

use vstd::prelude::*;

use crate::client::{lemma_scalar_frame, sent, transport_err, NanonisClient};
use crate::codec::views_of;
use crate::codes::TypeCode;
use crate::error::NanonisError;
use crate::value::{NanonisValue, ValV};

verus! {

/// Whether a channel's angles are linked.
#[derive(Debug, Clone, Copy, PartialEq, Eq, Structural)]
pub enum LinkAnglesMode {
    /// No change to current setting
    NoChange,
    /// Link the angles
    Link,
    /// Unlink the angles
    Unlink,
}

impl LinkAnglesMode {
    /// The wire value of the selector.
    pub open spec fn wire(self) -> u32 {
        match self {
            LinkAnglesMode::NoChange => 0,
            LinkAnglesMode::Link => 1,
            LinkAnglesMode::Unlink => 2,
        }
    }

    /// The wire value of the selector.
    pub fn as_u32(self) -> (r: u32)
        ensures
            r == self.wire(),
    {
        match self {
            LinkAnglesMode::NoChange => 0,
            LinkAnglesMode::Link => 1,
            LinkAnglesMode::Unlink => 2,
        }
    }
}

#[derive(Debug, Clone, Copy, PartialEq, Eq, Structural)]
pub struct OCSyncLinkStatus {
    /// Channel 1 link status (true = linked)
    pub ch1_linked: bool,
    /// Channel 2 link status (true = linked)
    pub ch2_linked: bool,
}


impl NanonisClient {
    pub fn oc_sync_link_angles_set(
        &mut self,
        ch1_mode: LinkAnglesMode,
        ch2_mode: LinkAnglesMode,
    ) -> (r: Result<(), NanonisError>)
        ensures
            sent(
                old(self).transcript(),
                final(self).transcript(),
                "OCSync.LinkAnglesSet"@,
                seq![ValV::U32(ch1_mode.wire()), ValV::U32(ch2_mode.wire())],
                seq![TypeCode::U32, TypeCode::U32],
                Seq::empty(),
            ),
            match r {
                Ok(()) => final(self).transcript().last().response == Some(Seq::<ValV>::empty()),
                Err(e) => final(self).transcript().last().response is None && transport_err(e),
            },
    {
        let args: Vec<NanonisValue> = vec![NanonisValue::U32(ch1_mode.as_u32()),
                NanonisValue::U32(ch2_mode.as_u32()),];
        let codes: Vec<TypeCode> = vec![TypeCode::U32, TypeCode::U32];
        proof {
            reveal_strlit("OCSync.LinkAnglesSet");
            vstd::utf8::is_ascii_chars_encode_utf8("OCSync.LinkAnglesSet"@);
            assert(views_of(args@) =~= seq![ValV::U32(ch1_mode.wire()), ValV::U32(ch2_mode.wire())]);
            assert(codes@ =~= seq![TypeCode::U32, TypeCode::U32]);
            lemma_scalar_frame(views_of(args@), codes@);
        }
        let rcodes: Vec<TypeCode> = vec![];
        proof {
            assert(rcodes@ =~= Seq::<TypeCode>::empty());
        }
        match self.quick_send("OCSync.LinkAnglesSet", args, codes, rcodes) {
            Ok(vs_) => {
                proof {
                    assert(views_of(vs_@) =~= Seq::<ValV>::empty());
                }
                Ok(())
            },
            Err(e) => Err(e),
        }
    }

    pub fn oc_sync_link_angles_get(&mut self) -> (r: Result<OCSyncLinkStatus, NanonisError>) {
        let result = self.quick_send("OCSync.LinkAnglesGet", vec![], vec![], vec![TypeCode::U32, TypeCode::U32])?;

        Ok(OCSyncLinkStatus {
            ch1_linked: result[0].as_u32()? != 0,
            ch2_linked: result[1].as_u32()? != 0,
        })
    }

}

} // verus!
