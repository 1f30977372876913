//! Scan-mark commands.

use vstd::prelude::*;

use crate::client::{lemma_scalar_frame, sent, transport_err, NanonisClient};
use crate::codec::views_of;
use crate::codes::TypeCode;
use crate::error::NanonisError;
use crate::value::{NanonisValue, ValV};

verus! {

impl NanonisClient {
    pub fn marks_points_erase(&mut self, point_index: i32) -> (r: Result<(), NanonisError>)
        ensures
            sent(
                old(self).transcript(),
                final(self).transcript(),
                "Marks.PointsErase"@,
                seq![ValV::I32(point_index)],
                seq![TypeCode::I32],
                Seq::empty(),
            ),
            match r {
                Ok(()) => final(self).transcript().last().response == Some(Seq::<ValV>::empty()),
                Err(e) => final(self).transcript().last().response is None && transport_err(e),
            },
    {
        let args: Vec<NanonisValue> = vec![NanonisValue::I32(point_index)];
        let codes: Vec<TypeCode> = vec![TypeCode::I32];
        proof {
            reveal_strlit("Marks.PointsErase");
            vstd::utf8::is_ascii_chars_encode_utf8("Marks.PointsErase"@);
            assert(views_of(args@) =~= seq![ValV::I32(point_index)]);
            assert(codes@ =~= seq![TypeCode::I32]);
            lemma_scalar_frame(views_of(args@), codes@);
        }
        let rcodes: Vec<TypeCode> = vec![];
        proof {
            assert(rcodes@ =~= Seq::<TypeCode>::empty());
        }
        match self.quick_send("Marks.PointsErase", args, codes, rcodes) {
            Ok(vs_) => {
                proof {
                    assert(views_of(vs_@) =~= Seq::<ValV>::empty());
                }
                Ok(())
            },
            Err(e) => Err(e),
        }
    }

    pub fn marks_lines_erase(&mut self, line_index: i32) -> (r: Result<(), NanonisError>)
        ensures
            sent(
                old(self).transcript(),
                final(self).transcript(),
                "Marks.LinesErase"@,
                seq![ValV::I32(line_index)],
                seq![TypeCode::I32],
                Seq::empty(),
            ),
            match r {
                Ok(()) => final(self).transcript().last().response == Some(Seq::<ValV>::empty()),
                Err(e) => final(self).transcript().last().response is None && transport_err(e),
            },
    {
        let args: Vec<NanonisValue> = vec![NanonisValue::I32(line_index)];
        let codes: Vec<TypeCode> = vec![TypeCode::I32];
        proof {
            reveal_strlit("Marks.LinesErase");
            vstd::utf8::is_ascii_chars_encode_utf8("Marks.LinesErase"@);
            assert(views_of(args@) =~= seq![ValV::I32(line_index)]);
            assert(codes@ =~= seq![TypeCode::I32]);
            lemma_scalar_frame(views_of(args@), codes@);
        }
        let rcodes: Vec<TypeCode> = vec![];
        proof {
            assert(rcodes@ =~= Seq::<TypeCode>::empty());
        }
        match self.quick_send("Marks.LinesErase", args, codes, rcodes) {
            Ok(vs_) => {
                proof {
                    assert(views_of(vs_@) =~= Seq::<ValV>::empty());
                }
                Ok(())
            },
            Err(e) => Err(e),
        }
    }

    pub fn marks_points_visible_set(
        &mut self,
        point_index: i32,
        visible: bool,
    ) -> (r: Result<(), NanonisError>)
        ensures
            sent(
                old(self).transcript(),
                final(self).transcript(),
                "Marks.PointsVisibleSet"@,
                seq![ValV::I32(point_index), ValV::U16((if visible { 0u16 } else { 1u16 }))],
                seq![TypeCode::I32, TypeCode::U16],
                Seq::empty(),
            ),
            match r {
                Ok(()) => final(self).transcript().last().response == Some(Seq::<ValV>::empty()),
                Err(e) => final(self).transcript().last().response is None && transport_err(e),
            },
    {

        // Note: 0 = visible, 1 = invisible in the protocol
        let flag = if visible { 0u16 } else { 1u16 };
        let args: Vec<NanonisValue> = vec![NanonisValue::I32(point_index), NanonisValue::U16(flag)];
        let codes: Vec<TypeCode> = vec![TypeCode::I32, TypeCode::U16];
        proof {
            reveal_strlit("Marks.PointsVisibleSet");
            vstd::utf8::is_ascii_chars_encode_utf8("Marks.PointsVisibleSet"@);
            assert(views_of(args@) =~= seq![ValV::I32(point_index), ValV::U16((if visible { 0u16 } else { 1u16 }))]);
            assert(codes@ =~= seq![TypeCode::I32, TypeCode::U16]);
            lemma_scalar_frame(views_of(args@), codes@);
        }
        let rcodes: Vec<TypeCode> = vec![];
        proof {
            assert(rcodes@ =~= Seq::<TypeCode>::empty());
        }
        match self.quick_send("Marks.PointsVisibleSet", args, codes, rcodes) {
            Ok(vs_) => {
                proof {
                    assert(views_of(vs_@) =~= Seq::<ValV>::empty());
                }
                Ok(())
            },
            Err(e) => Err(e),
        }
    }

    pub fn marks_lines_visible_set(
        &mut self,
        line_index: i32,
        visible: bool,
    ) -> (r: Result<(), NanonisError>)
        ensures
            sent(
                old(self).transcript(),
                final(self).transcript(),
                "Marks.LinesVisibleSet"@,
                seq![ValV::I32(line_index), ValV::U16((if visible { 0u16 } else { 1u16 }))],
                seq![TypeCode::I32, TypeCode::U16],
                Seq::empty(),
            ),
            match r {
                Ok(()) => final(self).transcript().last().response == Some(Seq::<ValV>::empty()),
                Err(e) => final(self).transcript().last().response is None && transport_err(e),
            },
    {

        // Note: 0 = visible, 1 = invisible in the protocol
        let flag = if visible { 0u16 } else { 1u16 };
        let args: Vec<NanonisValue> = vec![NanonisValue::I32(line_index), NanonisValue::U16(flag)];
        let codes: Vec<TypeCode> = vec![TypeCode::I32, TypeCode::U16];
        proof {
            reveal_strlit("Marks.LinesVisibleSet");
            vstd::utf8::is_ascii_chars_encode_utf8("Marks.LinesVisibleSet"@);
            assert(views_of(args@) =~= seq![ValV::I32(line_index), ValV::U16((if visible { 0u16 } else { 1u16 }))]);
            assert(codes@ =~= seq![TypeCode::I32, TypeCode::U16]);
            lemma_scalar_frame(views_of(args@), codes@);
        }
        let rcodes: Vec<TypeCode> = vec![];
        proof {
            assert(rcodes@ =~= Seq::<TypeCode>::empty());
        }
        match self.quick_send("Marks.LinesVisibleSet", args, codes, rcodes) {
            Ok(vs_) => {
                proof {
                    assert(views_of(vs_@) =~= Seq::<ValV>::empty());
                }
                Ok(())
            },
            Err(e) => Err(e),
        }
    }

}

} // verus!
