//! Z spectroscopy commands.

use vstd::prelude::*;

use crate::client::{lemma_scalar_frame, sent, transport_err, NanonisClient};
use crate::codec::views_of;
use crate::codes::TypeCode;
use crate::error::NanonisError;
use crate::value::{NanonisValue, ValV};

verus! {

impl NanonisClient {
    pub fn z_spectr_open(&mut self) -> (r: Result<(), NanonisError>)
        ensures
            sent(
                old(self).transcript(),
                final(self).transcript(),
                "ZSpectr.Open"@,
                Seq::empty(),
                Seq::empty(),
                Seq::empty(),
            ),
            match r {
                Ok(()) => final(self).transcript().last().response == Some(Seq::<ValV>::empty()),
                Err(e) => final(self).transcript().last().response is None && transport_err(e),
            },
    {
        let args: Vec<NanonisValue> = vec![];
        let codes: Vec<TypeCode> = vec![];
        proof {
            reveal_strlit("ZSpectr.Open");
            vstd::utf8::is_ascii_chars_encode_utf8("ZSpectr.Open"@);
            assert(views_of(args@) =~= Seq::<ValV>::empty());
            assert(codes@ =~= Seq::<TypeCode>::empty());
            lemma_scalar_frame(views_of(args@), codes@);
        }
        let rcodes: Vec<TypeCode> = vec![];
        proof {
            assert(rcodes@ =~= Seq::<TypeCode>::empty());
        }
        match self.quick_send("ZSpectr.Open", args, codes, rcodes) {
            Ok(vs_) => {
                proof {
                    assert(views_of(vs_@) =~= Seq::<ValV>::empty());
                }
                Ok(())
            },
            Err(e) => Err(e),
        }
    }

    pub fn z_spectr_stop(&mut self) -> (r: Result<(), NanonisError>)
        ensures
            sent(
                old(self).transcript(),
                final(self).transcript(),
                "ZSpectr.Stop"@,
                Seq::empty(),
                Seq::empty(),
                Seq::empty(),
            ),
            match r {
                Ok(()) => final(self).transcript().last().response == Some(Seq::<ValV>::empty()),
                Err(e) => final(self).transcript().last().response is None && transport_err(e),
            },
    {
        let args: Vec<NanonisValue> = vec![];
        let codes: Vec<TypeCode> = vec![];
        proof {
            reveal_strlit("ZSpectr.Stop");
            vstd::utf8::is_ascii_chars_encode_utf8("ZSpectr.Stop"@);
            assert(views_of(args@) =~= Seq::<ValV>::empty());
            assert(codes@ =~= Seq::<TypeCode>::empty());
            lemma_scalar_frame(views_of(args@), codes@);
        }
        let rcodes: Vec<TypeCode> = vec![];
        proof {
            assert(rcodes@ =~= Seq::<TypeCode>::empty());
        }
        match self.quick_send("ZSpectr.Stop", args, codes, rcodes) {
            Ok(vs_) => {
                proof {
                    assert(views_of(vs_@) =~= Seq::<ValV>::empty());
                }
                Ok(())
            },
            Err(e) => Err(e),
        }
    }

    pub fn z_spectr_status_get(&mut self) -> (r: Result<bool, NanonisError>)
        ensures
            sent(
                old(self).transcript(),
                final(self).transcript(),
                "ZSpectr.StatusGet"@,
                Seq::empty(),
                Seq::empty(),
                seq![TypeCode::U32],
            ),
            match r {
                Ok(v) => final(self).transcript().last().response matches Some(vals)
                    && vals.len() == 1 && v == (vals[0]->U32_0 == 1),
                Err(e) => final(self).transcript().last().response is None && transport_err(e),
            },
    {
        let args: Vec<NanonisValue> = vec![];
        let codes: Vec<TypeCode> = vec![];
        proof {
            reveal_strlit("ZSpectr.StatusGet");
            vstd::utf8::is_ascii_chars_encode_utf8("ZSpectr.StatusGet"@);
            assert(views_of(args@) =~= Seq::<ValV>::empty());
            assert(codes@ =~= Seq::<TypeCode>::empty());
            lemma_scalar_frame(views_of(args@), codes@);
        }
        let rcodes: Vec<TypeCode> = vec![TypeCode::U32];
        proof {
            assert(rcodes@ =~= seq![TypeCode::U32]);
        }
        let result = match self.quick_send("ZSpectr.StatusGet", args, codes, rcodes) {
            Ok(v) => v,
            Err(e) => {
                return Err(e);
            },
        };
        proof {
            assert(views_of(result@)[0] == result@[0]@);
        }
        if result.len() >= 1 {
            let value = &result[0];
            Ok(value.as_u32()? == 1)
        } else {
            Err(NanonisError::Protocol(
                "No Z spectroscopy status returned".to_string(),
            ))
        }
    }

    pub fn z_spectr_chs_set(
        &mut self,
        channel_indexes: Vec<i32>,
    ) -> (r: Result<(), NanonisError>)
        ensures
            ({
                let req_args = seq![ValV::ArrI32(channel_indexes@)];
                let req_codes = seq![TypeCode::ArrI32];
                &&& crate::client::frame_ok("ZSpectr.ChsSet"@, req_args, req_codes) ==> sent(
                    old(self).transcript(),
                    final(self).transcript(),
                    "ZSpectr.ChsSet"@,
                    req_args,
                    req_codes,
                    Seq::empty(),
                ) && (match r {
                    Ok(()) => final(self).transcript().last().response == Some(
                        Seq::<ValV>::empty(),
                    ),
                    Err(e) => final(self).transcript().last().response is None && transport_err(
                        e,
                    ),
                })
                &&& !crate::client::frame_ok("ZSpectr.ChsSet"@, req_args, req_codes) ==> final(self).transcript()
                    == old(self).transcript() && (r matches Err(e) && (e is InvalidInput
                    || e is Protocol))
            }),
    {
        let args: Vec<NanonisValue> = vec![NanonisValue::ArrayI32(channel_indexes)];
        let codes: Vec<TypeCode> = vec![TypeCode::ArrI32];
        proof {
            reveal_strlit("ZSpectr.ChsSet");
            vstd::utf8::is_ascii_chars_encode_utf8("ZSpectr.ChsSet"@);
            assert(views_of(args@) =~= seq![ValV::ArrI32(channel_indexes@)]);
            assert(codes@ =~= seq![TypeCode::ArrI32]);
        }
        let rcodes: Vec<TypeCode> = vec![];
        proof {
            assert(rcodes@ =~= Seq::<TypeCode>::empty());
        }
        match self.quick_send("ZSpectr.ChsSet", args, codes, rcodes) {
            Ok(vs_) => {
                proof {
                    assert(views_of(vs_@) =~= Seq::<ValV>::empty());
                }
                Ok(())
            },
            Err(e) => Err(e),
        }
    }

    pub fn z_spectr_chs_get(
        &mut self,
    ) -> (r: Result<(Vec<i32>, Vec<String>), NanonisError>) {
        let result = self.quick_send(
            "ZSpectr.ChsGet",
            vec![],
            vec![],
            vec![TypeCode::I32, TypeCode::ArrI32Prev, TypeCode::I32, TypeCode::I32, TypeCode::StrArrayPrev],
        )?;

        if result.len() >= 5 {
            let channel_indexes = result[1].as_i32_array()?.clone();
            let channel_names = result[4].as_string_array()?.clone();
            Ok((channel_indexes, channel_names))
        } else {
            Err(NanonisError::Protocol(
                "Invalid Z spectroscopy channels response".to_string(),
            ))
        }
    }

    pub fn z_spectr_props_set(
        &mut self,
        backward_sweep: u16,
        num_points: i32,
        num_sweeps: u16,
        autosave: u16,
        show_save_dialog: u16,
        save_all: u16,
    ) -> (r: Result<(), NanonisError>)
        ensures
            sent(
                old(self).transcript(),
                final(self).transcript(),
                "ZSpectr.PropsSet"@,
                seq![ValV::U16(backward_sweep), ValV::I32(num_points), ValV::U16(num_sweeps), ValV::U16(autosave), ValV::U16(show_save_dialog), ValV::U16(save_all)],
                seq![TypeCode::U16, TypeCode::I32, TypeCode::U16, TypeCode::U16, TypeCode::U16, TypeCode::U16],
                Seq::empty(),
            ),
            match r {
                Ok(()) => final(self).transcript().last().response == Some(Seq::<ValV>::empty()),
                Err(e) => final(self).transcript().last().response is None && transport_err(e),
            },
    {
        let args: Vec<NanonisValue> = vec![NanonisValue::U16(backward_sweep),
                NanonisValue::I32(num_points),
                NanonisValue::U16(num_sweeps),
                NanonisValue::U16(autosave),
                NanonisValue::U16(show_save_dialog),
                NanonisValue::U16(save_all),];
        let codes: Vec<TypeCode> = vec![TypeCode::U16, TypeCode::I32, TypeCode::U16, TypeCode::U16, TypeCode::U16, TypeCode::U16];
        proof {
            reveal_strlit("ZSpectr.PropsSet");
            vstd::utf8::is_ascii_chars_encode_utf8("ZSpectr.PropsSet"@);
            assert(views_of(args@) =~= seq![ValV::U16(backward_sweep), ValV::I32(num_points), ValV::U16(num_sweeps), ValV::U16(autosave), ValV::U16(show_save_dialog), ValV::U16(save_all)]);
            assert(codes@ =~= seq![TypeCode::U16, TypeCode::I32, TypeCode::U16, TypeCode::U16, TypeCode::U16, TypeCode::U16]);
            lemma_scalar_frame(views_of(args@), codes@);
        }
        let rcodes: Vec<TypeCode> = vec![];
        proof {
            assert(rcodes@ =~= Seq::<TypeCode>::empty());
        }
        match self.quick_send("ZSpectr.PropsSet", args, codes, rcodes) {
            Ok(vs_) => {
                proof {
                    assert(views_of(vs_@) =~= Seq::<ValV>::empty());
                }
                Ok(())
            },
            Err(e) => Err(e),
        }
    }

    pub fn z_spectr_props_get(
        &mut self,
    ) -> (r: Result<(bool, i32, u16, bool, bool, bool), NanonisError>)
        ensures
            sent(
                old(self).transcript(),
                final(self).transcript(),
                "ZSpectr.PropsGet"@,
                Seq::empty(),
                Seq::empty(),
                seq![TypeCode::U16, TypeCode::I32, TypeCode::U16, TypeCode::U32, TypeCode::U32, TypeCode::U32],
            ),
            match r {
                Ok(v) => final(self).transcript().last().response matches Some(vals)
                    && vals.len() == 6 && v.0 == (vals[0]->U16_0 != 0)
                    && v.1 == vals[1]->I32_0
                    && v.2 == vals[2]->U16_0
                    && v.3 == (vals[3]->U32_0 != 0)
                    && v.4 == (vals[4]->U32_0 != 0)
                    && v.5 == (vals[5]->U32_0 != 0),
                Err(e) => final(self).transcript().last().response is None && transport_err(e),
            },
    {
        let args: Vec<NanonisValue> = vec![];
        let codes: Vec<TypeCode> = vec![];
        proof {
            reveal_strlit("ZSpectr.PropsGet");
            vstd::utf8::is_ascii_chars_encode_utf8("ZSpectr.PropsGet"@);
            assert(views_of(args@) =~= Seq::<ValV>::empty());
            assert(codes@ =~= Seq::<TypeCode>::empty());
            lemma_scalar_frame(views_of(args@), codes@);
        }
        let rcodes: Vec<TypeCode> = vec![TypeCode::U16, TypeCode::I32, TypeCode::U16, TypeCode::U32, TypeCode::U32, TypeCode::U32];
        proof {
            assert(rcodes@ =~= seq![TypeCode::U16, TypeCode::I32, TypeCode::U16, TypeCode::U32, TypeCode::U32, TypeCode::U32]);
        }
        let result = match self.quick_send("ZSpectr.PropsGet", args, codes, rcodes) {
            Ok(v) => v,
            Err(e) => {
                return Err(e);
            },
        };
        proof {
            assert(views_of(result@)[0] == result@[0]@);
            assert(views_of(result@)[1] == result@[1]@);
            assert(views_of(result@)[2] == result@[2]@);
            assert(views_of(result@)[3] == result@[3]@);
            assert(views_of(result@)[4] == result@[4]@);
            assert(views_of(result@)[5] == result@[5]@);
        }
        if result.len() >= 6 {
            Ok((
                result[0].as_u16()? != 0,
                result[1].as_i32()?,
                result[2].as_u16()?,
                result[3].as_u32()? != 0,
                result[4].as_u32()? != 0,
                result[5].as_u32()? != 0,
            ))
        } else {
            Err(NanonisError::Protocol(
                "Invalid Z spectroscopy props response".to_string(),
            ))
        }
    }

    pub fn z_spectr_dig_sync_set(&mut self, dig_sync: u16) -> (r: Result<(), NanonisError>)
        ensures
            sent(
                old(self).transcript(),
                final(self).transcript(),
                "ZSpectr.DigSyncSet"@,
                seq![ValV::U16(dig_sync)],
                seq![TypeCode::U16],
                Seq::empty(),
            ),
            match r {
                Ok(()) => final(self).transcript().last().response == Some(Seq::<ValV>::empty()),
                Err(e) => final(self).transcript().last().response is None && transport_err(e),
            },
    {
        let args: Vec<NanonisValue> = vec![NanonisValue::U16(dig_sync)];
        let codes: Vec<TypeCode> = vec![TypeCode::U16];
        proof {
            reveal_strlit("ZSpectr.DigSyncSet");
            vstd::utf8::is_ascii_chars_encode_utf8("ZSpectr.DigSyncSet"@);
            assert(views_of(args@) =~= seq![ValV::U16(dig_sync)]);
            assert(codes@ =~= seq![TypeCode::U16]);
            lemma_scalar_frame(views_of(args@), codes@);
        }
        let rcodes: Vec<TypeCode> = vec![];
        proof {
            assert(rcodes@ =~= Seq::<TypeCode>::empty());
        }
        match self.quick_send("ZSpectr.DigSyncSet", args, codes, rcodes) {
            Ok(vs_) => {
                proof {
                    assert(views_of(vs_@) =~= Seq::<ValV>::empty());
                }
                Ok(())
            },
            Err(e) => Err(e),
        }
    }

    pub fn z_spectr_dig_sync_get(&mut self) -> (r: Result<u16, NanonisError>)
        ensures
            sent(
                old(self).transcript(),
                final(self).transcript(),
                "ZSpectr.DigSyncGet"@,
                Seq::empty(),
                Seq::empty(),
                seq![TypeCode::U16],
            ),
            match r {
                Ok(v) => final(self).transcript().last().response matches Some(vals)
                    && vals.len() == 1 && v == vals[0]->U16_0,
                Err(e) => final(self).transcript().last().response is None && transport_err(e),
            },
    {
        let args: Vec<NanonisValue> = vec![];
        let codes: Vec<TypeCode> = vec![];
        proof {
            reveal_strlit("ZSpectr.DigSyncGet");
            vstd::utf8::is_ascii_chars_encode_utf8("ZSpectr.DigSyncGet"@);
            assert(views_of(args@) =~= Seq::<ValV>::empty());
            assert(codes@ =~= Seq::<TypeCode>::empty());
            lemma_scalar_frame(views_of(args@), codes@);
        }
        let rcodes: Vec<TypeCode> = vec![TypeCode::U16];
        proof {
            assert(rcodes@ =~= seq![TypeCode::U16]);
        }
        let result = match self.quick_send("ZSpectr.DigSyncGet", args, codes, rcodes) {
            Ok(v) => v,
            Err(e) => {
                return Err(e);
            },
        };
        proof {
            assert(views_of(result@)[0] == result@[0]@);
        }
        result[0].as_u16()
    }

    pub fn z_spectr_pulse_seq_sync_set(
        &mut self,
        pulse_seq_nr: u16,
        num_periods: u32,
    ) -> (r: Result<(), NanonisError>)
        ensures
            sent(
                old(self).transcript(),
                final(self).transcript(),
                "ZSpectr.PulseSeqSyncSet"@,
                seq![ValV::U16(pulse_seq_nr), ValV::U32(num_periods)],
                seq![TypeCode::U16, TypeCode::U32],
                Seq::empty(),
            ),
            match r {
                Ok(()) => final(self).transcript().last().response == Some(Seq::<ValV>::empty()),
                Err(e) => final(self).transcript().last().response is None && transport_err(e),
            },
    {
        let args: Vec<NanonisValue> = vec![NanonisValue::U16(pulse_seq_nr),
                NanonisValue::U32(num_periods),];
        let codes: Vec<TypeCode> = vec![TypeCode::U16, TypeCode::U32];
        proof {
            reveal_strlit("ZSpectr.PulseSeqSyncSet");
            vstd::utf8::is_ascii_chars_encode_utf8("ZSpectr.PulseSeqSyncSet"@);
            assert(views_of(args@) =~= seq![ValV::U16(pulse_seq_nr), ValV::U32(num_periods)]);
            assert(codes@ =~= seq![TypeCode::U16, TypeCode::U32]);
            lemma_scalar_frame(views_of(args@), codes@);
        }
        let rcodes: Vec<TypeCode> = vec![];
        proof {
            assert(rcodes@ =~= Seq::<TypeCode>::empty());
        }
        match self.quick_send("ZSpectr.PulseSeqSyncSet", args, codes, rcodes) {
            Ok(vs_) => {
                proof {
                    assert(views_of(vs_@) =~= Seq::<ValV>::empty());
                }
                Ok(())
            },
            Err(e) => Err(e),
        }
    }

    pub fn z_spectr_pulse_seq_sync_get(&mut self) -> (r: Result<(u16, u32), NanonisError>)
        ensures
            sent(
                old(self).transcript(),
                final(self).transcript(),
                "ZSpectr.PulseSeqSyncGet"@,
                Seq::empty(),
                Seq::empty(),
                seq![TypeCode::U16, TypeCode::U32],
            ),
            match r {
                Ok(v) => final(self).transcript().last().response matches Some(vals)
                    && vals.len() == 2 && v.0 == vals[0]->U16_0 && v.1 == vals[1]->U32_0,
                Err(e) => final(self).transcript().last().response is None && transport_err(e),
            },
    {
        let args: Vec<NanonisValue> = vec![];
        let codes: Vec<TypeCode> = vec![];
        proof {
            reveal_strlit("ZSpectr.PulseSeqSyncGet");
            vstd::utf8::is_ascii_chars_encode_utf8("ZSpectr.PulseSeqSyncGet"@);
            assert(views_of(args@) =~= Seq::<ValV>::empty());
            assert(codes@ =~= Seq::<TypeCode>::empty());
            lemma_scalar_frame(views_of(args@), codes@);
        }
        let rcodes: Vec<TypeCode> = vec![TypeCode::U16, TypeCode::U32];
        proof {
            assert(rcodes@ =~= seq![TypeCode::U16, TypeCode::U32]);
        }
        let result = match self.quick_send("ZSpectr.PulseSeqSyncGet", args, codes, rcodes) {
            Ok(v) => v,
            Err(e) => {
                return Err(e);
            },
        };
        proof {
            assert(views_of(result@)[0] == result@[0]@);
            assert(views_of(result@)[1] == result@[1]@);
        }
        Ok((result[0].as_u16()?, result[1].as_u32()?))
    }

}

} // verus!
