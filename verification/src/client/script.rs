//! Script execution and script-buffer commands.

use vstd::prelude::*;

use crate::client::{lemma_scalar_frame, sent, transport_err, NanonisClient};
use crate::codec::views_of;
use crate::codes::TypeCode;
use crate::error::NanonisError;
use crate::value::{NanonisValue, ValV};

verus! {

/// Which script acquisition buffer a command addresses.
#[derive(Debug, Clone, Copy, PartialEq, Eq, Structural)]
pub enum AcquireBuffer {
    /// Both buffers, for autosave
    Both,
    /// Acquisition buffer 1
    Buffer1,
    /// Acquisition buffer 2
    Buffer2,
}

impl AcquireBuffer {
    /// The wire value of the selector.
    pub open spec fn wire(self) -> u16 {
        match self {
            AcquireBuffer::Both => 0,
            AcquireBuffer::Buffer1 => 1,
            AcquireBuffer::Buffer2 => 2,
        }
    }

    /// The wire value of the selector.
    pub fn as_u16(self) -> (r: u16)
        ensures
            r == self.wire(),
    {
        match self {
            AcquireBuffer::Both => 0,
            AcquireBuffer::Buffer1 => 1,
            AcquireBuffer::Buffer2 => 2,
        }
    }
}

impl NanonisClient {
    pub fn script_open(&mut self) -> (r: Result<(), NanonisError>)
        ensures
            sent(
                old(self).transcript(),
                final(self).transcript(),
                "Script.Open"@,
                Seq::empty(),
                Seq::empty(),
                Seq::empty(),
            ),
            match r {
                Ok(()) => final(self).transcript().last().response == Some(Seq::<ValV>::empty()),
                Err(e) => final(self).transcript().last().response is None && transport_err(e),
            },
    {
        let args: Vec<NanonisValue> = vec![];
        let codes: Vec<TypeCode> = vec![];
        proof {
            reveal_strlit("Script.Open");
            vstd::utf8::is_ascii_chars_encode_utf8("Script.Open"@);
            assert(views_of(args@) =~= Seq::<ValV>::empty());
            assert(codes@ =~= Seq::<TypeCode>::empty());
            lemma_scalar_frame(views_of(args@), codes@);
        }
        let rcodes: Vec<TypeCode> = vec![];
        proof {
            assert(rcodes@ =~= Seq::<TypeCode>::empty());
        }
        match self.quick_send("Script.Open", args, codes, rcodes) {
            Ok(vs_) => {
                proof {
                    assert(views_of(vs_@) =~= Seq::<ValV>::empty());
                }
                Ok(())
            },
            Err(e) => Err(e),
        }
    }

    pub fn script_load(
        &mut self,
        script_index: i32,
        file_path: &str,
        load_session: bool,
    ) -> (r: Result<(), NanonisError>)
        ensures
            ({
                let req_args = seq![ValV::I32(script_index), ValV::Str(file_path@), ValV::U32(if load_session { 1 } else { 0 })];
                let req_codes = seq![TypeCode::I32, TypeCode::Str, TypeCode::U32];
                &&& crate::client::frame_ok("Script.Load"@, req_args, req_codes) ==> sent(
                    old(self).transcript(),
                    final(self).transcript(),
                    "Script.Load"@,
                    req_args,
                    req_codes,
                    Seq::empty(),
                ) && (match r {
                    Ok(()) => final(self).transcript().last().response == Some(
                        Seq::<ValV>::empty(),
                    ),
                    Err(e) => final(self).transcript().last().response is None && transport_err(
                        e,
                    ),
                })
                &&& !crate::client::frame_ok("Script.Load"@, req_args, req_codes) ==> final(self).transcript()
                    == old(self).transcript() && (r matches Err(e) && (e is InvalidInput
                    || e is Protocol))
            }),
    {
        let args: Vec<NanonisValue> = vec![NanonisValue::I32(script_index), NanonisValue::String(file_path.to_owned()), NanonisValue::U32(if load_session { 1 } else { 0 })];
        let codes: Vec<TypeCode> = vec![TypeCode::I32, TypeCode::Str, TypeCode::U32];
        proof {
            reveal_strlit("Script.Load");
            vstd::utf8::is_ascii_chars_encode_utf8("Script.Load"@);
            assert(views_of(args@) =~= seq![ValV::I32(script_index), ValV::Str(file_path@), ValV::U32(if load_session { 1 } else { 0 })]);
            assert(codes@ =~= seq![TypeCode::I32, TypeCode::Str, TypeCode::U32]);
        }
        let rcodes: Vec<TypeCode> = vec![];
        proof {
            assert(rcodes@ =~= Seq::<TypeCode>::empty());
        }
        match self.quick_send("Script.Load", args, codes, rcodes) {
            Ok(vs_) => {
                proof {
                    assert(views_of(vs_@) =~= Seq::<ValV>::empty());
                }
                Ok(())
            },
            Err(e) => Err(e),
        }
    }

    pub fn script_save(
        &mut self,
        script_index: i32,
        file_path: &str,
        save_session: bool,
    ) -> (r: Result<(), NanonisError>)
        ensures
            ({
                let req_args = seq![ValV::I32(script_index), ValV::Str(file_path@), ValV::U32(if save_session { 1 } else { 0 })];
                let req_codes = seq![TypeCode::I32, TypeCode::Str, TypeCode::U32];
                &&& crate::client::frame_ok("Script.Save"@, req_args, req_codes) ==> sent(
                    old(self).transcript(),
                    final(self).transcript(),
                    "Script.Save"@,
                    req_args,
                    req_codes,
                    Seq::empty(),
                ) && (match r {
                    Ok(()) => final(self).transcript().last().response == Some(
                        Seq::<ValV>::empty(),
                    ),
                    Err(e) => final(self).transcript().last().response is None && transport_err(
                        e,
                    ),
                })
                &&& !crate::client::frame_ok("Script.Save"@, req_args, req_codes) ==> final(self).transcript()
                    == old(self).transcript() && (r matches Err(e) && (e is InvalidInput
                    || e is Protocol))
            }),
    {
        let args: Vec<NanonisValue> = vec![NanonisValue::I32(script_index), NanonisValue::String(file_path.to_owned()), NanonisValue::U32(if save_session { 1 } else { 0 })];
        let codes: Vec<TypeCode> = vec![TypeCode::I32, TypeCode::Str, TypeCode::U32];
        proof {
            reveal_strlit("Script.Save");
            vstd::utf8::is_ascii_chars_encode_utf8("Script.Save"@);
            assert(views_of(args@) =~= seq![ValV::I32(script_index), ValV::Str(file_path@), ValV::U32(if save_session { 1 } else { 0 })]);
            assert(codes@ =~= seq![TypeCode::I32, TypeCode::Str, TypeCode::U32]);
        }
        let rcodes: Vec<TypeCode> = vec![];
        proof {
            assert(rcodes@ =~= Seq::<TypeCode>::empty());
        }
        match self.quick_send("Script.Save", args, codes, rcodes) {
            Ok(vs_) => {
                proof {
                    assert(views_of(vs_@) =~= Seq::<ValV>::empty());
                }
                Ok(())
            },
            Err(e) => Err(e),
        }
    }

    pub fn script_deploy(&mut self, script_index: i32) -> (r: Result<(), NanonisError>)
        ensures
            sent(
                old(self).transcript(),
                final(self).transcript(),
                "Script.Deploy"@,
                seq![ValV::I32(script_index)],
                seq![TypeCode::I32],
                Seq::empty(),
            ),
            match r {
                Ok(()) => final(self).transcript().last().response == Some(Seq::<ValV>::empty()),
                Err(e) => final(self).transcript().last().response is None && transport_err(e),
            },
    {
        let args: Vec<NanonisValue> = vec![NanonisValue::I32(script_index)];
        let codes: Vec<TypeCode> = vec![TypeCode::I32];
        proof {
            reveal_strlit("Script.Deploy");
            vstd::utf8::is_ascii_chars_encode_utf8("Script.Deploy"@);
            assert(views_of(args@) =~= seq![ValV::I32(script_index)]);
            assert(codes@ =~= seq![TypeCode::I32]);
            lemma_scalar_frame(views_of(args@), codes@);
        }
        let rcodes: Vec<TypeCode> = vec![];
        proof {
            assert(rcodes@ =~= Seq::<TypeCode>::empty());
        }
        match self.quick_send("Script.Deploy", args, codes, rcodes) {
            Ok(vs_) => {
                proof {
                    assert(views_of(vs_@) =~= Seq::<ValV>::empty());
                }
                Ok(())
            },
            Err(e) => Err(e),
        }
    }

    pub fn script_undeploy(&mut self, script_index: i32) -> (r: Result<(), NanonisError>)
        ensures
            sent(
                old(self).transcript(),
                final(self).transcript(),
                "Script.Undeploy"@,
                seq![ValV::I32(script_index)],
                seq![TypeCode::I32],
                Seq::empty(),
            ),
            match r {
                Ok(()) => final(self).transcript().last().response == Some(Seq::<ValV>::empty()),
                Err(e) => final(self).transcript().last().response is None && transport_err(e),
            },
    {
        let args: Vec<NanonisValue> = vec![NanonisValue::I32(script_index)];
        let codes: Vec<TypeCode> = vec![TypeCode::I32];
        proof {
            reveal_strlit("Script.Undeploy");
            vstd::utf8::is_ascii_chars_encode_utf8("Script.Undeploy"@);
            assert(views_of(args@) =~= seq![ValV::I32(script_index)]);
            assert(codes@ =~= seq![TypeCode::I32]);
            lemma_scalar_frame(views_of(args@), codes@);
        }
        let rcodes: Vec<TypeCode> = vec![];
        proof {
            assert(rcodes@ =~= Seq::<TypeCode>::empty());
        }
        match self.quick_send("Script.Undeploy", args, codes, rcodes) {
            Ok(vs_) => {
                proof {
                    assert(views_of(vs_@) =~= Seq::<ValV>::empty());
                }
                Ok(())
            },
            Err(e) => Err(e),
        }
    }

    pub fn script_run(&mut self, script_index: i32, wait: bool) -> (r: Result<(), NanonisError>)
        ensures
            sent(
                old(self).transcript(),
                final(self).transcript(),
                "Script.Run"@,
                seq![ValV::I32(script_index), ValV::U32(if wait { 1 } else { 0 })],
                seq![TypeCode::I32, TypeCode::U32],
                Seq::empty(),
            ),
            match r {
                Ok(()) => final(self).transcript().last().response == Some(Seq::<ValV>::empty()),
                Err(e) => final(self).transcript().last().response is None && transport_err(e),
            },
    {
        let args: Vec<NanonisValue> = vec![NanonisValue::I32(script_index),
                NanonisValue::U32(if wait { 1 } else { 0 }),];
        let codes: Vec<TypeCode> = vec![TypeCode::I32, TypeCode::U32];
        proof {
            reveal_strlit("Script.Run");
            vstd::utf8::is_ascii_chars_encode_utf8("Script.Run"@);
            assert(views_of(args@) =~= seq![ValV::I32(script_index), ValV::U32(if wait { 1 } else { 0 })]);
            assert(codes@ =~= seq![TypeCode::I32, TypeCode::U32]);
            lemma_scalar_frame(views_of(args@), codes@);
        }
        let rcodes: Vec<TypeCode> = vec![];
        proof {
            assert(rcodes@ =~= Seq::<TypeCode>::empty());
        }
        match self.quick_send("Script.Run", args, codes, rcodes) {
            Ok(vs_) => {
                proof {
                    assert(views_of(vs_@) =~= Seq::<ValV>::empty());
                }
                Ok(())
            },
            Err(e) => Err(e),
        }
    }

    pub fn script_stop(&mut self) -> (r: Result<(), NanonisError>)
        ensures
            sent(
                old(self).transcript(),
                final(self).transcript(),
                "Script.Stop"@,
                Seq::empty(),
                Seq::empty(),
                Seq::empty(),
            ),
            match r {
                Ok(()) => final(self).transcript().last().response == Some(Seq::<ValV>::empty()),
                Err(e) => final(self).transcript().last().response is None && transport_err(e),
            },
    {
        let args: Vec<NanonisValue> = vec![];
        let codes: Vec<TypeCode> = vec![];
        proof {
            reveal_strlit("Script.Stop");
            vstd::utf8::is_ascii_chars_encode_utf8("Script.Stop"@);
            assert(views_of(args@) =~= Seq::<ValV>::empty());
            assert(codes@ =~= Seq::<TypeCode>::empty());
            lemma_scalar_frame(views_of(args@), codes@);
        }
        let rcodes: Vec<TypeCode> = vec![];
        proof {
            assert(rcodes@ =~= Seq::<TypeCode>::empty());
        }
        match self.quick_send("Script.Stop", args, codes, rcodes) {
            Ok(vs_) => {
                proof {
                    assert(views_of(vs_@) =~= Seq::<ValV>::empty());
                }
                Ok(())
            },
            Err(e) => Err(e),
        }
    }

    pub fn script_chs_get(&mut self, buffer: AcquireBuffer) -> (r: Result<Vec<i32>, NanonisError>) {
        let result = self.quick_send(
            "Script.ChsGet",
            vec![NanonisValue::U16(buffer.as_u16())],
            vec![TypeCode::U16],
            vec![TypeCode::I32, TypeCode::ArrI32Prev],
        )?;

        Ok(result[1].as_i32_array()?.clone())
    }

    pub fn script_chs_set(
        &mut self,
        buffer: AcquireBuffer,
        channel_indexes: &Vec<i32>,
    ) -> (r: Result<(), NanonisError>)
        ensures
            ({
                let req_args = seq![ValV::U16(buffer.wire()), ValV::ArrI32(channel_indexes@)];
                let req_codes = seq![TypeCode::U16, TypeCode::ArrI32];
                &&& crate::client::frame_ok("Script.ChsSet"@, req_args, req_codes) ==> sent(
                    old(self).transcript(),
                    final(self).transcript(),
                    "Script.ChsSet"@,
                    req_args,
                    req_codes,
                    Seq::empty(),
                ) && (match r {
                    Ok(()) => final(self).transcript().last().response == Some(
                        Seq::<ValV>::empty(),
                    ),
                    Err(e) => final(self).transcript().last().response is None && transport_err(
                        e,
                    ),
                })
                &&& !crate::client::frame_ok("Script.ChsSet"@, req_args, req_codes) ==> final(self).transcript()
                    == old(self).transcript() && (r matches Err(e) && (e is InvalidInput
                    || e is Protocol))
            }),
    {
        let args: Vec<NanonisValue> = vec![NanonisValue::U16(buffer.as_u16()), NanonisValue::ArrayI32(channel_indexes.clone())];
        let codes: Vec<TypeCode> = vec![TypeCode::U16, TypeCode::ArrI32];
        proof {
            reveal_strlit("Script.ChsSet");
            vstd::utf8::is_ascii_chars_encode_utf8("Script.ChsSet"@);
            assert(views_of(args@) =~= seq![ValV::U16(buffer.wire()), ValV::ArrI32(channel_indexes@)]);
            assert(codes@ =~= seq![TypeCode::U16, TypeCode::ArrI32]);
        }
        let rcodes: Vec<TypeCode> = vec![];
        proof {
            assert(rcodes@ =~= Seq::<TypeCode>::empty());
        }
        match self.quick_send("Script.ChsSet", args, codes, rcodes) {
            Ok(vs_) => {
                proof {
                    assert(views_of(vs_@) =~= Seq::<ValV>::empty());
                }
                Ok(())
            },
            Err(e) => Err(e),
        }
    }

    pub fn script_autosave(
        &mut self,
        buffer: AcquireBuffer,
        sweep_number: i32,
        all_sweeps_to_same_file: bool,
        folder_path: &str,
        basename: &str,
    ) -> (r: Result<(), NanonisError>)
        ensures
            ({
                let req_args = seq![ValV::U16(buffer.wire()), ValV::I32(sweep_number), ValV::U32(if all_sweeps_to_same_file { 1 } else { 0 }), ValV::Str(folder_path@), ValV::Str(basename@)];
                let req_codes = seq![TypeCode::U16, TypeCode::I32, TypeCode::U32, TypeCode::Str, TypeCode::Str];
                &&& crate::client::frame_ok("Script.Autosave"@, req_args, req_codes) ==> sent(
                    old(self).transcript(),
                    final(self).transcript(),
                    "Script.Autosave"@,
                    req_args,
                    req_codes,
                    Seq::empty(),
                ) && (match r {
                    Ok(()) => final(self).transcript().last().response == Some(
                        Seq::<ValV>::empty(),
                    ),
                    Err(e) => final(self).transcript().last().response is None && transport_err(
                        e,
                    ),
                })
                &&& !crate::client::frame_ok("Script.Autosave"@, req_args, req_codes) ==> final(self).transcript()
                    == old(self).transcript() && (r matches Err(e) && (e is InvalidInput
                    || e is Protocol))
            }),
    {
        let args: Vec<NanonisValue> = vec![NanonisValue::U16(buffer.as_u16()), NanonisValue::I32(sweep_number), NanonisValue::U32(if all_sweeps_to_same_file { 1 } else { 0 }), NanonisValue::String(folder_path.to_owned()), NanonisValue::String(basename.to_owned())];
        let codes: Vec<TypeCode> = vec![TypeCode::U16, TypeCode::I32, TypeCode::U32, TypeCode::Str, TypeCode::Str];
        proof {
            reveal_strlit("Script.Autosave");
            vstd::utf8::is_ascii_chars_encode_utf8("Script.Autosave"@);
            assert(views_of(args@) =~= seq![ValV::U16(buffer.wire()), ValV::I32(sweep_number), ValV::U32(if all_sweeps_to_same_file { 1 } else { 0 }), ValV::Str(folder_path@), ValV::Str(basename@)]);
            assert(codes@ =~= seq![TypeCode::U16, TypeCode::I32, TypeCode::U32, TypeCode::Str, TypeCode::Str]);
        }
        let rcodes: Vec<TypeCode> = vec![];
        proof {
            assert(rcodes@ =~= Seq::<TypeCode>::empty());
        }
        match self.quick_send("Script.Autosave", args, codes, rcodes) {
            Ok(vs_) => {
                proof {
                    assert(views_of(vs_@) =~= Seq::<ValV>::empty());
                }
                Ok(())
            },
            Err(e) => Err(e),
        }
    }

    pub fn script_lut_open(&mut self) -> (r: Result<(), NanonisError>)
        ensures
            sent(
                old(self).transcript(),
                final(self).transcript(),
                "Script.LUTOpen"@,
                Seq::empty(),
                Seq::empty(),
                Seq::empty(),
            ),
            match r {
                Ok(()) => final(self).transcript().last().response == Some(Seq::<ValV>::empty()),
                Err(e) => final(self).transcript().last().response is None && transport_err(e),
            },
    {
        let args: Vec<NanonisValue> = vec![];
        let codes: Vec<TypeCode> = vec![];
        proof {
            reveal_strlit("Script.LUTOpen");
            vstd::utf8::is_ascii_chars_encode_utf8("Script.LUTOpen"@);
            assert(views_of(args@) =~= Seq::<ValV>::empty());
            assert(codes@ =~= Seq::<TypeCode>::empty());
            lemma_scalar_frame(views_of(args@), codes@);
        }
        let rcodes: Vec<TypeCode> = vec![];
        proof {
            assert(rcodes@ =~= Seq::<TypeCode>::empty());
        }
        match self.quick_send("Script.LUTOpen", args, codes, rcodes) {
            Ok(vs_) => {
                proof {
                    assert(views_of(vs_@) =~= Seq::<ValV>::empty());
                }
                Ok(())
            },
            Err(e) => Err(e),
        }
    }

    pub fn script_lut_save(&mut self, lut_index: i32, file_path: &str) -> (r: Result<(), NanonisError>)
        ensures
            ({
                let req_args = seq![ValV::I32(lut_index), ValV::Str(file_path@)];
                let req_codes = seq![TypeCode::I32, TypeCode::Str];
                &&& crate::client::frame_ok("Script.LUTSave"@, req_args, req_codes) ==> sent(
                    old(self).transcript(),
                    final(self).transcript(),
                    "Script.LUTSave"@,
                    req_args,
                    req_codes,
                    Seq::empty(),
                ) && (match r {
                    Ok(()) => final(self).transcript().last().response == Some(
                        Seq::<ValV>::empty(),
                    ),
                    Err(e) => final(self).transcript().last().response is None && transport_err(
                        e,
                    ),
                })
                &&& !crate::client::frame_ok("Script.LUTSave"@, req_args, req_codes) ==> final(self).transcript()
                    == old(self).transcript() && (r matches Err(e) && (e is InvalidInput
                    || e is Protocol))
            }),
    {
        let args: Vec<NanonisValue> = vec![NanonisValue::I32(lut_index), NanonisValue::String(file_path.to_owned())];
        let codes: Vec<TypeCode> = vec![TypeCode::I32, TypeCode::Str];
        proof {
            reveal_strlit("Script.LUTSave");
            vstd::utf8::is_ascii_chars_encode_utf8("Script.LUTSave"@);
            assert(views_of(args@) =~= seq![ValV::I32(lut_index), ValV::Str(file_path@)]);
            assert(codes@ =~= seq![TypeCode::I32, TypeCode::Str]);
        }
        let rcodes: Vec<TypeCode> = vec![];
        proof {
            assert(rcodes@ =~= Seq::<TypeCode>::empty());
        }
        match self.quick_send("Script.LUTSave", args, codes, rcodes) {
            Ok(vs_) => {
                proof {
                    assert(views_of(vs_@) =~= Seq::<ValV>::empty());
                }
                Ok(())
            },
            Err(e) => Err(e),
        }
    }

    pub fn script_lut_deploy(
        &mut self,
        lut_index: i32,
        wait: bool,
        timeout_ms: i32,
    ) -> (r: Result<(), NanonisError>)
        ensures
            sent(
                old(self).transcript(),
                final(self).transcript(),
                "Script.LUTDeploy"@,
                seq![ValV::I32(lut_index), ValV::U32(if wait { 1 } else { 0 }), ValV::I32(timeout_ms)],
                seq![TypeCode::I32, TypeCode::U32, TypeCode::I32],
                Seq::empty(),
            ),
            match r {
                Ok(()) => final(self).transcript().last().response == Some(Seq::<ValV>::empty()),
                Err(e) => final(self).transcript().last().response is None && transport_err(e),
            },
    {
        let args: Vec<NanonisValue> = vec![NanonisValue::I32(lut_index),
                NanonisValue::U32(if wait { 1 } else { 0 }),
                NanonisValue::I32(timeout_ms),];
        let codes: Vec<TypeCode> = vec![TypeCode::I32, TypeCode::U32, TypeCode::I32];
        proof {
            reveal_strlit("Script.LUTDeploy");
            vstd::utf8::is_ascii_chars_encode_utf8("Script.LUTDeploy"@);
            assert(views_of(args@) =~= seq![ValV::I32(lut_index), ValV::U32(if wait { 1 } else { 0 }), ValV::I32(timeout_ms)]);
            assert(codes@ =~= seq![TypeCode::I32, TypeCode::U32, TypeCode::I32]);
            lemma_scalar_frame(views_of(args@), codes@);
        }
        let rcodes: Vec<TypeCode> = vec![];
        proof {
            assert(rcodes@ =~= Seq::<TypeCode>::empty());
        }
        match self.quick_send("Script.LUTDeploy", args, codes, rcodes) {
            Ok(vs_) => {
                proof {
                    assert(views_of(vs_@) =~= Seq::<ValV>::empty());
                }
                Ok(())
            },
            Err(e) => Err(e),
        }
    }

}

} // verus!
