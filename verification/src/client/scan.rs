//! Scan module commands.

use vstd::prelude::*;

use crate::client::{lemma_scalar_frame, sent, transport_err, NanonisClient};
use crate::codec::views_of;
use crate::codes::TypeCode;
use crate::error::NanonisError;
use crate::types::{ScanAction, ScanDirection};
use crate::value::{NanonisValue, ValV};

verus! {

/// Which scans are saved automatically.
#[derive(Debug, Clone, Copy, PartialEq, Eq, Structural)]
pub enum AutosaveMode {
    /// Save all scans
    All,
    /// Save the next scan only
    Next,
    /// Save nothing
    Off,
}

impl AutosaveMode {
    /// The wire value of the selector.
    pub open spec fn wire(self) -> u32 {
        match self {
            AutosaveMode::All => 0,
            AutosaveMode::Next => 1,
            AutosaveMode::Off => 2,
        }
    }

    /// The wire value of the selector.
    pub fn as_u32(self) -> (r: u32)
        ensures
            r == self.wire(),
    {
        match self {
            AutosaveMode::All => 0,
            AutosaveMode::Next => 1,
            AutosaveMode::Off => 2,
        }
    }

    /// The selector a wire value names; out-of-range values are rejected.
    pub fn from_u32(value: u32) -> (r: Result<Self, NanonisError>)
        ensures
            match r {
                Ok(v) => v.wire() == value,
                Err(e) => value > 2 && e is InvalidInput,
            },
    {
        match value {
            0 => Ok(AutosaveMode::All),
            1 => Ok(AutosaveMode::Next),
            2 => Ok(AutosaveMode::Off),
            _ => Err(NanonisError::InvalidInput("value names no AutosaveMode variant".to_string())),
        }
    }
}

/// Which scans are pasted automatically.
#[derive(Debug, Clone, Copy, PartialEq, Eq, Structural)]
pub enum AutopasteMode {
    /// Paste all scans
    All,
    /// Paste the next scan only
    Next,
    /// Paste nothing
    Off,
}

impl AutopasteMode {
    /// The wire value of the selector.
    pub open spec fn wire(self) -> u32 {
        match self {
            AutopasteMode::All => 0,
            AutopasteMode::Next => 1,
            AutopasteMode::Off => 2,
        }
    }

    /// The wire value of the selector.
    pub fn as_u32(self) -> (r: u32)
        ensures
            r == self.wire(),
    {
        match self {
            AutopasteMode::All => 0,
            AutopasteMode::Next => 1,
            AutopasteMode::Off => 2,
        }
    }

    /// The selector a wire value names; out-of-range values are rejected.
    pub fn from_u32(value: u32) -> (r: Result<Self, NanonisError>)
        ensures
            match r {
                Ok(v) => v.wire() == value,
                Err(e) => value > 2 && e is InvalidInput,
            },
    {
        match value {
            0 => Ok(AutopasteMode::All),
            1 => Ok(AutopasteMode::Next),
            2 => Ok(AutopasteMode::Off),
            _ => Err(NanonisError::InvalidInput("value names no AutopasteMode variant".to_string())),
        }
    }
}

/// The scan-module properties, as currently configured.
#[derive(Debug, Clone)]
pub struct ScanProps {
    /// Whether scanning repeats continuously
    pub continuous_scan: bool,
    /// Whether the scan bounces up and down
    pub bouncy_scan: bool,
    /// Which scans are saved automatically
    pub autosave: AutosaveMode,
    /// The file series name
    pub series_name: String,
    /// The file comment
    pub comment: String,
    /// The modules whose parameters are saved
    pub modules_names: Vec<String>,
    /// How many parameters each module saves
    pub num_params_per_module: Vec<i32>,
    /// The saved parameter names, one row per module
    pub parameters: Vec<Vec<String>>,
    /// Which scans are pasted automatically
    pub autopaste: AutopasteMode,
}

impl ScanProps {
    /// A builder pre-filled with these properties, for changing a few of
    /// them.
    pub fn to_builder(&self) -> (r: ScanPropsBuilder) {
        ScanPropsBuilder {
            continuous_scan: Some(self.continuous_scan),
            bouncy_scan: Some(self.bouncy_scan),
            autosave: Some(self.autosave),
            series_name: Some(self.series_name.clone()),
            comment: Some(self.comment.clone()),
            modules_names: Some(self.modules_names.clone()),
            autopaste: Some(self.autopaste),
        }
    }
}

/// A partial update of the scan properties: `None` leaves a setting as it
/// is.
#[derive(Debug, Clone)]
pub struct ScanPropsBuilder {
    pub continuous_scan: Option<bool>,
    pub bouncy_scan: Option<bool>,
    pub autosave: Option<AutosaveMode>,
    pub series_name: Option<String>,
    pub comment: Option<String>,
    pub modules_names: Option<Vec<String>>,
    pub autopaste: Option<AutopasteMode>,
}

impl ScanPropsBuilder {
    /// A builder that changes nothing.
    pub fn new() -> (r: ScanPropsBuilder)
        ensures
            r.continuous_scan is None && r.bouncy_scan is None && r.autosave is None
                && r.series_name is None && r.comment is None && r.modules_names is None
                && r.autopaste is None,
    {
        ScanPropsBuilder {
            continuous_scan: None,
            bouncy_scan: None,
            autosave: None,
            series_name: None,
            comment: None,
            modules_names: None,
            autopaste: None,
        }
    }

    /// Set whether scanning repeats continuously.
    pub fn continuous_scan(self, value: bool) -> (r: Self)
        ensures
            r == (Self { continuous_scan: Some(value), ..self }),
    {
        Self { continuous_scan: Some(value), ..self }
    }

    /// Set whether the scan bounces up and down.
    pub fn bouncy_scan(self, value: bool) -> (r: Self)
        ensures
            r == (Self { bouncy_scan: Some(value), ..self }),
    {
        Self { bouncy_scan: Some(value), ..self }
    }

    /// Set which scans are saved automatically.
    pub fn autosave(self, mode: AutosaveMode) -> (r: Self)
        ensures
            r == (Self { autosave: Some(mode), ..self }),
    {
        Self { autosave: Some(mode), ..self }
    }

    /// Set the file series name.
    pub fn series_name(self, name: String) -> (r: Self)
        ensures
            r == (Self { series_name: Some(name), ..self }),
    {
        Self { series_name: Some(name), ..self }
    }

    /// Set the file comment.
    pub fn comment(self, comment: String) -> (r: Self)
        ensures
            r == (Self { comment: Some(comment), ..self }),
    {
        Self { comment: Some(comment), ..self }
    }

    /// Set the modules whose parameters are saved.
    pub fn modules_names(self, names: Vec<String>) -> (r: Self)
        ensures
            r == (Self { modules_names: Some(names), ..self }),
    {
        Self { modules_names: Some(names), ..self }
    }

    /// Set which scans are pasted automatically.
    pub fn autopaste(self, mode: AutopasteMode) -> (r: Self)
        ensures
            r == (Self { autopaste: Some(mode), ..self }),
    {
        Self { autopaste: Some(mode), ..self }
    }
}

impl NanonisClient {
    pub fn scan_action(
        &mut self,
        scan_action: ScanAction,
        scan_direction: ScanDirection,
    ) -> (r: Result<(), NanonisError>)
        ensures
            sent(
                old(self).transcript(),
                final(self).transcript(),
                "Scan.Action"@,
                seq![ValV::U16(scan_action.wire()), ValV::U32(scan_direction.wire())],
                seq![TypeCode::U16, TypeCode::U32],
                Seq::empty(),
            ),
            match r {
                Ok(()) => final(self).transcript().last().response == Some(Seq::<ValV>::empty()),
                Err(e) => final(self).transcript().last().response is None && transport_err(e),
            },
    {
        let args: Vec<NanonisValue> = vec![NanonisValue::U16(scan_action.as_u16()),
                NanonisValue::U32(scan_direction.as_u32()),];
        let codes: Vec<TypeCode> = vec![TypeCode::U16, TypeCode::U32];
        proof {
            reveal_strlit("Scan.Action");
            vstd::utf8::is_ascii_chars_encode_utf8("Scan.Action"@);
            assert(views_of(args@) =~= seq![ValV::U16(scan_action.wire()), ValV::U32(scan_direction.wire())]);
            assert(codes@ =~= seq![TypeCode::U16, TypeCode::U32]);
            lemma_scalar_frame(views_of(args@), codes@);
        }
        let rcodes: Vec<TypeCode> = vec![];
        proof {
            assert(rcodes@ =~= Seq::<TypeCode>::empty());
        }
        match self.quick_send("Scan.Action", args, codes, rcodes) {
            Ok(vs_) => {
                proof {
                    assert(views_of(vs_@) =~= Seq::<ValV>::empty());
                }
                Ok(())
            },
            Err(e) => Err(e),
        }
    }

    pub fn scan_buffer_get(&mut self) -> (r: Result<(Vec<i32>, i32, i32), NanonisError>) {
        let result =
            self.quick_send("Scan.BufferGet", vec![], vec![], vec![TypeCode::I32, TypeCode::ArrI32Prev, TypeCode::I32, TypeCode::I32])?;
        if result.len() >= 4 {
            let channel_indexes = result[1].as_i32_array()?.clone();
            let pixels = result[2].as_i32()?;
            let lines = result[3].as_i32()?;
            Ok((channel_indexes, pixels, lines))
        } else {
            Err(NanonisError::Protocol(
                "Invalid scan buffer response".to_string(),
            ))
        }
    }

    pub fn scan_status_get(&mut self) -> (r: Result<bool, NanonisError>)
        ensures
            sent(
                old(self).transcript(),
                final(self).transcript(),
                "Scan.StatusGet"@,
                Seq::empty(),
                Seq::empty(),
                seq![TypeCode::U32],
            ),
            match r {
                Ok(v) => final(self).transcript().last().response matches Some(vals)
                    && vals.len() == 1 && v == (vals[0]->U32_0 == 1),
                Err(e) => final(self).transcript().last().response is None && transport_err(e),
            },
    {
        let args: Vec<NanonisValue> = vec![];
        let codes: Vec<TypeCode> = vec![];
        proof {
            reveal_strlit("Scan.StatusGet");
            vstd::utf8::is_ascii_chars_encode_utf8("Scan.StatusGet"@);
            assert(views_of(args@) =~= Seq::<ValV>::empty());
            assert(codes@ =~= Seq::<TypeCode>::empty());
            lemma_scalar_frame(views_of(args@), codes@);
        }
        let rcodes: Vec<TypeCode> = vec![TypeCode::U32];
        proof {
            assert(rcodes@ =~= seq![TypeCode::U32]);
        }
        let result = match self.quick_send("Scan.StatusGet", args, codes, rcodes) {
            Ok(v) => v,
            Err(e) => {
                return Err(e);
            },
        };
        proof {
            assert(views_of(result@)[0] == result@[0]@);
        }
        if result.len() >= 1 {
            let value = &result[0];
            Ok(value.as_u32()? == 1)
        } else {
            Err(NanonisError::Protocol(
                "No scan status returned".to_string(),
            ))
        }
    }

    pub fn scan_buffer_set(
        &mut self,
        channel_indexes: Vec<i32>,
        pixels: i32,
        lines: i32,
    ) -> (r: Result<(), NanonisError>)
        ensures
            ({
                let req_args = seq![ValV::ArrI32(channel_indexes@), ValV::I32(pixels), ValV::I32(lines)];
                let req_codes = seq![TypeCode::ArrI32, TypeCode::I32, TypeCode::I32];
                &&& crate::client::frame_ok("Scan.BufferSet"@, req_args, req_codes) ==> sent(
                    old(self).transcript(),
                    final(self).transcript(),
                    "Scan.BufferSet"@,
                    req_args,
                    req_codes,
                    Seq::empty(),
                ) && (match r {
                    Ok(()) => final(self).transcript().last().response == Some(
                        Seq::<ValV>::empty(),
                    ),
                    Err(e) => final(self).transcript().last().response is None && transport_err(
                        e,
                    ),
                })
                &&& !crate::client::frame_ok("Scan.BufferSet"@, req_args, req_codes) ==> final(self).transcript()
                    == old(self).transcript() && (r matches Err(e) && (e is InvalidInput
                    || e is Protocol))
            }),
    {
        let args: Vec<NanonisValue> = vec![NanonisValue::ArrayI32(channel_indexes), NanonisValue::I32(pixels), NanonisValue::I32(lines)];
        let codes: Vec<TypeCode> = vec![TypeCode::ArrI32, TypeCode::I32, TypeCode::I32];
        proof {
            reveal_strlit("Scan.BufferSet");
            vstd::utf8::is_ascii_chars_encode_utf8("Scan.BufferSet"@);
            assert(views_of(args@) =~= seq![ValV::ArrI32(channel_indexes@), ValV::I32(pixels), ValV::I32(lines)]);
            assert(codes@ =~= seq![TypeCode::ArrI32, TypeCode::I32, TypeCode::I32]);
        }
        let rcodes: Vec<TypeCode> = vec![];
        proof {
            assert(rcodes@ =~= Seq::<TypeCode>::empty());
        }
        match self.quick_send("Scan.BufferSet", args, codes, rcodes) {
            Ok(vs_) => {
                proof {
                    assert(views_of(vs_@) =~= Seq::<ValV>::empty());
                }
                Ok(())
            },
            Err(e) => Err(e),
        }
    }

    pub fn scan_save(
        &mut self,
        wait_until_saved: bool,
        timeout_ms: i32,
    ) -> (r: Result<bool, NanonisError>)
        ensures
            sent(
                old(self).transcript(),
                final(self).transcript(),
                "Scan.Save"@,
                seq![ValV::U32((if wait_until_saved { 1u32 } else { 0u32 })), ValV::I32(timeout_ms)],
                seq![TypeCode::U32, TypeCode::I32],
                seq![TypeCode::U32],
            ),
            match r {
                Ok(v) => final(self).transcript().last().response matches Some(vals)
                    && vals.len() == 1 && v == (vals[0]->U32_0 == 1),
                Err(e) => final(self).transcript().last().response is None && transport_err(e),
            },
    {

        let wait_flag = if wait_until_saved { 1u32 } else { 0u32 };
        let args: Vec<NanonisValue> = vec![NanonisValue::U32(wait_flag), NanonisValue::I32(timeout_ms)];
        let codes: Vec<TypeCode> = vec![TypeCode::U32, TypeCode::I32];
        proof {
            reveal_strlit("Scan.Save");
            vstd::utf8::is_ascii_chars_encode_utf8("Scan.Save"@);
            assert(views_of(args@) =~= seq![ValV::U32((if wait_until_saved { 1u32 } else { 0u32 })), ValV::I32(timeout_ms)]);
            assert(codes@ =~= seq![TypeCode::U32, TypeCode::I32]);
            lemma_scalar_frame(views_of(args@), codes@);
        }
        let rcodes: Vec<TypeCode> = vec![TypeCode::U32];
        proof {
            assert(rcodes@ =~= seq![TypeCode::U32]);
        }
        let result = match self.quick_send("Scan.Save", args, codes, rcodes) {
            Ok(v) => v,
            Err(e) => {
                return Err(e);
            },
        };
        proof {
            assert(views_of(result@)[0] == result@[0]@);
        }
        if result.len() >= 1 {
            let value = &result[0];
            Ok(value.as_u32()? == 1)
        } else {
            Err(NanonisError::Protocol(
                "No save status returned".to_string(),
            ))
        }
    }

    pub fn scan_wait_end_of_scan(
        &mut self,
        timeout_ms: i32,
    ) -> (r: Result<(bool, String), NanonisError>) {
        let result = self.quick_send(
            "Scan.WaitEndOfScan",
            vec![NanonisValue::I32(timeout_ms)],
            vec![TypeCode::I32],
            vec![TypeCode::U32, TypeCode::U32, TypeCode::StrPrev],
        )?;

        if result.len() >= 3 {
            let timeout_occurred = result[0].as_u32()? == 1;
            let file_path = result[2].as_string()?.clone();
            Ok((timeout_occurred, file_path))
        } else {
            Err(NanonisError::Protocol(
                "Invalid scan wait response".to_string(),
            ))
        }
    }

    pub fn scan_props_get(&mut self) -> (r: Result<ScanProps, NanonisError>) {
        let result = self.quick_send(
            "Scan.PropsGet",
            vec![],
            vec![],
            vec![TypeCode::U32, TypeCode::U32, TypeCode::U32, TypeCode::I32, TypeCode::StrPrev, TypeCode::I32, TypeCode::StrPrev, TypeCode::I32, TypeCode::I32, TypeCode::StrArrayPrev, TypeCode::I32, TypeCode::ArrI32Prev, TypeCode::I32, TypeCode::I32, TypeCode::StrArrayPrev, TypeCode::U32],
        )?;

        if result.len() >= 16 {
            // Index 0: Continuous scan (0=Off, 1=On)
            let continuous_scan = result[0].as_u32()? == 1;

            // Index 1: Bouncy scan (0=Off, 1=On)
            let bouncy_scan = result[1].as_u32()? == 1;

            // Index 2: Autosave (0=All, 1=Next, 2=Off)
            let autosave = AutosaveMode::from_u32(result[2].as_u32()?)?;

            // Index 3: series_name size (i)
            // Index 4: series_name string (*-c)
            let series_name = result[4].as_string()?.clone();

            // Index 5: comment size (i)
            // Index 6: comment string (*-c)
            let comment = result[6].as_string()?.clone();

            // Index 7: modules_names size (i)
            // Index 8: modules_names count (i)
            // Index 9: modules_names array (*+c)
            let modules_names = result[9].as_string_array()?.clone();

            // Index 10: num_params_per_module array size (i)
            // Index 11: num_params_per_module array (*+i)
            let num_params_per_module = result[11].as_i32_array()?.clone();

            // Index 12: parameters rows (i)
            let rows = result[12].as_i32()?;
            // Index 13: parameters columns (i)
            let cols = result[13].as_i32()?;
            // Index 14: parameters 2D array (*+c)
            let params_flat = result[14].as_string_array()?;

            // regroup the flat parameter names into rows
            let total = params_flat.len();
            let rows_u: usize = if rows > 0 {
                rows as usize
            } else {
                0
            };
            let cols_u: usize = if cols > 0 {
                cols as usize
            } else {
                0
            };
            let mut parameters: Vec<Vec<String>> = Vec::new();
            let mut idx: usize = 0;
            let mut r_i: usize = 0;
            while r_i < rows_u
                invariant
                    idx <= total,
                    total == params_flat@.len(),
                decreases rows_u - r_i,
            {
                let mut row_params: Vec<String> = Vec::new();
                let mut c_i: usize = 0;
                while c_i < cols_u
                    invariant
                        idx <= total,
                        total == params_flat@.len(),
                    decreases cols_u - c_i,
                {
                    if idx < total {
                        row_params.push(params_flat[idx].clone());
                        idx = idx + 1;
                    }
                    c_i = c_i + 1;
                }
                parameters.push(row_params);
                r_i = r_i + 1;
            }

            // Index 15: Autopaste (0=All, 1=Next, 2=Off)
            let autopaste = AutopasteMode::from_u32(result[15].as_u32()?)?;

            Ok(ScanProps {
                continuous_scan,
                bouncy_scan,
                autosave,
                series_name,
                comment,
                modules_names,
                num_params_per_module,
                parameters,
                autopaste,
            })
        } else {
            Err(NanonisError::Protocol("Invalid scan props response".to_string()))
        }
    }

    pub fn scan_props_set(&mut self, builder: ScanPropsBuilder) -> (r: Result<(), NanonisError>) {
        // Convert boolean options to u32 (0=no change, 1=On, 2=Off)
        let continuous_flag = match builder.continuous_scan {
            None => 0u32,
            Some(true) => 1u32,
            Some(false) => 2u32,
        };

        let bouncy_flag = match builder.bouncy_scan {
            None => 0u32,
            Some(true) => 1u32,
            Some(false) => 2u32,
        };

        let autosave_flag = match builder.autosave {
            None => 0u32,
            Some(mode) => mode.as_u32(),
        };

        let autopaste_flag = match builder.autopaste {
            None => 0u32,
            Some(mode) => mode.as_u32(),
        };

        // For strings/arrays: empty string/array means no change
        let series_name = match builder.series_name {
            Some(s) => s,
            None => String::new(),
        };
        let comment = match builder.comment {
            Some(s) => s,
            None => String::new(),
        };
        let modules_names = match builder.modules_names {
            Some(v) => v,
            None => Vec::new(),
        };
        if modules_names.len() > 0x7FFF_FFFFusize {
            return Err(NanonisError::InvalidInput("too many module names".to_string()));
        }

        self.quick_send(
            "Scan.PropsSet",
            vec![
                NanonisValue::U32(continuous_flag),
                NanonisValue::U32(bouncy_flag),
                NanonisValue::U32(autosave_flag),
                NanonisValue::String(series_name),
                NanonisValue::String(comment),
                NanonisValue::I32(modules_names.len() as i32),
                NanonisValue::ArrayString(modules_names),
                NanonisValue::U32(autopaste_flag),
            ],
            vec![
                TypeCode::U32,
                TypeCode::U32,
                TypeCode::U32,
                TypeCode::Str,
                TypeCode::Str,
                TypeCode::I32,
                TypeCode::StrArrayPrev,
                TypeCode::U32,
            ],
            vec![],
        )?;

        Ok(())
    }

}

} // verus!
