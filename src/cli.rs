//! The run mode chosen on the command line.

use std::path::PathBuf;
use vstd::prelude::*;

use crate::text::{message_with_text, str_eq};

verus! {

#[verifier::external_type_specification]
#[verifier::external_body]
pub struct ExPathBuf(PathBuf);

/// The lower-case mapping of a string.
pub uninterp spec fn lower_of(s: Seq<char>) -> Seq<char>;

/// Relies on `str::to_lowercase`.
#[verifier::external_body]
fn lowercase(s: &str) -> (r: String)
    ensures
        r@ == lower_of(s@),
{
    s.to_lowercase()
}

/// Whether to capture one snapshot and exit, or keep capturing.
#[derive(Clone, Copy, PartialEq, Eq, Hash, Debug, Structural)]
pub enum RunMode {
    Once,
    Perpetual,
}

/// A run mode that is neither `once` nor `perpetual`.
#[derive(Debug)]
pub struct InvalidRunMode {
    pub run_mode: String,
}

impl InvalidRunMode {
    /// The message that explains the error.
    pub fn to_string(&self) -> (r: String)
        ensures
            r@ == "Invalid run mode (expected once/perpetual): "@ + self.run_mode@,
    {
        message_with_text("Invalid run mode (expected once/perpetual): ", self.run_mode.as_str())
    }
}

/// The command-line arguments.
#[derive(Debug)]
pub struct CLIArgs {
    pub config_file_path: Option<PathBuf>,
    pub run_mode: Option<String>,
}

impl CLIArgs {
    /// The run mode, read without regard to case; `once` when none was given.
    pub fn run_mode(&self) -> (r: Result<RunMode, InvalidRunMode>)
        ensures
            self.run_mode is None ==> r == Ok::<RunMode, InvalidRunMode>(RunMode::Once),
            self.run_mode is Some && lower_of(self.run_mode->0@) == "once"@ ==> r == Ok::<
                RunMode,
                InvalidRunMode,
            >(RunMode::Once),
            self.run_mode is Some && lower_of(self.run_mode->0@) == "perpetual"@ ==> r == Ok::<
                RunMode,
                InvalidRunMode,
            >(RunMode::Perpetual),
            self.run_mode is Some && lower_of(self.run_mode->0@) != "once"@ && lower_of(
                self.run_mode->0@,
            ) != "perpetual"@ ==> r is Err && r->Err_0.run_mode@ == lower_of(self.run_mode->0@),
    {
        proof {
            reveal_strlit("once");
            reveal_strlit("perpetual");
            assert("once"@.len() == 4);
            assert("perpetual"@.len() == 9);
            assert("once"@ != "perpetual"@);
        }
        match &self.run_mode {
            None => Ok(RunMode::Once),
            Some(run_mode) => {
                let lowered = lowercase(run_mode.as_str());
                if str_eq(lowered.as_str(), "once") {
                    Ok(RunMode::Once)
                } else if str_eq(lowered.as_str(), "perpetual") {
                    Ok(RunMode::Perpetual)
                } else {
                    Err(InvalidRunMode { run_mode: lowered })
                }
            },
        }
    }
}

} // verus!
