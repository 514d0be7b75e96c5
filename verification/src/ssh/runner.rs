//! The outcome of running one external command.
use vstd::prelude::*;

verus! {

/// Result of running a subprocess: a success bit, stdout and stderr (the raw exit status is
/// deliberately not kept).
#[derive(Debug, Clone, PartialEq, Eq)]
pub struct CmdOutcome {
    pub success: bool,
    pub stdout: String,
    pub stderr: String,
}

/// The mathematical value of a command outcome.
pub struct CmdOutcomeV {
    pub success: bool,
    pub stdout: Seq<char>,
    pub stderr: Seq<char>,
}

impl View for CmdOutcome {
    type V = CmdOutcomeV;

    open spec fn view(&self) -> CmdOutcomeV {
        CmdOutcomeV { success: self.success, stdout: self.stdout@, stderr: self.stderr@ }
    }
}

} // verus!
