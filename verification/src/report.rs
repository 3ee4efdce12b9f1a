//! The outcome of the one spawned child process, and the decision of what
//! to show the user: its captured standard output when it succeeded, its
//! captured standard error when it did not. A non-zero exit is a normal
//! outcome reported as the tool's own failure, not an error of the wizard;
//! only failure to spawn is, and that is `WizardError::Spawn`.

use vstd::prelude::*;

verus! {

/// What a finished child process left behind: its exit code (`None` when it
/// was ended by a signal) and both captured output streams, whole.
#[derive(Debug)]
pub struct ExecOutcome {
    pub exit_code: Option<i32>,
    pub stdout: String,
    pub stderr: String,
}

/// The child process ended successfully.
pub open spec fn succeeded(o: ExecOutcome) -> bool {
    o.exit_code == Some(0i32)
}

/// What the user is shown for a finished child process.
#[derive(Debug)]
pub enum ToolReport {
    /// The tool succeeded; its captured standard output, verbatim.
    Success(String),
    /// The tool failed; its captured standard error, verbatim.
    Failure(String),
}

/// Chooses the report for a finished child process: the captured standard
/// output on success, the captured standard error on any other outcome.
pub fn report_outcome(o: &ExecOutcome) -> (r: ToolReport)
    ensures
        succeeded(*o) ==> (r matches ToolReport::Success(t) && t@ == o.stdout@),
        !succeeded(*o) ==> (r matches ToolReport::Failure(t) && t@ == o.stderr@),
{
    let ok = match o.exit_code {
        Some(c) => c == 0,
        None => false,
    };
    if ok {
        ToolReport::Success(o.stdout.clone())
    } else {
        ToolReport::Failure(o.stderr.clone())
    }
}

} // verus!
