use vstd::prelude::*;
use vstd::string::*;
use crate::report::{render_report, report_line};
use crate::timing::Timing;

verus! {

/// How the child ended: with a numeric exit code, or abnormally (for
/// example killed by a signal), with no code available.
#[derive(Clone, Copy, PartialEq, Eq, Structural, Debug)]
pub enum TerminationOutcome {
    ExitedWithCode(i32),
    TerminatedAbnormally,
}

/// Every failure that stops the wrapper before the child terminates,
/// carrying the text its diagnostic line needs.
#[derive(Debug)]
pub enum RunError {
    /// The named program matched nothing on the search path.
    NotFound { program: String },
    /// The resolved path was reported missing when probed again.
    MissingAfterResolve { path: String },
    /// The resolved path exists but is not a regular file.
    NotRegularFile { path: String },
    /// The resolved path could not be probed at all; `name` is the file
    /// name to report and `detail` the system's own error text.
    ProbeFailed { name: String, detail: String },
    /// The operating system refused to start the child; `detail` is its
    /// own error text.
    SpawnFailed { path: String, detail: String },
}

/// The wrapper's exit code for each failure: 127 for anything missing,
/// 126 for a target that cannot be run, 2 for a refused spawn.
pub open spec fn spec_exit_code(e: RunError) -> int {
    match e {
        RunError::NotFound { .. } => 127,
        RunError::MissingAfterResolve { .. } => 127,
        RunError::NotRegularFile { .. } => 126,
        RunError::ProbeFailed { .. } => 126,
        RunError::SpawnFailed { .. } => 2,
    }
}

/// The single diagnostic line for each failure.
pub open spec fn spec_message(e: RunError) -> Seq<char> {
    match e {
        RunError::NotFound { program } => program@ + ": command not found"@,
        RunError::MissingAfterResolve { path } => "No such file: "@ + path@,
        RunError::NotRegularFile { path } => path@ + ": Is not a regular file"@,
        RunError::ProbeFailed { name, detail } => name@ + ": "@ + detail@,
        RunError::SpawnFailed { path, detail } => path@ + ": "@ + detail@,
    }
}

impl RunError {
    pub fn exit_code(&self) -> (c: i32)
        ensures
            c as int == spec_exit_code(*self),
    {
        match self {
            RunError::NotFound { .. } => 127,
            RunError::MissingAfterResolve { .. } => 127,
            RunError::NotRegularFile { .. } => 126,
            RunError::ProbeFailed { .. } => 126,
            RunError::SpawnFailed { .. } => 2,
        }
    }

    pub fn message(&self) -> (m: String)
        ensures
            m@ == spec_message(*self),
    {
        match self {
            RunError::NotFound { program } => program.clone().concat(": command not found"),
            RunError::MissingAfterResolve { path } => {
                let mut s = "No such file: ".to_owned();
                s.append(path.as_str());
                s
            },
            RunError::NotRegularFile { path } => path.clone().concat(": Is not a regular file"),
            RunError::ProbeFailed { name, detail } => name.clone().concat(": ").concat(
                detail.as_str(),
            ),
            RunError::SpawnFailed { path, detail } => path.clone().concat(": ").concat(
                detail.as_str(),
            ),
        }
    }
}

/// The wrapper's exit code once the child has terminated: the child's own
/// code where one exists, and 1 where none is available.
pub open spec fn spec_child_exit_code(o: TerminationOutcome) -> int {
    match o {
        TerminationOutcome::ExitedWithCode(c) => c as int,
        TerminationOutcome::TerminatedAbnormally => 1,
    }
}

/// Exit-code propagation: a child that exits with code `c` makes the
/// wrapper exit with exactly `c`; a child with no code makes it exit 1.
pub fn child_exit_code(o: &TerminationOutcome) -> (c: i32)
    ensures
        c as int == spec_child_exit_code(*o),
{
    match o {
        TerminationOutcome::ExitedWithCode(c) => *c,
        TerminationOutcome::TerminatedAbnormally => 1,
    }
}

/// Renders the three timing lines and maps the child's termination to the
/// wrapper's exit code. The report is produced for every outcome: a
/// non-zero or abnormal exit never suppresses the timing lines.
pub fn conclude_run(t: &Timing, posix: bool, outcome: &TerminationOutcome) -> (r: (
    Vec<String>,
    i32,
))
    requires
        t.wf(),
    ensures
        r.0.len() == 3,
        r.0@[0]@ == report_line("real"@, t.real, posix),
        r.0@[1]@ == report_line("user"@, t.user, posix),
        r.0@[2]@ == report_line("sys"@, t.sys, posix),
        r.1 as int == spec_child_exit_code(*outcome),
{
    (render_report(t, posix), child_exit_code(outcome))
}

/// A missing program is reported with exit code 127 and a message that
/// starts with the program name, followed by ": command not found".
pub proof fn lemma_missing_binary_report(program: String)
    ensures
        spec_exit_code((RunError::NotFound { program })) == 127,
        spec_message((RunError::NotFound { program })).subrange(0, program@.len() as int)
            == program@,
{
    assert(spec_message((RunError::NotFound { program })).subrange(0, program@.len() as int)
        =~= program@);
}

/// A resolved target that is not a regular file is reported with exit
/// code 126.
pub proof fn lemma_irregular_target_report(path: String)
    ensures
        spec_exit_code((RunError::NotRegularFile { path })) == 126,
{
}

/// Exit-code propagation, stated over the mapping itself: for every code
/// the child exits with, the wrapper's own exit code is the same number.
pub proof fn lemma_exit_code_propagation(code: i32)
    ensures
        spec_child_exit_code(TerminationOutcome::ExitedWithCode(code)) == code as int,
{
}

} // verus!
