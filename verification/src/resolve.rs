use vstd::prelude::*;
use crate::outcome::RunError;

verus! {

/// What a filesystem probe of the resolved path reported. The caller that
/// performs the probe builds one of these; `validate_target` turns it into
/// the launcher's decision.
#[derive(Debug)]
pub enum TargetStatus {
    /// The path refers to a regular file.
    Regular,
    /// The path exists but is not a regular file (a directory, a socket,
    /// a device, ...).
    NotRegular,
    /// The path was reported missing.
    Missing,
    /// The probe itself failed; `name` is the file name to report and
    /// `detail` the system's own error text.
    Inaccessible { name: String, detail: String },
}

/// Relies on which::which: searches the directories of the search-path
/// environment for an executable entry matching the name, the same way a
/// shell would, and returns the first match.
#[verifier::external_body]
fn search_path_lookup(program: &String) -> (r: Option<String>) {
    match which::which(program.as_str()) {
        Ok(path) => Some(path.to_string_lossy().into_owned()),
        Err(_) => None,
    }
}

/// Turns a program name into a concrete path by search-path lookup.
/// Which path comes back depends on the filesystem and the environment,
/// so nothing is claimed of the success case; a failed lookup is always
/// the `NotFound` error for this very program name.
pub fn resolve_command(program: &String) -> (r: Result<String, RunError>)
    ensures
        r matches Err(e) ==> e == (RunError::NotFound { program: *program }),
{
    match search_path_lookup(program) {
        Some(path) => Ok(path),
        None => Err(RunError::NotFound { program: program.clone() }),
    }
}

/// Classifies the probe of a resolved target: only a regular file may be
/// spawned, and every other status becomes exactly the error the exit
/// table assigns to it.
pub fn validate_target(path: &String, status: TargetStatus) -> (r: Result<(), RunError>)
    ensures
        r is Ok <==> status is Regular,
        status is NotRegular ==> r == Err::<(), RunError>(
            (RunError::NotRegularFile { path: *path }),
        ),
        status is Missing ==> r == Err::<(), RunError>(
            (RunError::MissingAfterResolve { path: *path }),
        ),
        status matches TargetStatus::Inaccessible { name, detail } ==> r == Err::<(), RunError>(
            (RunError::ProbeFailed { name, detail }),
        ),
{
    match status {
        TargetStatus::Regular => Ok(()),
        TargetStatus::NotRegular => Err(RunError::NotRegularFile { path: path.clone() }),
        TargetStatus::Missing => Err(RunError::MissingAfterResolve { path: path.clone() }),
        TargetStatus::Inaccessible { name, detail } => Err(
            RunError::ProbeFailed { name, detail },
        ),
    }
}

} // verus!
