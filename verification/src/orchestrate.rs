//! Decisions of the run: what each external outcome means for the pipeline
//! capture -> resolve -> report -> optional checkout. The surrounding binary
//! spawns the processes and prints; every judgement about their results is
//! made here.

use crate::normalize::spec_trim;
use crate::normalize::trim_str;
use vstd::prelude::*;

verus! {

/// Why a run failed. Every failure ends the run with exit code 1 and a single
/// diagnostic line.
#[derive(Clone, Copy, Debug, PartialEq, Eq, Structural)]
pub enum RunError {
    /// The current-position query exited with a non-zero status.
    HeadQueryFailed,
    /// The revision lookup exited with a non-zero status.
    RevListFailed,
    /// The checkout exited with a non-zero status.
    CheckoutFailed,
    /// A captured output was not valid text.
    DecodeFailure,
    /// The lookup succeeded but named no revision: no commit exists before
    /// the requested time.
    NotFound,
}

impl RunError {
    /// The diagnostic line for this failure (printed after an `error: ` prefix).
    pub open spec fn spec_message(self) -> Seq<char> {
        match self {
            RunError::HeadQueryFailed => "git rev-parse failed"@,
            RunError::RevListFailed => "git rev-list failed"@,
            RunError::CheckoutFailed => "git checkout failed"@,
            RunError::DecodeFailure => "process output was not valid text"@,
            RunError::NotFound => "no commit found before the given time"@,
        }
    }

    /// The diagnostic line for this failure.
    pub fn message(&self) -> (r: String)
        ensures
            r@ == self.spec_message(),
    {
        match self {
            RunError::HeadQueryFailed => String::from_str("git rev-parse failed"),
            RunError::RevListFailed => String::from_str("git rev-list failed"),
            RunError::CheckoutFailed => String::from_str("git checkout failed"),
            RunError::DecodeFailure => String::from_str("process output was not valid text"),
            RunError::NotFound => String::from_str("no commit found before the given time"),
        }
    }
}

/// Judge the current-position query: `success` is the child's exit status,
/// `stdout` its captured output, or `None` where the bytes were not valid
/// text. On success the trimmed output is the current position.
pub fn resolve_head(success: bool, stdout: Option<String>) -> (r: Result<String, RunError>)
    ensures
        !success ==> r == Err::<String, RunError>(RunError::HeadQueryFailed),
        success && stdout is None ==> r == Err::<String, RunError>(RunError::DecodeFailure),
        success && stdout is Some ==> r is Ok && r->Ok_0@ == spec_trim(stdout->0@),
{
    if !success {
        return Err(RunError::HeadQueryFailed);
    }
    match stdout {
        None => Err(RunError::DecodeFailure),
        Some(s) => Ok(trim_str(s.as_str()).to_owned()),
    }
}

/// Judge the revision lookup: a non-zero exit fails the run, unreadable
/// output fails it, and an empty (trimmed) output means no commit exists
/// before the requested time. Otherwise the trimmed output is the target
/// revision.
pub fn resolve_target(success: bool, stdout: Option<String>) -> (r: Result<String, RunError>)
    ensures
        !success ==> r == Err::<String, RunError>(RunError::RevListFailed),
        success && stdout is None ==> r == Err::<String, RunError>(RunError::DecodeFailure),
        (success && stdout is Some && spec_trim(stdout->0@).len() == 0) ==> r == Err::<
            String,
            RunError,
        >(RunError::NotFound),
        (success && stdout is Some && spec_trim(stdout->0@).len() > 0) ==> r is Ok && r->Ok_0@
            == spec_trim(stdout->0@),
{
    if !success {
        return Err(RunError::RevListFailed);
    }
    match stdout {
        None => Err(RunError::DecodeFailure),
        Some(s) => {
            let t = trim_str(s.as_str());
            if t.unicode_len() == 0 {
                Err(RunError::NotFound)
            } else {
                Ok(t.to_owned())
            }
        },
    }
}

/// The three report lines printed before any mutation: where the run is,
/// where it would jump to, and the exact command that returns to the
/// original position.
pub fn report_lines(original_head: &str, target: &str) -> (r: Vec<String>)
    ensures
        r@.len() == 3,
        r@[0]@ == "Current HEAD: "@ + original_head@,
        r@[1]@ == "Target commit: "@ + target@,
        r@[2]@ == "To return: git checkout "@ + original_head@,
{
    let mut current = String::from_str("Current HEAD: ");
    current.append(original_head);
    let mut target_line = String::from_str("Target commit: ");
    target_line.append(target);
    let mut back = String::from_str("To return: git checkout ");
    back.append(original_head);
    let mut lines: Vec<String> = Vec::new();
    lines.push(current);
    lines.push(target_line);
    lines.push(back);
    lines
}

/// Judge the checkout: a non-zero exit status fails the run.
pub fn checkout_outcome(success: bool) -> (r: Result<(), RunError>)
    ensures
        success ==> r == Ok::<(), RunError>(()),
        !success ==> r == Err::<(), RunError>(RunError::CheckoutFailed),
{
    if success {
        Ok(())
    } else {
        Err(RunError::CheckoutFailed)
    }
}

} // verus!
