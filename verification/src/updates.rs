//! How the result of an update check is reported to the UI layer.
//!
//! The host runtime polls its update endpoint; this module turns what
//! came back into the boolean-or-error the UI is promised.

use vstd::prelude::*;

verus! {

/// What the host runtime reported back from one update check.
#[derive(Debug, PartialEq, Eq)]
pub enum UpdateCheckOutcome {
    /// The endpoint answered; `update_available` says whether a newer
    /// version exists.
    Checked { update_available: bool },
    /// The check failed with this description.
    CheckFailed { message: String },
}

/// Reports an update check to the UI: availability as a boolean when the
/// check answered, and the failure's description verbatim otherwise.
pub fn interpret_update_check(outcome: UpdateCheckOutcome) -> (r: Result<bool, String>)
    ensures
        (outcome matches UpdateCheckOutcome::Checked { update_available } ==> r == Ok::<
            bool,
            String,
        >(update_available)),
        (outcome matches UpdateCheckOutcome::CheckFailed { message } ==> r == Err::<
            bool,
            String,
        >(message)),
{
    match outcome {
        UpdateCheckOutcome::Checked { update_available } => Ok(update_available),
        UpdateCheckOutcome::CheckFailed { message } => Err(message),
    }
}

} // verus!
