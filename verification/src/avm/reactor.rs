//! Reactor GUI audit log: the decision it records.
use vstd::prelude::*;

verus! {

/// The execution-mode label that the audit log shows for a swap.
pub fn execution_mode_label(is_dry_run: bool) -> (s: &'static str)
    ensures
        is_dry_run ==> s@ == "DRY RUN (simulation)"@,
        !is_dry_run ==> s@ == "LIVE"@,
{
    if is_dry_run {
        "DRY RUN (simulation)"
    } else {
        "LIVE"
    }
}

} // verus!
