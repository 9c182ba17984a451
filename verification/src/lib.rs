pub mod builders;
pub mod commands;
pub mod handler;
pub mod util;

use vstd::prelude::*;

verus! {

/// Whether the presence activity should be refreshed for an incoming
/// interaction: it is when it was never set, and otherwise at most once
/// every twenty seconds.
pub open spec fn should_update_activity_spec(last_changed: Option<u64>, now: u64) -> bool {
    match last_changed {
        None => true,
        Some(t) => now - t > 20,
    }
}

/// Decides whether the activity is refreshed; the timestamps are seconds,
/// and the last change cannot lie in the future.
pub fn should_update_activity(last_changed: Option<u64>, now: u64) -> (r: bool)
    requires
        last_changed matches Some(t) ==> t <= now,
    ensures
        r == should_update_activity_spec(last_changed, now),
{
    match last_changed {
        None => true,
        Some(t) => now - t > 20,
    }
}

} // verus!
