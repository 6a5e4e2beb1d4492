//! The service coordinator: restarting the platform mass-storage service
//! and refreshing policy so that block/unblock changes take effect.

use vstd::prelude::*;

use crate::ports::PolicyAction;

verus! {

/// Plans a storage-service restart: stop the service, start it again,
/// then force a policy refresh — each step exactly once, in that order.
pub fn restart_usb_service_plan() -> (r: Vec<PolicyAction>)
    ensures
        r@.len() == 3,
        r@[0] is StopStorageService,
        r@[1] is StartStorageService,
        r@[2] is RefreshPolicy,
{
    let mut r: Vec<PolicyAction> = Vec::new();
    r.push(PolicyAction::StopStorageService);
    r.push(PolicyAction::StartStorageService);
    r.push(PolicyAction::RefreshPolicy);
    r
}

/// Judges a completed restart from the per-step reports.  A failure to
/// stop is tolerated — the service may already have been stopped — while
/// a failure to start, or to refresh policy, is fatal and surfaced
/// verbatim.
pub fn restart_usb_service_outcome(
    stop_error: Option<String>,
    start_error: Option<String>,
    refresh_error: Option<String>,
) -> (r: Result<(), String>)
    ensures
        r is Ok <==> (start_error is None && refresh_error is None),
        start_error matches Some(m) ==> r matches Err(e) && e@ == m@,
        start_error is None ==> (refresh_error matches Some(m) ==> r matches Err(e) && e@ == m@),
{
    let _ = stop_error;
    match start_error {
        Some(m) => Err(m),
        None => match refresh_error {
            Some(m) => Err(m),
            None => Ok(()),
        },
    }
}

} // verus!
