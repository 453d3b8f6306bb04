//! OpenXR integration: session gating and session-creation chains.

pub mod resources;
pub mod session;

use vstd::prelude::*;
use crate::xr::session::XrState;

verus! {

/// Whether the OpenXR session is available: a state other than unavailable is known
/// and an instance exists.
pub fn openxr_session_available(status: Option<XrState>, instance_present: bool) -> (b: bool)
    ensures
        b == (status matches Some(s) && s != XrState::Unavailable && instance_present),
{
    match status {
        Some(XrState::Unavailable) => false,
        Some(_) => instance_present,
        None => false,
    }
}

/// Whether OpenXR is running: the state is running and a session exists.
pub fn openxr_session_running(status: Option<XrState>, session_present: bool) -> (b: bool)
    ensures
        b == (status == Some(XrState::Running) && session_present),
{
    match status {
        Some(XrState::Running) => session_present,
        _ => false,
    }
}

} // verus!
