use vstd::prelude::*;

verus! {

/// The state of the XR session, as the XR runtime reports it.
#[derive(Clone, Copy, Debug, PartialEq, Eq, Structural)]
pub enum XrState {
    /// No XR runtime or instance.
    Unavailable,
    /// An instance exists; a session can be created.
    Available,
    /// A session exists but is not ready to begin.
    Idle,
    /// The session is ready to begin.
    Ready,
    /// The session is running.
    Running,
    /// The session is stopping (e.g. the headset was removed).
    Stopping,
    /// The session is exiting; it may be restarted.
    Exiting { should_restart: bool },
}

} // verus!
