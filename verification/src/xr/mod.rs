//! XR abstractions: session state, reference spaces and XR cameras.

pub mod session;
pub mod spaces;
pub mod camera;
