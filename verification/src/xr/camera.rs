use vstd::prelude::*;

verus! {

/// Plugin that extracts XR cameras for rendering.
#[derive(Clone, Copy, Debug)]
pub struct XrCameraPlugin;

/// The system set in which XR views are initialized.
#[derive(Clone, Copy, Default, PartialEq, Eq, Structural, Debug, Hash)]
pub struct XrViewInit;

/// Marker for an XR view (eye), holding its view index.
#[derive(Clone, Copy, Default, PartialEq, Eq, Structural, Debug, Hash)]
pub struct XrCamera(pub u32);

} // verus!
