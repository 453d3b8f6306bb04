use vstd::prelude::*;

verus! {

/// Whether the OpenXR session has been started.
#[derive(Clone, Copy, Debug, Default)]
pub struct OxrSessionStarted(pub bool);

/// Instructs systems to add the display period (pipelined rendering).
#[derive(Clone, Copy, Debug, Default)]
pub struct Pipelined;

/// A source of a composition layer that is submitted with each frame.
pub trait LayerProvider: Send + Sync {}

/// The composition layers submitted with each frame, in the order they are composed.
#[derive(Default)]
pub struct OxrRenderLayers(pub Vec<Box<dyn LayerProvider>>);

} // verus!
