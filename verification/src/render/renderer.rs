//! What can go wrong before the first frame.

use vstd::prelude::*;

verus! {

/// Why a renderer could not be set up.
#[derive(Clone, Copy, Debug, PartialEq, Eq, Structural)]
pub enum RendererInitError {
    RequestAdapter,
    RequestDevice,
}

impl RendererInitError {
    /// What went wrong, in words.
    pub fn message(&self) -> (text: &'static str)
        ensures
            *self is RequestAdapter ==> text@ == "Failed to request GPU Adapter"@,
            *self is RequestDevice ==> text@ == "Failed to request GPU Device"@,
    {
        match self {
            RendererInitError::RequestAdapter => "Failed to request GPU Adapter",
            RendererInitError::RequestDevice => "Failed to request GPU Device",
        }
    }
}

} // verus!
