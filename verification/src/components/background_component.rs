//! The marker of the background.

use vstd::prelude::*;

verus! {

/// Marks an entity as the background.
///
/// The background is carried along with the camera, so that the rooftops
/// and the hopper appear to move against it.
#[derive(Debug, Copy, Clone, PartialEq, Eq, Structural)]
pub struct BackgroundComponent;

impl Default for BackgroundComponent {
    fn default() -> (component: Self) {
        BackgroundComponent
    }
}

} // verus!
