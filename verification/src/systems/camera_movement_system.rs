//! The camera that follows the hopper upward.
//!
//! The camera moves only when the hopper rises above it, so the hopper
//! still moves on the screen, and the rooftops appear to fall away. The
//! background moves with the camera.

use vstd::prelude::*;
use crate::components::BackgroundComponent;
use crate::engine::{Transform, Vector3};

verus! {

/// How far the camera moves up in a tick: as far as the hopper is above it.
pub open spec fn camera_lift(hopper_y: int, camera_y: int) -> int {
    if hopper_y > camera_y {
        hopper_y - camera_y
    } else {
        0
    }
}

/// A transform moved up by `lift`.
pub open spec fn lifted(transform: Transform, lift: int) -> Transform {
    Transform {
        translation: Vector3 {
            x: transform.translation.x,
            y: (transform.translation.y + lift) as i64,
            z: transform.translation.z,
        },
    }
}

/// Every background moved up by `lift`.
pub open spec fn lifted_all(backgrounds: Seq<(BackgroundComponent, Transform)>, lift: int) -> Seq<
    (BackgroundComponent, Transform),
> {
    Seq::new(backgrounds.len(), |i: int| (backgrounds[i].0, lifted(backgrounds[i].1, lift)))
}

/// The system that moves the camera, and the background with it, along
/// with the hopper.
#[derive(Debug, Clone, Copy)]
pub struct CameraMovementSystem;

impl Default for CameraMovementSystem {
    fn default() -> (system: Self) {
        CameraMovementSystem
    }
}

impl CameraMovementSystem {
    /// Lifts the camera to the hopper's height when the hopper is above it,
    /// and every background by the same distance. Each row of `backgrounds`
    /// holds the marker and the place of one background.
    ///
    /// Every background must have room above it for the lift.
    pub fn run(
        &mut self,
        hopper_transform: &Transform,
        camera_transform: &mut Transform,
        backgrounds: &mut Vec<(BackgroundComponent, Transform)>,
    )
        requires
            forall|i: int|
                0 <= i < old(backgrounds)@.len() ==> (#[trigger] old(
                    backgrounds)@[i]).1.translation.y + camera_lift(
                    hopper_transform.translation.y as int,
                    old(camera_transform).translation.y as int,
                ) <= i64::MAX,
        ensures
            *final(camera_transform) == lifted(
                *old(camera_transform),
                camera_lift(
                    hopper_transform.translation.y as int,
                    old(camera_transform).translation.y as int,
                ),
            ),
            final(backgrounds)@ == lifted_all(
                old(backgrounds)@,
                camera_lift(
                    hopper_transform.translation.y as int,
                    old(camera_transform).translation.y as int,
                ),
            ),
    {
        let hopper_y_position: i64 = hopper_transform.translation.y;
        let above: i128 = hopper_y_position as i128 - camera_transform.translation.y as i128;
        if above > 0 {
            camera_transform.translation.y = hopper_y_position;
            let mut index: usize = 0;
            while index < backgrounds.len()
                invariant
                    backgrounds@.len() == old(backgrounds)@.len(),
                    index <= backgrounds@.len(),
                    above > 0,
                    above == camera_lift(
                        hopper_transform.translation.y as int,
                        old(camera_transform).translation.y as int,
                    ),
                    forall|i: int|
                        0 <= i < old(backgrounds)@.len() ==> (#[trigger] old(
                            backgrounds)@[i]).1.translation.y + above <= i64::MAX,
                    forall|i: int|
                        0 <= i < index ==> #[trigger] backgrounds@[i] == (
                            old(backgrounds)@[i].0,
                            lifted(old(backgrounds)@[i].1, above as int),
                        ),
                    forall|i: int|
                        index <= i < backgrounds@.len() ==> backgrounds@[i] == old(backgrounds)@[i],
                decreases backgrounds@.len() - index,
            {
                let (background_component, mut transform) = backgrounds[index];
                transform.translation.y = (transform.translation.y as i128 + above) as i64;
                backgrounds.set(index, (background_component, transform));
                index = index + 1;
            }
        }
        proof {
            assert(backgrounds@ =~= lifted_all(
                old(backgrounds)@,
                camera_lift(
                    hopper_transform.translation.y as int,
                    old(camera_transform).translation.y as int,
                ),
            ));
        }
    }
}

} // verus!
