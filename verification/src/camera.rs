//! The camera: it follows the player, and may be kept inside the world.

use vstd::prelude::*;
use crate::vector::magnitude;
use crate::vector::Vec2;

verus! {

/// The size of the world and of the part of it that the camera shows. The
/// world reaches from the origin to `(world_width, world_height)`.
#[derive(Clone, Copy, Debug, PartialEq, Eq, Structural)]
pub struct Viewport {
    /// Half the width of the visible frame.
    pub half_width: i64,
    /// Half the height of the visible frame.
    pub half_height: i64,
    /// The width of the world.
    pub world_width: i64,
    /// The height of the world.
    pub world_height: i64,
}

/// How the camera follows the position it tracks.
#[derive(Clone, Copy, Debug, PartialEq, Eq, Structural)]
pub enum CameraMode {
    /// The camera is centred on its subject.
    Follow,
    /// The camera is centred on its subject as far as the visible
    /// frame stays inside the world.
    Clamp(Viewport),
}

/// The value in `[low, high]` that is nearest to `v`.
pub open spec fn clamped(v: int, low: int, high: int) -> int {
    if v < low {
        low
    } else if v > high {
        high
    } else {
        v
    }
}

impl Viewport {
    /// The frame is not larger than the world, so there is a position at
    /// which it shows nothing beyond the world.
    pub open spec fn wf(self) -> bool {
        &&& 0 <= self.half_width <= self.world_width - self.half_width
        &&& 0 <= self.half_height <= self.world_height - self.half_height
    }

    /// The camera position nearest to `subject` at which the frame stays
    /// inside the world.
    pub open spec fn confine(self, subject: Vec2) -> Vec2 {
        Vec2 {
            x: clamped(
                subject.x as int,
                self.half_width as int,
                self.world_width - self.half_width,
            ) as i64,
            y: clamped(
                subject.y as int,
                self.half_height as int,
                self.world_height - self.half_height,
            ) as i64,
        }
    }

    /// A view of a world, if the frame fits into the world.
    pub fn new(half_width: i64, half_height: i64, world_width: i64, world_height: i64) -> (view:
        Option<Viewport>)
        ensures
            view matches Some(v) ==> v == (Viewport {
                half_width,
                half_height,
                world_width,
                world_height,
            }) && v.wf(),
            view is Some <==> (Viewport { half_width, half_height, world_width, world_height }).wf(),
    {
        if 0 <= half_width && 0 <= half_height && world_width >= 0 && world_height >= 0
            && half_width <= world_width - half_width && half_height <= world_height
            - half_height {
            Some(Viewport { half_width, half_height, world_width, world_height })
        } else {
            None
        }
    }
}

impl CameraMode {
    /// The camera position for a subject at the given position.
    pub open spec fn target(self, subject: Vec2) -> Vec2 {
        match self {
            CameraMode::Follow => subject,
            CameraMode::Clamp(view) => view.confine(subject),
        }
    }
}

/// One axis of a confined camera.
fn clamp_axis(v: i64, low: i64, high: i64) -> (c: i64)
    requires
        low <= high,
    ensures
        c == clamped(v as int, low as int, high as int),
{
    if v < low {
        low
    } else if v > high {
        high
    } else {
        v
    }
}

/// One tick of the camera: where to put the camera for a subject at the
/// given position. The answer depends on that position alone.
pub fn camera_system(subject: Vec2, mode: &CameraMode) -> (camera: Vec2)
    requires
        mode matches CameraMode::Clamp(view) ==> view.wf(),
    ensures
        camera == mode.target(subject),
{
    match mode {
        CameraMode::Follow => subject,
        CameraMode::Clamp(view) => Vec2 {
            x: clamp_axis(subject.x, view.half_width, view.world_width - view.half_width),
            y: clamp_axis(subject.y, view.half_height, view.world_height - view.half_height),
        },
    }
}

/// Clamping gives the nearest value within the bounds: the result lies
/// within them and no value within them is nearer to the input. So a value
/// within the bounds is kept, and one outside them is replaced by the bound
/// it passed.
pub proof fn lemma_clamped_is_nearest(v: int, low: int, high: int, other: int)
    requires
        low <= high,
        low <= other <= high,
    ensures
        low <= clamped(v, low, high) <= high,
        magnitude(clamped(v, low, high) - v) <= magnitude(other - v),
        low <= v <= high ==> clamped(v, low, high) == v,
        v < low ==> clamped(v, low, high) == low,
        v > high ==> clamped(v, low, high) == high,
{
}

/// A confined camera never shows anything beyond the world, and it is on the
/// subject whenever that is possible.
pub proof fn lemma_confined_frame_inside_world(view: Viewport, subject: Vec2)
    requires
        view.wf(),
    ensures
        0 <= view.confine(subject).x - view.half_width,
        view.confine(subject).x + view.half_width <= view.world_width,
        0 <= view.confine(subject).y - view.half_height,
        view.confine(subject).y + view.half_height <= view.world_height,
        view.half_width <= subject.x <= view.world_width - view.half_width ==> view.confine(
            subject,
        ).x == subject.x,
        view.half_height <= subject.y <= view.world_height - view.half_height ==> view.confine(
            subject,
        ).y == subject.y,
        CameraMode::Clamp(view).target(view.confine(subject)) == view.confine(subject),
{
}

} // verus!
