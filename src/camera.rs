//! A perspective camera whose readiness is part of its type.
//!
//! A camera starts `Virtual`, with neither position nor target. `place` gives it a
//! position and `point` a target and an up direction, in either order; only once
//! it has both is it `Ready`, the one state in which a view can be computed. The
//! camera is generic over the scalar of its intrinsics (`F`) and over the types of
//! its points (`P`) and directions (`V`), so the states and their transitions hold
//! no arithmetic of their own.
use vstd::prelude::*;

verus! {

/// Marks the types that stand for a state of a camera.
pub trait CameraState {}

/// A camera with neither position nor target: it is not in the scene yet.
pub struct Virtual {}

/// A camera with a position only.
pub struct Placed<P> {
    pub pos: P,
}

/// A camera with a target and an up direction only.
pub struct Pointed<P, V> {
    pub target: P,
    pub up: V,
}

/// A camera with a position, a target and an up direction: ready to use.
pub struct Ready<P, V> {
    pub pos: P,
    pub target: P,
    pub up: V,
}

impl CameraState for Virtual {}

impl<P> CameraState for Placed<P> {}

impl<P, V> CameraState for Pointed<P, V> {}

impl<P, V> CameraState for Ready<P, V> {}

/// A camera with a perspective projection. `fov` is the vertical field of view,
/// kept between `fov_min` and `fov_max` by zooming; `znear` and `zfar` are the
/// clipping planes; `state` holds what the camera knows of its place in the scene.
pub struct PerspectiveCamera<S: CameraState, F> {
    pub fov: F,
    pub fov_min: F,
    pub fov_max: F,
    pub zoom_sensitivity: F,
    pub znear: F,
    pub zfar: F,
    pub state: S,
}

/// `c` given the position `pos`.
pub open spec fn placed_camera<P, F>(c: PerspectiveCamera<Virtual, F>, pos: P) -> PerspectiveCamera<
    Placed<P>,
    F,
> {
    PerspectiveCamera {
        state: Placed { pos },
        fov: c.fov,
        fov_min: c.fov_min,
        fov_max: c.fov_max,
        zoom_sensitivity: c.zoom_sensitivity,
        znear: c.znear,
        zfar: c.zfar,
    }
}

/// `c` given the target `target` and the up direction `up`.
pub open spec fn pointed_camera<P, V, F>(
    c: PerspectiveCamera<Virtual, F>,
    target: P,
    up: V,
) -> PerspectiveCamera<Pointed<P, V>, F> {
    PerspectiveCamera {
        state: Pointed { target, up },
        fov: c.fov,
        fov_min: c.fov_min,
        fov_max: c.fov_max,
        zoom_sensitivity: c.zoom_sensitivity,
        znear: c.znear,
        zfar: c.zfar,
    }
}

/// The placed camera `c` given the target `target` and the up direction `up`.
pub open spec fn ready_after_point<P, V, F>(
    c: PerspectiveCamera<Placed<P>, F>,
    target: P,
    up: V,
) -> PerspectiveCamera<Ready<P, V>, F> {
    PerspectiveCamera {
        state: Ready { pos: c.state.pos, target, up },
        fov: c.fov,
        fov_min: c.fov_min,
        fov_max: c.fov_max,
        zoom_sensitivity: c.zoom_sensitivity,
        znear: c.znear,
        zfar: c.zfar,
    }
}

/// The pointed camera `c` given the position `pos`.
pub open spec fn ready_after_place<P, V, F>(
    c: PerspectiveCamera<Pointed<P, V>, F>,
    pos: P,
) -> PerspectiveCamera<Ready<P, V>, F> {
    PerspectiveCamera {
        state: Ready { pos, target: c.state.target, up: c.state.up },
        fov: c.fov,
        fov_min: c.fov_min,
        fov_max: c.fov_max,
        zoom_sensitivity: c.zoom_sensitivity,
        znear: c.znear,
        zfar: c.zfar,
    }
}

impl<F> PerspectiveCamera<Virtual, F> {
    /// Gives the camera a position.
    pub fn place<P>(self, pos: P) -> (r: PerspectiveCamera<Placed<P>, F>)
        ensures
            r == placed_camera(self, pos),
    {
        PerspectiveCamera {
            state: Placed { pos },
            fov: self.fov,
            fov_min: self.fov_min,
            fov_max: self.fov_max,
            zoom_sensitivity: self.zoom_sensitivity,
            znear: self.znear,
            zfar: self.zfar,
        }
    }

    /// Gives the camera a target and an up direction.
    pub fn point<P, V>(self, target: P, up: V) -> (r: PerspectiveCamera<Pointed<P, V>, F>)
        ensures
            r == pointed_camera(self, target, up),
    {
        PerspectiveCamera {
            state: Pointed { target, up },
            fov: self.fov,
            fov_min: self.fov_min,
            fov_max: self.fov_max,
            zoom_sensitivity: self.zoom_sensitivity,
            znear: self.znear,
            zfar: self.zfar,
        }
    }
}

impl<P, F> PerspectiveCamera<Placed<P>, F> {
    /// Gives the placed camera a target and an up direction, which makes it ready.
    pub fn point<V>(self, target: P, up: V) -> (r: PerspectiveCamera<Ready<P, V>, F>)
        ensures
            r == ready_after_point(self, target, up),
    {
        PerspectiveCamera {
            state: Ready { target, up, pos: self.state.pos },
            fov: self.fov,
            fov_min: self.fov_min,
            fov_max: self.fov_max,
            zoom_sensitivity: self.zoom_sensitivity,
            znear: self.znear,
            zfar: self.zfar,
        }
    }
}

impl<P, V, F> PerspectiveCamera<Pointed<P, V>, F> {
    /// Gives the pointed camera a position, which makes it ready.
    pub fn place(self, pos: P) -> (r: PerspectiveCamera<Ready<P, V>, F>)
        ensures
            r == ready_after_place(self, pos),
    {
        PerspectiveCamera {
            state: Ready { pos, target: self.state.target, up: self.state.up },
            fov: self.fov,
            fov_min: self.fov_min,
            fov_max: self.fov_max,
            zoom_sensitivity: self.zoom_sensitivity,
            znear: self.znear,
            zfar: self.zfar,
        }
    }
}

impl<P: Copy, V, F> PerspectiveCamera<Ready<P, V>, F> {
    /// The camera's position.
    pub fn get_position(&self) -> (r: P)
        ensures
            r == self.state.pos,
    {
        self.state.pos
    }
}

/// The order of the two transitions does not matter: placing a camera and then
/// pointing it gives the same ready camera as pointing it and then placing it, so
/// everything computed from the ready camera (its view above all) is the same.
pub proof fn lemma_transition_order<P, V, F>(
    c: PerspectiveCamera<Virtual, F>,
    pos: P,
    target: P,
    up: V,
)
    ensures
        ready_after_point(placed_camera(c, pos), target, up) == ready_after_place(
            pointed_camera(c, target, up),
            pos,
        ),
{
}

} // verus!
