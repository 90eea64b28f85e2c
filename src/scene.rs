//! The whole animated scene and its per-frame tick: the camera moved by its
//! controller, and the sun and planets posed at the elapsed time.
use vstd::prelude::*;

use crate::camera::{
    camera_after, motion_of, rotation_consumed, Camera, CameraController, ControllerView,
    Motion, CAMERA_SENSITIVITY, CAMERA_SPEED, INITIAL_PITCH, INITIAL_YAW, SAFE_PITCH,
};
use crate::orbit::{
    initial_pose, planets_at, planets_initial, pose_at, sun_params, Planets, Sun,
};

verus! {

#[derive(Debug)]
pub struct Scene {
    pub camera: Camera,
    pub controller: CameraController,
    pub planets: Planets,
    pub sun: Sun,
}

impl Scene {
    /// The scene at startup: the camera at its starting orientation and at
    /// rest, every body in its first pose.
    pub fn new() -> (r: Scene)
        ensures
            r.camera == (Camera { yaw: INITIAL_YAW, pitch: INITIAL_PITCH }),
            r.controller@ == (ControllerView {
                forward: false,
                backward: false,
                left: false,
                right: false,
                up: false,
                down: false,
                rotate_horizontal: 0,
                rotate_vertical: 0,
                speed: CAMERA_SPEED as int,
                sensitivity: CAMERA_SENSITIVITY as int,
                cursor_locked: false,
            }),
            r.planets@ == planets_initial(),
            r.sun@ == initial_pose(sun_params()),
    {
        Scene {
            camera: Camera::new(INITIAL_YAW, INITIAL_PITCH),
            controller: CameraController::new(CAMERA_SPEED, CAMERA_SENSITIVITY),
            planets: Planets::new(),
            sun: Sun::new(),
        }
    }

    /// One frame: moves the camera for a frame of `dt` microseconds and poses
    /// every body at `elapsed` microseconds after the start. Returns the
    /// camera's motion along its axes as they stood before the frame.
    pub fn update(&mut self, dt: u64, elapsed: u64) -> (m: Motion)
        ensures
            m == motion_of(old(self).controller@, dt as int),
            final(self).camera == camera_after(old(self).camera, old(self).controller@, dt as int),
            -SAFE_PITCH <= final(self).camera.pitch <= SAFE_PITCH,
            final(self).controller@ == rotation_consumed(old(self).controller@),
            final(self).planets@ == planets_at(elapsed as int),
            final(self).sun@ == pose_at(sun_params(), elapsed as int),
    {
        let m = self.controller.update_camera(&mut self.camera, dt);
        self.planets.update(elapsed);
        self.sun.update(elapsed);
        m
    }
}

} // verus!
