//! First-person camera: its orientation, the projection parameters, and the
//! controller that turns key and pointer input into motion.
//!
//! Angles are held in microdegrees, lengths in micro-units, durations in
//! microseconds and pointer motion in micro-pixels. One pixel of pointer motion
//! turns the camera by `sensitivity` degrees per second of frame time.
use vstd::prelude::*;

verus! {

/// Largest pitch magnitude, in microdegrees: a hair under a right angle
/// (pi/2 - 0.0001 rad), so that the view direction never becomes parallel to
/// the world up axis.
pub const SAFE_PITCH: i64 = 89_994_270;

/// Microseconds in one second.
pub const MICROS_PER_SECOND: u64 = 1_000_000;

/// Starting yaw: looking along -Z.
pub const INITIAL_YAW: i64 = -90_000_000;

/// Starting pitch: looking slightly down.
pub const INITIAL_PITCH: i64 = -20_000_000;

/// Movement speed, in units per second.
pub const CAMERA_SPEED: u32 = 4;

/// Look sensitivity, in degrees per pixel per second.
pub const CAMERA_SENSITIVITY: u32 = 12;

/// Vertical field of view, in microdegrees.
pub const FOVY: u32 = 45_000_000;

/// Near clip plane, in micro-units.
pub const ZNEAR: u32 = 100_000;

/// Far clip plane, in micro-units.
pub const ZFAR: u32 = 100_000_000;

pub open spec fn clamp(x: int, lo: int, hi: int) -> int {
    if x < lo {
        lo
    } else if x > hi {
        hi
    } else {
        x
    }
}

/// A non-negative magnitude capped at the largest `i64`.
pub open spec fn capped(m: int) -> int {
    if m > i64::MAX {
        i64::MAX as int
    } else {
        m
    }
}

/// +1, 0 or -1 from a pair of opposing direction flags.
pub open spec fn axis(positive: bool, negative: bool) -> int {
    (if positive {
        1int
    } else {
        0int
    }) - (if negative {
        1int
    } else {
        0int
    })
}

/// Distance in micro-units covered along one axis in `dt` microseconds at
/// `speed` units per second.
pub open spec fn travel(axis: int, speed: int, dt: int) -> int {
    axis * capped(speed * dt)
}

/// Turn in microdegrees produced by `acc` micro-pixels of pointer motion over
/// `dt` microseconds at `sensitivity` degrees per pixel per second; symmetric in
/// the sign of `acc`, its magnitude capped at the largest `i64`.
pub open spec fn rotation_step(acc: int, sensitivity: int, dt: int) -> int {
    let magnitude = capped(
        (if acc < 0 {
            -acc
        } else {
            acc
        }) * sensitivity * dt / 1_000_000,
    );
    if acc < 0 {
        -magnitude
    } else {
        magnitude
    }
}

/// Camera orientation in microdegrees. A yaw of zero looks along +X, a yaw of
/// -90 degrees along -Z; positive pitch looks up. The camera's position is a
/// floating-point vector kept by the renderer, which moves it by the `Motion`
/// that each update returns.
#[derive(Clone, Copy, Debug, PartialEq, Eq, Structural)]
pub struct Camera {
    pub yaw: i64,
    pub pitch: i64,
}

impl Camera {
    pub fn new(yaw: i64, pitch: i64) -> (r: Camera)
        ensures
            r.yaw == yaw,
            r.pitch == pitch,
    {
        Camera { yaw, pitch }
    }
}

/// Perspective parameters: aspect ratio as `width : height`, vertical field of
/// view in microdegrees, near and far planes in micro-units.
#[derive(Clone, Copy, Debug, PartialEq, Eq, Structural)]
pub struct Projection {
    pub width: u32,
    pub height: u32,
    pub fovy: u32,
    pub znear: u32,
    pub zfar: u32,
}

impl Projection {
    pub fn new(width: u32, height: u32, fovy: u32, znear: u32, zfar: u32) -> (r: Projection)
        requires
            width > 0,
            height > 0,
        ensures
            r == (Projection { width, height, fovy, znear, zfar }),
    {
        Projection { width, height, fovy, znear, zfar }
    }

    /// Takes the aspect ratio of a new surface size.
    pub fn resize(&mut self, width: u32, height: u32)
        requires
            width > 0,
            height > 0,
        ensures
            *final(self) == (Projection { width, height, ..*old(self) }),
    {
        self.width = width;
        self.height = height;
    }
}

/// The six movement directions that keys drive.
#[derive(Clone, Copy, Debug, PartialEq, Eq, Structural)]
pub enum Direction {
    Forward,
    Backward,
    Left,
    Right,
    Up,
    Down,
}

/// The keys the scene reacts to; every other key is `Other`.
#[derive(Clone, Copy, Debug, PartialEq, Eq, Structural)]
pub enum Key {
    KeyW,
    KeyA,
    KeyS,
    KeyD,
    ArrowUp,
    ArrowDown,
    ArrowLeft,
    ArrowRight,
    Space,
    ShiftLeft,
    KeyL,
    Escape,
    Other,
}

pub open spec fn key_direction(key: Key) -> Option<Direction> {
    match key {
        Key::KeyW | Key::ArrowUp => Some(Direction::Forward),
        Key::KeyS | Key::ArrowDown => Some(Direction::Backward),
        Key::KeyA | Key::ArrowLeft => Some(Direction::Left),
        Key::KeyD | Key::ArrowRight => Some(Direction::Right),
        Key::Space => Some(Direction::Up),
        Key::ShiftLeft => Some(Direction::Down),
        _ => None,
    }
}

/// Distances in micro-units to move along the camera's forward, right and
/// world-up vectors, as they stood before the orientation was updated.
#[derive(Clone, Copy, Debug, PartialEq, Eq, Structural)]
pub struct Motion {
    pub forward: i64,
    pub right: i64,
    pub up: i64,
}

/// What the controller holds, as plain values.
pub struct ControllerView {
    pub forward: bool,
    pub backward: bool,
    pub left: bool,
    pub right: bool,
    pub up: bool,
    pub down: bool,
    pub rotate_horizontal: int,
    pub rotate_vertical: int,
    pub speed: int,
    pub sensitivity: int,
    pub cursor_locked: bool,
}

pub open spec fn with_direction(v: ControllerView, d: Direction, pressed: bool) -> ControllerView {
    match d {
        Direction::Forward => ControllerView { forward: pressed, ..v },
        Direction::Backward => ControllerView { backward: pressed, ..v },
        Direction::Left => ControllerView { left: pressed, ..v },
        Direction::Right => ControllerView { right: pressed, ..v },
        Direction::Up => ControllerView { up: pressed, ..v },
        Direction::Down => ControllerView { down: pressed, ..v },
    }
}

/// The controller after pointer motion of `(dx, dy)` micro-pixels.
pub open spec fn mouse_moved(v: ControllerView, dx: int, dy: int) -> ControllerView {
    ControllerView {
        rotate_horizontal: clamp(v.rotate_horizontal + dx, i64::MIN as int, i64::MAX as int),
        rotate_vertical: clamp(v.rotate_vertical + dy, i64::MIN as int, i64::MAX as int),
        ..v
    }
}

/// The controller after a camera update has applied its pending rotation.
pub open spec fn rotation_consumed(v: ControllerView) -> ControllerView {
    ControllerView { rotate_horizontal: 0, rotate_vertical: 0, ..v }
}

/// Pitch after one update that turns it down by `turn` microdegrees.
pub open spec fn pitch_after(pitch: int, turn: int) -> int {
    clamp(pitch - turn, -SAFE_PITCH, SAFE_PITCH as int)
}

/// Pitch after a sequence of updates, the `k`-th of which turns it down by
/// `turns[k]` microdegrees.
pub open spec fn pitch_after_all(pitch: int, turns: Seq<int>) -> int
    decreases turns.len(),
{
    if turns.len() == 0 {
        pitch
    } else {
        pitch_after_all(pitch_after(pitch, turns[0]), turns.drop_first())
    }
}

/// Whatever the pointer motion, the pending rotation is exactly zero once a
/// camera update has followed it.
pub proof fn lemma_rotation_cleared_after_update(v: ControllerView, dx: int, dy: int)
    ensures
        rotation_consumed(mouse_moved(v, dx, dy)).rotate_horizontal == 0,
        rotation_consumed(mouse_moved(v, dx, dy)).rotate_vertical == 0,
{
}

/// After any non-empty sequence of camera updates, whatever the turns, the
/// pitch lies within `[-SAFE_PITCH, SAFE_PITCH]`; with no update it stays
/// where it started.
pub proof fn lemma_pitch_stays_safe(pitch: int, turns: Seq<int>)
    requires
        turns.len() > 0 || -SAFE_PITCH <= pitch <= SAFE_PITCH,
    ensures
        -SAFE_PITCH <= pitch_after_all(pitch, turns) <= SAFE_PITCH,
    decreases turns.len(),
{
    if turns.len() > 0 {
        lemma_pitch_stays_safe(pitch_after(pitch, turns[0]), turns.drop_first());
    }
}

/// The motion an update of `dt` microseconds produces from the held keys.
pub open spec fn motion_of(v: ControllerView, dt: int) -> Motion {
    Motion {
        forward: travel(axis(v.forward, v.backward), v.speed, dt) as i64,
        right: travel(axis(v.right, v.left), v.speed, dt) as i64,
        up: travel(axis(v.up, v.down), v.speed, dt) as i64,
    }
}

/// The camera after an update of `dt` microseconds has applied the pending
/// rotation: yaw turned right by the horizontal motion, pitch turned up by the
/// vertical motion and clamped.
pub open spec fn camera_after(c: Camera, v: ControllerView, dt: int) -> Camera {
    Camera {
        yaw: clamp(
            c.yaw + rotation_step(v.rotate_horizontal, v.sensitivity, dt),
            i64::MIN as int,
            i64::MAX as int,
        ) as i64,
        pitch: pitch_after(c.pitch as int, rotation_step(v.rotate_vertical, v.sensitivity, dt))
            as i64,
    }
}

/// What a key event asks of the application besides moving the camera.
#[derive(Clone, Copy, Debug, PartialEq, Eq, Structural)]
pub struct KeyResponse {
    /// The escape key was pressed: the application should close.
    pub exit: bool,
    /// The cursor lock was toggled: the window must grab or free the cursor now.
    pub cursor_changed: bool,
    /// The key drives a movement direction.
    pub handled: bool,
}

#[derive(Debug)]
pub struct CameraController {
    forward: bool,
    backward: bool,
    left: bool,
    right: bool,
    up: bool,
    down: bool,
    rotate_horizontal: i64,
    rotate_vertical: i64,
    speed: u32,
    sensitivity: u32,
    cursor_locked: bool,
}

impl View for CameraController {
    type V = ControllerView;

    closed spec fn view(&self) -> ControllerView {
        ControllerView {
            forward: self.forward,
            backward: self.backward,
            left: self.left,
            right: self.right,
            up: self.up,
            down: self.down,
            rotate_horizontal: self.rotate_horizontal as int,
            rotate_vertical: self.rotate_vertical as int,
            speed: self.speed as int,
            sensitivity: self.sensitivity as int,
            cursor_locked: self.cursor_locked,
        }
    }
}

fn rotation_step_exec(acc: i64, sensitivity: u32, dt: u64) -> (r: i64)
    ensures
        r == rotation_step(acc as int, sensitivity as int, dt as int),
{
    let magnitude: u128 = if acc < 0 {
        (0i128 - acc as i128) as u128
    } else {
        acc as u128
    };
    assert(magnitude * sensitivity <= 0x8000_0000_0000_0000 * 0xffff_ffffu128) by (nonlinear_arith)
        requires
            magnitude <= 0x8000_0000_0000_0000,
            sensitivity <= 0xffff_ffff,
    ;
    let p: u128 = magnitude * sensitivity as u128;
    let limit: u128 = i64::MAX as u128;
    let capped_turn: u128 = match p.checked_mul(dt as u128) {
        Some(full) => {
            let turn = full / 1_000_000;
            if turn > limit {
                limit
            } else {
                turn
            }
        },
        None => {
            assert(p * dt / 1_000_000 > i64::MAX) by (nonlinear_arith)
                requires
                    p * dt > u128::MAX,
            ;
            limit
        },
    };
    assert(p * dt == magnitude * sensitivity * dt) by (nonlinear_arith)
        requires
            p == magnitude * sensitivity,
    ;
    if acc < 0 {
        0i64 - capped_turn as i64
    } else {
        capped_turn as i64
    }
}

fn travel_exec(positive: bool, negative: bool, speed: u32, dt: u64) -> (r: i64)
    ensures
        r == travel(axis(positive, negative), speed as int, dt as int),
{
    assert(speed * dt <= 0xffff_ffffu128 * 0xffff_ffff_ffff_ffffu128) by (nonlinear_arith)
        requires
            speed <= 0xffff_ffff,
            dt <= 0xffff_ffff_ffff_ffff,
    ;
    let full: u128 = speed as u128 * dt as u128;
    let distance: i64 = if full > i64::MAX as u128 {
        i64::MAX
    } else {
        full as i64
    };
    assert(distance == capped(speed * dt));
    let ghost a = axis(positive, negative);
    assert(a == 1 || a == 0 || a == -1);
    assert(a * distance == if a == 1 {
        distance as int
    } else if a == -1 {
        -distance
    } else {
        0
    }) by (nonlinear_arith)
        requires
            a == 1 || a == 0 || a == -1,
    ;
    if positive && !negative {
        distance
    } else if negative && !positive {
        0i64 - distance
    } else {
        0
    }
}

impl CameraController {
    /// A controller at rest, with no key held, no pending rotation and the
    /// cursor free.
    pub fn new(speed: u32, sensitivity: u32) -> (r: CameraController)
        ensures
            r@ == (ControllerView {
                forward: false,
                backward: false,
                left: false,
                right: false,
                up: false,
                down: false,
                rotate_horizontal: 0,
                rotate_vertical: 0,
                speed: speed as int,
                sensitivity: sensitivity as int,
                cursor_locked: false,
            }),
    {
        CameraController {
            forward: false,
            backward: false,
            left: false,
            right: false,
            up: false,
            down: false,
            rotate_horizontal: 0,
            rotate_vertical: 0,
            speed,
            sensitivity,
            cursor_locked: false,
        }
    }

    /// Sets the direction flag that `key` drives to `pressed`. Returns whether
    /// the key drives a direction; any other key changes nothing.
    pub fn process_keyboard(&mut self, key: Key, pressed: bool) -> (handled: bool)
        ensures
            handled == key_direction(key).is_some(),
            final(self)@ == (match key_direction(key) {
                Some(d) => with_direction(old(self)@, d, pressed),
                None => old(self)@,
            }),
    {
        match key {
            Key::KeyW | Key::ArrowUp => {
                self.forward = pressed;
                true
            },
            Key::KeyS | Key::ArrowDown => {
                self.backward = pressed;
                true
            },
            Key::KeyA | Key::ArrowLeft => {
                self.left = pressed;
                true
            },
            Key::KeyD | Key::ArrowRight => {
                self.right = pressed;
                true
            },
            Key::Space => {
                self.up = pressed;
                true
            },
            Key::ShiftLeft => {
                self.down = pressed;
                true
            },
            _ => false,
        }
    }

    /// Adds pointer motion, in micro-pixels, to the pending rotation. Nothing is
    /// clamped but at the limits of `i64`.
    pub fn handle_mouse(&mut self, mouse_dx: i64, mouse_dy: i64)
        ensures
            final(self)@ == mouse_moved(old(self)@, mouse_dx as int, mouse_dy as int),
    {
        self.rotate_horizontal = saturating_sum(self.rotate_horizontal, mouse_dx);
        self.rotate_vertical = saturating_sum(self.rotate_vertical, mouse_dy);
    }

    /// The pointer motion not yet applied, horizontal then vertical, in
    /// micro-pixels.
    pub fn pending_rotation(&self) -> (r: (i64, i64))
        ensures
            r.0 == self@.rotate_horizontal,
            r.1 == self@.rotate_vertical,
    {
        (self.rotate_horizontal, self.rotate_vertical)
    }

    pub fn cursor_locked(&self) -> (r: bool)
        ensures
            r == self@.cursor_locked,
    {
        self.cursor_locked
    }

    pub fn swap_cursor_locked(&mut self)
        ensures
            final(self)@ == (ControllerView {
                cursor_locked: !old(self)@.cursor_locked,
                ..old(self)@
            }),
    {
        self.cursor_locked = !self.cursor_locked;
    }

    /// Dispatches a key event: escape asks to close, a press of `L` toggles the
    /// cursor lock, and movement keys set their direction flag.
    pub fn handle_key(&mut self, key: Key, pressed: bool) -> (r: KeyResponse)
        ensures
            r.exit == (key == Key::Escape && pressed),
            r.cursor_changed == (key == Key::KeyL && pressed),
            r.handled == key_direction(key).is_some(),
            final(self)@ == (match key_direction(key) {
                Some(d) => with_direction(old(self)@, d, pressed),
                None => if key == Key::KeyL && pressed {
                    ControllerView { cursor_locked: !old(self)@.cursor_locked, ..old(self)@ }
                } else {
                    old(self)@
                },
            }),
    {
        let exit = key == Key::Escape && pressed;
        let cursor_changed = key == Key::KeyL && pressed;
        if cursor_changed {
            self.swap_cursor_locked();
        }
        let handled = self.process_keyboard(key, pressed);
        KeyResponse { exit, cursor_changed, handled }
    }

    /// Advances the camera by `dt` microseconds: returns the motion along the
    /// camera's axes as they stood before the call, turns the camera by the
    /// pending rotation, clears the pending rotation and clamps the pitch.
    pub fn update_camera(&mut self, camera: &mut Camera, dt: u64) -> (m: Motion)
        ensures
            m == motion_of(old(self)@, dt as int),
            *final(camera) == camera_after(*old(camera), old(self)@, dt as int),
            -SAFE_PITCH <= final(camera).pitch <= SAFE_PITCH,
            final(self)@ == rotation_consumed(old(self)@),
    {
        let motion = Motion {
            forward: travel_exec(self.forward, self.backward, self.speed, dt),
            right: travel_exec(self.right, self.left, self.speed, dt),
            up: travel_exec(self.up, self.down, self.speed, dt),
        };
        let yaw_turn = rotation_step_exec(self.rotate_horizontal, self.sensitivity, dt);
        let pitch_turn = rotation_step_exec(self.rotate_vertical, self.sensitivity, dt);
        camera.yaw = saturating_sum(camera.yaw, yaw_turn);
        let pitch: i128 = camera.pitch as i128 - pitch_turn as i128;
        camera.pitch = if pitch < -(SAFE_PITCH as i128) {
            -SAFE_PITCH
        } else if pitch > SAFE_PITCH as i128 {
            SAFE_PITCH
        } else {
            pitch as i64
        };
        self.rotate_horizontal = 0;
        self.rotate_vertical = 0;
        motion
    }
}

/// `a + b`, held to the range of `i64`.
fn saturating_sum(a: i64, b: i64) -> (r: i64)
    ensures
        r == clamp(a + b, i64::MIN as int, i64::MAX as int),
{
    let s: i128 = a as i128 + b as i128;
    if s < i64::MIN as i128 {
        i64::MIN
    } else if s > i64::MAX as i128 {
        i64::MAX
    } else {
        s as i64
    }
}

} // verus!
