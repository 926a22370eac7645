//! The camera, its projection, and the controller that turns input into motion.
//!
//! Angles are whole billionths of a degree. Yaw is kept within half a turn of
//! zero, pitch within `PITCH_LIMIT` of level, so the view never flips over.
//! Time is counted in microseconds.

use vstd::prelude::*;
use crate::units::Vec3;

verus! {

/// Steepest pitch, up or down: 89 degrees.
pub const PITCH_LIMIT: i64 = 89_000_000_000;

/// Half a turn: 180 degrees.
pub const HALF_TURN: i64 = 180_000_000_000;

/// A full turn: 360 degrees.
pub const FULL_TURN: i64 = 360_000_000_000;

/// `angle` held to the allowed pitch range.
pub open spec fn clamp_pitch(angle: int) -> int {
    if angle < -PITCH_LIMIT {
        -PITCH_LIMIT as int
    } else if angle > PITCH_LIMIT {
        PITCH_LIMIT as int
    } else {
        angle
    }
}

/// The angle in `[-HALF_TURN, HALF_TURN)` that differs from `angle` by whole turns.
pub open spec fn wrap_yaw(angle: int) -> int {
    (angle + HALF_TURN) % (FULL_TURN as int) - HALF_TURN
}

/// `value` held to the range of `i32`.
pub open spec fn saturate(value: int) -> int {
    if value < i32::MIN {
        i32::MIN as int
    } else if value > i32::MAX {
        i32::MAX as int
    } else {
        value
    }
}

/// Where the viewer stands and which way they look.
#[derive(Clone, Copy, Debug, PartialEq, Eq, Structural)]
pub struct Camera {
    pub eye: Vec3,
    pub yaw: i64,
    pub pitch: i64,
}

impl Camera {
    /// Yaw and pitch are within their ranges.
    pub open spec fn wf(&self) -> bool {
        &&& -HALF_TURN <= self.yaw < HALF_TURN
        &&& -PITCH_LIMIT <= self.pitch <= PITCH_LIMIT
    }

    /// A camera at `eye`, looking along `yaw` and `pitch`, each brought into
    /// its range.
    pub fn new(eye: Vec3, yaw: i64, pitch: i64) -> (camera: Self)
        ensures
            camera.eye == eye,
            camera.yaw == wrap_yaw(yaw as int),
            camera.pitch == clamp_pitch(pitch as int),
            camera.wf(),
    {
        Camera { eye, yaw: wrap_angle(yaw as i128), pitch: clamp_angle(pitch as i128) }
    }
}

/// Brings an angle into the yaw range.
fn wrap_angle(angle: i128) -> (wrapped: i64)
    requires
        i128::MIN + HALF_TURN <= angle <= i128::MAX - HALF_TURN,
    ensures
        wrapped == wrap_yaw(angle as int),
{
    let rest: i128 = (angle + HALF_TURN as i128) % (FULL_TURN as i128);
    let turned: i128 = if rest < 0 {
        rest + FULL_TURN as i128
    } else {
        rest
    };
    (turned - HALF_TURN as i128) as i64
}

/// Brings an angle into the pitch range.
fn clamp_angle(angle: i128) -> (clamped: i64)
    ensures
        clamped == clamp_pitch(angle as int),
{
    if angle < -(PITCH_LIMIT as i128) {
        -PITCH_LIMIT
    } else if angle > PITCH_LIMIT as i128 {
        PITCH_LIMIT
    } else {
        angle as i64
    }
}

/// The shape of the view volume. The aspect ratio is `width / height`.
#[derive(Clone, Copy, Debug, PartialEq, Eq, Structural)]
pub struct Projection {
    pub width: u32,
    pub height: u32,
    /// Vertical field of view, in billionths of a degree.
    pub fovy: u64,
    /// Near plane, in thousandths of a unit.
    pub znear: u32,
    /// Far plane, in thousandths of a unit.
    pub zfar: u32,
}

/// `projection` with its aspect taken from a surface of `width` by `height`,
/// or unchanged where either is zero.
pub open spec fn resized(projection: Projection, width: u32, height: u32) -> Projection {
    if width > 0 && height > 0 {
        Projection { width, height, ..projection }
    } else {
        projection
    }
}

impl Projection {
    /// The aspect ratio is defined: neither side is zero.
    pub open spec fn wf(&self) -> bool {
        self.width > 0 && self.height > 0
    }

    /// Both projections have the same aspect ratio.
    pub open spec fn same_aspect(&self, other: Projection) -> bool {
        self.width * other.height == other.width * self.height
    }

    /// A projection for a surface of `width` by `height`; none where either is
    /// zero, as no aspect ratio exists then.
    pub fn new(width: u32, height: u32, fovy: u64, znear: u32, zfar: u32) -> (projection: Option<
        Self,
    >)
        ensures
            projection.is_some() <==> width > 0 && height > 0,
            projection.is_some() ==> projection.unwrap() == (Projection {
                width,
                height,
                fovy,
                znear,
                zfar,
            }),
    {
        if width > 0 && height > 0 {
            Some(Projection { width, height, fovy, znear, zfar })
        } else {
            None
        }
    }

    /// Takes the aspect of a surface of `width` by `height`. A size with a zero
    /// side is ignored, and the aspect stays as it was.
    pub fn resize(&mut self, width: u32, height: u32)
        ensures
            *final(self) == resized(*old(self), width, height),
            old(self).wf() ==> final(self).wf(),
            (width == 0 || height == 0) ==> final(self).same_aspect(*old(self)),
    {
        if width > 0 && height > 0 {
            self.width = width;
            self.height = height;
        }
    }
}

/// The keys that the scene tells apart.
#[derive(Clone, Copy, Debug, PartialEq, Eq, Structural)]
pub enum Key {
    W,
    A,
    S,
    D,
    Up,
    Down,
    Left,
    Right,
    Space,
    LShift,
    Escape,
    Other,
}

/// The direction of motion that a key stands for.
#[derive(Clone, Copy, Debug, PartialEq, Eq, Structural)]
pub enum Direction {
    Forward,
    Backward,
    Left,
    Right,
    Up,
    Down,
}

/// The direction bound to `key`, if it is a motion key.
pub open spec fn direction_of(key: Key) -> Option<Direction> {
    match key {
        Key::W | Key::Up => Some(Direction::Forward),
        Key::S | Key::Down => Some(Direction::Backward),
        Key::A | Key::Left => Some(Direction::Left),
        Key::D | Key::Right => Some(Direction::Right),
        Key::Space => Some(Direction::Up),
        Key::LShift => Some(Direction::Down),
        Key::Escape | Key::Other => None,
    }
}

/// What the camera is to do in one tick, beyond turning: how far to travel
/// along its own axes, in billionths of a unit.
#[derive(Clone, Copy, Debug, PartialEq, Eq, Structural)]
pub struct Motion {
    /// Along the level view direction; backward if negative.
    pub forward: i128,
    /// To the right of the view direction; left if negative.
    pub right: i128,
    /// Straight up; down if negative.
    pub up: i128,
    /// Along the line of sight, from the scroll wheel.
    pub zoom: i128,
}

/// Input gathered since the last tick, and the rates it is applied at.
#[derive(Clone, Copy, Debug, PartialEq, Eq, Structural)]
pub struct CameraController {
    /// Travel in thousandths of a unit per second.
    pub speed: u32,
    /// Turn in billionths of a degree per pointer step and microsecond.
    pub sensitivity: u32,
    pub forward: bool,
    pub backward: bool,
    pub left: bool,
    pub right: bool,
    pub up: bool,
    pub down: bool,
    /// Pointer travel to the right since the last tick.
    pub rotate_horizontal: i32,
    /// Pointer travel downward since the last tick.
    pub rotate_vertical: i32,
    /// Scroll since the last tick.
    pub scroll: i32,
}

/// The unit velocity along one axis: the key for its positive direction
/// against the key for its negative one.
pub open spec fn axis(positive: bool, negative: bool) -> int {
    (if positive { 1int } else { 0int }) - (if negative { 1int } else { 0int })
}

/// The controller after `direction`'s key went down or up.
pub open spec fn with_direction(
    controller: CameraController,
    direction: Direction,
    pressed: bool,
) -> CameraController {
    match direction {
        Direction::Forward => CameraController { forward: pressed, ..controller },
        Direction::Backward => CameraController { backward: pressed, ..controller },
        Direction::Left => CameraController { left: pressed, ..controller },
        Direction::Right => CameraController { right: pressed, ..controller },
        Direction::Up => CameraController { up: pressed, ..controller },
        Direction::Down => CameraController { down: pressed, ..controller },
    }
}

/// The controller after a key event: a motion key sets its direction, any
/// other key changes nothing.
pub open spec fn after_key(controller: CameraController, key: Key, pressed: bool)
    -> CameraController {
    match direction_of(key) {
        Some(direction) => with_direction(controller, direction, pressed),
        None => controller,
    }
}

/// The controller after a tick: what was gathered is spent, held keys stay held.
pub open spec fn after_tick(controller: CameraController) -> CameraController {
    CameraController { rotate_horizontal: 0, rotate_vertical: 0, scroll: 0, ..controller }
}

/// The travel that a tick of `dt` microseconds asks for.
pub open spec fn motion_of(controller: CameraController, dt: u32) -> Motion {
    Motion {
        forward: (axis(controller.forward, controller.backward) * controller.speed * dt) as i128,
        right: (axis(controller.right, controller.left) * controller.speed * dt) as i128,
        up: (axis(controller.up, controller.down) * controller.speed * dt) as i128,
        zoom: (controller.scroll * controller.speed * dt) as i128,
    }
}

/// The camera after a tick of `dt` microseconds: turned by the pointer travel,
/// pitch held to its range, eye untouched.
pub open spec fn turned(camera: Camera, controller: CameraController, dt: u32) -> Camera {
    Camera {
        eye: camera.eye,
        yaw: wrap_yaw(camera.yaw + controller.rotate_horizontal * controller.sensitivity * dt) as i64,
        pitch: clamp_pitch(
            camera.pitch - controller.rotate_vertical * controller.sensitivity * dt,
        ) as i64,
    }
}

/// The direction bound to `key`, if it is a motion key.
fn direction(key: Key) -> (found: Option<Direction>)
    ensures
        found == direction_of(key),
{
    match key {
        Key::W | Key::Up => Some(Direction::Forward),
        Key::S | Key::Down => Some(Direction::Backward),
        Key::A | Key::Left => Some(Direction::Left),
        Key::D | Key::Right => Some(Direction::Right),
        Key::Space => Some(Direction::Up),
        Key::LShift => Some(Direction::Down),
        Key::Escape | Key::Other => None,
    }
}

/// The sum of two pointer or scroll amounts, held to the range of `i32`.
fn accumulate(total: i32, delta: i32) -> (sum: i32)
    ensures
        sum == saturate(total + delta),
{
    let wide: i64 = total as i64 + delta as i64;
    if wide < i32::MIN as i64 {
        i32::MIN
    } else if wide > i32::MAX as i64 {
        i32::MAX
    } else {
        wide as i32
    }
}

/// The product of an amount, a rate and a time.
fn scaled(amount: i32, rate: u32, dt: u32) -> (product: i128)
    ensures
        product == amount * rate * dt,
        -0x8000_0000_0000_0000_0000_0000 <= product <= 0x8000_0000_0000_0000_0000_0000,
{
    assert(-0x8000_0000_0000_0000 <= amount * rate <= 0x8000_0000_0000_0000) by (nonlinear_arith)
        requires
            -0x8000_0000 <= amount <= 0x8000_0000,
            0 <= rate <= 0x1_0000_0000,
    ;
    let first: i128 = amount as i128 * rate as i128;
    assert(-0x8000_0000_0000_0000_0000_0000 <= first * dt <= 0x8000_0000_0000_0000_0000_0000)
        by (nonlinear_arith)
        requires
            -0x8000_0000_0000_0000 <= first <= 0x8000_0000_0000_0000,
            0 <= dt <= 0x1_0000_0000,
    ;
    first * dt as i128
}

/// The unit velocity along one axis.
fn axis_of(positive: bool, negative: bool) -> (unit: i32)
    ensures
        unit == axis(positive, negative),
{
    let forth: i32 = if positive { 1 } else { 0 };
    let back: i32 = if negative { 1 } else { 0 };
    forth - back
}

impl CameraController {
    /// A controller at rest, with nothing gathered.
    pub fn new(speed: u32, sensitivity: u32) -> (controller: Self)
        ensures
            controller == (CameraController {
                speed,
                sensitivity,
                forward: false,
                backward: false,
                left: false,
                right: false,
                up: false,
                down: false,
                rotate_horizontal: 0,
                rotate_vertical: 0,
                scroll: 0,
            }),
    {
        CameraController {
            speed,
            sensitivity,
            forward: false,
            backward: false,
            left: false,
            right: false,
            up: false,
            down: false,
            rotate_horizontal: 0,
            rotate_vertical: 0,
            scroll: 0,
        }
    }

    /// Takes a key going down or up. A motion key starts or stops travel in its
    /// direction and is reported as handled; any other key is left alone.
    pub fn process_keyboard(&mut self, key: Key, pressed: bool) -> (handled: bool)
        ensures
            handled == direction_of(key).is_some(),
            *final(self) == after_key(*old(self), key, pressed),
    {
        match direction(key) {
            Some(Direction::Forward) => {
                self.forward = pressed;
                true
            },
            Some(Direction::Backward) => {
                self.backward = pressed;
                true
            },
            Some(Direction::Left) => {
                self.left = pressed;
                true
            },
            Some(Direction::Right) => {
                self.right = pressed;
                true
            },
            Some(Direction::Up) => {
                self.up = pressed;
                true
            },
            Some(Direction::Down) => {
                self.down = pressed;
                true
            },
            None => false,
        }
    }

    /// Adds pointer travel to what was gathered, each sum held to `i32`.
    pub fn process_mouse(&mut self, dx: i32, dy: i32)
        ensures
            *final(self) == (CameraController {
                rotate_horizontal: saturate(old(self).rotate_horizontal + dx) as i32,
                rotate_vertical: saturate(old(self).rotate_vertical + dy) as i32,
                ..*old(self)
            }),
    {
        self.rotate_horizontal = accumulate(self.rotate_horizontal, dx);
        self.rotate_vertical = accumulate(self.rotate_vertical, dy);
    }

    /// Adds scroll to what was gathered, the sum held to `i32`.
    pub fn process_scroll(&mut self, delta: i32)
        ensures
            *final(self) == (CameraController {
                scroll: saturate(old(self).scroll + delta) as i32,
                ..*old(self)
            }),
    {
        self.scroll = accumulate(self.scroll, delta);
    }

    /// Spends what was gathered over a tick of `dt` microseconds: turns the
    /// camera, reports the travel asked for, and clears pointer travel and
    /// scroll. Held keys stay held.
    pub fn update_camera(&mut self, camera: &mut Camera, dt: u32) -> (motion: Motion)
        ensures
            *final(camera) == turned(*old(camera), *old(self), dt),
            final(camera).wf(),
            *final(self) == after_tick(*old(self)),
            motion == motion_of(*old(self), dt),
    {
        let yaw_turn: i128 = scaled(self.rotate_horizontal, self.sensitivity, dt);
        let pitch_turn: i128 = scaled(self.rotate_vertical, self.sensitivity, dt);
        camera.yaw = wrap_angle(camera.yaw as i128 + yaw_turn);
        camera.pitch = clamp_angle(camera.pitch as i128 - pitch_turn);
        let motion = Motion {
            forward: scaled(axis_of(self.forward, self.backward), self.speed, dt),
            right: scaled(axis_of(self.right, self.left), self.speed, dt),
            up: scaled(axis_of(self.up, self.down), self.speed, dt),
            zoom: scaled(self.scroll, self.speed, dt),
        };
        self.rotate_horizontal = 0;
        self.rotate_vertical = 0;
        self.scroll = 0;
        motion
    }
}

} // verus!
