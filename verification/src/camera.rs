//! The free-flying camera: where it stands and looks, the lens, and the
//! controller that turns input into motion once per frame.
//!
//! Lengths, angles (radians), seconds, speeds and pointer distances are
//! fixed-point numbers: see [`crate::fixed`].

use crate::fixed::{
    bounded, clamp, plus, product, product_with_zero, sum, times, Vector3, UNIT,
};
use vstd::prelude::*;

verus! {

/// A quarter turn, π/2, rounded down to a whole number of millionths of a
/// radian.
pub const QUARTER_TURN: i64 = 1_570_796;

/// The steepest pitch the camera takes, up or down: a ten-thousandth of a
/// radian short of a quarter turn.
pub const PITCH_LIMIT: i64 = 1_570_696;

/// The eye: its place, and the angles it looks along.
#[derive(Clone, Copy, Debug, PartialEq, Eq, Structural)]
pub struct Camera {
    pub position: Vector3,
    pub yaw: i64,
    pub pitch: i64,
}

/// The sines and cosines of a camera's two angles, as fixed-point numbers.
#[derive(Clone, Copy, Debug, PartialEq, Eq, Structural)]
pub struct Heading {
    pub yaw_sin: i64,
    pub yaw_cos: i64,
    pub pitch_sin: i64,
    pub pitch_cos: i64,
}

/// The lens. The aspect ratio is the exact fraction `width / height`.
#[derive(Clone, Copy, Debug, PartialEq, Eq, Structural)]
pub struct Projection {
    pub width: u32,
    pub height: u32,
    pub fovy: i64,
    pub znear: i64,
    pub zfar: i64,
}

/// The keys a shell may report.
#[derive(Clone, Copy, Debug, PartialEq, Eq, Structural)]
pub enum Key {
    W,
    A,
    S,
    D,
    Up,
    Down,
    Left,
    Right,
    Space,
    LShift,
    Other,
}

/// What a wheel or a trackpad reports: whole lines, or pixels.
#[derive(Clone, Copy, Debug, PartialEq, Eq, Structural)]
pub enum ScrollDelta {
    Lines(i64),
    Pixels(i64),
}

/// Input gathered since the last frame, and how strongly it acts.
#[derive(Clone, Copy, Debug, PartialEq, Eq, Structural)]
pub struct CameraController {
    pub forward: bool,
    pub backward: bool,
    pub left: bool,
    pub right: bool,
    pub up: bool,
    pub down: bool,
    pub rotate_horizontal: i64,
    pub rotate_vertical: i64,
    pub scroll: i64,
    pub speed: i64,
    pub sensitivity: i64,
}

/// The intent that a key carries: one while it is held, else nothing.
pub open spec fn amount(held: bool) -> int {
    if held {
        UNIT as int
    } else {
        0
    }
}

/// The intent along an axis with a key for either direction.
pub open spec fn intent(ahead: bool, back: bool) -> i64 {
    (amount(ahead) - amount(back)) as i64
}

/// A span of microseconds as fixed-point seconds.
pub open spec fn elapsed(dt_micros: u64) -> i64 {
    if dt_micros > i64::MAX {
        i64::MAX
    } else {
        dt_micros as i64
    }
}

/// Pixels that one line of a wheel counts for.
pub const PIXELS_PER_LINE: i64 = 100;

impl Camera {
    /// A camera at `position` that looks along `yaw` and `pitch`.
    pub fn new(position: Vector3, yaw: i64, pitch: i64) -> (camera: Camera)
        ensures
            camera == (Camera { position, yaw, pitch }),
    {
        Camera { position, yaw, pitch }
    }

    /// The pitch is no steeper than the limit, and so strictly less than a
    /// quarter turn either way.
    pub open spec fn pitch_within_limit(self) -> bool {
        -PITCH_LIMIT <= self.pitch <= PITCH_LIMIT
    }
}

impl Projection {
    /// A lens for a surface of `width` by `height` pixels.
    pub fn new(width: u32, height: u32, fovy: i64, znear: i64, zfar: i64) -> (p: Projection)
        ensures
            p == (Projection { width, height, fovy, znear, zfar }),
    {
        Projection { width, height, fovy, znear, zfar }
    }

    /// The aspect ratio is the fraction `numerator / denominator`.
    pub open spec fn aspect_is(self, numerator: int, denominator: int) -> bool {
        &&& self.height != 0
        &&& denominator != 0
        &&& self.width * denominator == numerator * self.height
    }

    /// The lens after a change of size: a height of nothing changes nothing.
    pub open spec fn resized(self, width: u32, height: u32) -> Projection {
        if height == 0 {
            self
        } else {
            Projection { width, height, ..self }
        }
    }

    /// Takes the aspect ratio of a surface of `width` by `height` pixels. A
    /// height of nothing has no aspect ratio and is passed over.
    pub fn resize(&mut self, width: u32, height: u32)
        ensures
            *final(self) == old(self).resized(width, height),
            height == 0 ==> *final(self) == *old(self),
            height != 0 ==> final(self).aspect_is(width as int, height as int),
    {
        if height != 0 {
            self.width = width;
            self.height = height;
        }
    }
}

impl CameraController {
    /// A controller at rest.
    pub fn new(speed: i64, sensitivity: i64) -> (c: CameraController)
        ensures
            c == (CameraController {
                forward: false,
                backward: false,
                left: false,
                right: false,
                up: false,
                down: false,
                rotate_horizontal: 0,
                rotate_vertical: 0,
                scroll: 0,
                speed,
                sensitivity,
            }),
    {
        CameraController {
            forward: false,
            backward: false,
            left: false,
            right: false,
            up: false,
            down: false,
            rotate_horizontal: 0,
            rotate_vertical: 0,
            scroll: 0,
            speed,
            sensitivity,
        }
    }

    /// The key steers the camera.
    pub open spec fn steers(key: Key) -> bool {
        key != Key::Other
    }

    /// The controller after `key` went down (`pressed`) or up.
    pub open spec fn keyed(self, key: Key, pressed: bool) -> CameraController {
        match key {
            Key::W | Key::Up => CameraController { forward: pressed, ..self },
            Key::S | Key::Down => CameraController { backward: pressed, ..self },
            Key::A | Key::Left => CameraController { left: pressed, ..self },
            Key::D | Key::Right => CameraController { right: pressed, ..self },
            Key::Space => CameraController { up: pressed, ..self },
            Key::LShift => CameraController { down: pressed, ..self },
            Key::Other => self,
        }
    }

    /// The pixels that a wheel movement counts for. Rolling away from the
    /// user counts as negative.
    pub open spec fn wheel_pixels(delta: ScrollDelta) -> i64 {
        match delta {
            ScrollDelta::Lines(lines) => product(lines, (-PIXELS_PER_LINE * UNIT) as i64),
            ScrollDelta::Pixels(pixels) => product(pixels, (-UNIT) as i64),
        }
    }

    /// The controller after a wheel movement.
    pub open spec fn scrolled(self, delta: ScrollDelta) -> CameraController {
        CameraController { scroll: sum(self.scroll, Self::wheel_pixels(delta)), ..self }
    }

    /// The controller after the pointer moved by `dx` and `dy`.
    pub open spec fn turned(self, dx: i64, dy: i64) -> CameraController {
        CameraController {
            rotate_horizontal: sum(self.rotate_horizontal, dx),
            rotate_vertical: sum(self.rotate_vertical, dy),
            ..self
        }
    }

    /// The controller after a frame has used up what was gathered: the turn
    /// and the scroll are gone, the held keys stay.
    pub open spec fn consumed(self) -> CameraController {
        CameraController { rotate_horizontal: 0, rotate_vertical: 0, scroll: 0, ..self }
    }

    /// Nothing is waiting to be applied.
    pub open spec fn at_rest(self) -> bool {
        self.rotate_horizontal == 0 && self.rotate_vertical == 0 && self.scroll == 0
    }

    /// The distance covered in `dt_micros` by a key held all the while.
    pub open spec fn travel(self, dt_micros: u64) -> i64 {
        product(self.speed, elapsed(dt_micros))
    }

    /// The distance covered in `dt_micros` along the line of sight.
    pub open spec fn zoom(self, dt_micros: u64) -> i64 {
        product(product(self.scroll, self.sensitivity), self.travel(dt_micros))
    }

    /// The eye's place after `dt_micros`: forwards and sideways along the
    /// yaw, along the line of sight by the scroll, then straight up or down.
    pub open spec fn moved(self, p: Vector3, h: Heading, dt_micros: u64) -> Vector3 {
        let travel = self.travel(dt_micros);
        let zoom = self.zoom(dt_micros);
        let ahead = intent(self.forward, self.backward);
        let aside = intent(self.right, self.left);
        let across = intent(self.left, self.right);
        let above = intent(self.up, self.down);
        Vector3 {
            x: sum(
                sum(
                    sum(p.x, product(product(h.yaw_cos, ahead), travel)),
                    product(product(h.yaw_sin, across), travel),
                ),
                product(product(h.pitch_cos, h.yaw_cos), zoom),
            ),
            y: sum(sum(p.y, product(h.pitch_sin, zoom)), product(above, travel)),
            z: sum(
                sum(
                    sum(p.z, product(product(h.yaw_sin, ahead), travel)),
                    product(product(h.yaw_cos, aside), travel),
                ),
                product(product(h.pitch_cos, h.yaw_sin), zoom),
            ),
        }
    }

    /// The yaw after `dt_micros`.
    pub open spec fn swung(self, yaw: i64, dt_micros: u64) -> i64 {
        sum(yaw, product(product(self.rotate_horizontal, self.sensitivity), elapsed(dt_micros)))
    }

    /// The pitch after `dt_micros`: a pointer that moves down tips the camera
    /// down, and the limit holds.
    pub open spec fn tipped(self, pitch: i64, dt_micros: u64) -> i64 {
        bounded(
            sum(
                pitch,
                product(
                    product(self.rotate_vertical, product(self.sensitivity, (-UNIT) as i64)),
                    elapsed(dt_micros),
                ),
            ),
            PITCH_LIMIT,
        )
    }

    /// The camera after `dt_micros` under this controller.
    pub open spec fn advanced(self, camera: Camera, h: Heading, dt_micros: u64) -> Camera {
        Camera {
            position: self.moved(camera.position, h, dt_micros),
            yaw: self.swung(camera.yaw, dt_micros),
            pitch: self.tipped(camera.pitch, dt_micros),
        }
    }

    /// Notes that `key` went down (`pressed`) or up, and says whether the key
    /// steers the camera. W and Up go forwards, S and Down backwards, A and
    /// Left to the left, D and Right to the right, Space up, LShift down.
    pub fn process_keyboard(&mut self, key: Key, pressed: bool) -> (used: bool)
        ensures
            used == Self::steers(key),
            *final(self) == old(self).keyed(key, pressed),
    {
        match key {
            Key::W | Key::Up => {
                self.forward = pressed;
                true
            },
            Key::S | Key::Down => {
                self.backward = pressed;
                true
            },
            Key::A | Key::Left => {
                self.left = pressed;
                true
            },
            Key::D | Key::Right => {
                self.right = pressed;
                true
            },
            Key::Space => {
                self.up = pressed;
                true
            },
            Key::LShift => {
                self.down = pressed;
                true
            },
            Key::Other => false,
        }
    }

    /// Adds a wheel movement to the scroll, lines counted as pixels.
    pub fn process_scroll(&mut self, delta: &ScrollDelta)
        ensures
            *final(self) == old(self).scrolled(*delta),
    {
        let pixels: i64 = match delta {
            ScrollDelta::Lines(lines) => times(*lines, -100_000_000),
            ScrollDelta::Pixels(pixels) => times(*pixels, -1_000_000),
        };
        self.scroll = plus(self.scroll, pixels);
    }

    /// Adds a pointer movement to the turn.
    pub fn process_mouse(&mut self, dx: i64, dy: i64)
        ensures
            *final(self) == old(self).turned(dx, dy),
    {
        self.rotate_horizontal = plus(self.rotate_horizontal, dx);
        self.rotate_vertical = plus(self.rotate_vertical, dy);
    }

    /// Moves and turns the camera by what was gathered, for a frame of
    /// `dt_micros` microseconds, and forgets the turn and the scroll.
    /// `heading` holds the sines and cosines of the camera's angles as they
    /// are before the call.
    pub fn update_camera(&mut self, camera: &mut Camera, heading: &Heading, dt_micros: u64)
        ensures
            *final(camera) == old(self).advanced(*old(camera), *heading, dt_micros),
            *final(self) == old(self).consumed(),
            final(self).at_rest(),
            final(camera).pitch_within_limit(),
    {
        let dt: i64 = if dt_micros > 0x7fff_ffff_ffff_ffff {
            0x7fff_ffff_ffff_ffff
        } else {
            dt_micros as i64
        };
        let travel: i64 = times(self.speed, dt);
        let zoom: i64 = times(times(self.scroll, self.sensitivity), travel);
        let ahead: i64 = held(self.forward) - held(self.backward);
        let aside: i64 = held(self.right) - held(self.left);
        let across: i64 = held(self.left) - held(self.right);
        let above: i64 = held(self.up) - held(self.down);

        let p: Vector3 = camera.position;
        let x: i64 = plus(
            plus(
                plus(p.x, times(times(heading.yaw_cos, ahead), travel)),
                times(times(heading.yaw_sin, across), travel),
            ),
            times(times(heading.pitch_cos, heading.yaw_cos), zoom),
        );
        let y: i64 = plus(plus(p.y, times(heading.pitch_sin, zoom)), times(above, travel));
        let z: i64 = plus(
            plus(
                plus(p.z, times(times(heading.yaw_sin, ahead), travel)),
                times(times(heading.yaw_cos, aside), travel),
            ),
            times(times(heading.pitch_cos, heading.yaw_sin), zoom),
        );
        camera.position = Vector3 { x, y, z };

        camera.yaw = plus(camera.yaw, times(times(self.rotate_horizontal, self.sensitivity), dt));
        let tip: i64 = times(
            times(self.rotate_vertical, times(self.sensitivity, -1_000_000)),
            dt,
        );
        camera.pitch = clamp(plus(camera.pitch, tip), PITCH_LIMIT);

        self.rotate_horizontal = 0;
        self.rotate_vertical = 0;
        self.scroll = 0;
    }
}

/// One while the key is held, else nothing.
fn held(key: bool) -> (a: i64)
    ensures
        a == amount(key),
{
    if key {
        UNIT
    } else {
        0
    }
}

/// The limit on the pitch lies strictly inside a quarter turn.
pub proof fn limit_short_of_quarter_turn(camera: Camera)
    requires
        camera.pitch_within_limit(),
    ensures
        -QUARTER_TURN < camera.pitch < QUARTER_TURN,
{
}

/// A frame that takes no time moves nothing: the eye stays where it is, the
/// yaw stays, and the pitch changes only if it lay beyond the limit.
pub proof fn no_time_no_motion(c: CameraController, camera: Camera, h: Heading)
    ensures
        c.advanced(camera, h, 0).position == camera.position,
        c.advanced(camera, h, 0).yaw == camera.yaw,
        c.advanced(camera, h, 0).pitch == bounded(camera.pitch, PITCH_LIMIT),
        camera.pitch_within_limit() ==> c.advanced(camera, h, 0) == camera,
{
    let travel = c.travel(0);
    let zoom = c.zoom(0);
    product_with_zero(c.speed);
    product_with_zero(product(c.scroll, c.sensitivity));
    assert(travel == 0 && zoom == 0);
    product_with_zero(product(h.yaw_cos, intent(c.forward, c.backward)));
    product_with_zero(product(h.yaw_sin, intent(c.left, c.right)));
    product_with_zero(product(h.pitch_cos, h.yaw_cos));
    product_with_zero(h.pitch_sin);
    product_with_zero(intent(c.up, c.down));
    product_with_zero(product(h.yaw_sin, intent(c.forward, c.backward)));
    product_with_zero(product(h.yaw_cos, intent(c.right, c.left)));
    product_with_zero(product(h.pitch_cos, h.yaw_sin));
    product_with_zero(product(c.rotate_horizontal, c.sensitivity));
    product_with_zero(product(c.rotate_vertical, product(c.sensitivity, (-UNIT) as i64)));
}

/// Without input nothing moves, however long the frame: with no key held,
/// no turn and no scroll waiting, the eye and the yaw stay, and the pitch
/// changes only if it lay beyond the limit.
pub proof fn no_input_no_motion(c: CameraController, camera: Camera, h: Heading, dt_micros: u64)
    requires
        c.at_rest(),
        !c.forward && !c.backward && !c.left && !c.right && !c.up && !c.down,
    ensures
        c.advanced(camera, h, dt_micros).position == camera.position,
        c.advanced(camera, h, dt_micros).yaw == camera.yaw,
        c.advanced(camera, h, dt_micros).pitch == bounded(camera.pitch, PITCH_LIMIT),
        camera.pitch_within_limit() ==> c.advanced(camera, h, dt_micros) == camera,
{
    let travel = c.travel(dt_micros);
    product_with_zero(c.sensitivity);
    product_with_zero(travel);
    assert(c.zoom(dt_micros) == 0);
    product_with_zero(h.yaw_cos);
    product_with_zero(h.yaw_sin);
    product_with_zero(h.pitch_sin);
    product_with_zero(product(h.pitch_cos, h.yaw_cos));
    product_with_zero(product(h.pitch_cos, h.yaw_sin));
    product_with_zero(product(c.sensitivity, (-UNIT) as i64));
    product_with_zero(elapsed(dt_micros));
}

/// One thing that reaches the controller: a key, a wheel movement, a pointer
/// movement, or a frame.
#[derive(Clone, Copy, Debug, PartialEq, Eq, Structural)]
pub enum Step {
    Keyboard { key: Key, pressed: bool },
    Scroll { delta: ScrollDelta },
    Mouse { dx: i64, dy: i64 },
    Update { heading: Heading, dt_micros: u64 },
}

/// The controller and the camera after `steps`, taken in order.
pub open spec fn replay(c: CameraController, camera: Camera, steps: Seq<Step>) -> (
    CameraController,
    Camera,
)
    decreases steps.len(),
{
    if steps.len() == 0 {
        (c, camera)
    } else {
        let (before, seen) = replay(c, camera, steps.drop_last());
        match steps.last() {
            Step::Keyboard { key, pressed } => (before.keyed(key, pressed), seen),
            Step::Scroll { delta } => (before.scrolled(delta), seen),
            Step::Mouse { dx, dy } => (before.turned(dx, dy), seen),
            Step::Update { heading, dt_micros } => (
                before.consumed(),
                before.advanced(seen, heading, dt_micros),
            ),
        }
    }
}

/// Whatever input arrives and however long the frames take, the pitch stays
/// within the limit: from the first frame on, and from the start if it began
/// there.
pub proof fn pitch_stays_within_limit(c: CameraController, camera: Camera, steps: Seq<Step>)
    requires
        camera.pitch_within_limit() || exists|i: int|
            0 <= i < steps.len() && #[trigger] steps[i] is Update,
    ensures
        replay(c, camera, steps).1.pitch_within_limit(),
        -QUARTER_TURN < replay(c, camera, steps).1.pitch < QUARTER_TURN,
    decreases steps.len(),
{
    if steps.len() > 0 && !(steps.last() is Update) {
        let earlier = steps.drop_last();
        if !camera.pitch_within_limit() {
            let i = choose|i: int| 0 <= i < steps.len() && #[trigger] steps[i] is Update;
            assert(earlier[i] is Update);
        }
        pitch_stays_within_limit(c, camera, earlier);
    }
}

/// Input is read once: after a frame of any length nothing is left waiting,
/// and a second frame that takes no time leaves the camera where the first
/// one put it.
pub proof fn input_is_read_once(
    c: CameraController,
    camera: Camera,
    first: Heading,
    dt_micros: u64,
    second: Heading,
)
    ensures
        c.consumed().at_rest(),
        c.consumed().advanced(c.advanced(camera, first, dt_micros), second, 0) == c.advanced(
            camera,
            first,
            dt_micros,
        ),
{
    no_time_no_motion(c.consumed(), c.advanced(camera, first, dt_micros), second);
}

} // verus!
