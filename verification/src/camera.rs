//! The orbit camera: an eye on a sphere around a fixed focus, steered by
//! pointer drags and the scroll wheel.
//!
//! Angles are whole nanoradians and lengths whole metres. The azimuth is kept
//! in `[0, TAU)`, so it cannot lose precision however long the camera turns.
//! The elevation is kept more than `POLE_MARGIN` away from both poles, and the
//! radius within the camera's limits.

use vstd::prelude::*;
use crate::fixed::{clamp, clamp_to, lemma_clamp_nonexpansive, scaled_delta, wrap, wrap_into};
use crate::input::{Action, Key, MouseButton};

verus! {

/// A quarter turn, in nanoradians.
pub const HALF_PI: i64 = 1_570_796_327;

/// A half turn, in nanoradians.
pub const PI: i64 = 2 * HALF_PI;

/// A full turn, in nanoradians.
pub const TAU: i64 = 2 * PI;

/// The margin that the elevation keeps from either pole: a hundredth of a
/// radian. The elevation lies strictly between `POLE_MARGIN` and
/// `PI - POLE_MARGIN`.
pub const POLE_MARGIN: i64 = 10_000_000;

/// The least elevation: the first angle past the margin.
pub const MIN_ELEVATION: i64 = POLE_MARGIN + 1;

/// The greatest elevation: the last angle before the margin.
pub const MAX_ELEVATION: i64 = PI - POLE_MARGIN - 1;

/// The distance from the focus that the camera starts at, in metres.
pub const DEFAULT_RADIUS: i64 = 63_419_400_000;

/// The least distance from the focus, in metres.
pub const DEFAULT_MIN_RADIUS: i64 = 10_000_000_000;

/// The greatest distance from the focus, in metres.
pub const DEFAULT_MAX_RADIUS: i64 = 1_000_000_000_000;

/// Nanoradians turned per unit of pointer travel: a hundredth of a radian.
pub const DEFAULT_ORBIT_SPEED: i64 = 10_000_000;

/// The pan sensitivity. It is carried but has no effect: the focus is pinned.
pub const DEFAULT_PAN_SPEED: i64 = 10_000_000;

/// Metres moved per unit of scroll.
pub const DEFAULT_ZOOM_SPEED: i64 = 25_000_000_000;

/// A point in space, in metres.
#[derive(Clone, Copy, Debug, PartialEq, Eq, Structural)]
pub struct Point {
    pub x: i64,
    pub y: i64,
    pub z: i64,
}

/// The point that the camera looks at and orbits.
pub open spec fn origin() -> Point {
    Point { x: 0, y: 0, z: 0 }
}

/// A position on a sphere around the focus. Its Cartesian form is
/// `x = r sin(e) cos(a)`, `y = r cos(e)`, `z = r sin(e) sin(a)`.
#[derive(Clone, Copy, Debug, PartialEq, Eq, Structural)]
pub struct Spherical {
    /// Distance from the focus, in metres.
    pub radius: i64,
    /// Angle around the vertical axis, in nanoradians.
    pub azimuth: i64,
    /// Angle down from the upper pole, in nanoradians.
    pub elevation: i64,
}

/// Everything the camera holds.
pub struct CameraState {
    pub focus: Point,
    pub radius: int,
    pub min_radius: int,
    pub max_radius: int,
    pub azimuth: int,
    pub elevation: int,
    pub orbit_speed: int,
    pub pan_speed: int,
    pub zoom_speed: int,
    pub dragging: bool,
    pub panning: bool,
    pub moving: bool,
    pub last_x: int,
    pub last_y: int,
}

impl CameraState {
    /// The camera at startup: on the equator at azimuth zero, at rest.
    pub open spec fn initial() -> CameraState {
        CameraState {
            focus: origin(),
            radius: DEFAULT_RADIUS as int,
            min_radius: DEFAULT_MIN_RADIUS as int,
            max_radius: DEFAULT_MAX_RADIUS as int,
            azimuth: 0,
            elevation: HALF_PI as int,
            orbit_speed: DEFAULT_ORBIT_SPEED as int,
            pan_speed: DEFAULT_PAN_SPEED as int,
            zoom_speed: DEFAULT_ZOOM_SPEED as int,
            dragging: false,
            panning: false,
            moving: false,
            last_x: 0,
            last_y: 0,
        }
    }

    /// The states a camera can be in: the focus at the origin, the elevation
    /// more than the margin away from either pole, the radius within its
    /// limits, the azimuth within one turn.
    pub open spec fn wf(self) -> bool {
        &&& self.focus == origin()
        &&& POLE_MARGIN < self.elevation < PI - POLE_MARGIN
        &&& self.min_radius <= self.radius <= self.max_radius
        &&& 0 <= self.azimuth < TAU
    }

    /// Whether a pointer move turns the camera: while dragging and not
    /// panning.
    pub open spec fn orbiting(self) -> bool {
        self.dragging && !self.panning
    }

    /// The state after the focus has been pinned and `moving` recomputed.
    pub open spec fn updated(self) -> CameraState {
        CameraState { focus: origin(), moving: self.dragging || self.panning, ..self }
    }

    /// The state after the pointer has moved to `(x, y)`.
    ///
    /// While orbiting, the azimuth grows by the horizontal travel times the
    /// orbit speed and the elevation shrinks by the vertical travel times the
    /// orbit speed. Otherwise neither changes; in particular, panning moves
    /// nothing.
    pub open spec fn after_pointer_move(self, x: int, y: int) -> CameraState {
        CameraState {
            azimuth: if self.orbiting() {
                wrap_into(self.azimuth + (x - self.last_x) * self.orbit_speed, TAU as int)
            } else {
                self.azimuth
            },
            elevation: if self.orbiting() {
                clamp_to(
                    self.elevation - (y - self.last_y) * self.orbit_speed,
                    MIN_ELEVATION as int,
                    MAX_ELEVATION as int,
                )
            } else {
                self.elevation
            },
            last_x: x,
            last_y: y,
            ..self
        }.updated()
    }

    /// The state after `button` has gone through `action` with the pointer at
    /// `(x, y)`.
    ///
    /// Pressing the left or the middle button starts a drag from the pointer's
    /// position; releasing either ends it. Every other button, and a repeat,
    /// leaves the camera alone.
    pub open spec fn after_button(self, button: MouseButton, action: Action, x: int, y: int)
        -> CameraState {
        if button == MouseButton::Left || button == MouseButton::Middle {
            match action {
                Action::Press => CameraState {
                    dragging: true,
                    panning: false,
                    last_x: x,
                    last_y: y,
                    ..self
                },
                Action::Release => CameraState { dragging: false, panning: false, ..self },
                Action::Repeat => self,
            }
        } else {
            self
        }
    }

    /// The state after the wheel has turned by `dy`: the radius shrinks by
    /// `dy` times the zoom speed, within its limits.
    pub open spec fn after_scroll(self, dy: int) -> CameraState {
        CameraState {
            radius: clamp_to(self.radius - dy * self.zoom_speed, self.min_radius, self.max_radius),
            ..self
        }.updated()
    }

    /// Where the eye is: on the sphere of the camera's radius, at its
    /// azimuth, at its elevation kept clear of the poles.
    pub open spec fn eye(self) -> (int, int, int) {
        (
            self.radius,
            self.azimuth,
            clamp_to(self.elevation, MIN_ELEVATION as int, MAX_ELEVATION as int),
        )
    }
}

/// Whether gravity is on after `button` has gone through `action`: the right
/// button switches it on while it is held.
pub open spec fn gravity_after_button(gravity: bool, button: MouseButton, action: Action) -> bool {
    if button == MouseButton::Right {
        match action {
            Action::Press => true,
            Action::Release => false,
            Action::Repeat => gravity,
        }
    } else {
        gravity
    }
}

/// Whether gravity is on after `key` has gone through `action`: pressing `G`
/// flips it.
pub open spec fn gravity_after_key(gravity: bool, key: Key, action: Action) -> bool {
    if key == Key::G && action == Action::Press {
        !gravity
    } else {
        gravity
    }
}

/// The line that tells the user whether gravity is now on.
pub open spec fn gravity_notice(enabled: bool) -> Seq<char> {
    if enabled {
        "[INFO] Gravity turned ON"@
    } else {
        "[INFO] Gravity turned OFF"@
    }
}

/// The line that tells the user whether gravity is now on.
pub fn gravity_message(enabled: bool) -> (message: &'static str)
    ensures
        message@ == gravity_notice(enabled),
{
    if enabled {
        "[INFO] Gravity turned ON"
    } else {
        "[INFO] Gravity turned OFF"
    }
}

/// The orbit camera.
#[derive(Debug)]
pub struct OrbitCamera {
    focus: Point,
    radius: i64,
    min_radius: i64,
    max_radius: i64,
    azimuth: i64,
    elevation: i64,
    orbit_speed: i64,
    pan_speed: i64,
    zoom_speed: i64,
    dragging: bool,
    panning: bool,
    moving: bool,
    last_x: i64,
    last_y: i64,
}

impl View for OrbitCamera {
    type V = CameraState;

    closed spec fn view(&self) -> CameraState {
        CameraState {
            focus: self.focus,
            radius: self.radius as int,
            min_radius: self.min_radius as int,
            max_radius: self.max_radius as int,
            azimuth: self.azimuth as int,
            elevation: self.elevation as int,
            orbit_speed: self.orbit_speed as int,
            pan_speed: self.pan_speed as int,
            zoom_speed: self.zoom_speed as int,
            dragging: self.dragging,
            panning: self.panning,
            moving: self.moving,
            last_x: self.last_x as int,
            last_y: self.last_y as int,
        }
    }
}

impl OrbitCamera {
    /// Holds of every camera there is.
    #[verifier::type_invariant]
    pub open spec fn in_bounds(self) -> bool {
        self@.wf()
    }

    /// The camera at startup.
    pub fn new() -> (camera: OrbitCamera)
        ensures
            camera@ == CameraState::initial(),
            camera@.wf(),
    {
        OrbitCamera {
            focus: Point { x: 0, y: 0, z: 0 },
            radius: DEFAULT_RADIUS,
            min_radius: DEFAULT_MIN_RADIUS,
            max_radius: DEFAULT_MAX_RADIUS,
            azimuth: 0,
            elevation: HALF_PI,
            orbit_speed: DEFAULT_ORBIT_SPEED,
            pan_speed: DEFAULT_PAN_SPEED,
            zoom_speed: DEFAULT_ZOOM_SPEED,
            dragging: false,
            panning: false,
            moving: false,
            last_x: 0,
            last_y: 0,
        }
    }

    /// The point the camera looks at.
    pub fn focus(&self) -> (focus: Point)
        ensures
            focus == self@.focus,
    {
        self.focus
    }

    /// Distance from the focus, in metres.
    pub fn radius(&self) -> (radius: i64)
        ensures
            radius == self@.radius,
    {
        self.radius
    }

    /// The limits of the radius, least first.
    pub fn radius_limits(&self) -> (limits: (i64, i64))
        ensures
            limits.0 == self@.min_radius,
            limits.1 == self@.max_radius,
    {
        (self.min_radius, self.max_radius)
    }

    /// Angle around the vertical axis, in nanoradians.
    pub fn azimuth(&self) -> (azimuth: i64)
        ensures
            azimuth == self@.azimuth,
    {
        self.azimuth
    }

    /// Angle down from the upper pole, in nanoradians.
    pub fn elevation(&self) -> (elevation: i64)
        ensures
            elevation == self@.elevation,
    {
        self.elevation
    }

    /// The orbit, pan and zoom sensitivities, in that order.
    pub fn speeds(&self) -> (speeds: (i64, i64, i64))
        ensures
            speeds.0 == self@.orbit_speed,
            speeds.1 == self@.pan_speed,
            speeds.2 == self@.zoom_speed,
    {
        (self.orbit_speed, self.pan_speed, self.zoom_speed)
    }

    /// Whether a drag is in progress.
    pub fn is_dragging(&self) -> (dragging: bool)
        ensures
            dragging == self@.dragging,
    {
        self.dragging
    }

    /// Whether the panning flag is set.
    pub fn is_panning(&self) -> (panning: bool)
        ensures
            panning == self@.panning,
    {
        self.panning
    }

    /// Whether the camera was being moved at the last update.
    pub fn is_moving(&self) -> (moving: bool)
        ensures
            moving == self@.moving,
    {
        self.moving
    }

    /// Where the pointer was last seen.
    pub fn last_pointer(&self) -> (pointer: (i64, i64))
        ensures
            pointer.0 == self@.last_x,
            pointer.1 == self@.last_y,
    {
        (self.last_x, self.last_y)
    }

    /// Where the eye is, in spherical coordinates around the focus.
    pub fn position(&self) -> (eye: Spherical)
        ensures
            self@.wf(),
            (eye.radius as int, eye.azimuth as int, eye.elevation as int) == self@.eye(),
            eye.elevation == self@.elevation,
    {
        proof {
            use_type_invariant(self);
        }
        Spherical {
            radius: self.radius,
            azimuth: self.azimuth,
            elevation: clamp(self.elevation as i128, MIN_ELEVATION, MAX_ELEVATION),
        }
    }

    /// Pins the focus to the origin and recomputes whether the camera is
    /// being moved.
    pub fn update(&mut self)
        ensures
            final(self)@ == old(self)@.updated(),
            final(self)@.wf(),
    {
        proof {
            use_type_invariant(&*self);
        }
        self.focus = Point { x: 0, y: 0, z: 0 };
        self.moving = self.dragging || self.panning;
    }

    /// Takes in a pointer move to `(x, y)`.
    pub fn on_pointer_move(&mut self, x: i64, y: i64)
        ensures
            final(self)@ == old(self)@.after_pointer_move(x as int, y as int),
            final(self)@.wf(),
    {
        proof {
            use_type_invariant(&*self);
        }
        if self.dragging && !self.panning {
            let turn: i128 = scaled_delta(self.last_x, x, self.orbit_speed);
            let tilt: i128 = scaled_delta(self.last_y, y, self.orbit_speed);
            self.azimuth = wrap(self.azimuth as i128 + turn, TAU);
            self.elevation = clamp(self.elevation as i128 - tilt, MIN_ELEVATION, MAX_ELEVATION);
        }
        self.last_x = x;
        self.last_y = y;
        self.update();
    }

    /// Takes in a change of a pointer button with the pointer at
    /// `(cursor_x, cursor_y)`, and sets `gravity` as the right button asks.
    pub fn on_button(
        &mut self,
        button: MouseButton,
        action: Action,
        cursor_x: i64,
        cursor_y: i64,
        gravity: &mut bool,
    )
        ensures
            final(self)@ == old(self)@.after_button(
                button,
                action,
                cursor_x as int,
                cursor_y as int,
            ),
            final(self)@.wf(),
            *final(gravity) == gravity_after_button(*old(gravity), button, action),
    {
        proof {
            use_type_invariant(&*self);
        }
        match button {
            MouseButton::Left | MouseButton::Middle => match action {
                Action::Press => {
                    self.dragging = true;
                    self.panning = false;
                    self.last_x = cursor_x;
                    self.last_y = cursor_y;
                },
                Action::Release => {
                    self.dragging = false;
                    self.panning = false;
                },
                Action::Repeat => {},
            },
            MouseButton::Right => match action {
                Action::Press => {
                    *gravity = true;
                },
                Action::Release => {
                    *gravity = false;
                },
                Action::Repeat => {},
            },
            MouseButton::Other => {},
        }
    }

    /// Takes in a turn of the wheel by `dy`.
    pub fn on_scroll(&mut self, dy: i64)
        ensures
            final(self)@ == old(self)@.after_scroll(dy as int),
            final(self)@.wf(),
    {
        proof {
            use_type_invariant(&*self);
        }
        let travel: i128 = scaled_delta(0, dy, self.zoom_speed);
        self.radius = clamp(self.radius as i128 - travel, self.min_radius, self.max_radius);
        self.update();
    }

    /// Takes in a change of a key and flips `gravity` where the key asks for
    /// it. Returns the new setting when it changed, for the notice to the
    /// user.
    pub fn on_key(key: Key, action: Action, gravity: &mut bool) -> (changed: Option<bool>)
        ensures
            *final(gravity) == gravity_after_key(*old(gravity), key, action),
            changed == if key == Key::G && action == Action::Press {
                Some(*final(gravity))
            } else {
                None
            },
    {
        match (key, action) {
            (Key::G, Action::Press) => {
                *gravity = !*gravity;
                Some(*gravity)
            },
            _ => None,
        }
    }
}

/// No input takes the camera out of bounds: after a pointer move, a scroll, a
/// button or an update the elevation is still more than the margin away from
/// both poles, the radius still within its limits, and the focus still at the
/// origin.
pub proof fn lemma_inputs_keep_bounds(
    state: CameraState,
    x: int,
    y: int,
    dy: int,
    button: MouseButton,
    action: Action,
)
    requires
        state.wf(),
    ensures
        state.after_pointer_move(x, y).wf(),
        state.after_scroll(dy).wf(),
        state.after_button(button, action, x, y).wf(),
        state.updated().wf(),
        0 < POLE_MARGIN < MIN_ELEVATION <= MAX_ELEVATION < PI - POLE_MARGIN < PI,
{
}

/// A drag that turns the camera by a whole number of turns brings the eye
/// back to where it was.
pub proof fn lemma_full_turns_return(state: CameraState, x: int, turns: int)
    requires
        state.wf(),
        state.orbiting(),
        (x - state.last_x) * state.orbit_speed == turns * TAU,
    ensures
        state.after_pointer_move(x, state.last_y).eye() == state.eye(),
{
    let turned = state.azimuth + (x - state.last_x) * state.orbit_speed;
    assert(turned == TAU * turns + state.azimuth) by (nonlinear_arith)
        requires
            turned == state.azimuth + turns * TAU,
    ;
    vstd::arithmetic::div_mod::lemma_mod_multiples_vanish(turns, state.azimuth, TAU as int);
    vstd::arithmetic::div_mod::lemma_small_mod(state.azimuth as nat, TAU as nat);
    assert((state.last_y - state.last_y) * state.orbit_speed == 0) by (nonlinear_arith);
}

/// Panning moves nothing: while the panning flag is set, a pointer move
/// leaves the eye and the focus where they were.
pub proof fn lemma_panning_moves_nothing(state: CameraState, x: int, y: int)
    requires
        state.wf(),
        state.panning,
    ensures
        state.after_pointer_move(x, y).eye() == state.eye(),
        state.after_pointer_move(x, y).focus == state.focus,
{
}

/// Releasing the left or the middle button always ends dragging and panning,
/// a second release changes nothing more, and a release with no drag in
/// progress changes nothing at all.
pub proof fn lemma_release_is_idempotent(state: CameraState, button: MouseButton, x: int, y: int)
    ensures
        ({
            let released = state.after_button(button, Action::Release, x, y);
            &&& button == MouseButton::Left || button == MouseButton::Middle ==> !released.dragging
                && !released.panning
            &&& !state.dragging && !state.panning ==> released == state
            &&& released.after_button(button, Action::Release, x, y) == released
        }),
{
}

/// The eye moves no further than the input does: two pointer moves that end
/// `gap` apart vertically leave elevations at most `gap` times the orbit
/// speed apart, and two scrolls that differ by `gap` leave radii at most
/// `gap` times the zoom speed apart. The limits add no jump. Two pointer
/// moves that end `gap` apart horizontally leave azimuths `gap` times the
/// orbit speed apart, up to whole turns.
pub proof fn lemma_eye_follows_input(state: CameraState, x: int, low: int, gap: int)
    requires
        state.wf(),
        gap >= 0,
    ensures
        state.orbiting() ==> ({
            let near = state.after_pointer_move(low, x).azimuth;
            let far = state.after_pointer_move(low + gap, x).azimuth;
            (far - near - gap * state.orbit_speed) % (TAU as int) == 0
        }),
        ({
            let near = state.after_pointer_move(x, low).elevation;
            let far = state.after_pointer_move(x, low + gap).elevation;
            let span = gap * state.orbit_speed;
            -span <= far - near <= span || span <= far - near <= -span
        }),
        ({
            let near = state.after_scroll(low).radius;
            let far = state.after_scroll(low + gap).radius;
            let span = gap * state.zoom_speed;
            -span <= far - near <= span || span <= far - near <= -span
        }),
{
    let turn_near = state.azimuth + (low - state.last_x) * state.orbit_speed;
    let turn_far = state.azimuth + (low + gap - state.last_x) * state.orbit_speed;
    let turn = gap * state.orbit_speed;
    assert(turn_far == turn_near + turn) by (nonlinear_arith)
        requires
            turn_near == state.azimuth + (low - state.last_x) * state.orbit_speed,
            turn_far == state.azimuth + (low + gap - state.last_x) * state.orbit_speed,
            turn == gap * state.orbit_speed,
    ;
    assert((turn_far % (TAU as int) - turn_near % (TAU as int) - turn) % (TAU as int) == 0) by {
        let period = TAU as int;
        let laps = turn_near / period - turn_far / period;
        vstd::arithmetic::div_mod::lemma_fundamental_div_mod(turn_near, period);
        vstd::arithmetic::div_mod::lemma_fundamental_div_mod(turn_far, period);
        assert(turn_far % period - turn_near % period - turn == laps * period)
            by (nonlinear_arith)
            requires
                turn_far == turn_near + turn,
                turn_near == period * (turn_near / period) + turn_near % period,
                turn_far == period * (turn_far / period) + turn_far % period,
                laps == turn_near / period - turn_far / period,
        ;
        vstd::arithmetic::div_mod::lemma_mod_multiples_basic(laps, period);
    }
    let tilt_near = state.elevation - (low - state.last_y) * state.orbit_speed;
    let tilt_far = state.elevation - (low + gap - state.last_y) * state.orbit_speed;
    assert(tilt_near - tilt_far == gap * state.orbit_speed) by (nonlinear_arith)
        requires
            tilt_near == state.elevation - (low - state.last_y) * state.orbit_speed,
            tilt_far == state.elevation - (low + gap - state.last_y) * state.orbit_speed,
    ;
    if tilt_near <= tilt_far {
        lemma_clamp_nonexpansive(tilt_near, tilt_far, MIN_ELEVATION as int, MAX_ELEVATION as int);
    } else {
        lemma_clamp_nonexpansive(tilt_far, tilt_near, MIN_ELEVATION as int, MAX_ELEVATION as int);
    }
    let zoom_near = state.radius - low * state.zoom_speed;
    let zoom_far = state.radius - (low + gap) * state.zoom_speed;
    assert(zoom_near - zoom_far == gap * state.zoom_speed) by (nonlinear_arith)
        requires
            zoom_near == state.radius - low * state.zoom_speed,
            zoom_far == state.radius - (low + gap) * state.zoom_speed,
    ;
    if zoom_near <= zoom_far {
        lemma_clamp_nonexpansive(zoom_near, zoom_far, state.min_radius, state.max_radius);
    } else {
        lemma_clamp_nonexpansive(zoom_far, zoom_near, state.min_radius, state.max_radius);
    }
}

} // verus!
