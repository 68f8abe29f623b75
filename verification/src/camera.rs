//! Free-fly camera: position and yaw/pitch orientation in millidegrees,
//! derived front/right/up vectors, and the view and projection matrices,
//! all recomputed from the angles whenever the orientation changes.
//!
//! Matrices are column-major, sixteen fixed-point entries.  The view matrix
//! is the right-handed look-at from the position toward position plus front;
//! the perspective projection uses a vertical field of view of 70 degrees,
//! near plane 0.1 and far plane 10000; the orthographic projection maps the
//! symmetric unit box with near -100 and far 100.

use vstd::prelude::*;

verus! {

use crate::clock::TIME_LIMIT;
use crate::fixed::{
    cos_fx, cos_fx_spec, fx_mul, fx_mul_fx, lemma_cos_reference, lemma_sin_quarter_turns,
    lemma_sin_zeros, lemma_tdiv_bound, sin_fx, sin_fx_spec, tdiv, tdiv_fx, wrap_angle,
    wrap_angle_fx,
};
use crate::input::{
    InputState, is_down, KEY_A, KEY_D, KEY_LEFT_CONTROL, KEY_LEFT_SHIFT, KEY_RIGHT_SHIFT, KEY_S,
    KEY_SPACE, KEY_W,
};
use vstd::arithmetic::div_mod::{
    lemma_div_by_self, lemma_div_is_ordered, lemma_div_nonincreasing, lemma_div_pos_is_pos,
};

/// Largest position magnitude a caller may hand in.
pub const POS_LIMIT: i64 = 1000000000000000;

/// Largest position magnitude the camera itself ever holds; one input pass
/// moves the position by far less than the slack above `POS_LIMIT`.
pub const POS_WF_LIMIT: i64 = 2000000000000000;

/// Largest cursor coordinate accepted by the mouse handler.
pub const COORD_LIMIT: i64 = 1000000000000000;

/// Largest movement speed.
pub const SPEED_LIMIT: i64 = 1000000;

/// Largest wall-clock delta one input pass accepts (one day).
pub const DT_LIMIT: u64 = 86400000;

/// Largest aspect ratio the projection accepts.
pub const ASPECT_LIMIT: i64 = 5000000000000;

/// Fixed-point near plane of the perspective projection (0.1).
pub const NEAR_FX: i64 = 100;

/// Fixed-point far plane of the perspective projection (10000).
pub const FAR_FX: i64 = 10000000;

/// The two projection modes; mutually exclusive, never blended.
#[derive(Clone, Copy, Debug, PartialEq, Eq, Structural)]
pub enum ProjectionType {
    Perspective,
    Orthographic,
}

/// A fixed-point three-component vector.
#[derive(Clone, Copy, Debug, PartialEq, Eq, Structural)]
pub struct Vec3Fx {
    pub x: i64,
    pub y: i64,
    pub z: i64,
}

/// Mathematical image of a fixed-point vector.
#[verifier::ext_equal]
pub struct Vec3Spec {
    pub x: int,
    pub y: int,
    pub z: int,
}

impl View for Vec3Fx {
    type V = Vec3Spec;

    open spec fn view(&self) -> Vec3Spec {
        Vec3Spec { x: self.x as int, y: self.y as int, z: self.z as int }
    }
}

/// Whether every component is a unit-range fixed-point value.
pub open spec fn bounded_axis(v: Vec3Spec) -> bool {
    &&& -1000 <= v.x <= 1000
    &&& -1000 <= v.y <= 1000
    &&& -1000 <= v.z <= 1000
}

/// Whether every component is within the camera's position range.
pub open spec fn bounded_pos(v: Vec3Spec) -> bool {
    &&& -POS_WF_LIMIT <= v.x <= POS_WF_LIMIT
    &&& -POS_WF_LIMIT <= v.y <= POS_WF_LIMIT
    &&& -POS_WF_LIMIT <= v.z <= POS_WF_LIMIT
}

/// The front vector derived from yaw and pitch by spherical-to-Cartesian
/// conversion: (cos yaw * cos pitch, sin pitch, sin yaw * cos pitch).
pub open spec fn front_spec(yaw: int, pitch: int) -> Vec3Spec {
    Vec3Spec {
        x: fx_mul(cos_fx_spec(yaw), cos_fx_spec(pitch)),
        y: sin_fx_spec(pitch),
        z: fx_mul(sin_fx_spec(yaw), cos_fx_spec(pitch)),
    }
}

/// The right vector: the normalized cross product of the front vector with
/// the world up axis, which depends on the yaw alone.
pub open spec fn right_spec(yaw: int) -> Vec3Spec {
    Vec3Spec { x: -sin_fx_spec(yaw), y: 0, z: cos_fx_spec(yaw) }
}

/// The up vector: the cross product of the right and front vectors.
pub open spec fn up_spec(yaw: int, pitch: int) -> Vec3Spec {
    Vec3Spec {
        x: -fx_mul(cos_fx_spec(yaw), sin_fx_spec(pitch)),
        y: cos_fx_spec(pitch),
        z: -fx_mul(sin_fx_spec(yaw), sin_fx_spec(pitch)),
    }
}

/// Fixed-point dot product.
pub open spec fn dot_spec(a: Vec3Spec, b: Vec3Spec) -> int {
    tdiv(a.x * b.x + a.y * b.y + a.z * b.z, 1000)
}

/// Entry `i` (column-major) of the right-handed look-at matrix from `pos`
/// toward `pos` plus the front vector, with the derived up vector.
pub open spec fn view_entry(pos: Vec3Spec, yaw: int, pitch: int, i: int) -> int {
    let f = front_spec(yaw, pitch);
    let s = right_spec(yaw);
    let u = up_spec(yaw, pitch);
    if i == 0 {
        s.x
    } else if i == 1 {
        u.x
    } else if i == 2 {
        -f.x
    } else if i == 4 {
        s.y
    } else if i == 5 {
        u.y
    } else if i == 6 {
        -f.y
    } else if i == 8 {
        s.z
    } else if i == 9 {
        u.z
    } else if i == 10 {
        -f.z
    } else if i == 12 {
        -dot_spec(s, pos)
    } else if i == 13 {
        -dot_spec(u, pos)
    } else if i == 14 {
        dot_spec(f, pos)
    } else if i == 15 {
        1000
    } else {
        0
    }
}

/// The fixed-point focal factor of the perspective projection: the cotangent
/// of half the 70-degree field of view.
pub open spec fn persp_f() -> int {
    (cos_fx_spec(35000) * 1000) / sin_fx_spec(35000)
}

/// Entry `i` (column-major) of the perspective projection matrix for the
/// given aspect ratio.
pub open spec fn persp_entry(aspect: int, i: int) -> int {
    if i == 0 {
        (persp_f() * 1000) / aspect
    } else if i == 5 {
        persp_f()
    } else if i == 10 {
        -((((FAR_FX + NEAR_FX) as int) * 1000) / ((FAR_FX - NEAR_FX) as int))
    } else if i == 11 {
        -1000
    } else if i == 14 {
        -((2 * (FAR_FX as int) * (NEAR_FX as int)) / ((FAR_FX - NEAR_FX) as int))
    } else {
        0
    }
}

/// Entry `i` (column-major) of the orthographic projection matrix for the
/// symmetric box from -1 to 1 with near -100 and far 100: the diagonal
/// scales are one, the depth scale is 1/(near-far) = -0.005, and the depth
/// offset is near/(near-far) = 0.5.
pub open spec fn ortho_entry(i: int) -> int {
    if i == 0 {
        1000
    } else if i == 5 {
        1000
    } else if i == 10 {
        -5
    } else if i == 14 {
        500
    } else if i == 15 {
        1000
    } else {
        0
    }
}

/// The effective speed of one input pass: the base speed gains a single
/// factor of twenty while either shift key is held.
pub open spec fn eff_speed(speed: int, lshift: bool, rshift: bool) -> int {
    if lshift || rshift {
        speed * 20
    } else {
        speed
    }
}

/// One component of the displacement a held key contributes: the effective
/// speed times the delta, scaled, times the axis component, scaled again.
pub open spec fn scale_comp(step: int, c: int) -> int {
    tdiv(step * c, 1000)
}

/// A position displaced along an axis by a step.
pub open spec fn add_scaled_spec(p: Vec3Spec, step: int, a: Vec3Spec) -> Vec3Spec {
    Vec3Spec {
        x: p.x + scale_comp(step, a.x),
        y: p.y + scale_comp(step, a.y),
        z: p.z + scale_comp(step, a.z),
    }
}

/// A position displaced opposite to an axis by a step.
pub open spec fn sub_scaled_spec(p: Vec3Spec, step: int, a: Vec3Spec) -> Vec3Spec {
    Vec3Spec {
        x: p.x - scale_comp(step, a.x),
        y: p.y - scale_comp(step, a.y),
        z: p.z - scale_comp(step, a.z),
    }
}

/// Where one input pass moves the camera: forward/back along the front
/// vector for W/S, up/down along the up vector for Space/LeftControl, and
/// strafing along the right vector for A/D, each by `step` units.
pub open spec fn moved_pos(
    pos: Vec3Spec,
    keys: Seq<crate::input::KeyState>,
    yaw: int,
    pitch: int,
    step: int,
) -> Vec3Spec {
    let f = front_spec(yaw, pitch);
    let u = up_spec(yaw, pitch);
    let r = right_spec(yaw);
    let p1 = if is_down(keys[KEY_W as int]) {
        add_scaled_spec(pos, step, f)
    } else {
        pos
    };
    let p2 = if is_down(keys[KEY_S as int]) {
        sub_scaled_spec(p1, step, f)
    } else {
        p1
    };
    let p3 = if is_down(keys[KEY_SPACE as int]) {
        add_scaled_spec(p2, step, u)
    } else {
        p2
    };
    let p4 = if is_down(keys[KEY_LEFT_CONTROL as int]) {
        sub_scaled_spec(p3, step, u)
    } else {
        p3
    };
    let p5 = if is_down(keys[KEY_A as int]) {
        sub_scaled_spec(p4, step, r)
    } else {
        p4
    };
    if is_down(keys[KEY_D as int]) {
        add_scaled_spec(p5, step, r)
    } else {
        p5
    }
}

/// The aspect ratio derived from a framebuffer size, clamped away from zero
/// so the projection never divides by zero.
pub open spec fn aspect_of(w: int, h: int) -> int {
    let a = (w * 1000) / h;
    if a < 1 {
        1
    } else {
        a
    }
}

/// Free-fly camera owned by the application; it reads input state and frame
/// deltas and never touches the window itself.
pub struct Camera {
    /// Projection matrix, column-major fixed-point.
    pub proj: [i64; 16],
    /// View matrix, column-major fixed-point; always the look-at matrix of
    /// the current position and orientation.
    pub view: [i64; 16],
    /// Position in world units.
    pub pos: Vec3Fx,
    /// Derived right vector.
    pub right: Vec3Fx,
    /// Derived front vector.
    pub front: Vec3Fx,
    /// Derived up vector.
    pub up: Vec3Fx,
    /// Pitch in millidegrees, kept folded into a principal turn.
    pub pitch: i64,
    /// Yaw in millidegrees, kept folded into a principal turn.
    pub yaw: i64,
    /// Movement speed in fixed-point units per second.
    pub speed: i64,
    /// Wall-clock delta of the last input pass, milliseconds.
    pub dt: u64,
    /// Timestamp recorded by the last input pass, milliseconds.
    pub last_frame: u64,
    /// Whether the next captured mouse sample is the first since capture
    /// began and must not produce a delta.
    pub first_mouse: bool,
    /// Last seen cursor x, fixed-point pixels.
    pub last_x: i64,
    /// Last seen cursor y, fixed-point pixels.
    pub last_y: i64,
    /// Aspect ratio of the projection, fixed-point.
    pub aspect: i64,
    /// Current projection mode.
    pub projection: ProjectionType,
}

impl Camera {
    /// Whether the projection matrix matches the mode, the aspect and the
    /// fixed planes.
    pub open spec fn proj_ok(self) -> bool {
        match self.projection {
            ProjectionType::Perspective => forall|i: int|
                0 <= i < 16 ==> #[trigger] self.proj@[i] == persp_entry(self.aspect as int, i),
            ProjectionType::Orthographic => forall|i: int|
                0 <= i < 16 ==> #[trigger] self.proj@[i] == ortho_entry(i),
        }
    }

    /// The camera's invariant: angles folded, fields bounded, the three
    /// derived vectors exactly the functions of yaw and pitch, the view
    /// matrix exactly the look-at matrix, and the projection matrix exactly
    /// the matrix of the current mode.
    pub open spec fn wf(self) -> bool {
        &&& -180000 <= self.yaw <= 180000
        &&& -180000 <= self.pitch <= 180000
        &&& 0 <= self.speed <= SPEED_LIMIT
        &&& 0 < self.aspect <= ASPECT_LIMIT
        &&& self.last_frame <= TIME_LIMIT
        &&& -COORD_LIMIT <= self.last_x <= COORD_LIMIT
        &&& -COORD_LIMIT <= self.last_y <= COORD_LIMIT
        &&& bounded_pos(self.pos@)
        &&& self.front@ == front_spec(self.yaw as int, self.pitch as int)
        &&& self.right@ == right_spec(self.yaw as int)
        &&& self.up@ == up_spec(self.yaw as int, self.pitch as int)
        &&& bounded_axis(self.front@)
        &&& bounded_axis(self.right@)
        &&& bounded_axis(self.up@)
        &&& forall|i: int|
            0 <= i < 16 ==> #[trigger] self.view@[i] == view_entry(
                self.pos@,
                self.yaw as int,
                self.pitch as int,
                i,
            )
        &&& self.proj_ok()
    }

    /// A camera three units back from the origin, looking down the negative
    /// z axis (yaw -90 degrees, pitch level), with a perspective projection
    /// at aspect one.
    pub fn new() -> (c: Camera)
        ensures
            c.wf(),
            c.pos@ == (Vec3Spec { x: 0, y: 0, z: 3000 }),
            c.yaw == -90000,
            c.pitch == 0,
            c.speed == 1000,
            c.dt == 0,
            c.last_frame == 0,
            c.first_mouse == true,
            c.last_x == 400000,
            c.last_y == 400000,
            c.aspect == 1000,
            c.projection == ProjectionType::Perspective,
    {
        let pos = Vec3Fx { x: 0, y: 0, z: 3000 };
        let (front, right, up) = compute_axes(-90000, 0);
        let view = compute_view(pos, front, right, up, Ghost(-90000int), Ghost(0int));
        let proj = compute_persp(1000);
        Camera {
            proj,
            view,
            pos,
            right,
            front,
            up,
            pitch: 0,
            yaw: -90000,
            speed: 1000,
            dt: 0,
            last_frame: 0,
            first_mouse: true,
            last_x: 400000,
            last_y: 400000,
            aspect: 1000,
            projection: ProjectionType::Perspective,
        }
    }

    /// Directly sets the position, for an external system driving the
    /// camera, and recomputes the view matrix; nothing else changes.
    pub fn update(&mut self, pos: Vec3Fx)
        requires
            old(self).wf(),
            -POS_LIMIT <= pos.x <= POS_LIMIT,
            -POS_LIMIT <= pos.y <= POS_LIMIT,
            -POS_LIMIT <= pos.z <= POS_LIMIT,
        ensures
            final(self).wf(),
            final(self).pos == pos,
            *final(self) == (Camera { pos, view: final(self).view, ..*old(self) }),
    {
        self.pos = pos;
        self.view = compute_view(
            self.pos,
            self.front,
            self.right,
            self.up,
            Ghost(self.yaw as int),
            Ghost(self.pitch as int),
        );
    }

    /// One input pass: the delta since the last pass is recorded, the
    /// position moves along the derived axes for each held movement key
    /// (either shift key held multiplies the speed by twenty), the view
    /// matrix follows the position, and the projection becomes the
    /// perspective of the framebuffer's aspect ratio.  A framebuffer with a
    /// zero side leaves the projection untouched.
    #[verifier::rlimit(100)]
    pub fn input(&mut self, inp: &InputState, elapsed: u64, fb_width: u32, fb_height: u32)
        requires
            old(self).wf(),
            inp.wf(),
            old(self).last_frame <= elapsed <= TIME_LIMIT,
            elapsed - old(self).last_frame <= DT_LIMIT,
            -POS_LIMIT <= old(self).pos.x <= POS_LIMIT,
            -POS_LIMIT <= old(self).pos.y <= POS_LIMIT,
            -POS_LIMIT <= old(self).pos.z <= POS_LIMIT,
        ensures
            final(self).wf(),
            final(self).dt == elapsed - old(self).last_frame,
            final(self).last_frame == elapsed,
            final(self).pos@ == moved_pos(
                old(self).pos@,
                inp@.keys,
                old(self).yaw as int,
                old(self).pitch as int,
                tdiv(
                    eff_speed(
                        old(self).speed as int,
                        is_down(inp@.keys[KEY_LEFT_SHIFT as int]),
                        is_down(inp@.keys[KEY_RIGHT_SHIFT as int]),
                    ) * (elapsed - old(self).last_frame),
                    1000,
                ),
            ),
            final(self).yaw == old(self).yaw,
            final(self).pitch == old(self).pitch,
            final(self).speed == old(self).speed,
            final(self).front == old(self).front,
            final(self).right == old(self).right,
            final(self).up == old(self).up,
            final(self).first_mouse == old(self).first_mouse,
            final(self).last_x == old(self).last_x,
            final(self).last_y == old(self).last_y,
            fb_width > 0 && fb_height > 0 ==> final(self).aspect == aspect_of(
                fb_width as int,
                fb_height as int,
            ) && final(self).projection == ProjectionType::Perspective,
            !(fb_width > 0 && fb_height > 0) ==> final(self).aspect == old(self).aspect
                && final(self).projection == old(self).projection && final(self).proj
                == old(self).proj,
    {
        let dt: u64 = elapsed - self.last_frame;
        self.dt = dt;
        self.last_frame = elapsed;

        let mut eff: i64 = self.speed;
        if inp.key_down(KEY_LEFT_SHIFT) || inp.key_down(KEY_RIGHT_SHIFT) {
            eff = eff * 20;
        }
        proof {
            assert(0 <= (eff as int) * (dt as int) <= 1728000000000000) by (nonlinear_arith)
                requires
                    0 <= eff as int <= 20000000,
                    0 <= dt as int <= 86400000,
            ;
        }
        let step: i64 = tdiv_fx(eff * (dt as i64), 1000);
        proof {
            lemma_tdiv_bound((eff * (dt as i64)) as int, 100000000000000, 1000);
        }

        if inp.key_down(KEY_W) {
            self.pos = add_scaled(self.pos, step, self.front);
        }
        if inp.key_down(KEY_S) {
            self.pos = sub_scaled(self.pos, step, self.front);
        }
        if inp.key_down(KEY_SPACE) {
            self.pos = add_scaled(self.pos, step, self.up);
        }
        if inp.key_down(KEY_LEFT_CONTROL) {
            self.pos = sub_scaled(self.pos, step, self.up);
        }
        if inp.key_down(KEY_A) {
            self.pos = sub_scaled(self.pos, step, self.right);
        }
        if inp.key_down(KEY_D) {
            self.pos = add_scaled(self.pos, step, self.right);
        }

        self.view = compute_view(
            self.pos,
            self.front,
            self.right,
            self.up,
            Ghost(self.yaw as int),
            Ghost(self.pitch as int),
        );

        if fb_width > 0 && fb_height > 0 {
            let wide: u64 = (fb_width as u64) * 1000;
            let a: u64 = wide / (fb_height as u64);
            proof {
                lemma_div_nonincreasing(wide as int, fb_height as int);
            }
            let aspect: i64 = if a < 1 {
                1
            } else {
                a as i64
            };
            self.aspect = aspect;
            self.proj = compute_persp(aspect);
            self.projection = ProjectionType::Perspective;
        }
    }

    /// One mouse sample.  Outside captured cursor mode the sample only arms
    /// the first-mouse flag, so orientation never changes and look tracking
    /// restarts cleanly when capture resumes.  The first captured sample
    /// records the position without a delta; any further sample turns the
    /// cursor delta (y inverted, window coordinates grow downward) into
    /// yaw and pitch at a sensitivity of a tenth of a degree per pixel and
    /// rederives the axes and the view matrix.  Pitch is not clamped: at a
    /// quarter turn of pitch the view flips rather than stopping.
    pub fn mouse_callback(&mut self, xpos: i64, ypos: i64, captured: bool)
        requires
            old(self).wf(),
            -COORD_LIMIT <= xpos <= COORD_LIMIT,
            -COORD_LIMIT <= ypos <= COORD_LIMIT,
        ensures
            final(self).wf(),
            !captured ==> *final(self) == (Camera { first_mouse: true, ..*old(self) }),
            captured && old(self).first_mouse ==> *final(self) == (Camera {
                first_mouse: false,
                last_x: xpos,
                last_y: ypos,
                ..*old(self)
            }),
            captured && !old(self).first_mouse ==> {
                &&& final(self).yaw == wrap_angle(
                    old(self).yaw + tdiv(xpos - old(self).last_x, 10),
                )
                &&& final(self).pitch == wrap_angle(
                    old(self).pitch + tdiv(old(self).last_y - ypos, 10),
                )
                &&& final(self).last_x == xpos
                &&& final(self).last_y == ypos
                &&& final(self).first_mouse == old(self).first_mouse
                &&& final(self).pos == old(self).pos
                &&& final(self).speed == old(self).speed
                &&& final(self).dt == old(self).dt
                &&& final(self).last_frame == old(self).last_frame
                &&& final(self).aspect == old(self).aspect
                &&& final(self).projection == old(self).projection
                &&& final(self).proj == old(self).proj
            },
    {
        if !captured {
            self.first_mouse = true;
        } else if self.first_mouse {
            self.last_x = xpos;
            self.last_y = ypos;
            self.first_mouse = false;
        } else {
            let xoff = tdiv_fx(xpos - self.last_x, 10);
            let yoff = tdiv_fx(self.last_y - ypos, 10);
            self.yaw = wrap_angle_fx(self.yaw + xoff);
            self.pitch = wrap_angle_fx(self.pitch + yoff);
            self.last_x = xpos;
            self.last_y = ypos;
            let (front, right, up) = compute_axes(self.yaw, self.pitch);
            self.front = front;
            self.right = right;
            self.up = up;
            self.view = compute_view(
                self.pos,
                self.front,
                self.right,
                self.up,
                Ghost(self.yaw as int),
                Ghost(self.pitch as int),
            );
        }
    }

    /// Switches the projection mode.  Perspective restores the fixed-plane
    /// matrix at aspect one; orthographic installs the fixed box matrix.
    pub fn set_projection(&mut self, projection_type: ProjectionType)
        requires
            old(self).wf(),
        ensures
            final(self).wf(),
            final(self).projection == projection_type,
            projection_type == ProjectionType::Perspective ==> final(self).aspect == 1000
                && forall|i: int| 0 <= i < 16 ==> #[trigger] final(self).proj@[i] == persp_entry(
                1000,
                i,
            ),
            projection_type == ProjectionType::Orthographic ==> final(self).aspect == old(
                self,
            ).aspect && forall|i: int|
                0 <= i < 16 ==> #[trigger] final(self).proj@[i] == ortho_entry(i),
            final(self).view == old(self).view,
            final(self).pos == old(self).pos,
            final(self).yaw == old(self).yaw,
            final(self).pitch == old(self).pitch,
            final(self).speed == old(self).speed,
            final(self).dt == old(self).dt,
            final(self).last_frame == old(self).last_frame,
            final(self).first_mouse == old(self).first_mouse,
            final(self).last_x == old(self).last_x,
            final(self).last_y == old(self).last_y,
            final(self).front == old(self).front,
            final(self).right == old(self).right,
            final(self).up == old(self).up,
    {
        match projection_type {
            ProjectionType::Perspective => {
                self.aspect = 1000;
                self.proj = compute_persp(1000);
                self.projection = ProjectionType::Perspective;
            },
            ProjectionType::Orthographic => {
                self.proj = compute_ortho();
                self.projection = ProjectionType::Orthographic;
            },
        }
    }

    /// The payload of a uniform upload: the view and projection matrices,
    /// column-major, in that order.  Writing them to the renderer's two
    /// named matrix slots is the shader collaborator's side.
    pub fn send_uniforms(&self) -> (r: ([i64; 16], [i64; 16]))
        ensures
            r.0 == self.view,
            r.1 == self.proj,
    {
        (self.view, self.proj)
    }
}

/// The perspective projection matrix for an aspect ratio, as `input`
/// recomputes it and as `set_projection` restores it at aspect one.
pub fn perspective_matrix(aspect: i64) -> (m: [i64; 16])
    requires
        0 < aspect <= ASPECT_LIMIT,
    ensures
        forall|i: int| 0 <= i < 16 ==> #[trigger] m@[i] == persp_entry(aspect as int, i),
{
    compute_persp(aspect)
}

/// The orthographic projection matrix of the fixed box.
pub fn orthographic_matrix() -> (m: [i64; 16])
    ensures
        forall|i: int| 0 <= i < 16 ==> #[trigger] m@[i] == ortho_entry(i),
{
    compute_ortho()
}

/// With yaw at minus ninety degrees and level pitch, the derived front
/// vector is exactly the reference forward direction (0, 0, -1), the right
/// vector points along positive x and the up vector along positive y.
pub proof fn lemma_reference_orientation()
    ensures
        front_spec(-90000, 0) == (Vec3Spec { x: 0, y: 0, z: -1000 }),
        right_spec(-90000) == (Vec3Spec { x: 1000, y: 0, z: 0 }),
        up_spec(-90000, 0) == (Vec3Spec { x: 0, y: 1000, z: 0 }),
{
    lemma_sin_quarter_turns();
    lemma_sin_zeros();
    lemma_cos_reference();
    assert(fx_mul(0, 1000) == 0) by {
        vstd::arithmetic::div_mod::lemma_div_of0(1000);
    }
    assert(fx_mul(-1000, 1000) == -1000) by {
        vstd::arithmetic::div_mod::lemma_div_multiples_vanish(1000, 1000);
    }
    assert(fx_mul(1000, 0) == 0) by {
        vstd::arithmetic::div_mod::lemma_div_of0(1000);
    }
    assert(fx_mul(-1000, 0) == 0) by {
        vstd::arithmetic::div_mod::lemma_div_of0(1000);
    }
    assert(fx_mul(0, 0) == 0) by {
        vstd::arithmetic::div_mod::lemma_div_of0(1000);
    }
}

/// Executable derivation of the three orientation axes from yaw and pitch.
fn compute_axes(yaw: i64, pitch: i64) -> (r: (Vec3Fx, Vec3Fx, Vec3Fx))
    requires
        -180000 <= yaw <= 180000,
        -180000 <= pitch <= 180000,
    ensures
        r.0@ == front_spec(yaw as int, pitch as int),
        r.1@ == right_spec(yaw as int),
        r.2@ == up_spec(yaw as int, pitch as int),
        bounded_axis(r.0@),
        bounded_axis(r.1@),
        bounded_axis(r.2@),
{
    let sy = sin_fx(yaw);
    let cy = cos_fx(yaw);
    let sp = sin_fx(pitch);
    let cp = cos_fx(pitch);
    let front = Vec3Fx { x: fx_mul_fx(cy, cp), y: sp, z: fx_mul_fx(sy, cp) };
    let right = Vec3Fx { x: -sy, y: 0, z: cy };
    let up = Vec3Fx { x: -fx_mul_fx(cy, sp), y: cp, z: -fx_mul_fx(sy, sp) };
    (front, right, up)
}

/// Fixed-point dot product of a unit-range axis with a position.
fn dot_axis_pos(a: Vec3Fx, p: Vec3Fx) -> (r: i64)
    requires
        bounded_axis(a@),
        bounded_pos(p@),
    ensures
        r == dot_spec(a@, p@),
        -6000000000000000000 <= r <= 6000000000000000000,
{
    proof {
        assert(-2000000000000000000 <= (a.x as int) * (p.x as int) <= 2000000000000000000
            && -2000000000000000000 <= (a.y as int) * (p.y as int) <= 2000000000000000000
            && -2000000000000000000 <= (a.z as int) * (p.z as int)
            <= 2000000000000000000) by (nonlinear_arith)
            requires
                -1000 <= a.x as int <= 1000,
                -1000 <= a.y as int <= 1000,
                -1000 <= a.z as int <= 1000,
                -POS_WF_LIMIT <= p.x as int <= POS_WF_LIMIT,
                -POS_WF_LIMIT <= p.y as int <= POS_WF_LIMIT,
                -POS_WF_LIMIT <= p.z as int <= POS_WF_LIMIT,
        ;
    }
    let s: i64 = a.x * p.x + a.y * p.y + a.z * p.z;
    tdiv_fx(s, 1000)
}

/// Executable look-at matrix; the ghost angles tie the axes to their specs.
fn compute_view(
    pos: Vec3Fx,
    front: Vec3Fx,
    right: Vec3Fx,
    up: Vec3Fx,
    Ghost(yaw): Ghost<int>,
    Ghost(pitch): Ghost<int>,
) -> (m: [i64; 16])
    requires
        bounded_pos(pos@),
        bounded_axis(front@),
        bounded_axis(right@),
        bounded_axis(up@),
        front@ == front_spec(yaw, pitch),
        right@ == right_spec(yaw),
        up@ == up_spec(yaw, pitch),
    ensures
        forall|i: int| 0 <= i < 16 ==> #[trigger] m@[i] == view_entry(pos@, yaw, pitch, i),
{
    let ds = dot_axis_pos(right, pos);
    let du = dot_axis_pos(up, pos);
    let df = dot_axis_pos(front, pos);
    let m: [i64; 16] = [
        right.x,
        up.x,
        -front.x,
        0,
        right.y,
        up.y,
        -front.y,
        0,
        right.z,
        up.z,
        -front.z,
        0,
        -ds,
        -du,
        df,
        1000,
    ];
    m
}

/// Executable perspective projection matrix.
fn compute_persp(aspect: i64) -> (m: [i64; 16])
    requires
        0 < aspect <= ASPECT_LIMIT,
    ensures
        forall|i: int| 0 <= i < 16 ==> #[trigger] m@[i] == persp_entry(aspect as int, i),
{
    let s35 = sin_fx(35000);
    let c35 = cos_fx(35000);
    proof {
        assert(35000int % 360000 == 35000);
        assert(125000int % 360000 == 125000);
        assert(35000int * (180000 - 35000) == 5075000000);
        assert(125000int * (180000 - 125000) == 6875000000);
        assert(sin_fx_spec(35000) >= 1) by {
            lemma_div_is_ordered(35425000000, 20300000000000, 35425000000);
            lemma_div_by_self(35425000000);
        }
        assert(sin_fx_spec(35000) <= 1000);
        assert(cos_fx_spec(35000) >= 0) by {
            lemma_div_pos_is_pos(27500000000000, 33625000000);
        }
        assert(cos_fx_spec(35000) <= 1000);
    }
    let fnum: u64 = (c35 as u64) * 1000;
    let f: u64 = fnum / (s35 as u64);
    proof {
        lemma_div_nonincreasing(fnum as int, s35 as int);
    }
    let e0: u64 = (f * 1000) / (aspect as u64);
    proof {
        lemma_div_nonincreasing((f * 1000) as int, aspect as int);
    }
    let e10: i64 = -(((FAR_FX + NEAR_FX) as u64 * 1000 / ((FAR_FX - NEAR_FX) as u64)) as i64);
    let e14: i64 = -(((2 * FAR_FX * NEAR_FX) as u64 / ((FAR_FX - NEAR_FX) as u64)) as i64);
    proof {
        lemma_div_nonincreasing(10000100000, 9999900);
        lemma_div_nonincreasing(2000000000, 9999900);
    }
    let m: [i64; 16] = [
        e0 as i64,
        0,
        0,
        0,
        0,
        f as i64,
        0,
        0,
        0,
        0,
        e10,
        -1000,
        0,
        0,
        e14,
        0,
    ];
    m
}

/// Executable orthographic projection matrix.
fn compute_ortho() -> (m: [i64; 16])
    ensures
        forall|i: int| 0 <= i < 16 ==> #[trigger] m@[i] == ortho_entry(i),
{
    let m: [i64; 16] = [1000, 0, 0, 0, 0, 1000, 0, 0, 0, 0, -5, 0, 0, 0, 500, 1000];
    m
}

/// Position displaced along an axis.
fn add_scaled(p: Vec3Fx, step: i64, axis: Vec3Fx) -> (r: Vec3Fx)
    requires
        -100000000000000 <= step <= 100000000000000,
        bounded_axis(axis@),
        -1900000000000000 <= p.x <= 1900000000000000,
        -1900000000000000 <= p.y <= 1900000000000000,
        -1900000000000000 <= p.z <= 1900000000000000,
    ensures
        r@ == add_scaled_spec(p@, step as int, axis@),
        p.x - 100000000000000 <= r.x <= p.x + 100000000000000,
        p.y - 100000000000000 <= r.y <= p.y + 100000000000000,
        p.z - 100000000000000 <= r.z <= p.z + 100000000000000,
{
    let dx = scale_step(step, axis.x);
    let dy = scale_step(step, axis.y);
    let dz = scale_step(step, axis.z);
    Vec3Fx { x: p.x + dx, y: p.y + dy, z: p.z + dz }
}

/// Position displaced opposite to an axis.
fn sub_scaled(p: Vec3Fx, step: i64, axis: Vec3Fx) -> (r: Vec3Fx)
    requires
        -100000000000000 <= step <= 100000000000000,
        bounded_axis(axis@),
        -1900000000000000 <= p.x <= 1900000000000000,
        -1900000000000000 <= p.y <= 1900000000000000,
        -1900000000000000 <= p.z <= 1900000000000000,
    ensures
        r@ == sub_scaled_spec(p@, step as int, axis@),
        p.x - 100000000000000 <= r.x <= p.x + 100000000000000,
        p.y - 100000000000000 <= r.y <= p.y + 100000000000000,
        p.z - 100000000000000 <= r.z <= p.z + 100000000000000,
{
    let dx = scale_step(step, axis.x);
    let dy = scale_step(step, axis.y);
    let dz = scale_step(step, axis.z);
    Vec3Fx { x: p.x - dx, y: p.y - dy, z: p.z - dz }
}

/// One displacement component: the step times a unit-range axis component,
/// scaled down.
fn scale_step(step: i64, c: i64) -> (r: i64)
    requires
        -100000000000000 <= step <= 100000000000000,
        -1000 <= c <= 1000,
    ensures
        r == scale_comp(step as int, c as int),
        -100000000000000 <= r <= 100000000000000,
{
    proof {
        assert(-100000000000000000 <= (step as int) * (c as int)
            <= 100000000000000000) by (nonlinear_arith)
            requires
                -100000000000000 <= step as int <= 100000000000000,
                -1000 <= c as int <= 1000,
        ;
    }
    let p: i64 = step * c;
    proof {
        lemma_tdiv_bound(p as int, 100000000000000, 1000);
    }
    tdiv_fx(p, 1000)
}

} // verus!
