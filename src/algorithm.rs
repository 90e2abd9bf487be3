use vstd::prelude::*;
use vstd::arithmetic::div_mod::lemma_fundamental_div_mod;
use vstd::arithmetic::div_mod::lemma_fundamental_div_mod_converse;

verus! {

/// Half a turn (pi) in microradians.
pub const HALF_TURN: i64 = 3_141_593;

/// A full turn (2 pi) in microradians.
pub const FULL_TURN: i64 = 6_283_186;

/// An attitude, or an attitude error, as roll (x), pitch (y) and yaw (z) in microradians.
#[derive(Clone, Copy, Debug, PartialEq, Eq, Structural)]
pub struct Orientation {
    pub x: i64,
    pub y: i64,
    pub z: i64,
}

/// Gains of a proportional-derivative controller, applied on each axis.
#[derive(Clone, Copy, Debug, PartialEq, Eq, Structural)]
pub struct PDController {
    /// Proportional gain.
    pub kp: i32,
    /// Derivative gain, applied to the measured angular rate.
    pub kd: i32,
}

/// The four motor commands of one control cycle, in micronewtons.
#[derive(Clone, Copy, Debug, PartialEq, Eq, Structural)]
pub struct MotorForces {
    pub m1: i64,
    pub m2: i64,
    pub m3: i64,
    pub m4: i64,
}

/// The four motor commands before they are bounded to the operating range.
#[derive(Clone, Copy, Debug, PartialEq, Eq, Structural)]
pub struct MixedForces {
    pub m1: i128,
    pub m2: i128,
    pub m3: i128,
    pub m4: i128,
}

/// A three-axis reading in millionths of the sensor's unit.
#[derive(Clone, Copy, Debug, PartialEq, Eq, Structural)]
pub struct Coords {
    pub x: i64,
    pub y: i64,
    pub z: i64,
}

/// The angle congruent to `a` modulo a full turn that lies in (-pi, pi].
pub open spec fn normalized(a: int) -> int {
    HALF_TURN - (HALF_TURN - a) % (FULL_TURN as int)
}

/// `kp * error - kd * rate` on one axis.
pub open spec fn pd(c: PDController, error: int, rate: int) -> int {
    c.kp * error - c.kd * rate
}

/// The X-layout mixing matrix: motors front-left, front-right, back-right,
/// back-left.
pub open spec fn mixed(base: int, cx: int, cy: int, cz: int) -> (int, int, int, int) {
    (base + cx - cy + cz, base - cx - cy - cz, base - cx + cy + cz, base + cx + cy - cz)
}

/// `force` bounded above by `hi`, then below by `lo`.
pub open spec fn clamped(force: int, lo: int, hi: int) -> int {
    let upper = if force < hi { force } else { hi };
    if upper > lo { upper } else { lo }
}

/// Largest magnitude of a correction that `pd_control` can produce (2^95).
pub const CORRECTION_LIMIT: i128 = 0x8000_0000_0000_0000_0000_0000;

/// Wraps an angle, given with some headroom beyond `i64`, into (-pi, pi].
fn wrap_angle(angle: i128) -> (r: i64)
    requires
        -0x1_0000_0000_0000_0000 <= angle <= 0x1_0000_0000_0000_0000,
    ensures
        r == normalized(angle as int),
        -HALF_TURN < r <= HALF_TURN,
{
    let t: i128 = HALF_TURN as i128 - angle;
    let full: u128 = FULL_TURN as u128;
    let m: i128;
    if t >= 0 {
        m = ((t as u128) % full) as i128;
    } else {
        let n: u128 = ((-t) as u128) % full;
        proof {
            let d = FULL_TURN as int;
            let q = (-t as int) / d;
            lemma_fundamental_div_mod(-t as int, d);
            assert(-t as int == d * q + n as int);
            if n == 0 {
                assert(t as int == (-q) * d + 0) by (nonlinear_arith)
                    requires
                        -t as int == d * q + n as int,
                        n == 0,
                ;
                lemma_fundamental_div_mod_converse(t as int, d, -q, 0);
            } else {
                assert(t as int == (-q - 1) * d + (d - n as int)) by (nonlinear_arith)
                    requires
                        -t as int == d * q + n as int,
                ;
                lemma_fundamental_div_mod_converse(t as int, d, -q - 1, d - n as int);
            }
        }
        if n == 0 {
            m = 0;
        } else {
            m = (full - n) as i128;
        }
    }
    (HALF_TURN as i128 - m) as i64
}

/// Wraps an angle into (-pi, pi].
pub fn normalize_angle(angle: i64) -> (r: i64)
    ensures
        r == normalized(angle as int),
        -HALF_TURN < r <= HALF_TURN,
{
    wrap_angle(angle as i128)
}

/// Every angle wraps into (-pi, pi], and adding a full turn does not change
/// where it wraps to.
pub proof fn lemma_normalize_range_and_period(e: int)
    ensures
        -HALF_TURN < normalized(e) <= HALF_TURN,
        normalized(e + FULL_TURN) == normalized(e),
{
    let d = FULL_TURN as int;
    let x = HALF_TURN - e;
    lemma_fundamental_div_mod(x, d);
    lemma_fundamental_div_mod_converse(x - d, d, x / d - 1, x % d);
    assert(HALF_TURN - (e + FULL_TURN) == x - d);
}

/// The error of the current attitude against a target, wrapped into (-pi, pi]
/// on each axis.
pub fn calculate_orientation_error(target: &Orientation, roll: i64, pitch: i64, yaw: i64) -> (r:
    Orientation)
    ensures
        r.x == normalized(target.x - roll),
        r.y == normalized(target.y - pitch),
        r.z == normalized(target.z - yaw),
{
    Orientation {
        x: wrap_angle(target.x as i128 - roll as i128),
        y: wrap_angle(target.y as i128 - pitch as i128),
        z: wrap_angle(target.z as i128 - yaw as i128),
    }
}

/// The correction on one axis: proportional to the error, damped by the
/// measured angular rate.
pub fn pd_control(controller: &PDController, error: i64, angular_velocity: i64) -> (r: i128)
    ensures
        r == pd(*controller, error as int, angular_velocity as int),
        -CORRECTION_LIMIT <= r <= CORRECTION_LIMIT,
{
    let kp = controller.kp as i128;
    let kd = controller.kd as i128;
    let e = error as i128;
    let v = angular_velocity as i128;
    proof {
        assert(-0x4000_0000_0000_0000_0000_0000 <= kp * e <= 0x4000_0000_0000_0000_0000_0000)
            by (nonlinear_arith)
            requires
                -0x8000_0000 <= kp <= 0x7fff_ffff,
                -0x8000_0000_0000_0000 <= e <= 0x7fff_ffff_ffff_ffff,
        ;
        assert(-0x4000_0000_0000_0000_0000_0000 <= kd * v <= 0x4000_0000_0000_0000_0000_0000)
            by (nonlinear_arith)
            requires
                -0x8000_0000 <= kd <= 0x7fff_ffff,
                -0x8000_0000_0000_0000 <= v <= 0x7fff_ffff_ffff_ffff,
        ;
    }
    kp * e - kd * v
}

/// Spreads a base thrust and a three-axis correction over the four motors of
/// an X-layout quadrotor.
pub fn mix_motor_forces(base_thrust: i64, correction_x: i128, correction_y: i128, correction_z: i128)
    -> (r: MixedForces)
    requires
        -CORRECTION_LIMIT <= correction_x <= CORRECTION_LIMIT,
        -CORRECTION_LIMIT <= correction_y <= CORRECTION_LIMIT,
        -CORRECTION_LIMIT <= correction_z <= CORRECTION_LIMIT,
    ensures
        (r.m1 as int, r.m2 as int, r.m3 as int, r.m4 as int) == mixed(
            base_thrust as int,
            correction_x as int,
            correction_y as int,
            correction_z as int,
        ),
{
    let b = base_thrust as i128;
    MixedForces {
        m1: b + correction_x - correction_y + correction_z,
        m2: b - correction_x - correction_y - correction_z,
        m3: b - correction_x + correction_y + correction_z,
        m4: b + correction_x + correction_y - correction_z,
    }
}

/// Bounds a force: first from above by `max`, then from below by `min`.
pub fn clamp_motor_force(force: i128, min: i64, max: i64) -> (r: i64)
    ensures
        r == clamped(force as int, min as int, max as int),
        min <= max ==> min <= r <= max,
{
    let upper: i128 = if force < max as i128 {
        force
    } else {
        max as i128
    };
    if upper > min as i128 {
        upper as i64
    } else {
        min
    }
}

/// The fixed configuration of the stabilization loop.
#[derive(Clone, Copy, Debug, PartialEq, Eq, Structural)]
pub struct StabilizerConfig {
    /// The attitude to hold.
    pub target: Orientation,
    /// The gains used on every axis.
    pub gains: PDController,
    /// Thrust of each motor when no correction is needed.
    pub base_thrust: i64,
    /// Lower bound of each motor command.
    pub min_thrust: i64,
    /// Upper bound of each motor command.
    pub max_thrust: i64,
}

impl StabilizerConfig {
    /// The motor bounds form a range.
    pub open spec fn wf(&self) -> bool {
        self.min_thrust <= self.max_thrust
    }

    /// Level hover: zero target attitude, gains of 600000 and 1000000, a base
    /// thrust of 70 N and motor commands bounded to [0 N, 150 N].
    pub fn standby() -> (r: StabilizerConfig)
        ensures
            r.wf(),
            r.target == (Orientation { x: 0, y: 0, z: 0 }),
            r.gains == (PDController { kp: 600000, kd: 1000000 }),
            r.base_thrust == 70_000_000,
            r.min_thrust == 0,
            r.max_thrust == 150_000_000,
    {
        StabilizerConfig {
            target: Orientation { x: 0, y: 0, z: 0 },
            gains: PDController { kp: 600000, kd: 1000000 },
            base_thrust: 70_000_000,
            min_thrust: 0,
            max_thrust: 150_000_000,
        }
    }
}

/// The motor commands of one cycle: attitude error against the target, PD
/// correction per axis, mixing, then bounding of each motor.
pub open spec fn cycle_output(c: StabilizerConfig, estimate: Orientation, rate: Coords) -> MotorForces {
    let cx = pd(c.gains, normalized(c.target.x - estimate.x), rate.x as int);
    let cy = pd(c.gains, normalized(c.target.y - estimate.y), rate.y as int);
    let cz = pd(c.gains, normalized(c.target.z - estimate.z), rate.z as int);
    let m = mixed(c.base_thrust as int, cx, cy, cz);
    MotorForces {
        m1: clamped(m.0, c.min_thrust as int, c.max_thrust as int) as i64,
        m2: clamped(m.1, c.min_thrust as int, c.max_thrust as int) as i64,
        m3: clamped(m.2, c.min_thrust as int, c.max_thrust as int) as i64,
        m4: clamped(m.3, c.min_thrust as int, c.max_thrust as int) as i64,
    }
}

/// All four commands lie within the configured motor bounds.
pub open spec fn forces_within(f: MotorForces, lo: int, hi: int) -> bool {
    lo <= f.m1 <= hi && lo <= f.m2 <= hi && lo <= f.m3 <= hi && lo <= f.m4 <= hi
}

/// Runs one control cycle on an attitude estimate and the measured angular rate.
pub fn control_cycle(config: &StabilizerConfig, estimate: &Orientation, rate: &Coords) -> (r:
    MotorForces)
    ensures
        r == cycle_output(*config, *estimate, *rate),
        config.wf() ==> forces_within(r, config.min_thrust as int, config.max_thrust as int),
{
    let error = calculate_orientation_error(&config.target, estimate.x, estimate.y, estimate.z);
    let cx = pd_control(&config.gains, error.x, rate.x);
    let cy = pd_control(&config.gains, error.y, rate.y);
    let cz = pd_control(&config.gains, error.z, rate.z);
    let mixed = mix_motor_forces(config.base_thrust, cx, cy, cz);
    MotorForces {
        m1: clamp_motor_force(mixed.m1, config.min_thrust, config.max_thrust),
        m2: clamp_motor_force(mixed.m2, config.min_thrust, config.max_thrust),
        m3: clamp_motor_force(mixed.m3, config.min_thrust, config.max_thrust),
        m4: clamp_motor_force(mixed.m4, config.min_thrust, config.max_thrust),
    }
}

/// The control law is linear in (error, rate) and gives no correction for no
/// error at rest.
pub proof fn lemma_pd_linear(c: PDController, e1: int, r1: int, e2: int, r2: int, k: int)
    ensures
        pd(c, e1 + e2, r1 + r2) == pd(c, e1, r1) + pd(c, e2, r2),
        pd(c, k * e1, k * r1) == k * pd(c, e1, r1),
        pd(c, 0, 0) == 0,
{
    assert(pd(c, e1 + e2, r1 + r2) == pd(c, e1, r1) + pd(c, e2, r2)) by (nonlinear_arith);
    assert(pd(c, k * e1, k * r1) == k * pd(c, e1, r1)) by (nonlinear_arith);
}

/// With no correction, every motor receives the base thrust.
pub proof fn lemma_mix_without_correction(base: int)
    ensures
        mixed(base, 0, 0, 0) == (base, base, base, base),
{
}

/// Bounding a force twice is bounding it once, and with `lo <= hi` the result
/// lies in `[lo, hi]`.
pub proof fn lemma_clamp_idempotent(f: int, lo: int, hi: int)
    ensures
        clamped(clamped(f, lo, hi), lo, hi) == clamped(f, lo, hi),
        lo <= hi ==> lo <= clamped(f, lo, hi) <= hi,
{
}

/// At the target attitude and at rest, every motor receives the base thrust,
/// bounded to the motor range.
pub proof fn lemma_hover_at_target(c: StabilizerConfig)
    requires
        c.wf(),
    ensures
        ({
            let b = clamped(c.base_thrust as int, c.min_thrust as int, c.max_thrust as int) as i64;
            cycle_output(c, c.target, Coords { x: 0, y: 0, z: 0 }) == (MotorForces {
                m1: b,
                m2: b,
                m3: b,
                m4: b,
            })
        }),
{
    let d = FULL_TURN as int;
    lemma_fundamental_div_mod_converse(HALF_TURN as int, d, 0, HALF_TURN as int);
    assert(normalized(0) == 0);
    assert(pd(c.gains, 0, 0) == 0);
}

} // verus!
