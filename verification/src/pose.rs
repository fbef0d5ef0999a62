//! Rigid placement of an instance: a translation together with a unit
//! rotation, both held in fixed-point integers.
//!
//! Translations are in hundredths of a millimetre. Rotation quaternion
//! components are scaled by [`QONE`], so a component of `QONE` stands for
//! the real value `1.0`. Composition clamps its inputs into the canonical
//! ranges and rounds intermediate products toward zero, and the exact
//! resulting values are pinned down by [`Pose::compose_spec`].

use vstd::prelude::*;

verus! {

/// Fixed-point scale of a rotation component: this value stands for `1.0`.
pub const QONE: i64 = 65536;

/// Largest magnitude a translation component may carry after composition.
pub const TMAX: i64 = 1099511627776;

/// Rigid transform placing an instance: translation in hundredths of a
/// millimetre, rotation as a unit quaternion scaled by [`QONE`].
#[derive(Clone, Copy, Debug, PartialEq, Eq, Structural)]
pub struct Pose {
    pub tx: i64,
    pub ty: i64,
    pub tz: i64,
    pub qi: i64,
    pub qj: i64,
    pub qk: i64,
    pub qw: i64,
}

/// Integer division by a positive divisor, rounding toward zero.
pub open spec fn tdiv(x: int, d: int) -> int {
    if x >= 0 {
        x / d
    } else {
        -((-x) / d)
    }
}

/// `x` clamped into `[-b, b]`.
pub open spec fn clamp_to(x: int, b: int) -> int {
    if x < -b {
        -b
    } else if x > b {
        b
    } else {
        x
    }
}

/// A rotation component clamped into its canonical range.
pub open spec fn cq(x: int) -> int {
    clamp_to(x, QONE as int)
}

/// A translation component clamped into its canonical range.
pub open spec fn ct(x: int) -> int {
    clamp_to(x, TMAX as int)
}

impl Pose {
    /// The pose that leaves an instance at the origin, unrotated.
    pub open spec fn identity_spec() -> Pose {
        Pose { tx: 0, ty: 0, tz: 0, qi: 0, qj: 0, qk: 0, qw: QONE }
    }

    /// Returns the identity pose.
    pub fn identity() -> (r: Pose)
        ensures
            r == Pose::identity_spec(),
    {
        Pose { tx: 0, ty: 0, tz: 0, qi: 0, qj: 0, qk: 0, qw: QONE }
    }

    /// Rotation part of `a * b`: the Hamilton product of the clamped
    /// quaternions, rescaled into fixed point and clamped.
    pub open spec fn compose_rot_spec(a: Pose, b: Pose) -> (int, int, int, int) {
        let ai = cq(a.qi as int);
        let aj = cq(a.qj as int);
        let ak = cq(a.qk as int);
        let aw = cq(a.qw as int);
        let bi = cq(b.qi as int);
        let bj = cq(b.qj as int);
        let bk = cq(b.qk as int);
        let bw = cq(b.qw as int);
        let hi = aw * bi + ai * bw + aj * bk - ak * bj;
        let hj = aw * bj - ai * bk + aj * bw + ak * bi;
        let hk = aw * bk + ai * bj - aj * bi + ak * bw;
        let hw = aw * bw - ai * bi - aj * bj - ak * bk;
        (
            cq(tdiv(hi, QONE as int)),
            cq(tdiv(hj, QONE as int)),
            cq(tdiv(hk, QONE as int)),
            cq(tdiv(hw, QONE as int)),
        )
    }

    /// Translation part of `a * b`: `b`'s clamped translation rotated by
    /// `a`'s clamped quaternion, added to `a`'s clamped translation, and
    /// clamped. The rotation uses the quaternion sandwich in the form
    /// `v + 2 (w (q x v) + q x (q x v)) / QONE^2`.
    pub open spec fn compose_trans_spec(a: Pose, b: Pose) -> (int, int, int) {
        let qi = cq(a.qi as int);
        let qj = cq(a.qj as int);
        let qk = cq(a.qk as int);
        let qw = cq(a.qw as int);
        let vx = ct(b.tx as int);
        let vy = ct(b.ty as int);
        let vz = ct(b.tz as int);
        let ux = qj * vz - qk * vy;
        let uy = qk * vx - qi * vz;
        let uz = qi * vy - qj * vx;
        let sx = qw * ux + qj * uz - qk * uy;
        let sy = qw * uy + qk * ux - qi * uz;
        let sz = qw * uz + qi * uy - qj * ux;
        let scale = QONE as int * QONE as int;
        (
            ct(ct(a.tx as int) + vx + tdiv(2 * sx, scale)),
            ct(ct(a.ty as int) + vy + tdiv(2 * sy, scale)),
            ct(ct(a.tz as int) + vz + tdiv(2 * sz, scale)),
        )
    }

    /// `a * b`: the pose reached by applying `b` and then `a`.
    pub open spec fn compose_spec(a: Pose, b: Pose) -> Pose {
        let (qi, qj, qk, qw) = Pose::compose_rot_spec(a, b);
        let (tx, ty, tz) = Pose::compose_trans_spec(a, b);
        Pose {
            tx: tx as i64,
            ty: ty as i64,
            tz: tz as i64,
            qi: qi as i64,
            qj: qj as i64,
            qk: qk as i64,
            qw: qw as i64,
        }
    }

    /// Returns `self * other`, exactly as [`Pose::compose_spec`] states.
    pub fn compose(&self, other: &Pose) -> (r: Pose)
        ensures
            r == Pose::compose_spec(*self, *other),
    {
        let ai = clamp_q(self.qi) as i128;
        let aj = clamp_q(self.qj) as i128;
        let ak = clamp_q(self.qk) as i128;
        let aw = clamp_q(self.qw) as i128;
        let bi = clamp_q(other.qi) as i128;
        let bj = clamp_q(other.qj) as i128;
        let bk = clamp_q(other.qk) as i128;
        let bw = clamp_q(other.qw) as i128;
        let q: i128 = QONE as i128;
        let ghost qb: int = QONE as int;

        let hi = mul_bounded(aw, bi, Ghost(qb), Ghost(qb)) + mul_bounded(ai, bw, Ghost(qb), Ghost(qb))
            + mul_bounded(aj, bk, Ghost(qb), Ghost(qb)) - mul_bounded(ak, bj, Ghost(qb), Ghost(qb));
        let hj = mul_bounded(aw, bj, Ghost(qb), Ghost(qb)) - mul_bounded(ai, bk, Ghost(qb), Ghost(qb))
            + mul_bounded(aj, bw, Ghost(qb), Ghost(qb)) + mul_bounded(ak, bi, Ghost(qb), Ghost(qb));
        let hk = mul_bounded(aw, bk, Ghost(qb), Ghost(qb)) + mul_bounded(ai, bj, Ghost(qb), Ghost(qb))
            - mul_bounded(aj, bi, Ghost(qb), Ghost(qb)) + mul_bounded(ak, bw, Ghost(qb), Ghost(qb));
        let hw = mul_bounded(aw, bw, Ghost(qb), Ghost(qb)) - mul_bounded(ai, bi, Ghost(qb), Ghost(qb))
            - mul_bounded(aj, bj, Ghost(qb), Ghost(qb)) - mul_bounded(ak, bk, Ghost(qb), Ghost(qb));

        let rqi = clamp_q128(tdiv128(hi, q));
        let rqj = clamp_q128(tdiv128(hj, q));
        let rqk = clamp_q128(tdiv128(hk, q));
        let rqw = clamp_q128(tdiv128(hw, q));

        let vx = clamp_t(other.tx) as i128;
        let vy = clamp_t(other.ty) as i128;
        let vz = clamp_t(other.tz) as i128;
        let ghost tb: int = TMAX as int;
        let ghost ub: int = 2 * qb * tb;

        let ux = mul_bounded(aj, vz, Ghost(qb), Ghost(tb)) - mul_bounded(ak, vy, Ghost(qb), Ghost(tb));
        let uy = mul_bounded(ak, vx, Ghost(qb), Ghost(tb)) - mul_bounded(ai, vz, Ghost(qb), Ghost(tb));
        let uz = mul_bounded(ai, vy, Ghost(qb), Ghost(tb)) - mul_bounded(aj, vx, Ghost(qb), Ghost(tb));

        let sx = mul_bounded(aw, ux, Ghost(qb), Ghost(ub)) + mul_bounded(aj, uz, Ghost(qb), Ghost(ub))
            - mul_bounded(ak, uy, Ghost(qb), Ghost(ub));
        let sy = mul_bounded(aw, uy, Ghost(qb), Ghost(ub)) + mul_bounded(ak, ux, Ghost(qb), Ghost(ub))
            - mul_bounded(ai, uz, Ghost(qb), Ghost(ub));
        let sz = mul_bounded(aw, uz, Ghost(qb), Ghost(ub)) + mul_bounded(ai, uy, Ghost(qb), Ghost(ub))
            - mul_bounded(aj, ux, Ghost(qb), Ghost(ub));

        let scale: i128 = q * q;
        let rtx = clamp_t128(clamp_t(self.tx) as i128 + vx + tdiv128(2 * sx, scale));
        let rty = clamp_t128(clamp_t(self.ty) as i128 + vy + tdiv128(2 * sy, scale));
        let rtz = clamp_t128(clamp_t(self.tz) as i128 + vz + tdiv128(2 * sz, scale));

        Pose { tx: rtx, ty: rty, tz: rtz, qi: rqi, qj: rqj, qk: rqk, qw: rqw }
    }
}

/// `x * y` together with the bound `|x * y| <= bx * by`.
#[inline]
fn mul_bounded(x: i128, y: i128, Ghost(bx): Ghost<int>, Ghost(by): Ghost<int>) -> (r: i128)
    requires
        0 <= bx,
        0 <= by,
        -bx <= x as int <= bx,
        -by <= y as int <= by,
        bx * by <= i128::MAX as int,
    ensures
        r as int == x as int * y as int,
        -(bx * by) <= r as int <= bx * by,
{
    proof {
        lemma_abs_mul_bound(x as int, y as int, bx, by);
    }
    x * y
}

proof fn lemma_abs_mul_bound(x: int, y: int, bx: int, by: int)
    by (nonlinear_arith)
    requires
        0 <= bx,
        0 <= by,
        -bx <= x <= bx,
        -by <= y <= by,
    ensures
        -(bx * by) <= x * y <= bx * by,
{
}

/// Division of `x` by a positive `d`, rounding toward zero.
fn tdiv128(x: i128, d: i128) -> (r: i128)
    requires
        0 < d,
        (i128::MIN as int) < (x as int),
    ensures
        r as int == tdiv(x as int, d as int),
        -(x as int) <= r as int <= x as int || x as int <= r as int <= -(x as int),
{
    proof {
        lemma_div_shrinks(x as int, d as int);
    }
    if x >= 0 {
        (x as u128 / d as u128) as i128
    } else {
        -(((-x) as u128 / d as u128) as i128)
    }
}

proof fn lemma_div_shrinks(x: int, d: int)
    by (nonlinear_arith)
    requires
        0 < d,
    ensures
        x >= 0 ==> 0 <= x / d <= x,
        x < 0 ==> 0 <= (-x) / d <= -x,
{
}

/// Clamps a rotation component into `[-QONE, QONE]`.
fn clamp_q(x: i64) -> (r: i64)
    ensures
        r as int == cq(x as int),
{
    if x < -QONE {
        -QONE
    } else if x > QONE {
        QONE
    } else {
        x
    }
}

/// Clamps a wide rotation component into `[-QONE, QONE]`.
fn clamp_q128(x: i128) -> (r: i64)
    ensures
        r as int == cq(x as int),
{
    if x < -(QONE as i128) {
        -QONE
    } else if x > QONE as i128 {
        QONE
    } else {
        x as i64
    }
}

/// Clamps a translation component into `[-TMAX, TMAX]`.
fn clamp_t(x: i64) -> (r: i64)
    ensures
        r as int == ct(x as int),
{
    if x < -TMAX {
        -TMAX
    } else if x > TMAX {
        TMAX
    } else {
        x
    }
}

/// Clamps a wide translation component into `[-TMAX, TMAX]`.
fn clamp_t128(x: i128) -> (r: i64)
    ensures
        r as int == ct(x as int),
{
    if x < -(TMAX as i128) {
        -TMAX
    } else if x > TMAX as i128 {
        TMAX
    } else {
        x as i64
    }
}

} // verus!
