pub mod num;
pub mod rect;

pub mod result;
pub mod roots;
pub mod solve;
pub mod vec;

pub use crate::math::num::{Ring, Sqrt};
pub use crate::math::result::Result;
pub use crate::math::vec::{Vec2, Vec3, Vec4, Vector};

use crate::math::num::{Max, Min};
use vstd::prelude::*;
use vstd::std_specs::ops::{AddSpec, MulSpec, NegSpec, SubSpec};

verus! {

/// The smaller of two values, as the value's own `Min` decides.
pub fn min<T>(x: T, y: T) -> (r: T)
    where
        T: Min<Output = T>,
    ensures
        r == x.min_spec(y),
{
    x.min(y)
}

/// The larger of two values, as the value's own `Max` decides.
pub fn max<T>(x: T, y: T) -> (r: T)
    where
        T: Max<Output = T>,
    ensures
        r == x.max_spec(y),
{
    x.max(y)
}

/// `x * a + b` on one coordinate.
pub open spec fn linear_spec<T>(x: T, a: T, b: T) -> T
    where
        T: std::ops::Add<Output = T> + std::ops::Mul<Output = T>,
{
    x.mul_spec(a).add_spec(b)
}

/// No step of `x * a + b` on one coordinate overflows.
pub open spec fn linear_req<T>(x: T, a: T, b: T) -> bool
    where
        T: std::ops::Add<Output = T> + std::ops::Mul<Output = T>,
{
    &&& x.mul_req(a)
    &&& x.mul_spec(a).add_req(b)
}

/// `x * x * a + x * b + c` on one coordinate, evaluated left to right.
pub open spec fn quadratic_spec<T>(x: T, a: T, b: T, c: T) -> T
    where
        T: std::ops::Add<Output = T> + std::ops::Mul<Output = T>,
{
    x.mul_spec(x).mul_spec(a).add_spec(x.mul_spec(b)).add_spec(c)
}

/// No step of `x * x * a + x * b + c` on one coordinate overflows.
pub open spec fn quadratic_req<T>(x: T, a: T, b: T, c: T) -> bool
    where
        T: std::ops::Add<Output = T> + std::ops::Mul<Output = T>,
{
    &&& x.mul_req(x)
    &&& x.mul_spec(x).mul_req(a)
    &&& x.mul_req(b)
    &&& x.mul_spec(x).mul_spec(a).add_req(x.mul_spec(b))
    &&& x.mul_spec(x).mul_spec(a).add_spec(x.mul_spec(b)).add_req(c)
}

/// `x² * x * a + x² * b + x * c + d` on one coordinate, with `x² = x * x`,
/// evaluated left to right.
pub open spec fn cubic_spec<T>(x: T, a: T, b: T, c: T, d: T) -> T
    where
        T: std::ops::Add<Output = T> + std::ops::Mul<Output = T>,
{
    let x2 = x.mul_spec(x);
    x2.mul_spec(x).mul_spec(a).add_spec(x2.mul_spec(b)).add_spec(x.mul_spec(c)).add_spec(d)
}

/// No step of the cubic on one coordinate overflows.
pub open spec fn cubic_req<T>(x: T, a: T, b: T, c: T, d: T) -> bool
    where
        T: std::ops::Add<Output = T> + std::ops::Mul<Output = T>,
{
    let x2 = x.mul_spec(x);
    &&& x.mul_req(x)
    &&& x2.mul_req(x)
    &&& x2.mul_spec(x).mul_req(a)
    &&& x2.mul_req(b)
    &&& x2.mul_spec(x).mul_spec(a).add_req(x2.mul_spec(b))
    &&& x.mul_req(c)
    &&& x2.mul_spec(x).mul_spec(a).add_spec(x2.mul_spec(b)).add_req(x.mul_spec(c))
    &&& x2.mul_spec(x).mul_spec(a).add_spec(x2.mul_spec(b)).add_spec(x.mul_spec(c)).add_req(d)
}

/// Evaluates `x * a + b` element by element.
pub fn linear<T, const SIZE: usize>(
    x: Vector<T, SIZE>,
    a: Vector<T, SIZE>,
    b: Vector<T, SIZE>,
) -> (r: Vector<T, SIZE>)
    where
        T: Copy + std::ops::Add<Output = T> + std::ops::Mul<Output = T>,
    requires
        T::obeys_mul_spec(),
        T::obeys_add_spec(),
        forall|i: int| #![trigger x@[i]] #![trigger b@[i]] 0 <= i < SIZE ==> linear_req(x@[i], a@[i], b@[i]),
    ensures
        r@ == Seq::new(SIZE as nat, |i: int| linear_spec(x@[i], a@[i], b@[i])),
{
    broadcast use Vector::lemma_len;
    let xa = x * a;
    let r = xa + b;
    assert(r@ =~= Seq::new(SIZE as nat, |i: int| linear_spec(x@[i], a@[i], b@[i])));
    r
}

/// Evaluates `x * x * a + x * b + c` element by element.
pub fn quadratic<T, const SIZE: usize>(
    x: Vector<T, SIZE>,
    a: Vector<T, SIZE>,
    b: Vector<T, SIZE>,
    c: Vector<T, SIZE>,
) -> (r: Vector<T, SIZE>)
    where
        T: Copy + std::ops::Add<Output = T> + std::ops::Mul<Output = T>,
    requires
        T::obeys_mul_spec(),
        T::obeys_add_spec(),
        forall|i: int| #![trigger x@[i]] #![trigger a@[i]] #![trigger b@[i]] #![trigger c@[i]] 0 <= i < SIZE ==> quadratic_req(x@[i], a@[i], b@[i], c@[i]),
    ensures
        r@ == Seq::new(SIZE as nat, |i: int| quadratic_spec(x@[i], a@[i], b@[i], c@[i])),
{
    broadcast use Vector::lemma_len;
    let xx = x * x;
    let xxa = xx * a;
    let xb = x * b;
    let s = xxa + xb;
    let r = s + c;
    assert(r@ =~= Seq::new(SIZE as nat, |i: int| quadratic_spec(x@[i], a@[i], b@[i], c@[i])));
    r
}

/// Evaluates `x² * x * a + x² * b + x * c + d` element by element, with
/// `x² = x * x`.
pub fn cubic<T, const SIZE: usize>(
    x: Vector<T, SIZE>,
    a: Vector<T, SIZE>,
    b: Vector<T, SIZE>,
    c: Vector<T, SIZE>,
    d: Vector<T, SIZE>,
) -> (r: Vector<T, SIZE>)
    where
        T: Copy + std::ops::Add<Output = T> + std::ops::Mul<Output = T>,
    requires
        T::obeys_mul_spec(),
        T::obeys_add_spec(),
        forall|i: int| #![trigger x@[i]] #![trigger a@[i]] #![trigger b@[i]] #![trigger c@[i]] #![trigger d@[i]] 0 <= i < SIZE ==> cubic_req(x@[i], a@[i], b@[i], c@[i], d@[i]),
    ensures
        r@ == Seq::new(SIZE as nat, |i: int| cubic_spec(x@[i], a@[i], b@[i], c@[i], d@[i])),
{
    broadcast use Vector::lemma_len;
    let x_squared = x * x;
    let x3 = x_squared * x;
    let t3 = x3 * a;
    let t2 = x_squared * b;
    let s2 = t3 + t2;
    let t1 = x * c;
    let s1 = s2 + t1;
    let r = s1 + d;
    assert(r@ =~= Seq::new(SIZE as nat, |i: int| cubic_spec(x@[i], a@[i], b@[i], c@[i], d@[i])));
    r
}

/// `1 + 1 + 1` in the ring.
pub open spec fn three_spec<T: Ring>() -> T {
    T::one_spec().add_spec(T::one_spec()).add_spec(T::one_spec())
}

/// `3 + 3` in the ring.
pub open spec fn six_spec<T: Ring>() -> T {
    three_spec::<T>().add_spec(three_spec::<T>())
}

/// The cubic coefficient of a cubic bezier on one coordinate:
/// `-p0 + p1 * 3 - p2 * 3 + p3`.
pub open spec fn bezier_a<T: Ring>(p0: T, p1: T, p2: T, p3: T) -> T {
    p0.neg_spec().add_spec(p1.mul_spec(three_spec())).sub_spec(p2.mul_spec(three_spec())).add_spec(p3)
}

/// The quadratic coefficient: `p0 * 3 - p1 * 6 + p2 * 3`.
pub open spec fn bezier_b<T: Ring>(p0: T, p1: T, p2: T) -> T {
    p0.mul_spec(three_spec()).sub_spec(p1.mul_spec(six_spec())).add_spec(p2.mul_spec(three_spec()))
}

/// The linear coefficient: `-p0 * 3 + p1 * 3`.
pub open spec fn bezier_c<T: Ring>(p0: T, p1: T) -> T {
    p0.neg_spec().mul_spec(three_spec()).add_spec(p1.mul_spec(three_spec()))
}

/// What `cubic_bezier` gives on one coordinate.
pub open spec fn bezier_spec<T: Ring>(t: T, p0: T, p1: T, p2: T, p3: T) -> T {
    cubic_spec(t, bezier_a(p0, p1, p2, p3), bezier_b(p0, p1, p2), bezier_c(p0, p1), p0)
}

/// No step of `cubic_bezier` on one coordinate overflows.
pub open spec fn bezier_req<T: Ring>(t: T, p0: T, p1: T, p2: T, p3: T) -> bool {
    let three = three_spec::<T>();
    let six = six_spec::<T>();
    &&& p0.neg_req()
    &&& p0.neg_spec().mul_req(three)
    &&& p1.mul_req(three)
    &&& p0.neg_spec().add_req(p1.mul_spec(three))
    &&& p2.mul_req(three)
    &&& p0.neg_spec().add_spec(p1.mul_spec(three)).sub_req(p2.mul_spec(three))
    &&& p0.neg_spec().add_spec(p1.mul_spec(three)).sub_spec(p2.mul_spec(three)).add_req(p3)
    &&& p0.mul_req(three)
    &&& p1.mul_req(six)
    &&& p0.mul_spec(three).sub_req(p1.mul_spec(six))
    &&& p0.mul_spec(three).sub_spec(p1.mul_spec(six)).add_req(p2.mul_spec(three))
    &&& p0.neg_spec().mul_spec(three).add_req(p1.mul_spec(three))
    &&& cubic_req(t, bezier_a(p0, p1, p2, p3), bezier_b(p0, p1, p2), bezier_c(p0, p1), p0)
}

/// The point at `t` of the cubic bezier with start point `b0`, helper points
/// `b1` and `b2` and end point `b3`: the cubic with the coefficients
/// `bezier_a`, `bezier_b`, `bezier_c` and `b0` on each coordinate.
pub fn cubic_bezier<T>(t: T, b0: Vec2<T>, b1: Vec2<T>, b2: Vec2<T>, b3: Vec2<T>) -> (r: Vec2<T>)
    where
        T: Ring,
    requires
        T::obeys_add_spec(),
        T::obeys_sub_spec(),
        T::obeys_mul_spec(),
        T::obeys_neg_spec(),
        T::one_spec().add_req(T::one_spec()),
        T::one_spec().add_spec(T::one_spec()).add_req(T::one_spec()),
        three_spec::<T>().add_req(three_spec::<T>()),
        forall|i: int| #![trigger b0@[i]] #![trigger b1@[i]] #![trigger b2@[i]] #![trigger b3@[i]] 0 <= i < 2 ==> bezier_req(t, b0@[i], b1@[i], b2@[i], b3@[i]),
    ensures
        r@ == Seq::new(2, |i: int| bezier_spec(t, b0@[i], b1@[i], b2@[i], b3@[i])),
{
    broadcast use Vector::lemma_len;
    let _3: T = T::one() + T::one() + T::one();
    let _6: T = _3 + _3;
    let nb0 = std::ops::Neg::neg(b0);
    let nb0_3 = nb0 * _3;
    let b1_3 = b1 * _3;
    let a1 = nb0 + b1_3;
    let b2_3 = b2 * _3;
    let a2 = a1 - b2_3;
    let a = a2 + b3;
    let b0_3 = b0 * _3;
    let b1_6 = b1 * _6;
    let bb1 = b0_3 - b1_6;
    let b = bb1 + b2_3;
    let c = nb0_3 + b1_3;
    let d = b0;
    let x = Vector::from([t, t]);
    let r = cubic(x, a, b, c, d);
    assert(r@ =~= Seq::new(2, |i: int| bezier_spec(t, b0@[i], b1@[i], b2@[i], b3@[i])));
    r
}

/// On integers, a cubic bezier evaluated at `t = 0` is its first point.
pub proof fn lemma_bezier_starts_at_first_point(p0: i64, p1: i64, p2: i64, p3: i64)
    ensures
        bezier_spec(0i64, p0, p1, p2, p3) == p0,
{
    let a = bezier_a(p0, p1, p2, p3);
    let b = bezier_b(p0, p1, p2);
    let c = bezier_c(p0, p1);
    let x2 = 0i64.mul_spec(0i64);
    assert(x2 == 0);
    assert(x2.mul_spec(0i64) == 0);
    assert(0i64.mul_spec(a) == 0);
    assert(0i64.mul_spec(b) == 0);
    assert(0i64.mul_spec(c) == 0);
    assert(0i64.add_spec(0i64) == 0);
    assert(0i64.add_spec(p0) == p0);
}

/// The point at `t` of the cubic bezier on one coordinate, in Bernstein form:
/// `(1-t)³ p0 + 3 (1-t)² t p1 + 3 (1-t) t² p2 + t³ p3`.
pub open spec fn bernstein(t: int, p0: int, p1: int, p2: int, p3: int) -> int {
    let s = 1 - t;
    s * s * s * p0 + 3 * s * s * t * p1 + 3 * s * t * t * p2 + t * t * t * p3
}

/// On integers, where no step of `cubic_bezier` overflows, its value on one
/// coordinate is the Bernstein form of the curve.
pub proof fn lemma_bezier_is_bernstein(t: i64, p0: i64, p1: i64, p2: i64, p3: i64)
    requires
        bezier_req(t, p0, p1, p2, p3),
    ensures
        bezier_spec(t, p0, p1, p2, p3) as int == bernstein(t as int, p0 as int, p1 as int, p2 as int, p3 as int),
{
    let a = bezier_a(p0, p1, p2, p3);
    let b = bezier_b(p0, p1, p2);
    let c = bezier_c(p0, p1);
    assert(three_spec::<i64>() == 3);
    assert(six_spec::<i64>() == 6);
    assert(a as int == -p0 + p1 * 3 - p2 * 3 + p3);
    assert(b as int == p0 * 3 - p1 * 6 + p2 * 3);
    assert(c as int == -p0 * 3 + p1 * 3);
    let (ti, ai, bi, ci, di) = (t as int, a as int, b as int, c as int, p0 as int);
    assert(bezier_spec(t, p0, p1, p2, p3) as int == ti * ti * ti * ai + ti * ti * bi + ti * ci + di);
    let (q0, q1, q2, q3) = (p0 as int, p1 as int, p2 as int, p3 as int);
    let u = 1 - ti;
    let t2 = ti * ti;
    let t3 = t2 * ti;
    assert(u * u * u == 1 - 3 * ti + 3 * t2 - t3) by (nonlinear_arith)
        requires u == 1 - ti, t2 == ti * ti, t3 == t2 * ti;
    assert(u * u * ti == ti - 2 * t2 + t3) by (nonlinear_arith)
        requires u == 1 - ti, t2 == ti * ti, t3 == t2 * ti;
    assert(u * ti * ti == t2 - t3) by (nonlinear_arith)
        requires u == 1 - ti, t2 == ti * ti, t3 == t2 * ti;
    assert(bernstein(ti, q0, q1, q2, q3) == (u * u * u) * q0 + 3 * ((u * u * ti) * q1) + 3 * ((u * ti * ti) * q2) + t3 * q3)
        by (nonlinear_arith)
        requires u == 1 - ti, t2 == ti * ti, t3 == t2 * ti;
    assert((1 - 3 * ti + 3 * t2 - t3) * q0 == q0 - 3 * (ti * q0) + 3 * (t2 * q0) - t3 * q0) by (nonlinear_arith);
    assert((ti - 2 * t2 + t3) * q1 == ti * q1 - 2 * (t2 * q1) + t3 * q1) by (nonlinear_arith);
    assert((t2 - t3) * q2 == t2 * q2 - t3 * q2) by (nonlinear_arith);
    assert(t3 * ai == -(t3 * q0) + 3 * (t3 * q1) - 3 * (t3 * q2) + t3 * q3) by (nonlinear_arith)
        requires ai == -q0 + q1 * 3 - q2 * 3 + q3;
    assert(t2 * bi == 3 * (t2 * q0) - 6 * (t2 * q1) + 3 * (t2 * q2)) by (nonlinear_arith)
        requires bi == q0 * 3 - q1 * 6 + q2 * 3;
    assert(ti * ci == -3 * (ti * q0) + 3 * (ti * q1)) by (nonlinear_arith)
        requires ci == -q0 * 3 + q1 * 3;
    assert(ti * ti * ti * ai == t3 * ai);
    assert(ti * ti * bi == t2 * bi);
}

/// On integers, a cubic bezier evaluated at `t = 1` is its end point.
pub proof fn lemma_bezier_ends_at_last_point(p0: i64, p1: i64, p2: i64, p3: i64)
    requires
        bezier_req(1i64, p0, p1, p2, p3),
    ensures
        bezier_spec(1i64, p0, p1, p2, p3) == p3,
{
    lemma_bezier_is_bernstein(1i64, p0, p1, p2, p3);
}

/// `val` carries `T` one to one into the integers, and every `+` and `*` of
/// `T` that is defined to those of the integers: `T` computes exactly, as
/// every integer type does with `val(x) = x as int` where nothing overflows.
pub open spec fn exact_integers<T>(val: spec_fn(T) -> int) -> bool
    where
        T: std::ops::Add<Output = T> + std::ops::Mul<Output = T>,
{
    &&& forall|p: T, q: T| #![trigger val(p), val(q)] val(p) == val(q) ==> p == q
    &&& forall|p: T, q: T| p.add_req(q) ==> #[trigger] val(p.add_spec(q)) == val(p) + val(q)
    &&& forall|p: T, q: T| p.mul_req(q) ==> #[trigger] val(p.mul_spec(q)) == val(p) * val(q)
}

/// `i64` computes exactly, taken as integers.
pub proof fn lemma_i64_exact()
    ensures
        exact_integers::<i64>(|v: i64| v as int),
{
}

/// Where `T` computes exactly, `linear`, `quadratic` and `cubic` give on each
/// coordinate, wherever no step overflows, the values of their polynomials
/// `x a + b`, `x² a + x b + c` and `x³ a + x² b + x c + d`.
pub proof fn lemma_polynomials<T>(val: spec_fn(T) -> int, x: T, a: T, b: T, c: T, d: T)
    where
        T: std::ops::Add<Output = T> + std::ops::Mul<Output = T>,
    requires
        exact_integers(val),
    ensures
        linear_req(x, a, b) ==> val(linear_spec(x, a, b)) == val(x) * val(a) + val(b),
        quadratic_req(x, a, b, c) ==> val(quadratic_spec(x, a, b, c)) == val(x) * val(x) * val(a) + val(x) * val(b)
            + val(c),
        cubic_req(x, a, b, c, d) ==> val(cubic_spec(x, a, b, c, d)) == val(x) * val(x) * val(x) * val(a) + val(x)
            * val(x) * val(b) + val(x) * val(c) + val(d),
{
}

/// Where `T` computes exactly and `z` is its zero, a cubic whose leading
/// coefficient is `z` is the quadratic of the remaining coefficients, and a
/// quadratic whose leading coefficient is `z` is the linear function of the
/// remaining ones; where the longer form does not overflow, neither does the
/// shorter.
pub proof fn lemma_polynomial_degrees<T>(val: spec_fn(T) -> int, z: T, x: T, a: T, b: T, c: T)
    where
        T: std::ops::Add<Output = T> + std::ops::Mul<Output = T>,
    requires
        exact_integers(val),
        val(z) == 0,
    ensures
        cubic_req(x, z, a, b, c) ==> quadratic_req(x, a, b, c) && cubic_spec(x, z, a, b, c) == quadratic_spec(
            x,
            a,
            b,
            c,
        ),
        quadratic_req(x, z, a, b) ==> linear_req(x, a, b) && quadratic_spec(x, z, a, b) == linear_spec(x, a, b),
{
    if cubic_req(x, z, a, b, c) {
        let x2 = x.mul_spec(x);
        let x3z = x2.mul_spec(x).mul_spec(z);
        assert(val(x3z) == val(x2.mul_spec(x)) * 0);
        let x2a = x2.mul_spec(a);
        assert(val(x3z.add_spec(x2a)) == val(x2a));
        assert(x3z.add_spec(x2a) == x2a);
    }
    if quadratic_req(x, z, a, b) {
        let xxz = x.mul_spec(x).mul_spec(z);
        assert(val(xxz) == val(x.mul_spec(x)) * 0);
        let xa = x.mul_spec(a);
        assert(val(xxz.add_spec(xa)) == val(xa));
        assert(xxz.add_spec(xa) == xa);
    }
}

} // verus!
