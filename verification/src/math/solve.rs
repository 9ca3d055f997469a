use crate::math::num::{Acos, Cbrt, Cos, Field, Sqrt};
use crate::math::result::Result;
use crate::math::vec::{Vec2, Vec3, Vector};
use crate::math::{bezier_a, bezier_b, bezier_c, bezier_spec, cubic_bezier};
use core::cmp::Ordering;
use vstd::prelude::*;
use vstd::std_specs::cmp::{OrdSpec, PartialEqIs, PartialEqSpec, PartialOrdIs, PartialOrdSpec};
use vstd::std_specs::ops::{AddSpec, DivSpec, MulSpec, NegSpec, SubSpec};

verus! {

/// Every `+`, `-`, `*` and unary `-` on `T` is defined, these and `/` give
/// what their specifications say, and `==` and `<` follow theirs. When a
/// division is defined is left to each solver's own requirement.
pub open spec fn exact_field_ops<T: Field + PartialEq + PartialOrd>() -> bool {
    &&& T::obeys_add_spec()
    &&& T::obeys_sub_spec()
    &&& T::obeys_mul_spec()
    &&& T::obeys_div_spec()
    &&& T::obeys_neg_spec()
    &&& T::obeys_eq_spec()
    &&& T::obeys_partial_cmp_spec()
    &&& forall|x: T, y: T| #[trigger] x.add_req(y)
    &&& forall|x: T, y: T| #[trigger] x.sub_req(y)
    &&& forall|x: T, y: T| #[trigger] x.mul_req(y)
    &&& forall|x: T| #[trigger] x.neg_req()
}

/// Dividing any value by `y` is defined.
pub open spec fn divides_all<T: Field>(y: T) -> bool {
    forall|x: T| #[trigger] x.div_req(y)
}

/// The division that `solve_linear` makes, `-b / a` when `a` is not zero, is
/// defined.
pub open spec fn linear_divisions<T: Field + PartialEq>(a: T, b: T) -> bool {
    !a.is_eq(&T::zero_spec()) ==> b.neg_spec().div_req(a)
}

/// What `solve_linear` gives for `a * x + b = 0`.
pub open spec fn solve_linear_spec<T: Field + PartialEq>(a: T, b: T) -> Result<T> {
    if a.is_eq(&T::zero_spec()) {
        if b.is_eq(&T::zero_spec()) {
            Result::Defined(T::zero_spec())
        } else {
            Result::Undefined
        }
    } else {
        Result::Defined(b.neg_spec().div_spec(a))
    }
}

/// Solves `a * x + b = 0`: `-b / a` when `a` is not zero; zero when both are
/// zero; undefined when only `a` is zero.
pub fn solve_linear<T>(a: T, b: T) -> (r: Result<T>)
    where
        T: Field + PartialEq + PartialOrd,
    requires
        exact_field_ops::<T>(),
        linear_divisions(a, b),
    ensures
        r == solve_linear_spec(a, b),
{
    if a == T::zero() {
        if b == T::zero() {
            return Result::Defined(T::zero());
        }
        return Result::Undefined;
    }
    assert(b.neg_req());
    let nb = std::ops::Neg::neg(b);
    assert(nb.div_req(a));
    return Result::Defined(nb / a);
}

/// `1 + 1`.
pub open spec fn two_spec<T: Field>() -> T {
    T::one_spec().add_spec(T::one_spec())
}

/// `2 + 2`.
pub open spec fn four_spec<T: Field>() -> T {
    two_spec::<T>().add_spec(two_spec::<T>())
}

/// The discriminant `b * b - 4 * a * c` of `a * x² + b * x + c`.
pub open spec fn discriminant<T: Field>(a: T, b: T, c: T) -> T {
    b.mul_spec(b).sub_spec(four_spec::<T>().mul_spec(a).mul_spec(c))
}

/// `-b / (2 * a)`, the midpoint of the two roots of `a * x² + b * x + c`.
pub open spec fn vertex<T: Field>(a: T, b: T) -> T {
    b.neg_spec().div_spec(two_spec::<T>().mul_spec(a))
}

/// The divisions that `solve_quadratic` makes are defined: those of
/// `solve_linear` for `b * x + c` when `a` is zero, else those by `2 * a`.
pub open spec fn quadratic_divisions<T: Field + PartialEq>(a: T, b: T, c: T) -> bool {
    if a.is_eq(&T::zero_spec()) {
        linear_divisions(b, c)
    } else {
        divides_all(two_spec::<T>().mul_spec(a))
    }
}

/// The two roots `vertex ± d / (2 * a)` for a square root `d` of the
/// discriminant.
pub open spec fn quadratic_roots<T: Field>(a: T, b: T, d: T) -> Seq<Result<T>> {
    let half = d.div_spec(two_spec::<T>().mul_spec(a));
    seq![Result::Defined(vertex(a, b).add_spec(half)), Result::Defined(vertex(a, b).sub_spec(half))]
}

/// Solves `a * x² + b * x + c = 0`. With `a` zero it solves the linear
/// equation instead; a negative discriminant gives no root, a zero one gives
/// the single root `-b / (2 * a)`, and a positive one gives both roots, from
/// the value that `sqrt` returned for the discriminant.
pub fn solve_quadratic<T>(a: T, b: T, c: T) -> (r: Vec2<Result<T>>)
    where
        T: Field + Sqrt + PartialEq + PartialOrd,
    requires
        exact_field_ops::<T>(),
        quadratic_divisions(a, b, c),
    ensures
        a.is_eq(&T::zero_spec()) ==> r@ == seq![solve_linear_spec(b, c), Result::Undefined],
        !a.is_eq(&T::zero_spec()) && discriminant(a, b, c).is_lt(&T::zero_spec()) ==> r@ == seq![
            Result::<T>::Undefined,
            Result::<T>::Undefined,
        ],
        !a.is_eq(&T::zero_spec()) && !discriminant(a, b, c).is_lt(&T::zero_spec())
            && discriminant(a, b, c).is_eq(&T::zero_spec()) ==> r@ == seq![
            Result::Defined(vertex(a, b)),
            Result::Undefined,
        ],
        !a.is_eq(&T::zero_spec()) && !discriminant(a, b, c).is_lt(&T::zero_spec())
            && !discriminant(a, b, c).is_eq(&T::zero_spec()) ==> exists|d: T|
            #[trigger] call_ensures(T::sqrt, (discriminant(a, b, c),), d) && r@ == quadratic_roots(a, b, d),
{
    broadcast use Vector::lemma_len;
    if a == T::zero() {
        let x = solve_linear(b, c);
        let r = Vector::from([x, Result::Undefined]);
        assert(r@ =~= seq![solve_linear_spec(b, c), Result::Undefined]);
        return r;
    }
    let _0 = T::zero();
    let _2 = T::one() + T::one();
    let _4 = _2 + _2;

    let delta0 = _2 * a;
    let delta1 = std::ops::Neg::neg(b) / delta0;
    let discriminant = b * b - _4 * a * c;
    if discriminant < _0 {
        let r = Vector::from([Result::Undefined, Result::Undefined]);
        assert(r@ =~= seq![Result::<T>::Undefined, Result::<T>::Undefined]);
        return r;
    }
    if discriminant == _0 {
        let r = Vector::from([Result::Defined(delta1), Result::Undefined]);
        assert(r@ =~= seq![Result::Defined(vertex(a, b)), Result::Undefined]);
        return r;
    }
    let d = (b * b - _4 * a * c).sqrt();
    let r = Vector::from([Result::Defined(delta1 + d / delta0), Result::Defined(delta1 - d / delta0)]);
    assert(r@ =~= quadratic_roots(a, b, d));
    return r;
}

/// `2 + 1`.
pub open spec fn three_spec<T: Field>() -> T {
    two_spec::<T>().add_spec(T::one_spec())
}

/// `3 + 3 + 3`.
pub open spec fn c9_spec<T: Field>() -> T {
    three_spec::<T>().add_spec(three_spec::<T>()).add_spec(three_spec::<T>())
}

/// `9 + 9 + 9`.
pub open spec fn c27_spec<T: Field>() -> T {
    c9_spec::<T>().add_spec(c9_spec::<T>()).add_spec(c9_spec::<T>())
}

/// `27 + 27`.
pub open spec fn c54_spec<T: Field>() -> T {
    c27_spec::<T>().add_spec(c27_spec::<T>())
}

/// `(3 * a1 - a2 * a2) / 9` for the normalised coefficients `a2 = b / a`,
/// `a1 = c / a`.
pub open spec fn cubic_q<T: Field>(a: T, b: T, c: T) -> T {
    let a2 = b.div_spec(a);
    let a1 = c.div_spec(a);
    three_spec::<T>().mul_spec(a1).sub_spec(a2.mul_spec(a2)).div_spec(c9_spec::<T>())
}

/// `(9 * a2 * a1 - 27 * a0 - 2 * a2 * a2 * a2) / 54` for the normalised
/// coefficients `a2 = b / a`, `a1 = c / a`, `a0 = d / a`.
pub open spec fn cubic_r<T: Field>(a: T, b: T, c: T, d: T) -> T {
    let a2 = b.div_spec(a);
    let a1 = c.div_spec(a);
    let a0 = d.div_spec(a);
    c9_spec::<T>().mul_spec(a2).mul_spec(a1).sub_spec(c27_spec::<T>().mul_spec(a0)).sub_spec(
        two_spec::<T>().mul_spec(a2).mul_spec(a2).mul_spec(a2),
    ).div_spec(c54_spec::<T>())
}

/// `q * q * q`.
pub open spec fn cubic_q3<T: Field>(a: T, b: T, c: T) -> T {
    let q = cubic_q(a, b, c);
    q.mul_spec(q).mul_spec(q)
}

/// `q³ + r * r`, whose sign chooses between the two formulas.
pub open spec fn cubic_d0<T: Field>(a: T, b: T, c: T, d: T) -> T {
    let r = cubic_r(a, b, c, d);
    cubic_q3(a, b, c).add_spec(r.mul_spec(r))
}

/// `a2 / 3`, the shift back from the depressed cubic.
pub open spec fn cubic_shift<T: Field>(a: T, b: T) -> T {
    b.div_spec(a).div_spec(three_spec::<T>())
}

/// The three roots of the trigonometric formula, from `2 * sqrt(-q)` and
/// the cosines of `phi / 3`, `phi / 3 - 2π/3` and `phi / 3 + 2π/3`.
pub open spec fn cubic_trig_roots<T: Field>(
    a: T,
    b: T,
    sqrt_q_2: T,
    cos0: T,
    cos1: T,
    cos2: T,
) -> Seq<Result<T>> {
    let shift = cubic_shift(a, b);
    seq![
        Result::Defined(sqrt_q_2.mul_spec(cos0).sub_spec(shift)),
        Result::Defined(sqrt_q_2.mul_spec(cos1).sub_spec(shift)),
        Result::Defined(sqrt_q_2.mul_spec(cos2).sub_spec(shift)),
    ]
}

/// The roots of Cardano's formula from the two cube roots `s` and `t`: two
/// roots when `s == t` and `s + t` is not zero, else one.
pub open spec fn cubic_cardano_roots<T: Field + PartialEq>(a: T, b: T, s: T, t: T) -> Seq<Result<T>> {
    let shift = cubic_shift(a, b);
    let st = s.add_spec(t);
    if s.is_eq(&t) && !st.is_eq(&T::zero_spec()) {
        seq![
            Result::Defined(st.sub_spec(shift)),
            Result::Defined(st.neg_spec().div_spec(two_spec::<T>()).sub_spec(shift)),
            Result::Undefined,
        ]
    } else {
        seq![Result::Defined(st.sub_spec(shift)), Result::Undefined, Result::Undefined]
    }
}

/// The divisions that `solve_cubic` makes are defined: those of
/// `solve_quadratic` for `b * x² + c * x + d` when `a` is zero; else those by
/// `a`, 9, 54, 3 and 2, and that of `r` by what `sqrt` gives for `-q³` when
/// `q³ + r²` is negative.
pub open spec fn cubic_divisions<T: Field + Sqrt + PartialEq + PartialOrd>(a: T, b: T, c: T, d: T) -> bool {
    if a.is_eq(&T::zero_spec()) {
        quadratic_divisions(b, c, d)
    } else {
        &&& divides_all(a)
        &&& divides_all(c9_spec::<T>())
        &&& divides_all(c54_spec::<T>())
        &&& divides_all(three_spec::<T>())
        &&& divides_all(two_spec::<T>())
        &&& cubic_d0(a, b, c, d).is_lt(&T::zero_spec()) ==> forall|s: T|
            #[trigger] call_ensures(T::sqrt, (cubic_q3(a, b, c).neg_spec(),), s) ==> cubic_r(a, b, c, d).div_req(s)
    }
}

/// Calculates the zero points of the cubic `a * x³ + b * x² + c * x + d`.
/// With `a` zero it solves the quadratic `b * x² + c * x + d` instead. Else,
/// when `q³ + r²` is negative it gives the three roots of the trigonometric
/// formula, and otherwise the roots of Cardano's formula; each from the
/// values that `sqrt`, `cbrt`, `acos` and `cos` returned on the way.
pub fn solve_cubic<T>(a: T, b: T, c: T, d: T) -> (r: Vec3<Result<T>>)
    where
        T: Field + Sqrt + Cbrt + Cos + Acos + PartialEq + PartialOrd,
    requires
        exact_field_ops::<T>(),
        cubic_divisions(a, b, c, d),
    ensures
        a.is_eq(&T::zero_spec()) ==> exists|q: Vec2<Result<T>>|
            #[trigger] call_ensures(solve_quadratic::<T>, (b, c, d), q) && r@ == seq![
                q@[0],
                q@[1],
                Result::Undefined,
            ],
        !a.is_eq(&T::zero_spec()) && cubic_d0(a, b, c, d).is_lt(&T::zero_spec()) ==> exists|
            sqrt_q3: T,
            phi: T,
            sqrt_q: T,
            cos0: T,
            cos1: T,
            cos2: T,
        |
            #![trigger call_ensures(T::sqrt, (cubic_q3(a, b, c).neg_spec(),), sqrt_q3), call_ensures(T::acos, (cubic_r(a, b, c, d).div_spec(sqrt_q3),), phi), call_ensures(T::sqrt, (cubic_q(a, b, c).neg_spec(),), sqrt_q), call_ensures(T::cos, (phi.div_spec(three_spec::<T>()),), cos0), call_ensures(T::cos, (phi.div_spec(three_spec::<T>()).sub_spec(T::two_third_pi_spec()),), cos1), call_ensures(T::cos, (phi.div_spec(three_spec::<T>()).add_spec(T::two_third_pi_spec()),), cos2)]
            {
                &&& call_ensures(T::sqrt, (cubic_q3(a, b, c).neg_spec(),), sqrt_q3)
                &&& call_ensures(T::acos, (cubic_r(a, b, c, d).div_spec(sqrt_q3),), phi)
                &&& call_ensures(T::sqrt, (cubic_q(a, b, c).neg_spec(),), sqrt_q)
                &&& call_ensures(T::cos, (phi.div_spec(three_spec::<T>()),), cos0)
                &&& call_ensures(
                    T::cos,
                    (phi.div_spec(three_spec::<T>()).sub_spec(T::two_third_pi_spec()),),
                    cos1,
                )
                &&& call_ensures(
                    T::cos,
                    (phi.div_spec(three_spec::<T>()).add_spec(T::two_third_pi_spec()),),
                    cos2,
                )
                &&& r@ == cubic_trig_roots(a, b, two_spec::<T>().mul_spec(sqrt_q), cos0, cos1, cos2)
            },
        !a.is_eq(&T::zero_spec()) && !cubic_d0(a, b, c, d).is_lt(&T::zero_spec()) ==> exists|
            sqrt_d: T,
            s: T,
            t: T,
        |
            #![trigger call_ensures(T::sqrt, (cubic_d0(a, b, c, d),), sqrt_d), call_ensures(T::cbrt, (cubic_r(a, b, c, d).add_spec(sqrt_d),), s), call_ensures(T::cbrt, (cubic_r(a, b, c, d).sub_spec(sqrt_d),), t)]
            {
                &&& call_ensures(T::sqrt, (cubic_d0(a, b, c, d),), sqrt_d)
                &&& call_ensures(T::cbrt, (cubic_r(a, b, c, d).add_spec(sqrt_d),), s)
                &&& call_ensures(T::cbrt, (cubic_r(a, b, c, d).sub_spec(sqrt_d),), t)
                &&& r@ == cubic_cardano_roots(a, b, s, t)
            },
{
    broadcast use Vector::lemma_len;
    if a == T::zero() {
        let res = solve_quadratic(b, c, d);
        let r = Vector::from([res[0], res[1], Result::Undefined]);
        assert(r@ =~= seq![res@[0], res@[1], Result::Undefined]);
        return r;
    }

    let a2 = b / a;
    let a1 = c / a;
    let a0 = d / a;

    let _2 = T::one() + T::one();
    let _3 = _2 + T::one();
    let _9 = _3 + _3 + _3;
    let _27 = _9 + _9 + _9;
    let _54 = _27 + _27;

    let q = (_3 * a1 - a2 * a2) / _9;
    let r = (_9 * a2 * a1 - _27 * a0 - _2 * a2 * a2 * a2) / _54;
    let q3 = q * q * q;
    let d0 = q3 + r * r;
    let a2_div_3 = a2 / _3;

    if d0 < T::zero() {
        let sqrt_q3 = std::ops::Neg::neg(q3).sqrt();
        let phi = (r / sqrt_q3).acos();
        let phi_3 = phi / _3;
        let sqrt_q = std::ops::Neg::neg(q).sqrt();
        let sqrt_q_2 = _2 * sqrt_q;
        let cos0 = (phi_3).cos();
        let cos1 = (phi_3 - T::two_third_pi()).cos();
        let cos2 = (phi_3 + T::two_third_pi()).cos();
        let res = Vector::from(
            [
                Result::Defined(sqrt_q_2 * cos0 - a2_div_3),
                Result::Defined(sqrt_q_2 * cos1 - a2_div_3),
                Result::Defined(sqrt_q_2 * cos2 - a2_div_3),
            ],
        );
        assert(res@ =~= cubic_trig_roots(a, b, sqrt_q_2, cos0, cos1, cos2));
        return res;
    }
    let sqrt_d = (d0).sqrt();
    let s = (r + sqrt_d).cbrt();
    let t = (r - sqrt_d).cbrt();
    let st = s + t;

    if s == t && st != T::zero() {
        let res = Vector::from(
            [
                Result::Defined(st - a2_div_3),
                Result::Defined(std::ops::Neg::neg(st) / _2 - a2_div_3),
                Result::Undefined,
            ],
        );
        assert(res@ =~= cubic_cardano_roots(a, b, s, t));
        return res;
    }
    let res = Vector::from([Result::Defined(st - a2_div_3), Result::Undefined, Result::Undefined]);
    assert(res@ =~= cubic_cardano_roots(a, b, s, t));
    return res;
}

/// `T`'s `cmp` gives what its specification says.
pub open spec fn ord_follows_spec<T: Ord>() -> bool {
    T::obeys_cmp_spec()
}

/// What `std::cmp::min(x, y)` gives under `T`'s `cmp`: `x` unless `y` is
/// less.
pub open spec fn ord_min<T: Ord>(x: T, y: T) -> T {
    match y.cmp_spec(&x) {
        Ordering::Less => y,
        _ => x,
    }
}

/// What `std::cmp::max(x, y)` gives under `T`'s `cmp`: `y` unless `y` is
/// less.
pub open spec fn ord_max<T: Ord>(x: T, y: T) -> T {
    match y.cmp_spec(&x) {
        Ordering::Less => x,
        _ => y,
    }
}

/// The quadratic coefficient of the derivative `3a t² + 2b t + c` of a cubic
/// bezier `a t³ + b t² + c t + d` on one coordinate: `3 * a`.
pub open spec fn derivative_a<T: Field>(p0: T, p1: T, p2: T, p3: T) -> T {
    crate::math::three_spec::<T>().mul_spec(bezier_a(p0, p1, p2, p3))
}

/// The linear coefficient of the derivative: `2 * b`.
pub open spec fn derivative_b<T: Field>(p0: T, p1: T, p2: T) -> T {
    two_spec::<T>().mul_spec(bezier_b(p0, p1, p2))
}

/// The constant coefficient of the derivative: `c`.
pub open spec fn derivative_c<T: Field>(p0: T, p1: T) -> T {
    bezier_c(p0, p1)
}

/// The bounds `(lo, hi)` on one coordinate widened by the point of the curve
/// at the root `t`, when `t` is defined and lies in `[0, 1]`.
pub open spec fn widen<T: Field + Ord>(
    bounds: (T, T),
    root: Result<T>,
    coord: int,
    p0: Vec2<T>,
    p1: Vec2<T>,
    p2: Vec2<T>,
    p3: Vec2<T>,
) -> (T, T) {
    match root {
        Result::Defined(t) => if t.is_ge(&T::zero_spec()) && t.is_le(&T::one_spec()) {
            let v = bezier_spec(t, p0@[coord], p1@[coord], p2@[coord], p3@[coord]);
            (ord_min(v, bounds.0), ord_max(v, bounds.1))
        } else {
            bounds
        },
        Result::Undefined => bounds,
    }
}

/// The bounds on one coordinate: those of the end points, widened by the
/// points of the curve at both roots of the derivative.
pub open spec fn coord_bounds<T: Field + Ord>(
    roots: Vec2<Result<T>>,
    coord: int,
    p0: Vec2<T>,
    p1: Vec2<T>,
    p2: Vec2<T>,
    p3: Vec2<T>,
) -> (T, T) {
    let ends = (ord_min(p0@[coord], p3@[coord]), ord_max(p0@[coord], p3@[coord]));
    widen(widen(ends, roots@[0], coord, p0, p1, p2, p3), roots@[1], coord, p0, p1, p2, p3)
}

/// Widens `(lo, hi)` on coordinate `coord` by the point of the curve at
/// `root`, when the root is defined and lies in `[0, 1]`.
fn widen_bounds<T>(
    lo: T,
    hi: T,
    root: Result<T>,
    coord: usize,
    p0: Vec2<T>,
    p1: Vec2<T>,
    p2: Vec2<T>,
    p3: Vec2<T>,
) -> (r: (T, T))
    where
        T: Field + Sqrt + PartialEq + Ord,
    requires
        exact_field_ops::<T>(),
        ord_follows_spec::<T>(),
        coord < 2,
    ensures
        r == widen((lo, hi), root, coord as int, p0, p1, p2, p3),
{
    broadcast use Vector::lemma_len;
    if let Result::Defined(t) = root {
        if t >= T::zero() && t <= T::one() {
            let p = cubic_bezier(t, p0, p1, p2, p3);
            return (Ord::min(p[coord], lo), Ord::max(p[coord], hi));
        }
    }
    (lo, hi)
}

/// `x` comes no later than `y` under `T`'s `cmp`.
pub open spec fn ord_le<T: Ord>(x: T, y: T) -> bool {
    x.cmp_spec(&y) != Ordering::Greater
}

/// `T`'s `cmp` is a total order: `x < y` exactly when `y > x`, only equal
/// values compare equal, every value equals itself, and `<=` is transitive.
pub open spec fn cmp_is_total_order<T: Ord>() -> bool {
    &&& forall|x: T, y: T| #[trigger] x.cmp_spec(&y) == Ordering::Less <==> y.cmp_spec(&x) == Ordering::Greater
    &&& forall|x: T, y: T| #[trigger] x.cmp_spec(&y) == Ordering::Equal ==> x == y
    &&& forall|x: T| #[trigger] x.cmp_spec(&x) == Ordering::Equal
    &&& forall|x: T, y: T, z: T| #[trigger] ord_le(x, y) && #[trigger] ord_le(y, z) ==> ord_le(x, z)
}

/// `root` is defined and lies in `[0, 1]`, and `v` is the curve's value on
/// coordinate `coord` there.
pub open spec fn curve_value_at_root<T: Field + Ord>(
    v: T,
    root: Result<T>,
    coord: int,
    p0: Vec2<T>,
    p1: Vec2<T>,
    p2: Vec2<T>,
    p3: Vec2<T>,
) -> bool {
    root matches Result::Defined(t) && t.is_ge(&T::zero_spec()) && t.is_le(&T::one_spec())
        && v == bezier_spec(t, p0@[coord], p1@[coord], p2@[coord], p3@[coord])
}

/// `v` is one of the values that the bounds on coordinate `coord` are taken
/// from: that of the start point, of the end point, or of the curve at a root
/// of the derivative in `[0, 1]`.
pub open spec fn bound_candidate<T: Field + Ord>(
    v: T,
    roots: Vec2<Result<T>>,
    coord: int,
    p0: Vec2<T>,
    p1: Vec2<T>,
    p2: Vec2<T>,
    p3: Vec2<T>,
) -> bool {
    ||| v == p0@[coord]
    ||| v == p3@[coord]
    ||| curve_value_at_root(v, roots@[0], coord, p0, p1, p2, p3)
    ||| curve_value_at_root(v, roots@[1], coord, p0, p1, p2, p3)
}

proof fn lemma_ord_min_max<T: Ord>(x: T, y: T)
    requires
        cmp_is_total_order::<T>(),
    ensures
        ord_le(ord_min(x, y), x),
        ord_le(ord_min(x, y), y),
        ord_le(x, ord_max(x, y)),
        ord_le(y, ord_max(x, y)),
        ord_min(x, y) == x || ord_min(x, y) == y,
        ord_max(x, y) == x || ord_max(x, y) == y,
{
    assert(x.cmp_spec(&x) == Ordering::Equal);
    assert(y.cmp_spec(&y) == Ordering::Equal);
    if y.cmp_spec(&x) == Ordering::Less {
        assert(x.cmp_spec(&y) == Ordering::Greater);
    } else if y.cmp_spec(&x) == Ordering::Equal {
        assert(y == x);
    } else {
        assert(x.cmp_spec(&y) == Ordering::Less);
    }
}

proof fn lemma_widen<T: Field + Ord>(
    bounds: (T, T),
    root: Result<T>,
    coord: int,
    p0: Vec2<T>,
    p1: Vec2<T>,
    p2: Vec2<T>,
    p3: Vec2<T>,
)
    requires
        cmp_is_total_order::<T>(),
    ensures
        ord_le(widen(bounds, root, coord, p0, p1, p2, p3).0, bounds.0),
        ord_le(bounds.1, widen(bounds, root, coord, p0, p1, p2, p3).1),
        widen(bounds, root, coord, p0, p1, p2, p3).0 == bounds.0 || curve_value_at_root(
            widen(bounds, root, coord, p0, p1, p2, p3).0,
            root,
            coord,
            p0,
            p1,
            p2,
            p3,
        ),
        widen(bounds, root, coord, p0, p1, p2, p3).1 == bounds.1 || curve_value_at_root(
            widen(bounds, root, coord, p0, p1, p2, p3).1,
            root,
            coord,
            p0,
            p1,
            p2,
            p3,
        ),
        forall|v: T| #[trigger] curve_value_at_root(v, root, coord, p0, p1, p2, p3) ==> ord_le(
            widen(bounds, root, coord, p0, p1, p2, p3).0,
            v,
        ) && ord_le(v, widen(bounds, root, coord, p0, p1, p2, p3).1),
{
    assert(bounds.0.cmp_spec(&bounds.0) == Ordering::Equal);
    assert(bounds.1.cmp_spec(&bounds.1) == Ordering::Equal);
    if let Result::Defined(t) = root {
        if t.is_ge(&T::zero_spec()) && t.is_le(&T::one_spec()) {
            let v = bezier_spec(t, p0@[coord], p1@[coord], p2@[coord], p3@[coord]);
            lemma_ord_min_max(v, bounds.0);
            lemma_ord_min_max(v, bounds.1);
        }
    }
}

/// The bounds on one coordinate that `solve_minmax_cubic_bezier` returns
/// (`coord_bounds` of the roots that `solve_quadratic` gave for the
/// derivative), under a total order: the lower bound comes no later than,
/// and the upper bound no earlier than, the start point, the end point and
/// the curve's value at each root of the derivative in `[0, 1]`; and each
/// bound is one of these values, so it is reached.
pub proof fn lemma_bounds_hold_the_curve_candidates<T: Field + Ord>(
    roots: Vec2<Result<T>>,
    coord: int,
    p0: Vec2<T>,
    p1: Vec2<T>,
    p2: Vec2<T>,
    p3: Vec2<T>,
)
    requires
        cmp_is_total_order::<T>(),
    ensures
        ({
            let (lo, hi) = coord_bounds(roots, coord, p0, p1, p2, p3);
            &&& ord_le(lo, p0@[coord]) && ord_le(p0@[coord], hi)
            &&& ord_le(lo, p3@[coord]) && ord_le(p3@[coord], hi)
            &&& forall|v: T| #[trigger] bound_candidate(v, roots, coord, p0, p1, p2, p3) ==> ord_le(lo, v) && ord_le(v, hi)
            &&& bound_candidate(lo, roots, coord, p0, p1, p2, p3)
            &&& bound_candidate(hi, roots, coord, p0, p1, p2, p3)
        }),
{
    let ends = (ord_min(p0@[coord], p3@[coord]), ord_max(p0@[coord], p3@[coord]));
    lemma_ord_min_max(p0@[coord], p3@[coord]);
    let first = widen(ends, roots@[0], coord, p0, p1, p2, p3);
    lemma_widen(ends, roots@[0], coord, p0, p1, p2, p3);
    lemma_widen(first, roots@[1], coord, p0, p1, p2, p3);
    let (lo, hi) = coord_bounds(roots, coord, p0, p1, p2, p3);
    assert forall|v: T| #[trigger] bound_candidate(v, roots, coord, p0, p1, p2, p3) implies ord_le(lo, v) && ord_le(v, hi) by {
        if curve_value_at_root(v, roots@[0], coord, p0, p1, p2, p3) {
            assert(ord_le(first.0, v) && ord_le(v, first.1));
            assert(ord_le(lo, first.0) && ord_le(first.1, hi));
        } else if curve_value_at_root(v, roots@[1], coord, p0, p1, p2, p3) {
        } else {
            assert(ord_le(lo, first.0) && ord_le(first.1, hi));
            assert(ord_le(first.0, ends.0) && ord_le(ends.1, first.1));
        }
    }
}

/// Returns the left upper corner and the right lower corner of the bounding
/// rectangle of the cubic bezier for 0.0 <= t <= 1.0
///
/// # Arguments
/// - p0: The starting point of the cubic bezier
/// - p1: The first helper point of the cubic bezier
/// - p2: The second helper point of the cubic bezier
/// - p3: The end point of the cubic bezier
pub fn solve_minmax_cubic_bezier<T>(p0: Vec2<T>, p1: Vec2<T>, p2: Vec2<T>, p3: Vec2<T>) -> (r: Vec2<Vec2<T>>)
    where
        T: Field + Sqrt + PartialEq + Ord,
    requires
        exact_field_ops::<T>(),
        ord_follows_spec::<T>(),
        quadratic_divisions(
            derivative_a(p0@[0], p1@[0], p2@[0], p3@[0]),
            derivative_b(p0@[0], p1@[0], p2@[0]),
            derivative_c(p0@[0], p1@[0]),
        ),
        quadratic_divisions(
            derivative_a(p0@[1], p1@[1], p2@[1], p3@[1]),
            derivative_b(p0@[1], p1@[1], p2@[1]),
            derivative_c(p0@[1], p1@[1]),
        ),
    ensures
        exists|tx: Vec2<Result<T>>, ty: Vec2<Result<T>>|
            #![trigger call_ensures(solve_quadratic::<T>, (derivative_a(p0@[0], p1@[0], p2@[0], p3@[0]), derivative_b(p0@[0], p1@[0], p2@[0]), derivative_c(p0@[0], p1@[0])), tx), call_ensures(solve_quadratic::<T>, (derivative_a(p0@[1], p1@[1], p2@[1], p3@[1]), derivative_b(p0@[1], p1@[1], p2@[1]), derivative_c(p0@[1], p1@[1])), ty)]
            {
                &&& call_ensures(
                    solve_quadratic::<T>,
                    (
                        derivative_a(p0@[0], p1@[0], p2@[0], p3@[0]),
                        derivative_b(p0@[0], p1@[0], p2@[0]),
                        derivative_c(p0@[0], p1@[0]),
                    ),
                    tx,
                )
                &&& call_ensures(
                    solve_quadratic::<T>,
                    (
                        derivative_a(p0@[1], p1@[1], p2@[1], p3@[1]),
                        derivative_b(p0@[1], p1@[1], p2@[1]),
                        derivative_c(p0@[1], p1@[1]),
                    ),
                    ty,
                )
                &&& r@[0]@ == seq![coord_bounds(tx, 0, p0, p1, p2, p3).0, coord_bounds(ty, 1, p0, p1, p2, p3).0]
                &&& r@[1]@ == seq![coord_bounds(tx, 0, p0, p1, p2, p3).1, coord_bounds(ty, 1, p0, p1, p2, p3).1]
            },
{
    broadcast use Vector::lemma_len;
    let _2 = T::one() + T::one();
    let _3 = _2 + T::one();
    let _6 = _3 + _3;

    // Coefficients of the curve `a t³ + b t² + c t + d` on the x coordinate,
    // and of its derivative `3a t² + 2b t + c`
    let ax = std::ops::Neg::neg(p0[0]) + p1[0] * _3 - p2[0] * _3 + p3[0];
    let bx = p0[0] * _3 - p1[0] * _6 + p2[0] * _3;
    let cx = std::ops::Neg::neg(p0[0]) * _3 + p1[0] * _3;
    let (ax, bx) = (_3 * ax, _2 * bx);

    // The same on the y coordinate
    let ay = std::ops::Neg::neg(p0[1]) + p1[1] * _3 - p2[1] * _3 + p3[1];
    let by = p0[1] * _3 - p1[1] * _6 + p2[1] * _3;
    let cy = std::ops::Neg::neg(p0[1]) * _3 + p1[1] * _3;
    let (ay, by) = (_3 * ay, _2 * by);

    let (x_min, x_max) = (Ord::min(p0[0], p3[0]), Ord::max(p0[0], p3[0]));
    let (y_min, y_max) = (Ord::min(p0[1], p3[1]), Ord::max(p0[1], p3[1]));

    let tx_min_max = solve_quadratic(ax, bx, cx);
    let ty_min_max = solve_quadratic(ay, by, cy);

    let (x_min, x_max) = widen_bounds(x_min, x_max, tx_min_max[0], 0, p0, p1, p2, p3);
    let (x_min, x_max) = widen_bounds(x_min, x_max, tx_min_max[1], 0, p0, p1, p2, p3);
    let (y_min, y_max) = widen_bounds(y_min, y_max, ty_min_max[0], 1, p0, p1, p2, p3);
    let (y_min, y_max) = widen_bounds(y_min, y_max, ty_min_max[1], 1, p0, p1, p2, p3);

    assert(ax == derivative_a(p0@[0], p1@[0], p2@[0], p3@[0]));
    assert(bx == derivative_b(p0@[0], p1@[0], p2@[0]));
    assert(cx == derivative_c(p0@[0], p1@[0]));
    assert(ay == derivative_a(p0@[1], p1@[1], p2@[1], p3@[1]));
    assert(by == derivative_b(p0@[1], p1@[1], p2@[1]));
    assert(cy == derivative_c(p0@[1], p1@[1]));
    let lower = Vector::from([x_min, y_min]);
    let upper = Vector::from([x_max, y_max]);
    let r = Vector::from([lower, upper]);
    assert(r@[0]@ =~= seq![coord_bounds(tx_min_max, 0, p0, p1, p2, p3).0, coord_bounds(ty_min_max, 1, p0, p1, p2, p3).0]);
    assert(r@[1]@ =~= seq![coord_bounds(tx_min_max, 0, p0, p1, p2, p3).1, coord_bounds(ty_min_max, 1, p0, p1, p2, p3).1]);
    r
}

} // verus!
