use crate::math::num::{Acos, Cbrt, Cos, Field, Sqrt};
use crate::math::vec::{Vec2, Vec3};
use crate::math::result::Result;
use crate::math::solve::{
    c27_spec, c54_spec, c9_spec, cubic_cardano_roots, cubic_d0, cubic_q, cubic_q3, cubic_r, cubic_shift, cubic_trig_roots, discriminant, four_spec,
    quadratic_roots, solve_cubic, solve_linear_spec, solve_quadratic, three_spec, two_spec, vertex,
};
use vstd::prelude::*;
use vstd::std_specs::cmp::{PartialEqIs, PartialEqSpec, PartialOrdIs, PartialOrdSpec};
use vstd::std_specs::ops::{AddSpec, DivSpec, MulSpec, NegSpec, SubSpec};

verus! {

/// `+` is commutative.
#[verifier::opaque]
pub open spec fn law_add_comm<T: Field>() -> bool {
    forall|x: T, y: T| #[trigger] x.add_spec(y) == y.add_spec(x)
}

/// `+` is associative.
#[verifier::opaque]
pub open spec fn law_add_assoc<T: Field>() -> bool {
    forall|x: T, y: T, z: T| #[trigger] x.add_spec(y).add_spec(z) == x.add_spec(y.add_spec(z))
}

/// `*` is commutative.
#[verifier::opaque]
pub open spec fn law_mul_comm<T: Field>() -> bool {
    forall|x: T, y: T| #[trigger] x.mul_spec(y) == y.mul_spec(x)
}

/// `*` is associative.
#[verifier::opaque]
pub open spec fn law_mul_assoc<T: Field>() -> bool {
    forall|x: T, y: T, z: T| #[trigger] x.mul_spec(y).mul_spec(z) == x.mul_spec(y.mul_spec(z))
}

/// `*` distributes over `+`.
#[verifier::opaque]
pub open spec fn law_distrib<T: Field>() -> bool {
    forall|x: T, y: T, z: T| #[trigger] x.mul_spec(y.add_spec(z)) == x.mul_spec(y).add_spec(x.mul_spec(z))
}

/// Zero, one and negation do what they are for, and `x - y` is `x + (-y)`.
#[verifier::opaque]
pub open spec fn law_units<T: Field>() -> bool {
    &&& forall|x: T| #[trigger] x.add_spec(T::zero_spec()) == x
    &&& forall|x: T| #[trigger] x.mul_spec(T::one_spec()) == x
    &&& forall|x: T| #[trigger] x.add_spec(x.neg_spec()) == T::zero_spec()
    &&& forall|x: T, y: T| #[trigger] x.sub_spec(y) == x.add_spec(y.neg_spec())
}

/// Dividing by a non-zero value undoes multiplying by it, and a product is
/// zero only when a factor is.
#[verifier::opaque]
pub open spec fn law_div<T: Field>() -> bool {
    &&& forall|x: T, y: T| y != T::zero_spec() ==> #[trigger] x.div_spec(y).mul_spec(y) == x
    &&& forall|x: T, y: T| #[trigger] x.mul_spec(y) == T::zero_spec() ==> x == T::zero_spec() || y == T::zero_spec()
}

/// The specifications of `T`'s `+`, `-`, `*`, `/`, unary `-` and `==` are
/// those of a field in which `1 + 1` and `1 + 1 + 1` are not zero, as for
/// the rational or the real numbers.
pub open spec fn field_laws<T: Field + PartialEq>() -> bool {
    &&& law_add_comm::<T>()
    &&& law_add_assoc::<T>()
    &&& law_mul_comm::<T>()
    &&& law_mul_assoc::<T>()
    &&& law_distrib::<T>()
    &&& law_units::<T>()
    &&& law_div::<T>()
    &&& forall|x: T, y: T| #[trigger] x.is_eq(&y) <==> x == y
    &&& T::one_spec().add_spec(T::one_spec()) != T::zero_spec()
    &&& T::one_spec().add_spec(T::one_spec()).add_spec(T::one_spec()) != T::zero_spec()
}

proof fn add_comm<T: Field + PartialEq>(x: T, y: T)
    requires
        field_laws::<T>(),
    ensures
        x.add_spec(y) == y.add_spec(x),
{
    reveal(law_add_comm);
}

proof fn add_assoc<T: Field + PartialEq>(x: T, y: T, z: T)
    requires
        field_laws::<T>(),
    ensures
        x.add_spec(y).add_spec(z) == x.add_spec(y.add_spec(z)),
{
    reveal(law_add_assoc);
}

proof fn mul_comm<T: Field + PartialEq>(x: T, y: T)
    requires
        field_laws::<T>(),
    ensures
        x.mul_spec(y) == y.mul_spec(x),
{
    reveal(law_mul_comm);
}

proof fn mul_assoc<T: Field + PartialEq>(x: T, y: T, z: T)
    requires
        field_laws::<T>(),
    ensures
        x.mul_spec(y).mul_spec(z) == x.mul_spec(y.mul_spec(z)),
{
    reveal(law_mul_assoc);
}

proof fn distrib<T: Field + PartialEq>(x: T, y: T, z: T)
    requires
        field_laws::<T>(),
    ensures
        x.mul_spec(y.add_spec(z)) == x.mul_spec(y).add_spec(x.mul_spec(z)),
        y.add_spec(z).mul_spec(x) == y.mul_spec(x).add_spec(z.mul_spec(x)),
{
    reveal(law_distrib);
    reveal(law_mul_comm);
    assert(y.add_spec(z).mul_spec(x) == x.mul_spec(y.add_spec(z)));
    assert(y.mul_spec(x) == x.mul_spec(y));
    assert(z.mul_spec(x) == x.mul_spec(z));
}

proof fn units<T: Field + PartialEq>(x: T, y: T)
    requires
        field_laws::<T>(),
    ensures
        x.add_spec(T::zero_spec()) == x,
        T::zero_spec().add_spec(x) == x,
        x.mul_spec(T::one_spec()) == x,
        T::one_spec().mul_spec(x) == x,
        x.add_spec(x.neg_spec()) == T::zero_spec(),
        x.sub_spec(y) == x.add_spec(y.neg_spec()),
{
    reveal(law_units);
    add_comm(T::zero_spec(), x);
    mul_comm(T::one_spec(), x);
}

proof fn div_mul<T: Field + PartialEq>(x: T, y: T)
    requires
        field_laws::<T>(),
        y != T::zero_spec(),
    ensures
        x.div_spec(y).mul_spec(y) == x,
        y.mul_spec(x.div_spec(y)) == x,
{
    reveal(law_div);
    mul_comm(x.div_spec(y), y);
}

proof fn no_zero_divisors<T: Field + PartialEq>(x: T, y: T)
    requires
        field_laws::<T>(),
        x != T::zero_spec(),
        y != T::zero_spec(),
    ensures
        x.mul_spec(y) != T::zero_spec(),
{
    reveal(law_div);
}

proof fn lemma_mul_zero<T: Field + PartialEq>(x: T)
    requires
        field_laws::<T>(),
    ensures
        x.mul_spec(T::zero_spec()) == T::zero_spec(),
        T::zero_spec().mul_spec(x) == T::zero_spec(),
{
    let z = T::zero_spec();
    let w = x.mul_spec(z);
    units(z, z);
    distrib(x, z, z);
    assert(w == w.add_spec(w));
    add_assoc(w, w, w.neg_spec());
    units(w, w);
    mul_comm(z, x);
}

/// `x + y == 0` makes `y` the negation of `x`.
proof fn lemma_neg_unique<T: Field + PartialEq>(x: T, y: T)
    requires
        field_laws::<T>(),
        x.add_spec(y) == T::zero_spec(),
    ensures
        y == x.neg_spec(),
{
    let n = x.neg_spec();
    units(x, x);
    units(y, y);
    units(n, n);
    add_assoc(y, x, n);
    add_comm(y, x);
}

/// `x - y == 0` makes `x` and `y` equal.
proof fn lemma_sub_zero<T: Field + PartialEq>(x: T, y: T)
    requires
        field_laws::<T>(),
        x.sub_spec(y) == T::zero_spec(),
    ensures
        x == y,
{
    let n = y.neg_spec();
    units(x, y);
    add_comm(x, n);
    lemma_neg_unique(n, x);
    units(y, y);
    add_comm(n, y);
    lemma_neg_unique(n, y);
}

/// `(-x) * y == -(x * y)`.
proof fn lemma_neg_mul<T: Field + PartialEq>(x: T, y: T)
    requires
        field_laws::<T>(),
    ensures
        x.neg_spec().mul_spec(y) == x.mul_spec(y).neg_spec(),
{
    let n = x.neg_spec();
    distrib(y, x, n);
    units(x, x);
    lemma_mul_zero(y);
    mul_comm(y, x);
    mul_comm(y, n);
    lemma_neg_unique(x.mul_spec(y), n.mul_spec(y));
}

/// A non-zero factor cancels.
proof fn lemma_cancel<T: Field + PartialEq>(k: T, x: T, y: T)
    requires
        field_laws::<T>(),
        k != T::zero_spec(),
        k.mul_spec(x) == k.mul_spec(y),
    ensures
        x == y,
{
    let d = x.sub_spec(y);
    units(x, y);
    distrib(k, x, y.neg_spec());
    lemma_neg_mul(y, k);
    mul_comm(k, y.neg_spec());
    mul_comm(y, k);
    units(k.mul_spec(x), k.mul_spec(x));
    assert(k.mul_spec(d) == T::zero_spec());
    if d != T::zero_spec() {
        no_zero_divisors(k, d);
    }
    lemma_sub_zero(x, y);
}

proof fn lemma_neg_neg<T: Field + PartialEq>(x: T)
    requires
        field_laws::<T>(),
    ensures
        x.neg_spec().neg_spec() == x,
{
    units(x, x);
    add_comm(x.neg_spec(), x);
    lemma_neg_unique(x.neg_spec(), x);
}

/// `2 * x == x + x` and `4 * x == (x + x) + (x + x)`.
proof fn lemma_small_multiples<T: Field + PartialEq>(x: T)
    requires
        field_laws::<T>(),
    ensures
        two_spec::<T>().mul_spec(x) == x.add_spec(x),
        four_spec::<T>().mul_spec(x) == x.add_spec(x).add_spec(x.add_spec(x)),
{
    let one = T::one_spec();
    let two = two_spec::<T>();
    distrib(x, one, one);
    units(x, x);
    distrib(x, two, two);
    lemma_mul_unit_left(x);
    assert(two.add_spec(two).mul_spec(x) == two.mul_spec(x).add_spec(two.mul_spec(x)));
}

proof fn lemma_mul_unit_left<T: Field + PartialEq>(x: T)
    requires
        field_laws::<T>(),
    ensures
        T::one_spec().mul_spec(x) == x,
        T::one_spec().add_spec(T::one_spec()).mul_spec(x) == x.add_spec(x),
{
    let one = T::one_spec();
    units(x, x);
    distrib(x, one, one);
}

/// 2 and 4 are not zero.
proof fn lemma_two_four_nonzero<T: Field + PartialEq>()
    requires
        field_laws::<T>(),
    ensures
        two_spec::<T>() != T::zero_spec(),
        four_spec::<T>() != T::zero_spec(),
{
    let two = two_spec::<T>();
    lemma_small_multiples(two);
    no_zero_divisors(two, two);
}

/// The value `a x² + b x + c` of a quadratic at `x`.
pub open spec fn quadratic_at<T: Field>(a: T, b: T, c: T, x: T) -> T {
    a.mul_spec(x).mul_spec(x).add_spec(b.mul_spec(x)).add_spec(c)
}

/// With `a` not zero, multiplying the value at `x` by `a` gives
/// `u² + b u + a c` for `u = a x`.
proof fn lemma_scaled_value<T: Field + PartialEq>(a: T, b: T, c: T, x: T)
    requires
        field_laws::<T>(),
    ensures
        a.mul_spec(quadratic_at(a, b, c, x)) == a.mul_spec(x).mul_spec(a.mul_spec(x)).add_spec(
            b.mul_spec(a.mul_spec(x)),
        ).add_spec(a.mul_spec(c)),
{
    let u = a.mul_spec(x);
    let ux = u.mul_spec(x);
    let bx = b.mul_spec(x);
    distrib(a, ux.add_spec(bx), c);
    distrib(a, ux, bx);
    // a (u x) = (a x) u ... via (a x) (a x) = a (x (a x)) = a (x u) = a (u x)
    mul_assoc(a, x, u);
    mul_comm(x, u);
    // a (b x) = (a b) x = (b a) x = b (a x)
    mul_assoc(a, b, x);
    mul_comm(a, b);
    mul_assoc(b, a, x);
}

/// The double root `-b / (2 a)` that `solve_quadratic` gives when the
/// discriminant is zero is a zero of `a x² + b x + c`.
pub proof fn lemma_double_root_is_zero<T: Field + PartialEq>(a: T, b: T, c: T)
    requires
        field_laws::<T>(),
        a != T::zero_spec(),
        discriminant(a, b, c) == T::zero_spec(),
    ensures
        quadratic_at(a, b, c, vertex(a, b)) == T::zero_spec(),
{
    let z = T::zero_spec();
    let two = two_spec::<T>();
    let four = four_spec::<T>();
    let m = two.mul_spec(a);
    let v = vertex(a, b);
    let u = a.mul_spec(v);
    let w = u.add_spec(u);
    lemma_two_four_nonzero::<T>();
    no_zero_divisors(two, a);
    // 2 a v = -b, and 2 a v = 2 (a v) = u + u
    div_mul(b.neg_spec(), m);
    mul_comm(v, m);
    mul_assoc(two, a, v);
    lemma_small_multiples(u);
    assert(w == b.neg_spec());
    lemma_neg_neg(b);
    assert(b == w.neg_spec());
    // b b = w w = 4 u u
    lemma_neg_mul(w, w.neg_spec());
    mul_comm(w, w.neg_spec());
    lemma_neg_mul(w, w);
    lemma_neg_neg(w.mul_spec(w));
    assert(b.mul_spec(b) == w.mul_spec(w));
    let x2 = u.mul_spec(u);
    distrib(w, u, u);
    distrib(u, u, u);
    assert(w.mul_spec(w) == x2.add_spec(x2).add_spec(x2.add_spec(x2)));
    lemma_small_multiples(x2);
    // the discriminant is zero: b b = (4 a) c = 4 (a c); so u u = a c
    lemma_sub_zero(b.mul_spec(b), four.mul_spec(a).mul_spec(c));
    mul_assoc(four, a, c);
    lemma_cancel(four, x2, a.mul_spec(c));
    // a P = u u + b u + a c = X + -(X + X) + X = 0
    lemma_scaled_value(a, b, c, v);
    lemma_neg_mul(w, u);
    distrib(u, u, u);
    mul_comm(w, u);
    let n = x2.add_spec(x2).neg_spec();
    assert(b.mul_spec(u) == n);
    add_assoc(x2, n, x2);
    add_comm(n, x2);
    add_assoc(x2, x2, n);
    units(x2.add_spec(x2), x2);
    assert(a.mul_spec(quadratic_at(a, b, c, v)) == z);
    lemma_mul_zero(a);
    lemma_cancel(a, quadratic_at(a, b, c, v), z);
}

/// `p + q == r + q` makes `p` and `r` equal.
proof fn lemma_add_cancel<T: Field + PartialEq>(p: T, q: T, r: T)
    requires
        field_laws::<T>(),
        p.add_spec(q) == r.add_spec(q),
    ensures
        p == r,
{
    let n = q.neg_spec();
    add_assoc(p, q, n);
    add_assoc(r, q, n);
    units(q, q);
    units(p, p);
    units(r, r);
}

/// `(-x) * (-x) == x * x`.
proof fn lemma_neg_square<T: Field + PartialEq>(x: T)
    requires
        field_laws::<T>(),
    ensures
        x.neg_spec().mul_spec(x.neg_spec()) == x.mul_spec(x),
{
    lemma_neg_mul(x, x.neg_spec());
    mul_comm(x, x.neg_spec());
    lemma_neg_mul(x, x);
    lemma_neg_neg(x.mul_spec(x));
}

/// Completing the square: `4 a (a x² + b x + c) + (b² - 4 a c)` is
/// `(2 a x + b)²`.
pub proof fn lemma_completed_square<T: Field + PartialEq>(a: T, b: T, c: T, x: T)
    requires
        field_laws::<T>(),
    ensures
        ({
            let s = two_spec::<T>().mul_spec(a).mul_spec(x).add_spec(b);
            four_spec::<T>().mul_spec(a.mul_spec(quadratic_at(a, b, c, x))).add_spec(discriminant(a, b, c))
                == s.mul_spec(s)
        }),
{
    let two = two_spec::<T>();
    let four = four_spec::<T>();
    let u = a.mul_spec(x);
    let xx = u.mul_spec(u);
    let bu = b.mul_spec(u);
    let ac = a.mul_spec(c);
    let w = u.add_spec(u);
    let s = two.mul_spec(a).mul_spec(x).add_spec(b);
    // 2 a x = u + u
    mul_assoc(two, a, x);
    lemma_small_multiples(u);
    assert(s == w.add_spec(b));
    // 4 (a P) = (4 X + 4 b u) + 4 a c
    lemma_scaled_value(a, b, c, x);
    distrib(four, xx.add_spec(bu), ac);
    distrib(four, xx, bu);
    // w w = 4 X
    distrib(w, u, u);
    distrib(u, u, u);
    lemma_small_multiples(xx);
    // w b + b w = 4 b u
    mul_comm(w, b);
    distrib(b, u, u);
    lemma_small_multiples(bu);
    // s s = (w w + b w) + (w b + b b) = (4 X + 4 b u) + b b
    let ww = w.mul_spec(w);
    let bw = b.mul_spec(w);
    let wb = w.mul_spec(b);
    let bb = b.mul_spec(b);
    distrib(s, w, b);
    distrib(w, w, b);
    distrib(b, w, b);
    add_assoc(ww, bw, wb.add_spec(bb));
    add_assoc(bw, wb, bb);
    add_assoc(ww, bw.add_spec(wb), bb);
    add_comm(bw, wb);
    let y = four.mul_spec(xx).add_spec(four.mul_spec(bu));
    assert(s.mul_spec(s) == y.add_spec(bb));
    // (Y + K) + (B - K) = Y + B
    let k = four.mul_spec(ac);
    mul_assoc(four, a, c);
    units(bb, four.mul_spec(a).mul_spec(c));
    let nk = k.neg_spec();
    assert(discriminant(a, b, c) == bb.add_spec(nk));
    add_assoc(y, k, bb.add_spec(nk));
    add_assoc(k, bb, nk);
    add_comm(k, bb);
    add_assoc(bb, k, nk);
    units(k, k);
    units(bb, bb);
}

/// The roots `-b / (2 a) ± d / (2 a)` that `solve_quadratic` gives for a
/// square root `d` of a non-zero discriminant are zeros of `a x² + b x + c`.
pub proof fn lemma_two_roots_are_zeros<T: Field + PartialEq>(a: T, b: T, c: T, d: T)
    requires
        field_laws::<T>(),
        a != T::zero_spec(),
        d.mul_spec(d) == discriminant(a, b, c),
    ensures
        quadratic_roots(a, b, d)[0] matches Result::Defined(x) && quadratic_at(a, b, c, x) == T::zero_spec(),
        quadratic_roots(a, b, d)[1] matches Result::Defined(x) && quadratic_at(a, b, c, x) == T::zero_spec(),
{
    let z = T::zero_spec();
    let two = two_spec::<T>();
    let four = four_spec::<T>();
    let m = two.mul_spec(a);
    let nb = b.neg_spec();
    let v = vertex(a, b);
    let h = d.div_spec(m);
    lemma_two_four_nonzero::<T>();
    no_zero_divisors(two, a);
    div_mul(nb, m);
    div_mul(d, m);
    units(b, b);
    add_comm(nb, b);
    // first root: 2 a x = -b + d, so 2 a x + b = d
    let x1 = v.add_spec(h);
    distrib(m, v, h);
    add_assoc(nb, d, b);
    add_comm(d, b);
    add_assoc(nb, b, d);
    units(d, d);
    lemma_root_from_square(a, b, c, x1, d);
    // second root: 2 a x = -b - d, so 2 a x + b = -d
    let x2 = v.sub_spec(h);
    units(v, h);
    distrib(m, v, h.neg_spec());
    lemma_neg_mul(h, m);
    mul_comm(m, h.neg_spec());
    mul_comm(h, m);
    let nd = d.neg_spec();
    add_assoc(nb, nd, b);
    add_comm(nd, b);
    add_assoc(nb, b, nd);
    units(nd, nd);
    lemma_neg_square(d);
    lemma_root_from_square(a, b, c, x2, nd);
}

/// Where `(2 a x + b)` is `s` and `s²` is the discriminant, `x` is a zero.
proof fn lemma_root_from_square<T: Field + PartialEq>(a: T, b: T, c: T, x: T, s: T)
    requires
        field_laws::<T>(),
        a != T::zero_spec(),
        two_spec::<T>().mul_spec(a).mul_spec(x).add_spec(b) == s,
        s.mul_spec(s) == discriminant(a, b, c),
    ensures
        quadratic_at(a, b, c, x) == T::zero_spec(),
{
    let z = T::zero_spec();
    let four = four_spec::<T>();
    let p = quadratic_at(a, b, c, x);
    lemma_completed_square(a, b, c, x);
    units(discriminant(a, b, c), z);
    lemma_add_cancel(four.mul_spec(a.mul_spec(p)), discriminant(a, b, c), z);
    lemma_two_four_nonzero::<T>();
    lemma_mul_zero(four);
    lemma_cancel(four, a.mul_spec(p), z);
    lemma_mul_zero(a);
    lemma_cancel(a, p, z);
}

/// The root that `solve_linear` gives for `b x + c = 0` is a zero of it.
pub proof fn lemma_linear_root_is_zero<T: Field + PartialEq>(b: T, c: T)
    requires
        field_laws::<T>(),
    ensures
        solve_linear_spec(b, c) matches Result::Defined(x) ==> b.mul_spec(x).add_spec(c) == T::zero_spec(),
{
    let z = T::zero_spec();
    if b == z {
        if c == z {
            lemma_mul_zero(b);
            units(z, z);
        }
    } else {
        let x = c.neg_spec().div_spec(b);
        div_mul(c.neg_spec(), b);
        add_comm(c.neg_spec(), c);
        units(c, c);
    }
}

/// With `a` zero, `a x² + b x + c` is `b x + c`.
proof fn lemma_quadratic_at_zero_lead<T: Field + PartialEq>(b: T, c: T, x: T)
    requires
        field_laws::<T>(),
    ensures
        quadratic_at(T::zero_spec(), b, c, x) == b.mul_spec(x).add_spec(c),
{
    let z = T::zero_spec();
    lemma_mul_zero(x);
    units(b.mul_spec(x), b.mul_spec(x));
}

/// `sqrt` gives a square root of every value that is not below zero.
pub open spec fn sqrt_exact<T: Field + Sqrt + PartialOrd>() -> bool {
    forall|x: T, s: T| !x.is_lt(&T::zero_spec()) && #[trigger] call_ensures(T::sqrt, (x,), s) ==> s.mul_spec(s) == x
}

/// Over a field whose `sqrt` is exact, every value that `solve_quadratic`
/// gives for `a x² + b x + c = 0` is a zero of `a x² + b x + c`.
pub proof fn lemma_quadratic_gives_zeros<T>(a: T, b: T, c: T, r: Vec2<Result<T>>)
    where
        T: Field + Sqrt + PartialEq + PartialOrd,
    requires
        field_laws::<T>(),
        sqrt_exact::<T>(),
        call_ensures(solve_quadratic::<T>, (a, b, c), r),
    ensures
        forall|i: int| 0 <= i < 2 ==> (#[trigger] r@[i] matches Result::Defined(x) ==> quadratic_at(a, b, c, x) == T::zero_spec()),
{
    let z = T::zero_spec();
    if a == z {
        lemma_linear_root_is_zero(b, c);
        if let Result::Defined(x) = solve_linear_spec(b, c) {
            lemma_quadratic_at_zero_lead(b, c, x);
        }
    } else if discriminant(a, b, c).is_lt(&z) {
    } else if discriminant(a, b, c) == z {
        lemma_double_root_is_zero(a, b, c);
    } else {
        let d = choose|d: T| #[trigger] call_ensures(T::sqrt, (discriminant(a, b, c),), d) && r@ == quadratic_roots(a, b, d);
        lemma_two_roots_are_zeros(a, b, c, d);
    }
}

/// `(k x) / (k y) == x / y` for non-zero `k` and `y`.
proof fn lemma_div_scale<T: Field + PartialEq>(k: T, x: T, y: T)
    requires
        field_laws::<T>(),
        k != T::zero_spec(),
        y != T::zero_spec(),
    ensures
        k.mul_spec(x).div_spec(k.mul_spec(y)) == x.div_spec(y),
{
    let ky = k.mul_spec(y);
    let q = x.div_spec(y);
    let q1 = k.mul_spec(x).div_spec(ky);
    no_zero_divisors(k, y);
    div_mul(k.mul_spec(x), ky);
    div_mul(x, y);
    // (k y) q = k (y q) = k x
    mul_assoc(k, y, q);
    lemma_cancel(ky, q1, q);
}

/// The value `a x³ + b x² + c x + d` of a cubic at `x`.
pub open spec fn cubic_at<T: Field>(a: T, b: T, c: T, d: T, x: T) -> T {
    a.mul_spec(x).mul_spec(x).mul_spec(x).add_spec(b.mul_spec(x).mul_spec(x)).add_spec(c.mul_spec(x)).add_spec(d)
}

/// Over a field whose `sqrt` is exact, when the leading coefficient is zero
/// every value that `solve_cubic` gives is a zero of `a x³ + b x² + c x + d`.
pub proof fn lemma_cubic_without_cube_gives_zeros<T>(a: T, b: T, c: T, d: T, r: Vec3<Result<T>>)
    where
        T: Field + Sqrt + Cbrt + Cos + Acos + PartialEq + PartialOrd,
    requires
        field_laws::<T>(),
        sqrt_exact::<T>(),
        a == T::zero_spec(),
        call_ensures(solve_cubic::<T>, (a, b, c, d), r),
    ensures
        forall|i: int| 0 <= i < 3 ==> (#[trigger] r@[i] matches Result::Defined(x) ==> cubic_at(a, b, c, d, x) == T::zero_spec()),
{
    let q = choose|q: Vec2<Result<T>>|
        #[trigger] call_ensures(solve_quadratic::<T>, (b, c, d), q) && r@ == seq![q@[0], q@[1], Result::Undefined];
    lemma_quadratic_gives_zeros(b, c, d, q);
    assert forall|i: int| 0 <= i < 3 implies (#[trigger] r@[i] matches Result::Defined(x) ==> cubic_at(a, b, c, d, x) == T::zero_spec()) by {
        if let Result::Defined(x) = r@[i] {
            assert(q@[i] == r@[i]);
            lemma_mul_zero(x);
            let z = T::zero_spec();
            units(b.mul_spec(x).mul_spec(x), z);
        }
    }
}

/// The description of what `solve_cubic` gives for a cubic with a non-zero
/// leading coefficient does not change when all four coefficients are
/// multiplied by the same non-zero `k`: the leading coefficient stays
/// non-zero, and `q`, `r`, `q³`, `q³ + r²`, the shift `b / (3 a)` and the
/// roots that both formulas give from the same values of `sqrt`, `cbrt`,
/// `acos` and `cos` are the same. So the cubic and its multiple get the same
/// zero points.
pub proof fn lemma_cubic_scale_invariant<T: Field + PartialEq>(k: T, a: T, b: T, c: T, d: T)
    requires
        field_laws::<T>(),
        k != T::zero_spec(),
        a != T::zero_spec(),
    ensures
        !k.mul_spec(a).is_eq(&T::zero_spec()),
        cubic_q(k.mul_spec(a), k.mul_spec(b), k.mul_spec(c)) == cubic_q(a, b, c),
        cubic_q3(k.mul_spec(a), k.mul_spec(b), k.mul_spec(c)) == cubic_q3(a, b, c),
        cubic_r(k.mul_spec(a), k.mul_spec(b), k.mul_spec(c), k.mul_spec(d)) == cubic_r(a, b, c, d),
        cubic_d0(k.mul_spec(a), k.mul_spec(b), k.mul_spec(c), k.mul_spec(d)) == cubic_d0(a, b, c, d),
        cubic_shift(k.mul_spec(a), k.mul_spec(b)) == cubic_shift(a, b),
        forall|s: T, c0: T, c1: T, c2: T|
            #[trigger] cubic_trig_roots(k.mul_spec(a), k.mul_spec(b), s, c0, c1, c2) == cubic_trig_roots(a, b, s, c0, c1, c2),
        forall|s: T, t: T| #[trigger] cubic_cardano_roots(k.mul_spec(a), k.mul_spec(b), s, t) == cubic_cardano_roots(a, b, s, t),
{
    no_zero_divisors(k, a);
    lemma_div_scale(k, b, a);
    lemma_div_scale(k, c, a);
    lemma_div_scale(k, d, a);
}

/// `(a p) / a == p` for non-zero `a`.
proof fn lemma_div_cancel<T: Field + PartialEq>(a: T, p: T)
    requires
        field_laws::<T>(),
        a != T::zero_spec(),
    ensures
        a.mul_spec(p).div_spec(a) == p,
{
    let q = a.mul_spec(p).div_spec(a);
    div_mul(a.mul_spec(p), a);
    mul_comm(q, a);
    lemma_cancel(a, q, p);
}

/// `0 / y == 0` for non-zero `y`.
proof fn lemma_zero_div<T: Field + PartialEq>(y: T)
    requires
        field_laws::<T>(),
        y != T::zero_spec(),
    ensures
        T::zero_spec().div_spec(y) == T::zero_spec(),
{
    let z = T::zero_spec();
    div_mul(z, y);
    lemma_mul_zero(y);
    mul_comm(z, y);
    lemma_cancel(y, z.div_spec(y), z);
}

/// `x * 3 == x + x + x`, `3`, `9`, `27` and `54` are not zero, and
/// `9 == 3 * 3`, `27 == 9 * 3`, `54 == 27 * 2`.
proof fn lemma_cubic_constants<T: Field + PartialEq>()
    requires
        field_laws::<T>(),
    ensures
        three_spec::<T>() != T::zero_spec(),
        c9_spec::<T>() == three_spec::<T>().mul_spec(three_spec::<T>()),
        c27_spec::<T>() == c9_spec::<T>().mul_spec(three_spec::<T>()),
        c54_spec::<T>() == c27_spec::<T>().mul_spec(two_spec::<T>()),
        c9_spec::<T>() != T::zero_spec(),
        c27_spec::<T>() != T::zero_spec(),
        c54_spec::<T>() != T::zero_spec(),
{
    let one = T::one_spec();
    let two = two_spec::<T>();
    let three = three_spec::<T>();
    let c9 = c9_spec::<T>();
    let c27 = c27_spec::<T>();
    lemma_times_three(three);
    lemma_times_three(c9);
    lemma_two_four_nonzero::<T>();
    distrib(c27, one, one);
    units(c27, c27);
    no_zero_divisors(three, three);
    no_zero_divisors(c9, three);
    no_zero_divisors(c27, two);
}

/// `x * 3 == x + x + x`.
proof fn lemma_times_three<T: Field + PartialEq>(x: T)
    requires
        field_laws::<T>(),
    ensures
        x.mul_spec(three_spec::<T>()) == x.add_spec(x).add_spec(x),
{
    let one = T::one_spec();
    distrib(x, two_spec::<T>(), one);
    distrib(x, one, one);
    units(x, x);
}

/// `-(y + z) == -y + -z`.
proof fn lemma_neg_sum<T: Field + PartialEq>(y: T, z: T)
    requires
        field_laws::<T>(),
    ensures
        y.add_spec(z).neg_spec() == y.neg_spec().add_spec(z.neg_spec()),
{
    let ny = y.neg_spec();
    let nz = z.neg_spec();
    add_assoc(y, z, ny.add_spec(nz));
    add_assoc(z, ny, nz);
    add_comm(z, ny);
    add_assoc(ny, z, nz);
    units(z, z);
    units(ny, ny);
    units(y, y);
    lemma_neg_unique(y.add_spec(z), ny.add_spec(nz));
}

/// `x * (-y) == -(x * y)`.
proof fn lemma_mul_neg<T: Field + PartialEq>(x: T, y: T)
    requires
        field_laws::<T>(),
    ensures
        x.mul_spec(y.neg_spec()) == x.mul_spec(y).neg_spec(),
{
    mul_comm(x, y.neg_spec());
    lemma_neg_mul(y, x);
    mul_comm(y, x);
}

/// `(3 p) (3 q) == 3 (3 (p q))`.
proof fn lemma_three_three<T: Field + PartialEq>(p: T, q: T)
    requires
        field_laws::<T>(),
    ensures
        three_spec::<T>().mul_spec(p).mul_spec(three_spec::<T>().mul_spec(q)) == three_spec::<T>().mul_spec(
            three_spec::<T>().mul_spec(p.mul_spec(q)),
        ),
{
    let t = three_spec::<T>();
    mul_assoc(t, p, t.mul_spec(q));
    mul_assoc(p, t, q);
    mul_comm(p, t);
    mul_assoc(t, p, q);
}

/// For the cubic `a (x - ρ)³`, whose coefficients are `a`, `a (-3ρ)`,
/// `a (3ρ²)` and `a (-ρ³)`, both `q` and `r` are zero.
proof fn lemma_triple_q_r<T: Field + PartialEq>(a: T, rho: T)
    requires
        field_laws::<T>(),
        a != T::zero_spec(),
    ensures
        ({
            let t = three_spec::<T>();
            let s = rho.mul_spec(rho);
            let b = a.mul_spec(t.mul_spec(rho).neg_spec());
            let c = a.mul_spec(t.mul_spec(s));
            let d = a.mul_spec(s.mul_spec(rho).neg_spec());
            &&& cubic_q(a, b, c) == T::zero_spec()
            &&& cubic_r(a, b, c, d) == T::zero_spec()
            &&& b.div_spec(a) == t.mul_spec(rho).neg_spec()
        }),
{
    let z = T::zero_spec();
    let two = two_spec::<T>();
    let t = three_spec::<T>();
    let c9 = c9_spec::<T>();
    let c27 = c27_spec::<T>();
    let c54 = c54_spec::<T>();
    let s = rho.mul_spec(rho);
    let r3 = s.mul_spec(rho);
    let p = t.mul_spec(rho);
    let a2 = p.neg_spec();
    let a1 = t.mul_spec(s);
    let a0 = r3.neg_spec();
    let b = a.mul_spec(a2);
    let c = a.mul_spec(a1);
    let d = a.mul_spec(a0);
    lemma_div_cancel(a, a2);
    lemma_div_cancel(a, a1);
    lemma_div_cancel(a, a0);
    lemma_cubic_constants::<T>();
    // q: 3 a1 - a2 a2 = 3 (3 ρ²) - (3ρ)(3ρ) = 0
    lemma_neg_square(p);
    lemma_three_three(rho, rho);
    units(t.mul_spec(a1), a2.mul_spec(a2));
    units(t.mul_spec(a1), t.mul_spec(a1));
    lemma_zero_div(c9);
    assert(cubic_q(a, b, c) == z);
    // p a1 = 9 r3 and p p p = 27 r3
    lemma_three_three(rho, s);
    mul_comm(rho, s);
    mul_assoc(t, t, r3);
    assert(p.mul_spec(a1) == c9.mul_spec(r3));
    assert(p.mul_spec(p) == t.mul_spec(a1));
    mul_assoc(t, a1, p);
    mul_comm(a1, p);
    mul_assoc(t, c9, r3);
    mul_comm(t, c9);
    assert(p.mul_spec(p).mul_spec(p) == c27.mul_spec(r3));
    // the three terms of r's numerator
    let x1 = c9.mul_spec(a2).mul_spec(a1);
    lemma_mul_neg(c9, p);
    lemma_neg_mul(c9.mul_spec(p), a1);
    mul_assoc(c9, p, a1);
    let big = c9.mul_spec(c9.mul_spec(r3));
    assert(x1 == big.neg_spec());
    let x2 = c27.mul_spec(a0);
    lemma_mul_neg(c27, r3);
    let y = c27.mul_spec(r3);
    let zz = c54.mul_spec(r3);
    let x3 = two.mul_spec(a2).mul_spec(a2).mul_spec(a2);
    mul_assoc(two, a2, a2);
    lemma_mul_neg(two.mul_spec(p.mul_spec(p)), p);
    mul_assoc(two, p.mul_spec(p), p);
    mul_assoc(two, c27, r3);
    mul_comm(two, c27);
    assert(x3 == zz.neg_spec());
    // 9 (9 r3) = 27 r3 + 54 r3
    mul_assoc(c9, c9, r3);
    mul_assoc(c9, t, t);
    lemma_times_three(c27);
    distrib(c27, T::one_spec(), T::one_spec());
    units(c27, c27);
    add_comm(c54, c27);
    distrib(r3, c27, c54);
    assert(big == y.add_spec(zz));
    // numerator: (-(Y + Z) - (-Y)) - (-Z) = 0
    units(x1, x2);
    units(x1.sub_spec(x2), x3);
    lemma_neg_neg(y);
    lemma_neg_neg(zz);
    lemma_neg_sum(y, zz);
    let ny = y.neg_spec();
    let nz = zz.neg_spec();
    add_assoc(ny, nz, y);
    add_comm(nz, y);
    add_assoc(ny, y, nz);
    add_comm(ny, y);
    units(y, y);
    units(nz, nz);
    add_comm(nz, zz);
    units(zz, zz);
    lemma_zero_div(c54);
    assert(cubic_r(a, b, c, d) == z);
}

/// `cbrt` gives a cube root of every value.
pub open spec fn cbrt_exact<T: Field + Cbrt>() -> bool {
    forall|x: T, s: T| #[trigger] call_ensures(T::cbrt, (x,), s) ==> s.mul_spec(s).mul_spec(s) == x
}

/// Only zero squares, or cubes, to zero.
proof fn lemma_power_zero<T: Field + PartialEq>(x: T)
    requires
        field_laws::<T>(),
    ensures
        x.mul_spec(x) == T::zero_spec() ==> x == T::zero_spec(),
        x.mul_spec(x).mul_spec(x) == T::zero_spec() ==> x == T::zero_spec(),
{
    let z = T::zero_spec();
    if x != z {
        no_zero_divisors(x, x);
        no_zero_divisors(x.mul_spec(x), x);
    }
}

/// Over a field whose `sqrt` and `cbrt` are exact and whose zero is not
/// below itself, `solve_cubic` finds the zero point `ρ` of the cubic
/// `a (x - ρ)³` (with coefficients `a`, `a (-3ρ)`, `a (3ρ²)`, `a (-ρ³)`), and
/// only that one.
pub proof fn lemma_triple_root_found<T>(a: T, rho: T, r: Vec3<Result<T>>)
    where
        T: Field + Sqrt + Cbrt + Cos + Acos + PartialEq + PartialOrd,
    requires
        field_laws::<T>(),
        sqrt_exact::<T>(),
        cbrt_exact::<T>(),
        !T::zero_spec().is_lt(&T::zero_spec()),
        a != T::zero_spec(),
        call_ensures(
            solve_cubic::<T>,
            (
                a,
                a.mul_spec(three_spec::<T>().mul_spec(rho).neg_spec()),
                a.mul_spec(three_spec::<T>().mul_spec(rho.mul_spec(rho))),
                a.mul_spec(rho.mul_spec(rho).mul_spec(rho).neg_spec()),
            ),
            r,
        ),
    ensures
        r@ == seq![Result::Defined(rho), Result::Undefined, Result::Undefined],
{
    let z = T::zero_spec();
    let t3 = three_spec::<T>();
    let p = t3.mul_spec(rho);
    let b = a.mul_spec(p.neg_spec());
    let c = a.mul_spec(t3.mul_spec(rho.mul_spec(rho)));
    let d = a.mul_spec(rho.mul_spec(rho).mul_spec(rho).neg_spec());
    lemma_triple_q_r(a, rho);
    lemma_mul_zero(z);
    units(z, z);
    assert(cubic_q3(a, b, c) == z);
    assert(cubic_d0(a, b, c, d) == z);
    let (sqrt_d, s, t) = choose|sqrt_d: T, s: T, t: T|
        #![trigger call_ensures(T::sqrt, (cubic_d0(a, b, c, d),), sqrt_d), call_ensures(T::cbrt, (cubic_r(a, b, c, d).add_spec(sqrt_d),), s), call_ensures(T::cbrt, (cubic_r(a, b, c, d).sub_spec(sqrt_d),), t)]
        {
            &&& call_ensures(T::sqrt, (cubic_d0(a, b, c, d),), sqrt_d)
            &&& call_ensures(T::cbrt, (cubic_r(a, b, c, d).add_spec(sqrt_d),), s)
            &&& call_ensures(T::cbrt, (cubic_r(a, b, c, d).sub_spec(sqrt_d),), t)
            &&& r@ == cubic_cardano_roots(a, b, s, t)
        };
    lemma_power_zero(sqrt_d);
    assert(sqrt_d == z);
    units(z, z);
    add_comm(z, z.neg_spec());
    units(z.neg_spec(), z);
    assert(z.neg_spec() == z);
    lemma_power_zero(s);
    lemma_power_zero(t);
    assert(s == z && t == z);
    // the shift (b / a) / 3 is -ρ
    let shift = cubic_shift(a, b);
    lemma_cubic_constants::<T>();
    div_mul(p.neg_spec(), t3);
    lemma_neg_mul(rho, t3);
    mul_comm(rho, t3);
    mul_comm(shift, t3);
    mul_comm(rho.neg_spec(), t3);
    lemma_cancel(t3, shift, rho.neg_spec());
    units(z, shift);
    lemma_neg_neg(rho);
    units(rho, rho);
}

} // verus!
