use rui::math::num::{Acos, AddInv, Additive, Cbrt, Cos, Field, MulInv, Multiplicative, Num, Ring, Sqrt};
use rui::math::result::Result;
use rui::math::solve::{solve_cubic, solve_linear, solve_minmax_cubic_bezier, solve_quadratic};
use rui::math::vec::{Vec2, Vector};
use std::cmp::Ordering;
use std::ops::{Add, Div, Mul, Neg, Sub};

/// A field of floating-point numbers for the solvers; ordered by `total_cmp`
/// so that it can also stand where `Ord` is asked for.
#[derive(Clone, Copy, Debug, PartialEq)]
struct F(f64);

impl Eq for F {}

impl PartialOrd for F {
    fn partial_cmp(&self, other: &F) -> Option<Ordering> {
        Some(self.cmp(other))
    }
}

impl Ord for F {
    fn cmp(&self, other: &F) -> Ordering {
        self.0.total_cmp(&other.0)
    }
}

impl Add for F {
    type Output = F;
    fn add(self, rhs: F) -> F {
        F(self.0 + rhs.0)
    }
}

impl Sub for F {
    type Output = F;
    fn sub(self, rhs: F) -> F {
        F(self.0 - rhs.0)
    }
}

impl Mul for F {
    type Output = F;
    fn mul(self, rhs: F) -> F {
        F(self.0 * rhs.0)
    }
}

impl Div for F {
    type Output = F;
    fn div(self, rhs: F) -> F {
        F(self.0 / rhs.0)
    }
}

impl Neg for F {
    type Output = F;
    fn neg(self) -> F {
        F(-self.0)
    }
}

impl Num for F {}
impl Additive for F {}
impl AddInv for F {}
impl Multiplicative for F {}
impl MulInv for F {}

// The spec functions of the library's traits are items of the traits in a
// compiled build too; here they give the same values as the exec ones.
impl Ring for F {
    fn one_spec() -> F {
        F(1.0)
    }
    fn zero_spec() -> F {
        F(0.0)
    }
    fn one() -> F {
        F(1.0)
    }
    fn zero() -> F {
        F(0.0)
    }
}

impl Field for F {
    fn two_third_pi_spec() -> F {
        F(2.0 * std::f64::consts::PI / 3.0)
    }
    fn two_third_pi() -> F {
        F(2.0 * std::f64::consts::PI / 3.0)
    }
}

impl Sqrt for F {
    fn sqrt(self) -> F {
        F(self.0.sqrt())
    }
}

impl Cbrt for F {
    fn cbrt(self) -> F {
        F(self.0.cbrt())
    }
}

impl Cos for F {
    fn cos(self) -> F {
        F(self.0.cos())
    }
}

impl Acos for F {
    fn acos(self) -> F {
        F(self.0.acos())
    }
}

fn close(r: Result<F>, expected: f64) -> bool {
    match r {
        Result::Defined(F(x)) => (x - expected).abs() < 1e-9,
        Result::Undefined => false,
    }
}

fn undefined(r: Result<F>) -> bool {
    matches!(r, Result::Undefined)
}

fn v(x: f64, y: f64) -> Vec2<F> {
    Vector::from([F(x), F(y)])
}

#[test]
fn solve_linear_cases() {
    assert!(close(solve_linear(F(2.0), F(-4.0)), 2.0));
    assert!(close(solve_linear(F(0.0), F(0.0)), 0.0));
    assert!(undefined(solve_linear(F(0.0), F(1.0))));
}

#[test]
fn solve_quadratic_cases() {
    let two_roots = solve_quadratic(F(1.0), F(-3.0), F(2.0));
    assert!(close(two_roots[0], 2.0) && close(two_roots[1], 1.0));
    let double_root = solve_quadratic(F(1.0), F(2.0), F(1.0));
    assert!(close(double_root[0], -1.0) && undefined(double_root[1]));
    let no_root = solve_quadratic(F(1.0), F(0.0), F(1.0));
    assert!(undefined(no_root[0]) && undefined(no_root[1]));
    let linear = solve_quadratic(F(0.0), F(2.0), F(-4.0));
    assert!(close(linear[0], 2.0) && undefined(linear[1]));
}

#[test]
fn solve_cubic_falls_back_to_the_quadratic() {
    let r = solve_cubic(F(0.0), F(1.0), F(-3.0), F(2.0));
    assert!(close(r[0], 2.0) && close(r[1], 1.0) && undefined(r[2]));
}

#[test]
fn solve_cubic_cardano_branch() {
    let r = solve_cubic(F(1.0), F(0.0), F(0.0), F(-8.0));
    assert!(close(r[0], 2.0) && undefined(r[1]) && undefined(r[2]));
    let zero = solve_cubic(F(1.0), F(0.0), F(0.0), F(0.0));
    assert!(close(zero[0], 0.0) && undefined(zero[1]) && undefined(zero[2]));
}

#[test]
fn solve_cubic_finds_the_zero_points() {
    // x³ - x = x (x - 1) (x + 1), from the trigonometric formula
    let r = solve_cubic(F(1.0), F(0.0), F(-1.0), F(0.0));
    assert!(close(r[0], 1.0) && close(r[1], 0.0) && close(r[2], -1.0));
    // (x - 1)³ has the single root 1
    let triple = solve_cubic(F(1.0), F(-3.0), F(3.0), F(-1.0));
    assert!(close(triple[0], 1.0) && undefined(triple[1]) && undefined(triple[2]));
    // 2 (x - 1)² (x + 2) = 2x³ - 6x + 4: Cardano with a double root
    let double = solve_cubic(F(2.0), F(0.0), F(-6.0), F(4.0));
    assert!(close(double[0], -2.0) && close(double[1], 1.0) && undefined(double[2]));
}

#[test]
fn solve_minmax_cubic_bezier_bounds() {
    // x(t) = 3t, y(t) = 6t (1 - t): y peaks at t = 1/2 with 3/2
    let r = solve_minmax_cubic_bezier(v(0.0, 0.0), v(1.0, 2.0), v(2.0, 2.0), v(3.0, 0.0));
    assert_eq!((r[0][0].0, r[0][1].0), (0.0, 0.0));
    assert_eq!((r[1][0].0, r[1][1].0), (3.0, 1.5));
    let s = solve_minmax_cubic_bezier(v(0.0, 0.0), v(0.0, 1.0), v(1.0, 1.0), v(1.0, 0.0));
    assert_eq!((s[0][0].0, s[0][1].0), (0.0, 0.0));
    assert_eq!((s[1][0].0, s[1][1].0), (1.0, 0.75));
    // x(t) = 3t (1 - t)² peaks at t = 1/3 with 4/9
    let u = solve_minmax_cubic_bezier(v(0.0, 0.0), v(1.0, 0.0), v(0.0, 0.0), v(0.0, 0.0));
    assert!(u[0][0].0.abs() < 1e-9 && u[0][1].0 == 0.0);
    assert!((u[1][0].0 - 4.0 / 9.0).abs() < 1e-9 && u[1][1].0 == 0.0);
}
