use rui::math::num::{Max, Min, Ring};
use rui::math::rect;
use rui::math::result::Result;
use rui::math::vec::{Vec2, Vec4, Vector};
use rui::math::{cubic, cubic_bezier, linear, quadratic};

fn arr<T: Copy, const N: usize>(v: Vector<T, N>) -> [T; N] {
    v.into()
}

#[test]
fn integer_min_and_max() {
    assert_eq!(rui::math::min(3i32, 5), 3);
    assert_eq!(rui::math::min(-7i64, 2), -7);
    assert_eq!(rui::math::max(3u8, 5), 5);
    assert_eq!(rui::math::max(9usize, 9), 9);
    assert_eq!(Min::min(4u128, 1), 1);
    assert_eq!(Max::max(-4i8, -1), -1);
}

#[test]
fn ring_constants_of_integers() {
    assert_eq!(<i32 as Ring>::one(), 1);
    assert_eq!(<i64 as Ring>::zero(), 0);
    assert_eq!(arr(<Vec4<i16> as Ring>::one()), [1, 1, 1, 1]);
    assert!(matches!(<Result<i8> as Ring>::zero(), Result::Defined(0)));
}

#[test]
fn result_arithmetic_is_undefined_with_an_undefined_operand() {
    let d = |x: i32| Result::Defined(x);
    assert!(matches!(d(2) + d(3), Result::Defined(5)));
    assert!(matches!(d(2) - d(3), Result::Defined(-1)));
    assert!(matches!(d(4) * d(3), Result::Defined(12)));
    assert!(matches!(d(7) / d(2), Result::Defined(3)));
    assert!(matches!(-d(7), Result::Defined(-7)));
    assert!(matches!(d(2) + Result::Undefined, Result::Undefined));
    assert!(matches!(Result::Undefined - d(2), Result::Undefined));
    assert!(matches!(Result::<i32>::Undefined * Result::Undefined, Result::Undefined));
    assert!(matches!(-Result::<i32>::Undefined, Result::Undefined));
    assert!(matches!(Min::min(d(2), d(-3)), Result::Defined(-3)));
    assert!(matches!(Max::max(d(2), d(-3)), Result::Defined(2)));
    assert!(matches!(Min::min(d(2), Result::Undefined), Result::Undefined));
    assert!(matches!(Max::max(Result::Undefined, d(2)), Result::Undefined));
}

#[test]
fn result_compound_assignment_keeps_a_defined_value_on_undefined() {
    let mut x = Result::Defined(5i32);
    x += Result::Defined(2);
    assert!(matches!(x, Result::Defined(7)));
    x -= Result::Defined(10);
    assert!(matches!(x, Result::Defined(-3)));
    x *= Result::Defined(-4);
    assert!(matches!(x, Result::Defined(12)));
    x /= Result::Defined(5);
    assert!(matches!(x, Result::Defined(2)));
    x += Result::Undefined;
    assert!(matches!(x, Result::Defined(2)));
    let mut u = Result::<i32>::Undefined;
    u += Result::Defined(1);
    assert!(matches!(u, Result::Undefined));
}

#[test]
fn vector_arithmetic_is_element_wise() {
    let a: Vec4<i32> = Vector::from([1, 2, 3, 4]);
    let b: Vec4<i32> = Vector::from([10, 20, 30, 40]);
    assert_eq!(arr(a + b), [11, 22, 33, 44]);
    assert_eq!(arr(b - a), [9, 18, 27, 36]);
    assert_eq!(arr(a * b), [10, 40, 90, 160]);
    assert_eq!(arr(a * 3), [3, 6, 9, 12]);
    assert_eq!(arr(b / a), [10, 10, 10, 10]);
    assert_eq!(arr(b % Vector::from([3, 6, 7, 9])), [1, 2, 2, 4]);
    assert_eq!(arr(-a), [-1, -2, -3, -4]);
    assert_eq!(a[2], 3);
    assert_eq!((*a)[3], 4);
}

#[test]
fn vector_bit_operations_are_element_wise() {
    let a: Vec2<u8> = Vector::from([0b1100, 0b1010]);
    let b: Vec2<u8> = Vector::from([0b1010, 0b0110]);
    assert_eq!(arr(a & b), [0b1000, 0b0010]);
    assert_eq!(arr(a | b), [0b1110, 0b1110]);
    assert_eq!(arr(a ^ b), [0b0110, 0b1100]);
    assert_eq!(arr(!a), [0b1111_0011, 0b1111_0101]);
    assert_eq!(arr(a << Vector::from([1, 2])), [0b11000, 0b101000]);
    assert_eq!(arr(a >> Vector::from([2, 1])), [0b11, 0b101]);
}

#[test]
fn vector_compound_assignment_is_element_wise() {
    let mut a: Vec2<i32> = Vector::from([6, 8]);
    a += Vector::from([1, 2]);
    assert_eq!(arr(a), [7, 10]);
    a -= Vector::from([2, 2]);
    assert_eq!(arr(a), [5, 8]);
    a *= Vector::from([3, 2]);
    assert_eq!(arr(a), [15, 16]);
    a /= Vector::from([5, 4]);
    assert_eq!(arr(a), [3, 4]);
    a %= Vector::from([2, 3]);
    assert_eq!(arr(a), [1, 1]);
    a <<= Vector::from([3, 1]);
    assert_eq!(arr(a), [8, 2]);
    a >>= Vector::from([1, 1]);
    assert_eq!(arr(a), [4, 1]);
    a |= Vector::from([1, 2]);
    assert_eq!(arr(a), [5, 3]);
    a &= Vector::from([4, 1]);
    assert_eq!(arr(a), [4, 1]);
    a ^= Vector::from([5, 5]);
    assert_eq!(arr(a), [1, 4]);
}

#[test]
fn vector_min_max_and_iteration() {
    let a: Vec4<i32> = Vector::from([1, 20, -3, 4]);
    let b: Vec4<i32> = Vector::from([10, 2, 3, -40]);
    assert_eq!(arr(Min::min(a, b)), [1, 2, -3, -40]);
    assert_eq!(arr(Max::max(a, b)), [10, 20, 3, 4]);
    let collected: Vec<i32> = a.iter().copied().collect();
    assert_eq!(collected, vec![1, 20, -3, 4]);
    let by_value: Vec<i32> = b.into_iter().collect();
    assert_eq!(by_value, vec![10, 2, 3, -40]);
    let mut c = a;
    for x in c.iter_mut() {
        *x *= 2;
    }
    assert_eq!(arr(c), [2, 40, -6, 8]);
}

#[test]
fn polynomials_evaluate_element_wise() {
    let x: Vec2<i32> = Vector::from([2, -1]);
    let a: Vec2<i32> = Vector::from([3, 4]);
    let b: Vec2<i32> = Vector::from([5, 6]);
    let c: Vec2<i32> = Vector::from([7, 8]);
    let d: Vec2<i32> = Vector::from([9, 10]);
    assert_eq!(arr(linear(x, a, b)), [11, 2]);
    assert_eq!(arr(quadratic(x, a, b, c)), [29, 6]);
    assert_eq!(arr(cubic(x, a, b, c, d)), [67, 4]);
}

#[test]
fn cubic_bezier_starts_at_the_first_point() {
    let b0: Vec2<i64> = Vector::from([3, -2]);
    let b1: Vec2<i64> = Vector::from([5, 7]);
    let b2: Vec2<i64> = Vector::from([-1, 4]);
    let b3: Vec2<i64> = Vector::from([8, 8]);
    assert_eq!(arr(cubic_bezier(0, b0, b1, b2, b3)), [3, -2]);
}

#[test]
fn cubic_bezier_ends_at_the_last_point() {
    let b0: Vec2<i32> = Vector::from([0, 0]);
    let b1: Vec2<i32> = Vector::from([1, 1]);
    let b2: Vec2<i32> = Vector::from([2, 2]);
    let b3: Vec2<i32> = Vector::from([3, 3]);
    assert_eq!(arr(cubic_bezier(1, b0, b1, b2, b3)), [3, 3]);
    let c0: Vec2<i64> = Vector::from([3, -2]);
    let c1: Vec2<i64> = Vector::from([5, 7]);
    let c2: Vec2<i64> = Vector::from([-1, 4]);
    let c3: Vec2<i64> = Vector::from([8, 8]);
    assert_eq!(arr(cubic_bezier(1, c0, c1, c2, c3)), [8, 8]);
}

#[test]
fn cubic_bezier_follows_the_bernstein_form() {
    // (1-t)³ b0 + 3 (1-t)² t b1 + 3 (1-t) t² b2 + t³ b3 at t = 2:
    // -b0 + 12 b1 - 12 b2 + 8 b3
    let b0: Vec2<i64> = Vector::from([1, 1]);
    let b1: Vec2<i64> = Vector::from([2, 0]);
    let b2: Vec2<i64> = Vector::from([0, 1]);
    let b3: Vec2<i64> = Vector::from([5, 5]);
    assert_eq!(arr(cubic_bezier(2, b0, b1, b2, b3)), [51, 27]);
    let zero: Vec2<i64> = Vector::from([0, 0]);
    assert_eq!(arr(cubic_bezier(1, b0, zero, zero, zero)), [0, 0]);
}

#[test]
fn rectangles_from_corners_intersections_and_unions() {
    let r = rect::rect(Vector::from([5i32, -1]), Vector::from([2, 7]));
    assert_eq!(arr(r), [2, -1, 5, 7]);
    let s: Vec4<i32> = Vector::from([0, 0, 4, 4]);
    let t: Vec4<i32> = Vector::from([2, -3, 6, 3]);
    assert_eq!(arr(rect::min(s, t)), [2, 0, 4, 3]);
    assert_eq!(arr(rect::max(s, t)), [0, -3, 6, 4]);
}

#[test]
fn polynomials_of_lower_degree() {
    let x: Vec2<i64> = Vector::from([2, 3]);
    let z: Vec2<i64> = Vector::from([0, 0]);
    let a: Vec2<i64> = Vector::from([1, 1]);
    let b: Vec2<i64> = Vector::from([1, 1]);
    let c: Vec2<i64> = Vector::from([1, 1]);
    assert_eq!(arr(quadratic(x, a, b, c)), [7, 13]);
    assert_eq!(arr(quadratic(x, z, a, b)), arr(linear(x, a, b)));
    assert_eq!(arr(cubic(x, z, a, b, c)), arr(quadratic(x, a, b, c)));
    assert_eq!(arr(cubic(x, a, b, c, c)), [15, 40]);
}

#[test]
fn min_and_max_do_not_depend_on_the_order() {
    let x: Vec2<i32> = Vector::from([4, -1]);
    let y: Vec2<i32> = Vector::from([2, 6]);
    assert_eq!(arr(x.min(y)), [2, -1]);
    assert_eq!(arr(y.min(x)), [2, -1]);
    assert_eq!(arr(x.max(y)), [4, 6]);
    assert_eq!(arr(y.max(x)), [4, 6]);
    assert!(matches!(Result::Defined(3).min(Result::Undefined), Result::Undefined));
    assert!(matches!(Result::<i32>::Undefined.max(Result::Defined(3)), Result::Undefined));
    assert!(matches!(Result::Defined(3).min(Result::Defined(-2)), Result::Defined(-2)));
}
