use vstd::prelude::*;
use crate::math::result::Result;

verus! {

/// A plain numeric value that can be copied freely.
pub trait Num: Copy + Sized {}

/// A numeric value with a total order and exact equality.
pub trait Integer: Num + Eq + Ord {}

/// Values closed under `+`.
pub trait Additive: Sized + core::ops::Add<Output = Self> {}

/// Values closed under `*`.
pub trait Multiplicative: Sized + core::ops::Mul<Output = Self> {}

/// Values closed under `/`.
pub trait MulInv: Sized + core::ops::Div<Output = Self> {}

/// Values closed under unary `-` and binary `-`.
pub trait AddInv: Sized + core::ops::Neg<Output = Self> + core::ops::Sub<Output = Self> {}

/// A ring with its two neutral elements.
pub trait Ring: Num + Additive + AddInv + Multiplicative {
    /// The value that `one` returns.
    spec fn one_spec() -> Self;

    /// The value that `zero` returns.
    spec fn zero_spec() -> Self;

    /// The neutral element of `*`.
    fn one() -> (r: Self)
        ensures
            r == Self::one_spec(),
    ;

    /// The neutral element of `+`.
    fn zero() -> (r: Self)
        ensures
            r == Self::zero_spec(),
    ;
}

/// A field, with the constant two thirds of pi used by the cubic solver.
pub trait Field: Ring + MulInv {
    /// The value that `two_third_pi` returns.
    spec fn two_third_pi_spec() -> Self;

    /// Two thirds of pi.
    fn two_third_pi() -> (r: Self)
        ensures
            r == Self::two_third_pi_spec(),
    ;
}

/// Square root.
pub trait Sqrt {
    fn sqrt(self) -> Self;
}

/// Cube root.
pub trait Cbrt {
    fn cbrt(self) -> Self;
}

/// Cosine.
pub trait Cos {
    fn cos(self) -> Self;
}

/// Arc cosine.
pub trait Acos {
    fn acos(self) -> Self;
}

/// The smaller of two values; `min_spec` says which value that is.
pub trait Min<RHS = Self> {
    type Output;

    spec fn min_spec(self, rhs: RHS) -> Self::Output;

    fn min(self, rhs: RHS) -> (r: Self::Output)
        ensures
            r == self.min_spec(rhs),
    ;
}

/// The larger of two values; `max_spec` says which value that is.
pub trait Max<RHS = Self> {
    type Output;

    spec fn max_spec(self, rhs: RHS) -> Self::Output;

    fn max(self, rhs: RHS) -> (r: Self::Output)
        ensures
            r == self.max_spec(rhs),
    ;
}

impl Num for isize {}

impl Integer for isize {}

impl Min for isize {
    type Output = isize;

    open spec fn min_spec(self, rhs: isize) -> isize {
        if self < rhs { self } else { rhs }
    }

    fn min(self, rhs: isize) -> (r: isize) {
        if self < rhs { self } else { rhs }
    }
}

impl Max for isize {
    type Output = isize;

    open spec fn max_spec(self, rhs: isize) -> isize {
        if self > rhs { self } else { rhs }
    }

    fn max(self, rhs: isize) -> (r: isize) {
        if self > rhs { self } else { rhs }
    }
}

impl Num for i8 {}

impl Integer for i8 {}

impl Min for i8 {
    type Output = i8;

    open spec fn min_spec(self, rhs: i8) -> i8 {
        if self < rhs { self } else { rhs }
    }

    fn min(self, rhs: i8) -> (r: i8) {
        if self < rhs { self } else { rhs }
    }
}

impl Max for i8 {
    type Output = i8;

    open spec fn max_spec(self, rhs: i8) -> i8 {
        if self > rhs { self } else { rhs }
    }

    fn max(self, rhs: i8) -> (r: i8) {
        if self > rhs { self } else { rhs }
    }
}

impl Num for i16 {}

impl Integer for i16 {}

impl Min for i16 {
    type Output = i16;

    open spec fn min_spec(self, rhs: i16) -> i16 {
        if self < rhs { self } else { rhs }
    }

    fn min(self, rhs: i16) -> (r: i16) {
        if self < rhs { self } else { rhs }
    }
}

impl Max for i16 {
    type Output = i16;

    open spec fn max_spec(self, rhs: i16) -> i16 {
        if self > rhs { self } else { rhs }
    }

    fn max(self, rhs: i16) -> (r: i16) {
        if self > rhs { self } else { rhs }
    }
}

impl Num for i32 {}

impl Integer for i32 {}

impl Min for i32 {
    type Output = i32;

    open spec fn min_spec(self, rhs: i32) -> i32 {
        if self < rhs { self } else { rhs }
    }

    fn min(self, rhs: i32) -> (r: i32) {
        if self < rhs { self } else { rhs }
    }
}

impl Max for i32 {
    type Output = i32;

    open spec fn max_spec(self, rhs: i32) -> i32 {
        if self > rhs { self } else { rhs }
    }

    fn max(self, rhs: i32) -> (r: i32) {
        if self > rhs { self } else { rhs }
    }
}

impl Num for i64 {}

impl Integer for i64 {}

impl Min for i64 {
    type Output = i64;

    open spec fn min_spec(self, rhs: i64) -> i64 {
        if self < rhs { self } else { rhs }
    }

    fn min(self, rhs: i64) -> (r: i64) {
        if self < rhs { self } else { rhs }
    }
}

impl Max for i64 {
    type Output = i64;

    open spec fn max_spec(self, rhs: i64) -> i64 {
        if self > rhs { self } else { rhs }
    }

    fn max(self, rhs: i64) -> (r: i64) {
        if self > rhs { self } else { rhs }
    }
}

impl Num for i128 {}

impl Integer for i128 {}

impl Min for i128 {
    type Output = i128;

    open spec fn min_spec(self, rhs: i128) -> i128 {
        if self < rhs { self } else { rhs }
    }

    fn min(self, rhs: i128) -> (r: i128) {
        if self < rhs { self } else { rhs }
    }
}

impl Max for i128 {
    type Output = i128;

    open spec fn max_spec(self, rhs: i128) -> i128 {
        if self > rhs { self } else { rhs }
    }

    fn max(self, rhs: i128) -> (r: i128) {
        if self > rhs { self } else { rhs }
    }
}

impl Num for usize {}

impl Integer for usize {}

impl Min for usize {
    type Output = usize;

    open spec fn min_spec(self, rhs: usize) -> usize {
        if self < rhs { self } else { rhs }
    }

    fn min(self, rhs: usize) -> (r: usize) {
        if self < rhs { self } else { rhs }
    }
}

impl Max for usize {
    type Output = usize;

    open spec fn max_spec(self, rhs: usize) -> usize {
        if self > rhs { self } else { rhs }
    }

    fn max(self, rhs: usize) -> (r: usize) {
        if self > rhs { self } else { rhs }
    }
}

impl Num for u8 {}

impl Integer for u8 {}

impl Min for u8 {
    type Output = u8;

    open spec fn min_spec(self, rhs: u8) -> u8 {
        if self < rhs { self } else { rhs }
    }

    fn min(self, rhs: u8) -> (r: u8) {
        if self < rhs { self } else { rhs }
    }
}

impl Max for u8 {
    type Output = u8;

    open spec fn max_spec(self, rhs: u8) -> u8 {
        if self > rhs { self } else { rhs }
    }

    fn max(self, rhs: u8) -> (r: u8) {
        if self > rhs { self } else { rhs }
    }
}

impl Num for u16 {}

impl Integer for u16 {}

impl Min for u16 {
    type Output = u16;

    open spec fn min_spec(self, rhs: u16) -> u16 {
        if self < rhs { self } else { rhs }
    }

    fn min(self, rhs: u16) -> (r: u16) {
        if self < rhs { self } else { rhs }
    }
}

impl Max for u16 {
    type Output = u16;

    open spec fn max_spec(self, rhs: u16) -> u16 {
        if self > rhs { self } else { rhs }
    }

    fn max(self, rhs: u16) -> (r: u16) {
        if self > rhs { self } else { rhs }
    }
}

impl Num for u32 {}

impl Integer for u32 {}

impl Min for u32 {
    type Output = u32;

    open spec fn min_spec(self, rhs: u32) -> u32 {
        if self < rhs { self } else { rhs }
    }

    fn min(self, rhs: u32) -> (r: u32) {
        if self < rhs { self } else { rhs }
    }
}

impl Max for u32 {
    type Output = u32;

    open spec fn max_spec(self, rhs: u32) -> u32 {
        if self > rhs { self } else { rhs }
    }

    fn max(self, rhs: u32) -> (r: u32) {
        if self > rhs { self } else { rhs }
    }
}

impl Num for u64 {}

impl Integer for u64 {}

impl Min for u64 {
    type Output = u64;

    open spec fn min_spec(self, rhs: u64) -> u64 {
        if self < rhs { self } else { rhs }
    }

    fn min(self, rhs: u64) -> (r: u64) {
        if self < rhs { self } else { rhs }
    }
}

impl Max for u64 {
    type Output = u64;

    open spec fn max_spec(self, rhs: u64) -> u64 {
        if self > rhs { self } else { rhs }
    }

    fn max(self, rhs: u64) -> (r: u64) {
        if self > rhs { self } else { rhs }
    }
}

impl Num for u128 {}

impl Integer for u128 {}

impl Min for u128 {
    type Output = u128;

    open spec fn min_spec(self, rhs: u128) -> u128 {
        if self < rhs { self } else { rhs }
    }

    fn min(self, rhs: u128) -> (r: u128) {
        if self < rhs { self } else { rhs }
    }
}

impl Max for u128 {
    type Output = u128;

    open spec fn max_spec(self, rhs: u128) -> u128 {
        if self > rhs { self } else { rhs }
    }

    fn max(self, rhs: u128) -> (r: u128) {
        if self > rhs { self } else { rhs }
    }
}

impl Additive for isize {}

impl AddInv for isize {}

impl Multiplicative for isize {}

impl Ring for isize {
    open spec fn one_spec() -> isize {
        1
    }

    open spec fn zero_spec() -> isize {
        0
    }

    fn one() -> (r: isize) {
        1
    }

    fn zero() -> (r: isize) {
        0
    }
}

impl Additive for i8 {}

impl AddInv for i8 {}

impl Multiplicative for i8 {}

impl Ring for i8 {
    open spec fn one_spec() -> i8 {
        1
    }

    open spec fn zero_spec() -> i8 {
        0
    }

    fn one() -> (r: i8) {
        1
    }

    fn zero() -> (r: i8) {
        0
    }
}

impl Additive for i16 {}

impl AddInv for i16 {}

impl Multiplicative for i16 {}

impl Ring for i16 {
    open spec fn one_spec() -> i16 {
        1
    }

    open spec fn zero_spec() -> i16 {
        0
    }

    fn one() -> (r: i16) {
        1
    }

    fn zero() -> (r: i16) {
        0
    }
}

impl Additive for i32 {}

impl AddInv for i32 {}

impl Multiplicative for i32 {}

impl Ring for i32 {
    open spec fn one_spec() -> i32 {
        1
    }

    open spec fn zero_spec() -> i32 {
        0
    }

    fn one() -> (r: i32) {
        1
    }

    fn zero() -> (r: i32) {
        0
    }
}

impl Additive for i64 {}

impl AddInv for i64 {}

impl Multiplicative for i64 {}

impl Ring for i64 {
    open spec fn one_spec() -> i64 {
        1
    }

    open spec fn zero_spec() -> i64 {
        0
    }

    fn one() -> (r: i64) {
        1
    }

    fn zero() -> (r: i64) {
        0
    }
}

impl Additive for i128 {}

impl AddInv for i128 {}

impl Multiplicative for i128 {}

impl Ring for i128 {
    open spec fn one_spec() -> i128 {
        1
    }

    open spec fn zero_spec() -> i128 {
        0
    }

    fn one() -> (r: i128) {
        1
    }

    fn zero() -> (r: i128) {
        0
    }
}

impl<T: Num> Num for Result<T> {}

impl<T: Additive> Additive for Result<T> {}

impl<T: AddInv> AddInv for Result<T> {}

impl<T: Multiplicative> Multiplicative for Result<T> {}

impl<T: MulInv> MulInv for Result<T> {}

impl<T: Ring> Ring for Result<T> {
    open spec fn one_spec() -> Self {
        Result::Defined(T::one_spec())
    }

    open spec fn zero_spec() -> Self {
        Result::Defined(T::zero_spec())
    }

    fn one() -> (r: Self) {
        Result::Defined(T::one())
    }

    fn zero() -> (r: Self) {
        Result::Defined(T::zero())
    }
}

impl<T: Field> Field for Result<T> {
    open spec fn two_third_pi_spec() -> Self {
        Result::Defined(T::two_third_pi_spec())
    }

    fn two_third_pi() -> (r: Self) {
        Result::Defined(T::two_third_pi())
    }
}

/// On `isize`, `min` gives the smaller and `max` the larger of its two
/// arguments, whatever their order.
pub proof fn lemma_min_max_isize(x: isize, y: isize)
    ensures
        x.min_spec(y) <= x && x.min_spec(y) <= y,
        x.min_spec(y) == x || x.min_spec(y) == y,
        x.max_spec(y) >= x && x.max_spec(y) >= y,
        x.max_spec(y) == x || x.max_spec(y) == y,
        x.min_spec(y) == y.min_spec(x),
        x.max_spec(y) == y.max_spec(x),
{
}

/// On `i8`, `min` gives the smaller and `max` the larger of its two
/// arguments, whatever their order.
pub proof fn lemma_min_max_i8(x: i8, y: i8)
    ensures
        x.min_spec(y) <= x && x.min_spec(y) <= y,
        x.min_spec(y) == x || x.min_spec(y) == y,
        x.max_spec(y) >= x && x.max_spec(y) >= y,
        x.max_spec(y) == x || x.max_spec(y) == y,
        x.min_spec(y) == y.min_spec(x),
        x.max_spec(y) == y.max_spec(x),
{
}

/// On `i16`, `min` gives the smaller and `max` the larger of its two
/// arguments, whatever their order.
pub proof fn lemma_min_max_i16(x: i16, y: i16)
    ensures
        x.min_spec(y) <= x && x.min_spec(y) <= y,
        x.min_spec(y) == x || x.min_spec(y) == y,
        x.max_spec(y) >= x && x.max_spec(y) >= y,
        x.max_spec(y) == x || x.max_spec(y) == y,
        x.min_spec(y) == y.min_spec(x),
        x.max_spec(y) == y.max_spec(x),
{
}

/// On `i32`, `min` gives the smaller and `max` the larger of its two
/// arguments, whatever their order.
pub proof fn lemma_min_max_i32(x: i32, y: i32)
    ensures
        x.min_spec(y) <= x && x.min_spec(y) <= y,
        x.min_spec(y) == x || x.min_spec(y) == y,
        x.max_spec(y) >= x && x.max_spec(y) >= y,
        x.max_spec(y) == x || x.max_spec(y) == y,
        x.min_spec(y) == y.min_spec(x),
        x.max_spec(y) == y.max_spec(x),
{
}

/// On `i64`, `min` gives the smaller and `max` the larger of its two
/// arguments, whatever their order.
pub proof fn lemma_min_max_i64(x: i64, y: i64)
    ensures
        x.min_spec(y) <= x && x.min_spec(y) <= y,
        x.min_spec(y) == x || x.min_spec(y) == y,
        x.max_spec(y) >= x && x.max_spec(y) >= y,
        x.max_spec(y) == x || x.max_spec(y) == y,
        x.min_spec(y) == y.min_spec(x),
        x.max_spec(y) == y.max_spec(x),
{
}

/// On `i128`, `min` gives the smaller and `max` the larger of its two
/// arguments, whatever their order.
pub proof fn lemma_min_max_i128(x: i128, y: i128)
    ensures
        x.min_spec(y) <= x && x.min_spec(y) <= y,
        x.min_spec(y) == x || x.min_spec(y) == y,
        x.max_spec(y) >= x && x.max_spec(y) >= y,
        x.max_spec(y) == x || x.max_spec(y) == y,
        x.min_spec(y) == y.min_spec(x),
        x.max_spec(y) == y.max_spec(x),
{
}

/// On `usize`, `min` gives the smaller and `max` the larger of its two
/// arguments, whatever their order.
pub proof fn lemma_min_max_usize(x: usize, y: usize)
    ensures
        x.min_spec(y) <= x && x.min_spec(y) <= y,
        x.min_spec(y) == x || x.min_spec(y) == y,
        x.max_spec(y) >= x && x.max_spec(y) >= y,
        x.max_spec(y) == x || x.max_spec(y) == y,
        x.min_spec(y) == y.min_spec(x),
        x.max_spec(y) == y.max_spec(x),
{
}

/// On `u8`, `min` gives the smaller and `max` the larger of its two
/// arguments, whatever their order.
pub proof fn lemma_min_max_u8(x: u8, y: u8)
    ensures
        x.min_spec(y) <= x && x.min_spec(y) <= y,
        x.min_spec(y) == x || x.min_spec(y) == y,
        x.max_spec(y) >= x && x.max_spec(y) >= y,
        x.max_spec(y) == x || x.max_spec(y) == y,
        x.min_spec(y) == y.min_spec(x),
        x.max_spec(y) == y.max_spec(x),
{
}

/// On `u16`, `min` gives the smaller and `max` the larger of its two
/// arguments, whatever their order.
pub proof fn lemma_min_max_u16(x: u16, y: u16)
    ensures
        x.min_spec(y) <= x && x.min_spec(y) <= y,
        x.min_spec(y) == x || x.min_spec(y) == y,
        x.max_spec(y) >= x && x.max_spec(y) >= y,
        x.max_spec(y) == x || x.max_spec(y) == y,
        x.min_spec(y) == y.min_spec(x),
        x.max_spec(y) == y.max_spec(x),
{
}

/// On `u32`, `min` gives the smaller and `max` the larger of its two
/// arguments, whatever their order.
pub proof fn lemma_min_max_u32(x: u32, y: u32)
    ensures
        x.min_spec(y) <= x && x.min_spec(y) <= y,
        x.min_spec(y) == x || x.min_spec(y) == y,
        x.max_spec(y) >= x && x.max_spec(y) >= y,
        x.max_spec(y) == x || x.max_spec(y) == y,
        x.min_spec(y) == y.min_spec(x),
        x.max_spec(y) == y.max_spec(x),
{
}

/// On `u64`, `min` gives the smaller and `max` the larger of its two
/// arguments, whatever their order.
pub proof fn lemma_min_max_u64(x: u64, y: u64)
    ensures
        x.min_spec(y) <= x && x.min_spec(y) <= y,
        x.min_spec(y) == x || x.min_spec(y) == y,
        x.max_spec(y) >= x && x.max_spec(y) >= y,
        x.max_spec(y) == x || x.max_spec(y) == y,
        x.min_spec(y) == y.min_spec(x),
        x.max_spec(y) == y.max_spec(x),
{
}

/// On `u128`, `min` gives the smaller and `max` the larger of its two
/// arguments, whatever their order.
pub proof fn lemma_min_max_u128(x: u128, y: u128)
    ensures
        x.min_spec(y) <= x && x.min_spec(y) <= y,
        x.min_spec(y) == x || x.min_spec(y) == y,
        x.max_spec(y) >= x && x.max_spec(y) >= y,
        x.max_spec(y) == x || x.max_spec(y) == y,
        x.min_spec(y) == y.min_spec(x),
        x.max_spec(y) == y.max_spec(x),
{
}

} // verus!
