use vstd::prelude::*;
use vstd::std_specs::ops::{AddSpec, DivSpec, MulSpec, NegSpec, SubSpec};
use crate::math::num::{Max, Min};

verus! {

/// A value that is either defined or undefined. Arithmetic, `min` and `max`
/// give `Undefined` as soon as one operand is `Undefined`.
#[derive(Clone, Copy)]
pub enum Result<T> {
    Defined(T),
    Undefined,
}

impl<T: Min<Output = T>> Min for Result<T> {
    type Output = Self;

    open spec fn min_spec(self, rhs: Self) -> Self {
        match (self, rhs) {
            (Result::Defined(x), Result::Defined(y)) => Result::Defined(x.min_spec(y)),
            _ => Result::Undefined,
        }
    }

    fn min(self, rhs: Self) -> (r: Self) {
        match self {
            Result::Defined(x) => match rhs {
                Result::Defined(y) => Result::Defined(x.min(y)),
                Result::Undefined => Result::Undefined,
            },
            Result::Undefined => Result::Undefined,
        }
    }
}

impl<T: Max<Output = T>> Max for Result<T> {
    type Output = Self;

    open spec fn max_spec(self, rhs: Self) -> Self {
        match (self, rhs) {
            (Result::Defined(x), Result::Defined(y)) => Result::Defined(x.max_spec(y)),
            _ => Result::Undefined,
        }
    }

    fn max(self, rhs: Self) -> (r: Self) {
        match self {
            Result::Defined(x) => match rhs {
                Result::Defined(y) => Result::Defined(x.max(y)),
                Result::Undefined => Result::Undefined,
            },
            Result::Undefined => Result::Undefined,
        }
    }
}

impl<T: std::ops::Add<Output = T>> std::ops::Add for Result<T> {
    type Output = Result<T>;

    fn add(self, rhs: Self) -> (r: Self::Output)
        ensures
            self is Defined && rhs is Defined ==> r is Defined,
            self is Undefined || rhs is Undefined ==> r is Undefined,
    {
        match self {
            Result::Defined(x) => match rhs {
                Result::Defined(y) => Result::Defined(x + y),
                Result::Undefined => Result::Undefined,
            },
            Result::Undefined => Result::Undefined,
        }
    }
}

impl<T: std::ops::Add<Output = T>> vstd::std_specs::ops::AddSpecImpl for Result<T> {
    open spec fn obeys_add_spec() -> bool {
        T::obeys_add_spec()
    }

    open spec fn add_req(self, rhs: Self) -> bool {
        match (self, rhs) {
            (Result::Defined(x), Result::Defined(y)) => x.add_req(y),
            _ => true,
        }
    }

    open spec fn add_spec(self, rhs: Self) -> Self {
        match (self, rhs) {
            (Result::Defined(x), Result::Defined(y)) => Result::Defined(x.add_spec(y)),
            _ => Result::Undefined,
        }
    }
}

impl<T: std::ops::Sub<Output = T>> std::ops::Sub for Result<T> {
    type Output = Result<T>;

    fn sub(self, rhs: Self) -> (r: Self::Output)
        ensures
            self is Defined && rhs is Defined ==> r is Defined,
            self is Undefined || rhs is Undefined ==> r is Undefined,
    {
        match self {
            Result::Defined(x) => match rhs {
                Result::Defined(y) => Result::Defined(x - y),
                Result::Undefined => Result::Undefined,
            },
            Result::Undefined => Result::Undefined,
        }
    }
}

impl<T: std::ops::Sub<Output = T>> vstd::std_specs::ops::SubSpecImpl for Result<T> {
    open spec fn obeys_sub_spec() -> bool {
        T::obeys_sub_spec()
    }

    open spec fn sub_req(self, rhs: Self) -> bool {
        match (self, rhs) {
            (Result::Defined(x), Result::Defined(y)) => x.sub_req(y),
            _ => true,
        }
    }

    open spec fn sub_spec(self, rhs: Self) -> Self {
        match (self, rhs) {
            (Result::Defined(x), Result::Defined(y)) => Result::Defined(x.sub_spec(y)),
            _ => Result::Undefined,
        }
    }
}

impl<T: std::ops::Mul<Output = T>> std::ops::Mul for Result<T> {
    type Output = Result<T>;

    fn mul(self, rhs: Self) -> (r: Self::Output)
        ensures
            self is Defined && rhs is Defined ==> r is Defined,
            self is Undefined || rhs is Undefined ==> r is Undefined,
    {
        match self {
            Result::Defined(x) => match rhs {
                Result::Defined(y) => Result::Defined(x * y),
                Result::Undefined => Result::Undefined,
            },
            Result::Undefined => Result::Undefined,
        }
    }
}

impl<T: std::ops::Mul<Output = T>> vstd::std_specs::ops::MulSpecImpl for Result<T> {
    open spec fn obeys_mul_spec() -> bool {
        T::obeys_mul_spec()
    }

    open spec fn mul_req(self, rhs: Self) -> bool {
        match (self, rhs) {
            (Result::Defined(x), Result::Defined(y)) => x.mul_req(y),
            _ => true,
        }
    }

    open spec fn mul_spec(self, rhs: Self) -> Self {
        match (self, rhs) {
            (Result::Defined(x), Result::Defined(y)) => Result::Defined(x.mul_spec(y)),
            _ => Result::Undefined,
        }
    }
}

impl<T: std::ops::Div<Output = T>> std::ops::Div for Result<T> {
    type Output = Result<T>;

    fn div(self, rhs: Self) -> (r: Self::Output)
        ensures
            self is Defined && rhs is Defined ==> r is Defined,
            self is Undefined || rhs is Undefined ==> r is Undefined,
    {
        match self {
            Result::Defined(x) => match rhs {
                Result::Defined(y) => Result::Defined(x / y),
                Result::Undefined => Result::Undefined,
            },
            Result::Undefined => Result::Undefined,
        }
    }
}

impl<T: std::ops::Div<Output = T>> vstd::std_specs::ops::DivSpecImpl for Result<T> {
    open spec fn obeys_div_spec() -> bool {
        T::obeys_div_spec()
    }

    open spec fn div_req(self, rhs: Self) -> bool {
        match (self, rhs) {
            (Result::Defined(x), Result::Defined(y)) => x.div_req(y),
            _ => true,
        }
    }

    open spec fn div_spec(self, rhs: Self) -> Self {
        match (self, rhs) {
            (Result::Defined(x), Result::Defined(y)) => Result::Defined(x.div_spec(y)),
            _ => Result::Undefined,
        }
    }
}

impl<T: std::ops::Neg<Output = T>> std::ops::Neg for Result<T> {
    type Output = Result<T>;

    fn neg(self) -> (r: Self::Output)
        ensures
            self is Defined <==> r is Defined,
    {
        match self {
            Result::Defined(x) => Result::Defined(std::ops::Neg::neg(x)),
            Result::Undefined => Result::Undefined,
        }
    }
}

impl<T: std::ops::Neg<Output = T>> vstd::std_specs::ops::NegSpecImpl for Result<T> {
    open spec fn obeys_neg_spec() -> bool {
        T::obeys_neg_spec()
    }

    open spec fn neg_req(self) -> bool {
        match self {
            Result::Defined(x) => x.neg_req(),
            Result::Undefined => true,
        }
    }

    open spec fn neg_spec(self) -> Self {
        match self {
            Result::Defined(x) => Result::Defined(x.neg_spec()),
            Result::Undefined => Result::Undefined,
        }
    }
}

impl<T: std::ops::Add<Output = T>> std::ops::AddAssign for Result<T> {
    fn add_assign(&mut self, rhs: Self)
        requires
            old(self).add_req(rhs),
        ensures
            match (*old(self), rhs) {
                (Result::Defined(x), Result::Defined(y)) => *final(self) matches Result::Defined(z)
                    && (T::obeys_add_spec() ==> z == x.add_spec(y)),
                _ => *final(self) == *old(self),
            },
    {
        let mut current = Result::Undefined;
        std::mem::swap(&mut current, self);
        match (current, rhs) {
            (Result::Defined(x), Result::Defined(y)) => {
                *self = Result::Defined(x + y);
            },
            (current, _) => {
                *self = current;
            },
        }
    }
}

impl<T: std::ops::Sub<Output = T>> std::ops::SubAssign for Result<T> {
    fn sub_assign(&mut self, rhs: Self)
        requires
            old(self).sub_req(rhs),
        ensures
            match (*old(self), rhs) {
                (Result::Defined(x), Result::Defined(y)) => *final(self) matches Result::Defined(z)
                    && (T::obeys_sub_spec() ==> z == x.sub_spec(y)),
                _ => *final(self) == *old(self),
            },
    {
        let mut current = Result::Undefined;
        std::mem::swap(&mut current, self);
        match (current, rhs) {
            (Result::Defined(x), Result::Defined(y)) => {
                *self = Result::Defined(x - y);
            },
            (current, _) => {
                *self = current;
            },
        }
    }
}

impl<T: std::ops::Mul<Output = T>> std::ops::MulAssign for Result<T> {
    fn mul_assign(&mut self, rhs: Self)
        requires
            old(self).mul_req(rhs),
        ensures
            match (*old(self), rhs) {
                (Result::Defined(x), Result::Defined(y)) => *final(self) matches Result::Defined(z)
                    && (T::obeys_mul_spec() ==> z == x.mul_spec(y)),
                _ => *final(self) == *old(self),
            },
    {
        let mut current = Result::Undefined;
        std::mem::swap(&mut current, self);
        match (current, rhs) {
            (Result::Defined(x), Result::Defined(y)) => {
                *self = Result::Defined(x * y);
            },
            (current, _) => {
                *self = current;
            },
        }
    }
}

impl<T: std::ops::Div<Output = T>> std::ops::DivAssign for Result<T> {
    fn div_assign(&mut self, rhs: Self)
        requires
            old(self).div_req(rhs),
        ensures
            match (*old(self), rhs) {
                (Result::Defined(x), Result::Defined(y)) => *final(self) matches Result::Defined(z)
                    && (T::obeys_div_spec() ==> z == x.div_spec(y)),
                _ => *final(self) == *old(self),
            },
    {
        let mut current = Result::Undefined;
        std::mem::swap(&mut current, self);
        match (current, rhs) {
            (Result::Defined(x), Result::Defined(y)) => {
                *self = Result::Defined(x / y);
            },
            (current, _) => {
                *self = current;
            },
        }
    }
}

/// `min` and `max` of a partial value are undefined as soon as one operand is
/// undefined; of two defined values they are those of `T`, so where `T`'s pick
/// one of their arguments whatever the order, so do they.
pub proof fn lemma_result_min_max<T: Min<Output = T> + Max<Output = T>>(x: Result<T>, y: Result<T>)
    requires
        crate::math::vec::min_max_select_and_commute::<T>(),
    ensures
        x is Undefined || y is Undefined ==> x.min_spec(y) is Undefined && x.max_spec(y) is Undefined,
        x is Defined && y is Defined ==> (x.min_spec(y) == x || x.min_spec(y) == y),
        x is Defined && y is Defined ==> (x.max_spec(y) == x || x.max_spec(y) == y),
        x.min_spec(y) == y.min_spec(x),
        x.max_spec(y) == y.max_spec(x),
{
}

} // verus!
