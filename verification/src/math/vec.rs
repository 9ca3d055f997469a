use vstd::prelude::*;
use vstd::std_specs::ops::{AddSpec, BitAndSpec, BitOrSpec, BitXorSpec, DivSpec, MulSpec, NegSpec, NotSpec, RemSpec, ShlSpec, ShrSpec, SubSpec};
use crate::math::num::{Max, Min};
use vstd::std_specs::iter::IteratorSpec;

verus! {

broadcast use vstd::array::group_array_axioms;

pub type Vec2<T> = Vector<T, 2>;

pub type Vec3<T> = Vector<T, 3>;

pub type Vec4<T> = Vector<T, 4>;

/// A fixed-size vector whose arithmetic works element by element.
#[derive(Clone, Copy, Debug)]
pub struct Vector<T, const SIZE: usize>([T; SIZE]);

impl<T, const SIZE: usize> View for Vector<T, SIZE> {
    type V = Seq<T>;

    closed spec fn view(&self) -> Seq<T> {
        self.0@
    }
}

impl<T, const SIZE: usize> Vector<T, SIZE> {
    /// The vector whose elements are `s` (its length must be `SIZE`).
    pub closed spec fn from_seq(s: Seq<T>) -> Self {
        choose|v: Self| v@ == s
    }

    /// A vector has exactly `SIZE` elements.
    pub broadcast proof fn lemma_len(v: Self)
        ensures
            #[trigger] v@.len() == SIZE,
    {
    }

    /// An array whose first `k` elements are those of `s`.
    spec fn array_from_seq(s: Seq<T>, k: nat) -> [T; SIZE]
        decreases k,
    {
        if k == 0 {
            arbitrary()
        } else {
            vstd::array::spec_array_update(Self::array_from_seq(s, (k - 1) as nat), k - 1, s[k - 1])
        }
    }

    proof fn lemma_array_from_seq(s: Seq<T>, k: nat)
        requires
            k <= SIZE,
            s.len() == SIZE,
        ensures
            Self::array_from_seq(s, k)@.len() == SIZE,
            forall|i: int| 0 <= i < k ==> Self::array_from_seq(s, k)@[i] == s[i],
        decreases k,
    {
        if k > 0 {
            Self::lemma_array_from_seq(s, (k - 1) as nat);
            vstd::array::axiom_spec_array_update(Self::array_from_seq(s, (k - 1) as nat), k - 1, s[k - 1]);
        }
    }

    /// For every sequence of `SIZE` elements, `from_seq` gives a vector with
    /// exactly these elements.
    pub broadcast proof fn lemma_from_seq_view(s: Seq<T>)
        requires
            s.len() == SIZE,
        ensures
            #[trigger] Self::from_seq(s)@ == s,
    {
        Self::lemma_array_from_seq(s, SIZE as nat);
        let a = Self::array_from_seq(s, SIZE as nat);
        assert(a@ =~= s);
        assert((Vector(a))@ == s);
    }

    /// `from_seq` gives back a vector that has the requested elements.
    pub proof fn lemma_from_seq(v: Self, s: Seq<T>)
        requires
            v@ == s,
        ensures
            Self::from_seq(s) == v,
    {
        let c = Self::from_seq(s);
        assert(c@ == s);
        assert(c.0 =~= v.0);
    }

    /// Iterates over the elements by reference.
    pub fn iter(&self) -> (r: std::slice::Iter<'_, T>)
        ensures
            r.remaining() == self@.as_ref(),
    {
        (&self.0).into_iter()
    }
}

impl<T: Min<Output = T> + Copy, const SIZE: usize> Min for Vector<T, SIZE> {
    type Output = Self;

    open spec fn min_spec(self, rhs: Self) -> Self {
        Self::from_seq(Seq::new(SIZE as nat, |i: int| self@[i].min_spec(rhs@[i])))
    }

    fn min(self, rhs: Self) -> (r: Self)
        ensures
            r@ == Seq::new(SIZE as nat, |i: int| self@[i].min_spec(rhs@[i])),
    {
        let mut res = self;
        let mut i: usize = 0;
        while i < SIZE
            invariant
                i <= SIZE,
                forall|j: int| i <= j < SIZE ==> res.0@[j] == self.0@[j],
                forall|j: int| 0 <= j < i ==> res.0@[j] == self.0@[j].min_spec(rhs.0@[j]),
            decreases SIZE - i,
        {
            res.0[i] = res.0[i].min(rhs.0[i]);
            i += 1;
        }
        assert(res@ =~= Seq::new(SIZE as nat, |i: int| self@[i].min_spec(rhs@[i])));
        proof {
            Self::lemma_from_seq(res, res@);
        }
        res
    }
}

impl<T: Copy + std::ops::Add<Output = T>, const SIZE: usize> std::ops::Add for Vector<T, SIZE> {
    type Output = Self;

    fn add(self, rhs: Self) -> (r: Self)
        ensures
            T::obeys_add_spec() ==> r@ == Seq::new(SIZE as nat, |i: int| self@[i].add_spec(rhs@[i])),
    {
        let mut res = self;
        let mut i: usize = 0;
        while i < SIZE
            invariant
                i <= SIZE,
                forall|j: int| 0 <= j < SIZE ==> #[trigger] self@[j].add_req(rhs@[j]),
                forall|j: int| i <= j < SIZE ==> res.0@[j] == self.0@[j],
                T::obeys_add_spec() ==> forall|j: int| 0 <= j < i ==> res.0@[j] == self.0@[j].add_spec(rhs.0@[j]),
            decreases SIZE - i,
        {
            assert(self@[i as int].add_req(rhs@[i as int]));
            res.0[i] = res.0[i] + rhs.0[i];
            i += 1;
        }
        proof {
            if T::obeys_add_spec() {
                assert(res@ =~= Seq::new(SIZE as nat, |i: int| self@[i].add_spec(rhs@[i])));
                Self::lemma_from_seq(res, res@);
            }
        }
        res
    }
}

impl<T: Copy + std::ops::Add<Output = T>, const SIZE: usize> vstd::std_specs::ops::AddSpecImpl for Vector<T, SIZE> {
    open spec fn obeys_add_spec() -> bool {
        T::obeys_add_spec()
    }

    open spec fn add_req(self, rhs: Self) -> bool {
        forall|i: int| 0 <= i < SIZE ==> #[trigger] self@[i].add_req(rhs@[i])
    }

    open spec fn add_spec(self, rhs: Self) -> Self {
        Self::from_seq(Seq::new(SIZE as nat, |i: int| self@[i].add_spec(rhs@[i])))
    }
}

impl<T: Copy + std::ops::Add<Output = T>, const SIZE: usize> std::ops::AddAssign for Vector<T, SIZE> {
    fn add_assign(&mut self, rhs: Self)
        requires
            forall|i: int| 0 <= i < SIZE ==> #[trigger] old(self)@[i].add_req(rhs@[i]),
        ensures
            T::obeys_add_spec() ==> final(self)@ == Seq::new(SIZE as nat, |i: int| old(self)@[i].add_spec(rhs@[i])),
    {
        *self = *self + rhs;
    }
}

impl<T: Copy + std::ops::Sub<Output = T>, const SIZE: usize> std::ops::Sub for Vector<T, SIZE> {
    type Output = Self;

    fn sub(self, rhs: Self) -> (r: Self)
        ensures
            T::obeys_sub_spec() ==> r@ == Seq::new(SIZE as nat, |i: int| self@[i].sub_spec(rhs@[i])),
    {
        let mut res = self;
        let mut i: usize = 0;
        while i < SIZE
            invariant
                i <= SIZE,
                forall|j: int| 0 <= j < SIZE ==> #[trigger] self@[j].sub_req(rhs@[j]),
                forall|j: int| i <= j < SIZE ==> res.0@[j] == self.0@[j],
                T::obeys_sub_spec() ==> forall|j: int| 0 <= j < i ==> res.0@[j] == self.0@[j].sub_spec(rhs.0@[j]),
            decreases SIZE - i,
        {
            assert(self@[i as int].sub_req(rhs@[i as int]));
            res.0[i] = res.0[i] - rhs.0[i];
            i += 1;
        }
        proof {
            if T::obeys_sub_spec() {
                assert(res@ =~= Seq::new(SIZE as nat, |i: int| self@[i].sub_spec(rhs@[i])));
                Self::lemma_from_seq(res, res@);
            }
        }
        res
    }
}

impl<T: Copy + std::ops::Sub<Output = T>, const SIZE: usize> vstd::std_specs::ops::SubSpecImpl for Vector<T, SIZE> {
    open spec fn obeys_sub_spec() -> bool {
        T::obeys_sub_spec()
    }

    open spec fn sub_req(self, rhs: Self) -> bool {
        forall|i: int| 0 <= i < SIZE ==> #[trigger] self@[i].sub_req(rhs@[i])
    }

    open spec fn sub_spec(self, rhs: Self) -> Self {
        Self::from_seq(Seq::new(SIZE as nat, |i: int| self@[i].sub_spec(rhs@[i])))
    }
}

impl<T: Copy + std::ops::Sub<Output = T>, const SIZE: usize> std::ops::SubAssign for Vector<T, SIZE> {
    fn sub_assign(&mut self, rhs: Self)
        requires
            forall|i: int| 0 <= i < SIZE ==> #[trigger] old(self)@[i].sub_req(rhs@[i]),
        ensures
            T::obeys_sub_spec() ==> final(self)@ == Seq::new(SIZE as nat, |i: int| old(self)@[i].sub_spec(rhs@[i])),
    {
        *self = *self - rhs;
    }
}

impl<T: Copy + std::ops::Mul<Output = T>, const SIZE: usize> std::ops::Mul for Vector<T, SIZE> {
    type Output = Self;

    fn mul(self, rhs: Self) -> (r: Self)
        ensures
            T::obeys_mul_spec() ==> r@ == Seq::new(SIZE as nat, |i: int| self@[i].mul_spec(rhs@[i])),
    {
        let mut res = self;
        let mut i: usize = 0;
        while i < SIZE
            invariant
                i <= SIZE,
                forall|j: int| 0 <= j < SIZE ==> #[trigger] self@[j].mul_req(rhs@[j]),
                forall|j: int| i <= j < SIZE ==> res.0@[j] == self.0@[j],
                T::obeys_mul_spec() ==> forall|j: int| 0 <= j < i ==> res.0@[j] == self.0@[j].mul_spec(rhs.0@[j]),
            decreases SIZE - i,
        {
            assert(self@[i as int].mul_req(rhs@[i as int]));
            res.0[i] = res.0[i] * rhs.0[i];
            i += 1;
        }
        proof {
            if T::obeys_mul_spec() {
                assert(res@ =~= Seq::new(SIZE as nat, |i: int| self@[i].mul_spec(rhs@[i])));
                Self::lemma_from_seq(res, res@);
            }
        }
        res
    }
}

impl<T: Copy + std::ops::Mul<Output = T>, const SIZE: usize> vstd::std_specs::ops::MulSpecImpl for Vector<T, SIZE> {
    open spec fn obeys_mul_spec() -> bool {
        T::obeys_mul_spec()
    }

    open spec fn mul_req(self, rhs: Self) -> bool {
        forall|i: int| 0 <= i < SIZE ==> #[trigger] self@[i].mul_req(rhs@[i])
    }

    open spec fn mul_spec(self, rhs: Self) -> Self {
        Self::from_seq(Seq::new(SIZE as nat, |i: int| self@[i].mul_spec(rhs@[i])))
    }
}

impl<T: Copy + std::ops::Mul<Output = T>, const SIZE: usize> std::ops::Mul<T> for Vector<T, SIZE> {
    type Output = Self;

    fn mul(self, rhs: T) -> (r: Self)
        ensures
            T::obeys_mul_spec() ==> r@ == Seq::new(SIZE as nat, |i: int| self@[i].mul_spec(rhs)),
    {
        let mut res = self;
        let mut i: usize = 0;
        while i < SIZE
            invariant
                i <= SIZE,
                forall|j: int| 0 <= j < SIZE ==> #[trigger] self@[j].mul_req(rhs),
                forall|j: int| i <= j < SIZE ==> res.0@[j] == self.0@[j],
                T::obeys_mul_spec() ==> forall|j: int| 0 <= j < i ==> res.0@[j] == self.0@[j].mul_spec(rhs),
            decreases SIZE - i,
        {
            assert(self@[i as int].mul_req(rhs));
            res.0[i] = res.0[i] * rhs;
            i += 1;
        }
        proof {
            if T::obeys_mul_spec() {
                assert(res@ =~= Seq::new(SIZE as nat, |i: int| self@[i].mul_spec(rhs)));
                Self::lemma_from_seq(res, res@);
            }
        }
        res
    }
}

impl<T: Copy + std::ops::Mul<Output = T>, const SIZE: usize> vstd::std_specs::ops::MulSpecImpl<T> for Vector<T, SIZE> {
    open spec fn obeys_mul_spec() -> bool {
        T::obeys_mul_spec()
    }

    open spec fn mul_req(self, rhs: T) -> bool {
        forall|i: int| 0 <= i < SIZE ==> #[trigger] self@[i].mul_req(rhs)
    }

    open spec fn mul_spec(self, rhs: T) -> Self {
        Self::from_seq(Seq::new(SIZE as nat, |i: int| self@[i].mul_spec(rhs)))
    }
}

impl<T: Copy + std::ops::Mul<Output = T>, const SIZE: usize> std::ops::MulAssign for Vector<T, SIZE> {
    fn mul_assign(&mut self, rhs: Self)
        requires
            forall|i: int| 0 <= i < SIZE ==> #[trigger] old(self)@[i].mul_req(rhs@[i]),
        ensures
            T::obeys_mul_spec() ==> final(self)@ == Seq::new(SIZE as nat, |i: int| old(self)@[i].mul_spec(rhs@[i])),
    {
        *self = *self * rhs;
    }
}

impl<T: Copy + std::ops::Div<Output = T>, const SIZE: usize> std::ops::Div for Vector<T, SIZE> {
    type Output = Self;

    fn div(self, rhs: Self) -> (r: Self)
        ensures
            T::obeys_div_spec() ==> r@ == Seq::new(SIZE as nat, |i: int| self@[i].div_spec(rhs@[i])),
    {
        let mut res = self;
        let mut i: usize = 0;
        while i < SIZE
            invariant
                i <= SIZE,
                forall|j: int| 0 <= j < SIZE ==> #[trigger] self@[j].div_req(rhs@[j]),
                forall|j: int| i <= j < SIZE ==> res.0@[j] == self.0@[j],
                T::obeys_div_spec() ==> forall|j: int| 0 <= j < i ==> res.0@[j] == self.0@[j].div_spec(rhs.0@[j]),
            decreases SIZE - i,
        {
            assert(self@[i as int].div_req(rhs@[i as int]));
            res.0[i] = res.0[i] / rhs.0[i];
            i += 1;
        }
        proof {
            if T::obeys_div_spec() {
                assert(res@ =~= Seq::new(SIZE as nat, |i: int| self@[i].div_spec(rhs@[i])));
                Self::lemma_from_seq(res, res@);
            }
        }
        res
    }
}

impl<T: Copy + std::ops::Div<Output = T>, const SIZE: usize> vstd::std_specs::ops::DivSpecImpl for Vector<T, SIZE> {
    open spec fn obeys_div_spec() -> bool {
        T::obeys_div_spec()
    }

    open spec fn div_req(self, rhs: Self) -> bool {
        forall|i: int| 0 <= i < SIZE ==> #[trigger] self@[i].div_req(rhs@[i])
    }

    open spec fn div_spec(self, rhs: Self) -> Self {
        Self::from_seq(Seq::new(SIZE as nat, |i: int| self@[i].div_spec(rhs@[i])))
    }
}

impl<T: Copy + std::ops::Div<Output = T>, const SIZE: usize> std::ops::DivAssign for Vector<T, SIZE> {
    fn div_assign(&mut self, rhs: Self)
        requires
            forall|i: int| 0 <= i < SIZE ==> #[trigger] old(self)@[i].div_req(rhs@[i]),
        ensures
            T::obeys_div_spec() ==> final(self)@ == Seq::new(SIZE as nat, |i: int| old(self)@[i].div_spec(rhs@[i])),
    {
        *self = *self / rhs;
    }
}

impl<T: Copy + std::ops::Rem<Output = T>, const SIZE: usize> std::ops::Rem for Vector<T, SIZE> {
    type Output = Self;

    fn rem(self, rhs: Self) -> (r: Self)
        ensures
            T::obeys_rem_spec() ==> r@ == Seq::new(SIZE as nat, |i: int| self@[i].rem_spec(rhs@[i])),
    {
        let mut res = self;
        let mut i: usize = 0;
        while i < SIZE
            invariant
                i <= SIZE,
                forall|j: int| 0 <= j < SIZE ==> #[trigger] self@[j].rem_req(rhs@[j]),
                forall|j: int| i <= j < SIZE ==> res.0@[j] == self.0@[j],
                T::obeys_rem_spec() ==> forall|j: int| 0 <= j < i ==> res.0@[j] == self.0@[j].rem_spec(rhs.0@[j]),
            decreases SIZE - i,
        {
            assert(self@[i as int].rem_req(rhs@[i as int]));
            res.0[i] = res.0[i] % rhs.0[i];
            i += 1;
        }
        proof {
            if T::obeys_rem_spec() {
                assert(res@ =~= Seq::new(SIZE as nat, |i: int| self@[i].rem_spec(rhs@[i])));
                Self::lemma_from_seq(res, res@);
            }
        }
        res
    }
}

impl<T: Copy + std::ops::Rem<Output = T>, const SIZE: usize> vstd::std_specs::ops::RemSpecImpl for Vector<T, SIZE> {
    open spec fn obeys_rem_spec() -> bool {
        T::obeys_rem_spec()
    }

    open spec fn rem_req(self, rhs: Self) -> bool {
        forall|i: int| 0 <= i < SIZE ==> #[trigger] self@[i].rem_req(rhs@[i])
    }

    open spec fn rem_spec(self, rhs: Self) -> Self {
        Self::from_seq(Seq::new(SIZE as nat, |i: int| self@[i].rem_spec(rhs@[i])))
    }
}

impl<T: Copy + std::ops::Rem<Output = T>, const SIZE: usize> std::ops::RemAssign for Vector<T, SIZE> {
    fn rem_assign(&mut self, rhs: Self)
        requires
            forall|i: int| 0 <= i < SIZE ==> #[trigger] old(self)@[i].rem_req(rhs@[i]),
        ensures
            T::obeys_rem_spec() ==> final(self)@ == Seq::new(SIZE as nat, |i: int| old(self)@[i].rem_spec(rhs@[i])),
    {
        *self = *self % rhs;
    }
}

impl<T: Copy + std::ops::BitOr<Output = T>, const SIZE: usize> std::ops::BitOr for Vector<T, SIZE> {
    type Output = Self;

    fn bitor(self, rhs: Self) -> (r: Self)
        ensures
            T::obeys_bitor_spec() ==> r@ == Seq::new(SIZE as nat, |i: int| self@[i].bitor_spec(rhs@[i])),
    {
        let mut res = self;
        let mut i: usize = 0;
        while i < SIZE
            invariant
                i <= SIZE,
                forall|j: int| 0 <= j < SIZE ==> #[trigger] self@[j].bitor_req(rhs@[j]),
                forall|j: int| i <= j < SIZE ==> res.0@[j] == self.0@[j],
                T::obeys_bitor_spec() ==> forall|j: int| 0 <= j < i ==> res.0@[j] == self.0@[j].bitor_spec(rhs.0@[j]),
            decreases SIZE - i,
        {
            assert(self@[i as int].bitor_req(rhs@[i as int]));
            res.0[i] = res.0[i] | rhs.0[i];
            i += 1;
        }
        proof {
            if T::obeys_bitor_spec() {
                assert(res@ =~= Seq::new(SIZE as nat, |i: int| self@[i].bitor_spec(rhs@[i])));
                Self::lemma_from_seq(res, res@);
            }
        }
        res
    }
}

impl<T: Copy + std::ops::BitOr<Output = T>, const SIZE: usize> vstd::std_specs::ops::BitOrSpecImpl for Vector<T, SIZE> {
    open spec fn obeys_bitor_spec() -> bool {
        T::obeys_bitor_spec()
    }

    open spec fn bitor_req(self, rhs: Self) -> bool {
        forall|i: int| 0 <= i < SIZE ==> #[trigger] self@[i].bitor_req(rhs@[i])
    }

    open spec fn bitor_spec(self, rhs: Self) -> Self {
        Self::from_seq(Seq::new(SIZE as nat, |i: int| self@[i].bitor_spec(rhs@[i])))
    }
}

impl<T: Copy + std::ops::BitOr<Output = T>, const SIZE: usize> std::ops::BitOrAssign for Vector<T, SIZE> {
    fn bitor_assign(&mut self, rhs: Self)
        requires
            forall|i: int| 0 <= i < SIZE ==> #[trigger] old(self)@[i].bitor_req(rhs@[i]),
        ensures
            T::obeys_bitor_spec() ==> final(self)@ == Seq::new(SIZE as nat, |i: int| old(self)@[i].bitor_spec(rhs@[i])),
    {
        *self = *self | rhs;
    }
}

impl<T: Copy + std::ops::BitAnd<Output = T>, const SIZE: usize> std::ops::BitAnd for Vector<T, SIZE> {
    type Output = Self;

    fn bitand(self, rhs: Self) -> (r: Self)
        ensures
            T::obeys_bitand_spec() ==> r@ == Seq::new(SIZE as nat, |i: int| self@[i].bitand_spec(rhs@[i])),
    {
        let mut res = self;
        let mut i: usize = 0;
        while i < SIZE
            invariant
                i <= SIZE,
                forall|j: int| 0 <= j < SIZE ==> #[trigger] self@[j].bitand_req(rhs@[j]),
                forall|j: int| i <= j < SIZE ==> res.0@[j] == self.0@[j],
                T::obeys_bitand_spec() ==> forall|j: int| 0 <= j < i ==> res.0@[j] == self.0@[j].bitand_spec(rhs.0@[j]),
            decreases SIZE - i,
        {
            assert(self@[i as int].bitand_req(rhs@[i as int]));
            res.0[i] = res.0[i] & rhs.0[i];
            i += 1;
        }
        proof {
            if T::obeys_bitand_spec() {
                assert(res@ =~= Seq::new(SIZE as nat, |i: int| self@[i].bitand_spec(rhs@[i])));
                Self::lemma_from_seq(res, res@);
            }
        }
        res
    }
}

impl<T: Copy + std::ops::BitAnd<Output = T>, const SIZE: usize> vstd::std_specs::ops::BitAndSpecImpl for Vector<T, SIZE> {
    open spec fn obeys_bitand_spec() -> bool {
        T::obeys_bitand_spec()
    }

    open spec fn bitand_req(self, rhs: Self) -> bool {
        forall|i: int| 0 <= i < SIZE ==> #[trigger] self@[i].bitand_req(rhs@[i])
    }

    open spec fn bitand_spec(self, rhs: Self) -> Self {
        Self::from_seq(Seq::new(SIZE as nat, |i: int| self@[i].bitand_spec(rhs@[i])))
    }
}

impl<T: Copy + std::ops::BitAnd<Output = T>, const SIZE: usize> std::ops::BitAndAssign for Vector<T, SIZE> {
    fn bitand_assign(&mut self, rhs: Self)
        requires
            forall|i: int| 0 <= i < SIZE ==> #[trigger] old(self)@[i].bitand_req(rhs@[i]),
        ensures
            T::obeys_bitand_spec() ==> final(self)@ == Seq::new(SIZE as nat, |i: int| old(self)@[i].bitand_spec(rhs@[i])),
    {
        *self = *self & rhs;
    }
}

impl<T: Copy + std::ops::BitXor<Output = T>, const SIZE: usize> std::ops::BitXor for Vector<T, SIZE> {
    type Output = Self;

    fn bitxor(self, rhs: Self) -> (r: Self)
        ensures
            T::obeys_bitxor_spec() ==> r@ == Seq::new(SIZE as nat, |i: int| self@[i].bitxor_spec(rhs@[i])),
    {
        let mut res = self;
        let mut i: usize = 0;
        while i < SIZE
            invariant
                i <= SIZE,
                forall|j: int| 0 <= j < SIZE ==> #[trigger] self@[j].bitxor_req(rhs@[j]),
                forall|j: int| i <= j < SIZE ==> res.0@[j] == self.0@[j],
                T::obeys_bitxor_spec() ==> forall|j: int| 0 <= j < i ==> res.0@[j] == self.0@[j].bitxor_spec(rhs.0@[j]),
            decreases SIZE - i,
        {
            assert(self@[i as int].bitxor_req(rhs@[i as int]));
            res.0[i] = res.0[i] ^ rhs.0[i];
            i += 1;
        }
        proof {
            if T::obeys_bitxor_spec() {
                assert(res@ =~= Seq::new(SIZE as nat, |i: int| self@[i].bitxor_spec(rhs@[i])));
                Self::lemma_from_seq(res, res@);
            }
        }
        res
    }
}

impl<T: Copy + std::ops::BitXor<Output = T>, const SIZE: usize> vstd::std_specs::ops::BitXorSpecImpl for Vector<T, SIZE> {
    open spec fn obeys_bitxor_spec() -> bool {
        T::obeys_bitxor_spec()
    }

    open spec fn bitxor_req(self, rhs: Self) -> bool {
        forall|i: int| 0 <= i < SIZE ==> #[trigger] self@[i].bitxor_req(rhs@[i])
    }

    open spec fn bitxor_spec(self, rhs: Self) -> Self {
        Self::from_seq(Seq::new(SIZE as nat, |i: int| self@[i].bitxor_spec(rhs@[i])))
    }
}

impl<T: Copy + std::ops::BitXor<Output = T>, const SIZE: usize> std::ops::BitXorAssign for Vector<T, SIZE> {
    fn bitxor_assign(&mut self, rhs: Self)
        requires
            forall|i: int| 0 <= i < SIZE ==> #[trigger] old(self)@[i].bitxor_req(rhs@[i]),
        ensures
            T::obeys_bitxor_spec() ==> final(self)@ == Seq::new(SIZE as nat, |i: int| old(self)@[i].bitxor_spec(rhs@[i])),
    {
        *self = *self ^ rhs;
    }
}

impl<T: Copy + std::ops::Shl<Output = T>, const SIZE: usize> std::ops::Shl for Vector<T, SIZE> {
    type Output = Self;

    fn shl(self, rhs: Self) -> (r: Self)
        ensures
            T::obeys_shl_spec() ==> r@ == Seq::new(SIZE as nat, |i: int| self@[i].shl_spec(rhs@[i])),
    {
        let mut res = self;
        let mut i: usize = 0;
        while i < SIZE
            invariant
                i <= SIZE,
                forall|j: int| 0 <= j < SIZE ==> #[trigger] self@[j].shl_req(rhs@[j]),
                forall|j: int| i <= j < SIZE ==> res.0@[j] == self.0@[j],
                T::obeys_shl_spec() ==> forall|j: int| 0 <= j < i ==> res.0@[j] == self.0@[j].shl_spec(rhs.0@[j]),
            decreases SIZE - i,
        {
            assert(self@[i as int].shl_req(rhs@[i as int]));
            res.0[i] = res.0[i] << rhs.0[i];
            i += 1;
        }
        proof {
            if T::obeys_shl_spec() {
                assert(res@ =~= Seq::new(SIZE as nat, |i: int| self@[i].shl_spec(rhs@[i])));
                Self::lemma_from_seq(res, res@);
            }
        }
        res
    }
}

impl<T: Copy + std::ops::Shl<Output = T>, const SIZE: usize> vstd::std_specs::ops::ShlSpecImpl for Vector<T, SIZE> {
    open spec fn obeys_shl_spec() -> bool {
        T::obeys_shl_spec()
    }

    open spec fn shl_req(self, rhs: Self) -> bool {
        forall|i: int| 0 <= i < SIZE ==> #[trigger] self@[i].shl_req(rhs@[i])
    }

    open spec fn shl_spec(self, rhs: Self) -> Self {
        Self::from_seq(Seq::new(SIZE as nat, |i: int| self@[i].shl_spec(rhs@[i])))
    }
}

impl<T: Copy + std::ops::Shl<Output = T>, const SIZE: usize> std::ops::ShlAssign for Vector<T, SIZE> {
    fn shl_assign(&mut self, rhs: Self)
        requires
            forall|i: int| 0 <= i < SIZE ==> #[trigger] old(self)@[i].shl_req(rhs@[i]),
        ensures
            T::obeys_shl_spec() ==> final(self)@ == Seq::new(SIZE as nat, |i: int| old(self)@[i].shl_spec(rhs@[i])),
    {
        *self = *self << rhs;
    }
}

impl<T: Copy + std::ops::Shr<Output = T>, const SIZE: usize> std::ops::Shr for Vector<T, SIZE> {
    type Output = Self;

    fn shr(self, rhs: Self) -> (r: Self)
        ensures
            T::obeys_shr_spec() ==> r@ == Seq::new(SIZE as nat, |i: int| self@[i].shr_spec(rhs@[i])),
    {
        let mut res = self;
        let mut i: usize = 0;
        while i < SIZE
            invariant
                i <= SIZE,
                forall|j: int| 0 <= j < SIZE ==> #[trigger] self@[j].shr_req(rhs@[j]),
                forall|j: int| i <= j < SIZE ==> res.0@[j] == self.0@[j],
                T::obeys_shr_spec() ==> forall|j: int| 0 <= j < i ==> res.0@[j] == self.0@[j].shr_spec(rhs.0@[j]),
            decreases SIZE - i,
        {
            assert(self@[i as int].shr_req(rhs@[i as int]));
            res.0[i] = res.0[i] >> rhs.0[i];
            i += 1;
        }
        proof {
            if T::obeys_shr_spec() {
                assert(res@ =~= Seq::new(SIZE as nat, |i: int| self@[i].shr_spec(rhs@[i])));
                Self::lemma_from_seq(res, res@);
            }
        }
        res
    }
}

impl<T: Copy + std::ops::Shr<Output = T>, const SIZE: usize> vstd::std_specs::ops::ShrSpecImpl for Vector<T, SIZE> {
    open spec fn obeys_shr_spec() -> bool {
        T::obeys_shr_spec()
    }

    open spec fn shr_req(self, rhs: Self) -> bool {
        forall|i: int| 0 <= i < SIZE ==> #[trigger] self@[i].shr_req(rhs@[i])
    }

    open spec fn shr_spec(self, rhs: Self) -> Self {
        Self::from_seq(Seq::new(SIZE as nat, |i: int| self@[i].shr_spec(rhs@[i])))
    }
}

impl<T: Copy + std::ops::Shr<Output = T>, const SIZE: usize> std::ops::ShrAssign for Vector<T, SIZE> {
    fn shr_assign(&mut self, rhs: Self)
        requires
            forall|i: int| 0 <= i < SIZE ==> #[trigger] old(self)@[i].shr_req(rhs@[i]),
        ensures
            T::obeys_shr_spec() ==> final(self)@ == Seq::new(SIZE as nat, |i: int| old(self)@[i].shr_spec(rhs@[i])),
    {
        *self = *self >> rhs;
    }
}
impl<T: Copy + std::ops::Neg<Output = T>, const SIZE: usize> std::ops::Neg for Vector<T, SIZE> {
    type Output = Self;

    fn neg(self) -> (r: Self)
        ensures
            T::obeys_neg_spec() ==> r@ == Seq::new(SIZE as nat, |i: int| self@[i].neg_spec()),
    {
        let mut res = self;
        let mut i: usize = 0;
        while i < SIZE
            invariant
                i <= SIZE,
                forall|j: int| 0 <= j < SIZE ==> #[trigger] self@[j].neg_req(),
                forall|j: int| i <= j < SIZE ==> res.0@[j] == self.0@[j],
                T::obeys_neg_spec() ==> forall|j: int| 0 <= j < i ==> res.0@[j] == self.0@[j].neg_spec(),
            decreases SIZE - i,
        {
            assert(self@[i as int].neg_req());
            res.0[i] = std::ops::Neg::neg(res.0[i]);
            i += 1;
        }
        proof {
            if T::obeys_neg_spec() {
                assert(res@ =~= Seq::new(SIZE as nat, |i: int| self@[i].neg_spec()));
                Self::lemma_from_seq(res, res@);
            }
        }
        res
    }
}

impl<T: Copy + std::ops::Neg<Output = T>, const SIZE: usize> vstd::std_specs::ops::NegSpecImpl for Vector<T, SIZE> {
    open spec fn obeys_neg_spec() -> bool {
        T::obeys_neg_spec()
    }

    open spec fn neg_req(self) -> bool {
        forall|i: int| 0 <= i < SIZE ==> #[trigger] self@[i].neg_req()
    }

    open spec fn neg_spec(self) -> Self {
        Self::from_seq(Seq::new(SIZE as nat, |i: int| self@[i].neg_spec()))
    }
}

impl<T: Copy + std::ops::Not<Output = T>, const SIZE: usize> std::ops::Not for Vector<T, SIZE> {
    type Output = Self;

    fn not(self) -> (r: Self)
        ensures
            T::obeys_not_spec() ==> r@ == Seq::new(SIZE as nat, |i: int| self@[i].not_spec()),
    {
        let mut res = self;
        let mut i: usize = 0;
        while i < SIZE
            invariant
                i <= SIZE,
                forall|j: int| 0 <= j < SIZE ==> #[trigger] self@[j].not_req(),
                forall|j: int| i <= j < SIZE ==> res.0@[j] == self.0@[j],
                T::obeys_not_spec() ==> forall|j: int| 0 <= j < i ==> res.0@[j] == self.0@[j].not_spec(),
            decreases SIZE - i,
        {
            assert(self@[i as int].not_req());
            res.0[i] = std::ops::Not::not(res.0[i]);
            i += 1;
        }
        proof {
            if T::obeys_not_spec() {
                assert(res@ =~= Seq::new(SIZE as nat, |i: int| self@[i].not_spec()));
                Self::lemma_from_seq(res, res@);
            }
        }
        res
    }
}

impl<T: Copy + std::ops::Not<Output = T>, const SIZE: usize> vstd::std_specs::ops::NotSpecImpl for Vector<T, SIZE> {
    open spec fn obeys_not_spec() -> bool {
        T::obeys_not_spec()
    }

    open spec fn not_req(self) -> bool {
        forall|i: int| 0 <= i < SIZE ==> #[trigger] self@[i].not_req()
    }

    open spec fn not_spec(self) -> Self {
        Self::from_seq(Seq::new(SIZE as nat, |i: int| self@[i].not_spec()))
    }
}

impl<T: Max<Output = T> + Copy, const SIZE: usize> Max for Vector<T, SIZE> {
    type Output = Self;

    open spec fn max_spec(self, rhs: Self) -> Self {
        Self::from_seq(Seq::new(SIZE as nat, |i: int| self@[i].max_spec(rhs@[i])))
    }

    fn max(self, rhs: Self) -> (r: Self)
        ensures
            r@ == Seq::new(SIZE as nat, |i: int| self@[i].max_spec(rhs@[i])),
    {
        let mut res = self;
        let mut i: usize = 0;
        while i < SIZE
            invariant
                i <= SIZE,
                forall|j: int| i <= j < SIZE ==> res.0@[j] == self.0@[j],
                forall|j: int| 0 <= j < i ==> res.0@[j] == self.0@[j].max_spec(rhs.0@[j]),
            decreases SIZE - i,
        {
            res.0[i] = res.0[i].max(rhs.0[i]);
            i += 1;
        }
        assert(res@ =~= Seq::new(SIZE as nat, |i: int| self@[i].max_spec(rhs@[i])));
        proof {
            Self::lemma_from_seq(res, res@);
        }
        res
    }
}

impl<T, const SIZE: usize> std::ops::Index<usize> for Vector<T, SIZE> {
    type Output = T;

    fn index(&self, index: usize) -> (r: &T)
        ensures
            *r == self@[index as int],
    {
        &self.0[index]
    }
}

impl<T, const SIZE: usize> vstd::std_specs::core::IndexSpecImpl<usize> for Vector<T, SIZE> {
    open spec fn index_req(&self, index: &usize) -> bool {
        *index < SIZE
    }
}

impl<T, const SIZE: usize> From<[T; SIZE]> for Vector<T, SIZE> {
    fn from(arr: [T; SIZE]) -> (r: Self)
        ensures
            r@ == arr@,
    {
        let r = Vector(arr);
        proof {
            Self::lemma_from_seq(r, arr@);
        }
        r
    }
}

impl<T, const SIZE: usize> vstd::std_specs::convert::FromSpecImpl<[T; SIZE]> for Vector<T, SIZE> {
    open spec fn obeys_from_spec() -> bool {
        true
    }

    open spec fn from_spec(arr: [T; SIZE]) -> Self {
        Self::from_seq(arr@)
    }
}

impl<T, const SIZE: usize> From<Vector<T, SIZE>> for [T; SIZE] {
    fn from(v: Vector<T, SIZE>) -> (r: [T; SIZE])
        ensures
            r@ == v@,
    {
        v.0
    }
}

impl<T, const SIZE: usize> vstd::std_specs::convert::FromSpecImpl<Vector<T, SIZE>> for [T; SIZE] {
    open spec fn obeys_from_spec() -> bool {
        true
    }

    closed spec fn from_spec(v: Vector<T, SIZE>) -> [T; SIZE] {
        v.0
    }
}

impl<T, const SIZE: usize> std::ops::Deref for Vector<T, SIZE> {
    type Target = [T; SIZE];

    fn deref(&self) -> (r: &[T; SIZE])
        ensures
            r@ == self@,
    {
        &self.0
    }
}

impl<T: Copy, const SIZE: usize> crate::math::num::Num for Vector<T, SIZE> {}

impl<T: Copy + std::ops::Add<Output = T>, const SIZE: usize> crate::math::num::Additive for Vector<T, SIZE> {}

impl<T: Copy + std::ops::Neg<Output = T> + std::ops::Sub<Output = T>, const SIZE: usize> crate::math::num::AddInv for Vector<T, SIZE> {}

impl<T: Copy + std::ops::Mul<Output = T>, const SIZE: usize> crate::math::num::Multiplicative for Vector<T, SIZE> {}

impl<T: Copy + std::ops::Div<Output = T>, const SIZE: usize> crate::math::num::MulInv for Vector<T, SIZE> {}

impl<T: crate::math::num::Ring, const SIZE: usize> crate::math::num::Ring for Vector<T, SIZE> {
    open spec fn one_spec() -> Self {
        Self::from_seq(Seq::new(SIZE as nat, |i: int| T::one_spec()))
    }

    open spec fn zero_spec() -> Self {
        Self::from_seq(Seq::new(SIZE as nat, |i: int| T::zero_spec()))
    }

    fn one() -> (r: Self) {
        let r = Vector([T::one(); SIZE]);
        proof {
            assert(r@ =~= Seq::new(SIZE as nat, |i: int| T::one_spec()));
            Self::lemma_from_seq(r, r@);
        }
        r
    }

    fn zero() -> (r: Self) {
        let r = Vector([T::zero(); SIZE]);
        proof {
            assert(r@ =~= Seq::new(SIZE as nat, |i: int| T::zero_spec()));
            Self::lemma_from_seq(r, r@);
        }
        r
    }
}

impl<T: crate::math::num::Field, const SIZE: usize> crate::math::num::Field for Vector<T, SIZE> {
    open spec fn two_third_pi_spec() -> Self {
        Self::from_seq(Seq::new(SIZE as nat, |i: int| T::two_third_pi_spec()))
    }

    fn two_third_pi() -> (r: Self) {
        let r = Vector([T::two_third_pi(); SIZE]);
        proof {
            assert(r@ =~= Seq::new(SIZE as nat, |i: int| T::two_third_pi_spec()));
            Self::lemma_from_seq(r, r@);
        }
        r
    }
}

impl<T, const SIZE: usize> std::ops::DerefMut for Vector<T, SIZE> {
    fn deref_mut(&mut self) -> (r: &mut [T; SIZE])
        ensures
            r@ == old(self)@,
            final(self)@ == final(r)@,
    {
        &mut self.0
    }
}

/// std's mutable slice iterator, carried through opaquely.
#[verifier::external_type_specification]
#[verifier::external_body]
#[verifier::reject_recursive_types(T)]
pub struct ExSliceIterMut<'a, T: 'a>(std::slice::IterMut<'a, T>);

/// std's by-value array iterator, carried through opaquely.
#[verifier::external_type_specification]
#[verifier::external_body]
#[verifier::reject_recursive_types(T)]
pub struct ExArrayIntoIter<T, const N: usize>(std::array::IntoIter<T, N>);

impl<T, const SIZE: usize> Vector<T, SIZE> {
    /// Iterates over the elements by mutable reference: a call of std's
    /// `<[T]>::iter_mut`, of which nothing is claimed.
    #[verifier::external_body]
    pub fn iter_mut(&mut self) -> std::slice::IterMut<'_, T> {
        self.0.iter_mut()
    }
}

impl<T, const SIZE: usize> IntoIterator for Vector<T, SIZE> {
    type Item = T;
    type IntoIter = std::array::IntoIter<T, SIZE>;

    /// Hands the elements out by value: a call of std's
    /// `<[T; N] as IntoIterator>::into_iter`, of which nothing is claimed.
    #[verifier::external_body]
    fn into_iter(self) -> Self::IntoIter {
        self.0.into_iter()
    }
}

/// On integers, element-wise addition and multiplication do not depend on
/// the order of their operands.
pub proof fn lemma_add_mul_commute<const SIZE: usize>(a: Vector<i64, SIZE>, b: Vector<i64, SIZE>)
    ensures
        a.add_spec(b) == b.add_spec(a),
        a.mul_spec(b) == b.mul_spec(a),
{
    assert(Seq::new(SIZE as nat, |i: int| a@[i].add_spec(b@[i])) =~= Seq::new(SIZE as nat, |i: int| b@[i].add_spec(a@[i])));
    assert(Seq::new(SIZE as nat, |i: int| a@[i].mul_spec(b@[i])) =~= Seq::new(SIZE as nat, |i: int| b@[i].mul_spec(a@[i])));
}

/// `T`'s `min` picks one of its two arguments and does not depend on their
/// order; so does its `max`.
pub open spec fn min_max_select_and_commute<T: Min<Output = T> + Max<Output = T>>() -> bool {
    &&& forall|a: T, b: T| #[trigger] a.min_spec(b) == a || a.min_spec(b) == b
    &&& forall|a: T, b: T| #[trigger] a.min_spec(b) == b.min_spec(a)
    &&& forall|a: T, b: T| #[trigger] a.max_spec(b) == a || a.max_spec(b) == b
    &&& forall|a: T, b: T| #[trigger] a.max_spec(b) == b.max_spec(a)
}

/// The minimum and maximum of two vectors are taken component by component;
/// where `T`'s `min` and `max` pick one of their arguments whatever the
/// order, so do those of a vector, component by component: component `i` of
/// the result is `x@[i].min_spec(y@[i])` (or `max_spec`), that of one of the
/// two vectors, and swapping the vectors changes nothing.
pub proof fn lemma_vector_min_max<T: Min<Output = T> + Max<Output = T> + Copy, const SIZE: usize>(
    x: Vector<T, SIZE>,
    y: Vector<T, SIZE>,
)
    requires
        min_max_select_and_commute::<T>(),
    ensures
        x.min_spec(y)@ == Seq::new(SIZE as nat, |i: int| x@[i].min_spec(y@[i])),
        x.max_spec(y)@ == Seq::new(SIZE as nat, |i: int| x@[i].max_spec(y@[i])),
        forall|i: int| 0 <= i < SIZE ==> #[trigger] x.min_spec(y)@[i] == x@[i] || x.min_spec(y)@[i] == y@[i],
        forall|i: int| 0 <= i < SIZE ==> #[trigger] x.max_spec(y)@[i] == x@[i] || x.max_spec(y)@[i] == y@[i],
        x.min_spec(y) == y.min_spec(x),
        x.max_spec(y) == y.max_spec(x),
{
    Vector::<T, SIZE>::lemma_from_seq_view(Seq::new(SIZE as nat, |i: int| x@[i].min_spec(y@[i])));
    Vector::<T, SIZE>::lemma_from_seq_view(Seq::new(SIZE as nat, |i: int| x@[i].max_spec(y@[i])));
    assert(Seq::new(SIZE as nat, |j: int| x@[j].min_spec(y@[j])) =~= Seq::new(SIZE as nat, |j: int| y@[j].min_spec(x@[j])));
    assert(Seq::new(SIZE as nat, |j: int| x@[j].max_spec(y@[j])) =~= Seq::new(SIZE as nat, |j: int| y@[j].max_spec(x@[j])));
}

} // verus!
