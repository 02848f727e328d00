//! Values tagged with a dimensional unit.
use vstd::prelude::*;

use core::marker::PhantomData;

use crate::units::Seconds;
use crate::ops::{broadcast, product_seq, sum_seq, VMul};
use crate::vecs::{Vec1, Vec2};
use core::ops::{Add, Div, Mul, Sub};
use vstd::std_specs::ops::{AddSpec, DivSpec, MulSpec, SubSpec};

verus! {

/// A value (a scalar, a `Vec1` or a `Vec2`) tagged with the unit `UNIT`.
/// The tag is zero-sized: it only decides which operations type-check.
#[derive(Debug, Default, Copy, PartialEq)]
pub struct Typed<VEC, UNIT> {
    pub vec: VEC,
    pub marker: PhantomData<UNIT>,
}

impl<VEC, UNIT> Typed<VEC, UNIT> {
    /// Tags `vec` with the unit `UNIT`.
    pub fn new(vec: VEC) -> (r: Self)
        ensures
            r.vec == vec,
    {
        Typed { vec, marker: PhantomData }
    }

    /// The tagged value with its tag removed.
    pub fn into_inner(self) -> (r: VEC)
        ensures
            r == self.vec,
    {
        self.vec
    }
}

impl<VEC> Typed<VEC, Seconds> {
    /// A value measured in seconds.
    pub fn in_seconds(value: VEC) -> (r: Self)
        ensures
            r.vec == value,
    {
        Typed::new(value)
    }
}

impl<VEC: Clone, UNIT> Clone for Typed<VEC, UNIT> {
    fn clone(&self) -> (r: Self) {
        Typed::new(self.vec.clone())
    }
}

impl<VEC, UNIT> From<VEC> for Typed<VEC, UNIT> {
    fn from(vec: VEC) -> (r: Self) {
        Typed::new(vec)
    }
}

impl<VEC, UNIT> vstd::std_specs::convert::FromSpecImpl<VEC> for Typed<VEC, UNIT> {
    open spec fn obeys_from_spec() -> bool {
        true
    }

    open spec fn from_spec(vec: VEC) -> Self {
        Typed { vec, marker: PhantomData }
    }
}

/// Two values in the same unit add to a value in that unit.
impl<V: Add<Output = V>, U> Add for Typed<V, U> {
    type Output = Typed<V, U>;

    fn add(self, rhs: Typed<V, U>) -> (r: Typed<V, U>) {
        Typed::new(self.vec + rhs.vec)
    }
}

impl<V: Add<Output = V>, U> vstd::std_specs::ops::AddSpecImpl for Typed<V, U> {
    open spec fn obeys_add_spec() -> bool {
        V::obeys_add_spec()
    }

    open spec fn add_req(self, rhs: Typed<V, U>) -> bool {
        self.vec.add_req(rhs.vec)
    }

    open spec fn add_spec(self, rhs: Typed<V, U>) -> Typed<V, U> {
        Typed { vec: self.vec.add_spec(rhs.vec), marker: PhantomData }
    }
}

/// Two values in the same unit subtract to a value in that unit.
impl<V: Sub<Output = V>, U> Sub for Typed<V, U> {
    type Output = Typed<V, U>;

    fn sub(self, rhs: Typed<V, U>) -> (r: Typed<V, U>) {
        Typed::new(self.vec - rhs.vec)
    }
}

impl<V: Sub<Output = V>, U> vstd::std_specs::ops::SubSpecImpl for Typed<V, U> {
    open spec fn obeys_sub_spec() -> bool {
        V::obeys_sub_spec()
    }

    open spec fn sub_req(self, rhs: Typed<V, U>) -> bool {
        self.vec.sub_req(rhs.vec)
    }

    open spec fn sub_spec(self, rhs: Typed<V, U>) -> Typed<V, U> {
        Typed { vec: self.vec.sub_spec(rhs.vec), marker: PhantomData }
    }
}

/// A product carries the product of the units, as the unit algebra defines it.
impl<V1: Mul<V2>, V2, U1: Mul<U2>, U2> Mul<Typed<V2, U2>> for Typed<V1, U1> {
    type Output = Typed<V1::Output, U1::Output>;

    fn mul(self, rhs: Typed<V2, U2>) -> (r: Typed<V1::Output, U1::Output>) {
        Typed::new(self.vec * rhs.vec)
    }
}

impl<V1: Mul<V2>, V2, U1: Mul<U2>, U2> vstd::std_specs::ops::MulSpecImpl<Typed<V2, U2>> for Typed<V1, U1> {
    open spec fn obeys_mul_spec() -> bool {
        V1::obeys_mul_spec()
    }

    open spec fn mul_req(self, rhs: Typed<V2, U2>) -> bool {
        self.vec.mul_req(rhs.vec)
    }

    open spec fn mul_spec(self, rhs: Typed<V2, U2>) -> Typed<V1::Output, U1::Output> {
        Typed { vec: self.vec.mul_spec(rhs.vec), marker: PhantomData }
    }
}

/// A quotient carries the quotient of the units, as the unit algebra defines it.
impl<V1: Div<V2>, V2, U1: Div<U2>, U2> Div<Typed<V2, U2>> for Typed<V1, U1> {
    type Output = Typed<V1::Output, U1::Output>;

    fn div(self, rhs: Typed<V2, U2>) -> (r: Typed<V1::Output, U1::Output>) {
        Typed::new(self.vec / rhs.vec)
    }
}

impl<V1: Div<V2>, V2, U1: Div<U2>, U2> vstd::std_specs::ops::DivSpecImpl<Typed<V2, U2>> for Typed<V1, U1> {
    open spec fn obeys_div_spec() -> bool {
        V1::obeys_div_spec()
    }

    open spec fn div_req(self, rhs: Typed<V2, U2>) -> bool {
        self.vec.div_req(rhs.vec)
    }

    open spec fn div_spec(self, rhs: Typed<V2, U2>) -> Typed<V1::Output, U1::Output> {
        Typed { vec: self.vec.div_spec(rhs.vec), marker: PhantomData }
    }
}

/// `&a * &b` on tagged values defers the product, to be consumed by an accumulating method.
impl<'a, V1, U1, V2, U2> Mul<&'a Typed<V2, U2>> for &'a Typed<V1, U1> {
    type Output = VMul<'a, Typed<V1, U1>, Typed<V2, U2>>;

    fn mul(self, rhs: &'a Typed<V2, U2>) -> (r: VMul<'a, Typed<V1, U1>, Typed<V2, U2>>) {
        VMul::new(self, rhs)
    }
}

impl<'a, V1, U1, V2, U2> vstd::std_specs::ops::MulSpecImpl<&'a Typed<V2, U2>> for &'a Typed<V1, U1> {
    open spec fn obeys_mul_spec() -> bool {
        true
    }

    open spec fn mul_req(self, rhs: &'a Typed<V2, U2>) -> bool {
        true
    }

    open spec fn mul_spec(self, rhs: &'a Typed<V2, U2>) -> VMul<'a, Typed<V1, U1>, Typed<V2, U2>> {
        VMul { a: self, b: rhs }
    }
}

impl<T: Copy, U> Typed<Vec1<T>, U> {
    /// Adds a column in the same unit, element by element.
    pub fn add_vec1<T2: Copy>(&mut self, rhs: &Typed<Vec1<T2>, U>)
        where
            T: Add<T2, Output = T>,
        requires
            old(self).vec@.len() == rhs.vec@.len(),
            forall|i: int|
                0 <= i < rhs.vec@.len() ==> (#[trigger] old(self).vec@[i]).add_req(rhs.vec@[i]),
        ensures
            final(self).vec@.len() == old(self).vec@.len(),
            T::obeys_add_spec() ==> final(self).vec@ == sum_seq(old(self).vec@, rhs.vec@),
    {
        self.vec.add_vec1(&rhs.vec);
    }

    /// Adds `a[i] * b[i]` for `VMul(a, b)`, whose units multiply to this value's unit.
    pub fn add_mul_vec1<'a, T2: Copy, T3: Copy, U2, U3>(
        &mut self,
        rhs: VMul<'a, Typed<Vec1<T2>, U2>, Typed<Vec1<T3>, U3>>,
    )
        where
            T: Add<T, Output = T>,
            T2: Mul<T3, Output = T>,
            U2: Mul<U3, Output = U>,
        requires
            T2::obeys_mul_spec(),
            old(self).vec@.len() == rhs.a.vec@.len(),
            old(self).vec@.len() == rhs.b.vec@.len(),
            forall|i: int|
                0 <= i < old(self).vec@.len() ==> (#[trigger] rhs.a.vec@[i]).mul_req(rhs.b.vec@[i])
                    && old(self).vec@[i].add_req(rhs.a.vec@[i].mul_spec(rhs.b.vec@[i])),
        ensures
            final(self).vec@.len() == old(self).vec@.len(),
            T::obeys_add_spec() ==> final(self).vec@ == sum_seq(
                old(self).vec@,
                product_seq(rhs.a.vec@, rhs.b.vec@),
            ),
    {
        self.vec.add_mul_vec1(VMul::new(&rhs.a.vec, &rhs.b.vec));
    }

    /// Adds `a[i] * b` for `VMul(a, b)` with a tagged scalar `b`, whose units
    /// multiply to this value's unit.
    pub fn add_mul_value<'a, T2: Copy, T3: Copy, U2, U3>(
        &mut self,
        rhs: VMul<'a, Typed<Vec1<T2>, U2>, Typed<T3, U3>>,
    )
        where
            T: Add<T, Output = T>,
            T2: Mul<T3, Output = T>,
            U2: Mul<U3, Output = U>,
        requires
            T2::obeys_mul_spec(),
            old(self).vec@.len() == rhs.a.vec@.len(),
            forall|i: int|
                0 <= i < old(self).vec@.len() ==> (#[trigger] rhs.a.vec@[i]).mul_req(rhs.b.vec)
                    && old(self).vec@[i].add_req(rhs.a.vec@[i].mul_spec(rhs.b.vec)),
        ensures
            final(self).vec@.len() == old(self).vec@.len(),
            T::obeys_add_spec() ==> final(self).vec@ == sum_seq(
                old(self).vec@,
                product_seq(rhs.a.vec@, broadcast(rhs.a.vec@, rhs.b.vec)),
            ),
    {
        self.vec.add_mul_value(VMul::new(&rhs.a.vec, &rhs.b.vec));
    }
}

impl<T: Copy, U> Typed<Vec2<T>, U> {
    /// Adds vectors in the same unit, component by component.
    pub fn add_vec2<T2: Copy>(&mut self, rhs: &Typed<Vec2<T2>, U>)
        where
            T: Add<T2, Output = T>,
        requires
            old(self).vec.wf(),
            rhs.vec.wf(),
            old(self).vec.spec_len() == rhs.vec.spec_len(),
            forall|i: int|
                0 <= i < rhs.vec.spec_len() ==> (#[trigger] old(self).vec.x@[i]).add_req(rhs.vec.x@[i]),
            forall|i: int|
                0 <= i < rhs.vec.spec_len() ==> (#[trigger] old(self).vec.y@[i]).add_req(rhs.vec.y@[i]),
        ensures
            final(self).vec.wf(),
            final(self).vec.spec_len() == old(self).vec.spec_len(),
            T::obeys_add_spec() ==> final(self).vec.x@ == sum_seq(old(self).vec.x@, rhs.vec.x@),
            T::obeys_add_spec() ==> final(self).vec.y@ == sum_seq(old(self).vec.y@, rhs.vec.y@),
    {
        self.vec.add_vec2(&rhs.vec);
    }

    /// Adds `a.x[i] * b[i]` and `a.y[i] * b[i]` for `VMul(a, b)`, whose units
    /// multiply to this value's unit.
    pub fn add_mul_vec1<'a, T2: Copy, T3: Copy, U2, U3>(
        &mut self,
        rhs: VMul<'a, Typed<Vec2<T2>, U2>, Typed<Vec1<T3>, U3>>,
    )
        where
            T: Add<T, Output = T>,
            T2: Mul<T3, Output = T>,
            U2: Mul<U3, Output = U>,
        requires
            T2::obeys_mul_spec(),
            old(self).vec.wf(),
            rhs.a.vec.wf(),
            old(self).vec.spec_len() == rhs.a.vec.spec_len(),
            old(self).vec.spec_len() == rhs.b.vec@.len(),
            forall|i: int|
                0 <= i < old(self).vec.spec_len() ==> (#[trigger] rhs.a.vec.x@[i]).mul_req(rhs.b.vec@[i])
                    && old(self).vec.x@[i].add_req(rhs.a.vec.x@[i].mul_spec(rhs.b.vec@[i])),
            forall|i: int|
                0 <= i < old(self).vec.spec_len() ==> (#[trigger] rhs.a.vec.y@[i]).mul_req(rhs.b.vec@[i])
                    && old(self).vec.y@[i].add_req(rhs.a.vec.y@[i].mul_spec(rhs.b.vec@[i])),
        ensures
            final(self).vec.wf(),
            final(self).vec.spec_len() == old(self).vec.spec_len(),
            T::obeys_add_spec() ==> final(self).vec.x@ == sum_seq(
                old(self).vec.x@,
                product_seq(rhs.a.vec.x@, rhs.b.vec@),
            ),
            T::obeys_add_spec() ==> final(self).vec.y@ == sum_seq(
                old(self).vec.y@,
                product_seq(rhs.a.vec.y@, rhs.b.vec@),
            ),
    {
        self.vec.add_mul_vec1(VMul::new(&rhs.a.vec, &rhs.b.vec));
    }
}

} // verus!
