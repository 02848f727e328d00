use vstd::prelude::*;

use super::Vec2;
use crate::ops::{
    broadcast, difference_seq, magnitude_squared_seq, product_seq, quotient_seq, sum_seq, VDiv, VMul,
};
use core::ops::{Add, Div, Mul, Sub};
use vstd::std_specs::iter::IteratorSpec;
use vstd::std_specs::ops::{AddSpec, DivSpec, MulSpec, SubSpec};

verus! {

/// A column of `n` scalar values.
#[derive(Debug, Clone, PartialEq)]
pub struct Vec1<T> {
    pub values: Vec<T>,
}

impl<T> View for Vec1<T> {
    type V = Seq<T>;

    open spec fn view(&self) -> Seq<T> {
        self.values@
    }
}

impl<T> Vec1<T> {
    /// An empty column.
    pub fn new() -> (r: Self)
        ensures
            r@ == Seq::<T>::empty(),
    {
        Vec1 { values: Vec::new() }
    }

    pub fn len(&self) -> (r: usize)
        ensures
            r == self@.len(),
    {
        self.values.len()
    }

    pub fn is_empty(&self) -> (r: bool)
        ensures
            r <==> self@.len() == 0,
    {
        self.len() == 0
    }

    /// Overwrites the slot at `index`, appends when `index` is the length,
    /// and leaves the column unchanged when `index` lies beyond the end.
    pub fn insert(&mut self, value: T, index: usize)
        ensures
            index < old(self)@.len() ==> final(self)@ == old(self)@.update(index as int, value),
            index == old(self)@.len() ==> final(self)@ == old(self)@.push(value),
            index > old(self)@.len() ==> final(self)@ == old(self)@,
    {
        if index < self.values.len() {
            self.values.set(index, value);
        } else if index == self.values.len() {
            self.values.push(value);
        }
    }

    pub fn get_mut(&mut self, index: usize) -> (r: Option<&mut T>)
        ensures
            index < old(self)@.len() ==> r is Some && *r->0 == old(self)@[index as int]
                && final(self)@ == old(self)@.update(index as int, *final(r->0)),
            index >= old(self)@.len() ==> r is None && final(self)@ == old(self)@,
    {
        if index < self.values.len() {
            Some(&mut self.values[index])
        } else {
            None
        }
    }

    pub fn as_slice(&self) -> (r: &[T])
        ensures
            r@ == self@,
    {
        self.values.as_slice()
    }

    pub fn as_mut_slice(&mut self) -> (r: &mut [T])
        ensures
            r@ == old(self)@,
            final(self)@ == final(r)@,
    {
        self.values.as_mut_slice()
    }

    /// The elements in order, by reference.
    pub fn iter(&self) -> (r: core::slice::Iter<'_, T>)
        ensures
            r.remaining() == self@.as_ref(),
    {
        self.values.as_slice().iter()
    }

    pub fn get(&self, index: usize) -> (r: Option<&T>)
        ensures
            index < self@.len() ==> r == Some(&self@[index as int]),
            index >= self@.len() ==> r is None,
    {
        if index < self.values.len() {
            Some(&self.values[index])
        } else {
            None
        }
    }
}

impl<T> Default for Vec1<T> {
    fn default() -> (r: Self)
        ensures
            r@ == Seq::<T>::empty(),
    {
        Vec1::new()
    }
}

impl<T> From<Vec<T>> for Vec1<T> {
    fn from(values: Vec<T>) -> (r: Self) {
        Vec1 { values }
    }
}

impl<T> vstd::std_specs::convert::FromSpecImpl<Vec<T>> for Vec1<T> {
    open spec fn obeys_from_spec() -> bool {
        true
    }

    open spec fn from_spec(values: Vec<T>) -> Self {
        Vec1 { values }
    }
}

impl<T: Default> Vec1<T> {
    /// A column of `len` default values.
    pub fn default_with_len(len: usize) -> (r: Self)
        ensures
            r@.len() == len,
    {
        Vec1 { values: Self::get_vec(len) }
    }

    fn get_vec(len: usize) -> (r: Vec<T>)
        ensures
            r@.len() == len,
    {
        let mut values: Vec<T> = Vec::with_capacity(len);
        let mut i: usize = 0;
        while i < len
            invariant
                values@.len() == i,
                i <= len,
            decreases len - i,
        {
            values.push(T::default());
            i += 1;
        }
        values
    }

    /// Cuts the column to `len`, or fills it up to `len` with default values.
    fn resize_with_default(&mut self, len: usize)
        ensures
            final(self)@.len() == len,
            forall|i: int|
                0 <= i < len && i < old(self)@.len() ==> #[trigger] final(self)@[i] == old(self)@[i],
    {
        let ghost start = self@;
        self.values.truncate(len);
        while self.values.len() < len
            invariant
                self@.len() <= len,
                self@.len() == len || self@.len() >= start.len(),
                forall|i: int|
                    0 <= i < self@.len() && i < start.len() ==> #[trigger] self@[i] == start[i],
            decreases len - self@.len(),
        {
            self.values.push(T::default());
        }
    }
}

/// Relies on num_traits::Float::sqrt: the square root of one element.
#[verifier::external_body]
fn float_sqrt<T: num_traits::Float>(value: T) -> T {
    value.sqrt()
}

impl<T: Copy + Default + Add<Output = T> + Mul<Output = T>> Vec1<T> {
    /// Sets this column to `x[i]² + y[i]²` for the vectors of `source`,
    /// resizing it to the length of `source`.
    pub fn get_magnitude_squared(&mut self, source: &Vec2<T>)
        requires
            source.wf(),
            T::obeys_mul_spec(),
            forall|i: int|
                0 <= i < source.spec_len() ==> magnitude_squared_req(
                    #[trigger] source.x@[i],
                    source.y@[i],
                ),
        ensures
            final(self)@.len() == source.spec_len(),
            T::obeys_add_spec() ==> final(self)@ == magnitude_squared_seq(source.x@, source.y@),
    {
        self.resize_with_default(source.len());
        self.zip_to_vec2(source, Self::calc_magnitude_squared);
        assert(T::obeys_add_spec() ==> self@ =~= magnitude_squared_seq(source.x@, source.y@));
    }

    fn calc_magnitude_squared(value: T, x: T, y: T) -> (r: T)
        requires
            T::obeys_mul_spec(),
            magnitude_squared_req(x, y),
        ensures
            T::obeys_add_spec() ==> r == x.mul_spec(x).add_spec(y.mul_spec(y)),
    {
        (x * x) + (y * y)
    }
}

impl<T: Copy + Default + Add<Output = T> + Mul<Output = T> + num_traits::Float> Vec1<T> {
    /// Sets this column to `sqrt(x[i]² + y[i]²)` for the vectors of `source`,
    /// resizing it to the length of `source`.
    pub fn get_magnitude(&mut self, source: &Vec2<T>)
        requires
            source.wf(),
            T::obeys_mul_spec(),
            forall|i: int|
                0 <= i < source.spec_len() ==> magnitude_squared_req(
                    #[trigger] source.x@[i],
                    source.y@[i],
                ),
        ensures
            final(self)@.len() == source.spec_len(),
    {
        self.resize_with_default(source.len());
        self.zip_to_vec2(source, Self::calc_magnitude);
    }

    fn calc_magnitude(value: T, x: T, y: T) -> (r: T)
        requires
            T::obeys_mul_spec(),
            magnitude_squared_req(x, y),
    {
        float_sqrt((x * x) + (y * y))
    }
}

/// When `x * x + y * y` may be computed.
pub open spec fn magnitude_squared_req<T: Add<Output = T> + Mul<Output = T>>(x: T, y: T) -> bool {
    x.mul_req(x) && y.mul_req(y) && x.mul_spec(x).add_req(y.mul_spec(y))
}

impl<T: Copy> Vec1<T> {
    /// Replaces every element `v` by `f(v, rhs)`.
    pub fn zip_to_value<T2: Copy, F: Fn(T, T2) -> T>(&mut self, rhs: T2, f: F)
        requires
            forall|i: int| 0 <= i < old(self)@.len() ==> f.requires((old(self)@[i], rhs)),
        ensures
            final(self)@.len() == old(self)@.len(),
            forall|i: int|
                0 <= i < old(self)@.len() ==> f.ensures((old(self)@[i], rhs), #[trigger] final(self)@[i]),
    {
        let ghost start = self@;
        let mut i: usize = 0;
        while i < self.values.len()
            invariant
                self@.len() == start.len(),
                0 <= i <= start.len(),
                forall|j: int| 0 <= j < start.len() ==> f.requires((start[j], rhs)),
                forall|j: int| 0 <= j < i ==> f.ensures((start[j], rhs), #[trigger] self@[j]),
                forall|j: int| i <= j < start.len() ==> self@[j] == start[j],
            decreases start.len() - i,
        {
            let v = f(self.values[i], rhs);
            self.values.set(i, v);
            i += 1;
        }
    }

    /// Replaces the element `v` at each position `i` by `f(v, rhs[i])`.
    pub fn zip_to_vec1<T2: Copy, F: Fn(T, T2) -> T>(&mut self, rhs: &Vec1<T2>, f: F)
        requires
            old(self)@.len() == rhs@.len(),
            forall|i: int| 0 <= i < rhs@.len() ==> f.requires((old(self)@[i], rhs@[i])),
        ensures
            final(self)@.len() == old(self)@.len(),
            forall|i: int|
                0 <= i < rhs@.len() ==> f.ensures((old(self)@[i], rhs@[i]), #[trigger] final(self)@[i]),
    {
        let ghost start = self@;
        let mut i: usize = 0;
        while i < self.values.len()
            invariant
                self@.len() == start.len(),
                start.len() == rhs@.len(),
                0 <= i <= start.len(),
                forall|j: int| 0 <= j < start.len() ==> f.requires((start[j], rhs@[j])),
                forall|j: int| 0 <= j < i ==> f.ensures((start[j], rhs@[j]), #[trigger] self@[j]),
                forall|j: int| i <= j < start.len() ==> self@[j] == start[j],
            decreases start.len() - i,
        {
            let v = f(self.values[i], rhs.values[i]);
            self.values.set(i, v);
            i += 1;
        }
    }

    /// Replaces the element `v` at each position `i` by `f(v, rhs.x[i], rhs.y[i])`.
    pub fn zip_to_vec2<T2: Copy, F: Fn(T, T2, T2) -> T>(&mut self, rhs: &Vec2<T2>, f: F)
        requires
            rhs.wf(),
            old(self)@.len() == rhs.x@.len(),
            forall|i: int|
                0 <= i < rhs.x@.len() ==> f.requires((old(self)@[i], rhs.x@[i], rhs.y@[i])),
        ensures
            final(self)@.len() == old(self)@.len(),
            forall|i: int|
                0 <= i < rhs.x@.len() ==> f.ensures(
                    (old(self)@[i], rhs.x@[i], rhs.y@[i]),
                    #[trigger] final(self)@[i],
                ),
    {
        let ghost start = self@;
        let mut i: usize = 0;
        while i < self.values.len()
            invariant
                rhs.wf(),
                self@.len() == start.len(),
                start.len() == rhs.x@.len(),
                0 <= i <= start.len(),
                forall|j: int|
                    0 <= j < start.len() ==> f.requires((start[j], rhs.x@[j], rhs.y@[j])),
                forall|j: int|
                    0 <= j < i ==> f.ensures((start[j], rhs.x@[j], rhs.y@[j]), #[trigger] self@[j]),
                forall|j: int| i <= j < start.len() ==> self@[j] == start[j],
            decreases start.len() - i,
        {
            let v = f(self.values[i], rhs.x.values[i], rhs.y.values[i]);
            self.values.set(i, v);
            i += 1;
        }
    }

    /// Replaces the element `v` at each position `i` by `f(v, a[i], b[i])`.
    pub fn zip_to_vec1_and_vec1<T2: Copy, T3: Copy, F: Fn(T, T2, T3) -> T>(
        &mut self,
        a: &Vec1<T2>,
        b: &Vec1<T3>,
        f: F,
    )
        requires
            old(self)@.len() == a@.len(),
            old(self)@.len() == b@.len(),
            forall|i: int| 0 <= i < a@.len() ==> f.requires((old(self)@[i], a@[i], b@[i])),
        ensures
            final(self)@.len() == old(self)@.len(),
            forall|i: int|
                0 <= i < a@.len() ==> f.ensures((old(self)@[i], a@[i], b@[i]), #[trigger] final(self)@[i]),
    {
        let ghost start = self@;
        let mut i: usize = 0;
        while i < self.values.len()
            invariant
                self@.len() == start.len(),
                start.len() == a@.len(),
                start.len() == b@.len(),
                0 <= i <= start.len(),
                forall|j: int| 0 <= j < start.len() ==> f.requires((start[j], a@[j], b@[j])),
                forall|j: int| 0 <= j < i ==> f.ensures((start[j], a@[j], b@[j]), #[trigger] self@[j]),
                forall|j: int| i <= j < start.len() ==> self@[j] == start[j],
            decreases start.len() - i,
        {
            let v = f(self.values[i], a.values[i], b.values[i]);
            self.values.set(i, v);
            i += 1;
        }
    }

    /// Replaces the element `v` at each position `i` by `f(v, a[i], b)`.
    pub fn zip_to_vec1_and_value<T2: Copy, T3: Copy, F: Fn(T, T2, T3) -> T>(
        &mut self,
        a: &Vec1<T2>,
        b: T3,
        f: F,
    )
        requires
            old(self)@.len() == a@.len(),
            forall|i: int| 0 <= i < a@.len() ==> f.requires((old(self)@[i], a@[i], b)),
        ensures
            final(self)@.len() == old(self)@.len(),
            forall|i: int|
                0 <= i < a@.len() ==> f.ensures((old(self)@[i], a@[i], b), #[trigger] final(self)@[i]),
    {
        let ghost start = self@;
        let mut i: usize = 0;
        while i < self.values.len()
            invariant
                self@.len() == start.len(),
                start.len() == a@.len(),
                0 <= i <= start.len(),
                forall|j: int| 0 <= j < start.len() ==> f.requires((start[j], a@[j], b)),
                forall|j: int| 0 <= j < i ==> f.ensures((start[j], a@[j], b), #[trigger] self@[j]),
                forall|j: int| i <= j < start.len() ==> self@[j] == start[j],
            decreases start.len() - i,
        {
            let v = f(self.values[i], a.values[i], b);
            self.values.set(i, v);
            i += 1;
        }
    }
}

impl<T: Copy> Vec1<T> {
    /// `self[i] += rhs[i]` at every position.
    pub fn add_vec1<T2: Copy>(&mut self, rhs: &Vec1<T2>)
        where
            T: Add<T2, Output = T>,
        requires
            old(self)@.len() == rhs@.len(),
            forall|i: int| 0 <= i < rhs@.len() ==> (#[trigger] old(self)@[i]).add_req(rhs@[i]),
        ensures
            final(self)@.len() == old(self)@.len(),
            T::obeys_add_spec() ==> final(self)@ == sum_seq(old(self)@, rhs@),
    {
        let f = |a: T, b: T2| -> (r: T)
            requires
                a.add_req(b),
            ensures
                T::obeys_add_spec() ==> r == a.add_spec(b),
            { a + b };
        self.zip_to_vec1(rhs, f);
        assert(T::obeys_add_spec() ==> self@ =~= sum_seq(old(self)@, rhs@));
    }

    /// `self[i] += rhs` at every position.
    pub fn add_value<T2: Copy>(&mut self, rhs: T2)
        where
            T: Add<T2, Output = T>,
        requires
            forall|i: int| 0 <= i < old(self)@.len() ==> (#[trigger] old(self)@[i]).add_req(rhs),
        ensures
            final(self)@.len() == old(self)@.len(),
            T::obeys_add_spec() ==> final(self)@ == sum_seq(old(self)@, broadcast(old(self)@, rhs)),
    {
        let f = |a: T, b: T2| -> (r: T)
            requires
                a.add_req(b),
            ensures
                T::obeys_add_spec() ==> r == a.add_spec(b),
            { a + b };
        self.zip_to_value(rhs, f);
        assert(T::obeys_add_spec() ==> self@ =~= sum_seq(old(self)@, broadcast(old(self)@, rhs)));
    }

    /// `self[i] -= rhs[i]` at every position.
    pub fn sub_vec1<T2: Copy>(&mut self, rhs: &Vec1<T2>)
        where
            T: Sub<T2, Output = T>,
        requires
            old(self)@.len() == rhs@.len(),
            forall|i: int| 0 <= i < rhs@.len() ==> (#[trigger] old(self)@[i]).sub_req(rhs@[i]),
        ensures
            final(self)@.len() == old(self)@.len(),
            T::obeys_sub_spec() ==> final(self)@ == difference_seq(old(self)@, rhs@),
    {
        let f = |a: T, b: T2| -> (r: T)
            requires
                a.sub_req(b),
            ensures
                T::obeys_sub_spec() ==> r == a.sub_spec(b),
            { a - b };
        self.zip_to_vec1(rhs, f);
        assert(T::obeys_sub_spec() ==> self@ =~= difference_seq(old(self)@, rhs@));
    }

    /// `self[i] -= rhs` at every position.
    pub fn sub_value<T2: Copy>(&mut self, rhs: T2)
        where
            T: Sub<T2, Output = T>,
        requires
            forall|i: int| 0 <= i < old(self)@.len() ==> (#[trigger] old(self)@[i]).sub_req(rhs),
        ensures
            final(self)@.len() == old(self)@.len(),
            T::obeys_sub_spec() ==> final(self)@ == difference_seq(old(self)@, broadcast(old(self)@, rhs)),
    {
        let f = |a: T, b: T2| -> (r: T)
            requires
                a.sub_req(b),
            ensures
                T::obeys_sub_spec() ==> r == a.sub_spec(b),
            { a - b };
        self.zip_to_value(rhs, f);
        assert(T::obeys_sub_spec() ==> self@ =~= difference_seq(old(self)@, broadcast(old(self)@, rhs)));
    }

    /// `self[i] *= rhs[i]` at every position.
    pub fn mul_vec1<T2: Copy>(&mut self, rhs: &Vec1<T2>)
        where
            T: Mul<T2, Output = T>,
        requires
            old(self)@.len() == rhs@.len(),
            forall|i: int| 0 <= i < rhs@.len() ==> (#[trigger] old(self)@[i]).mul_req(rhs@[i]),
        ensures
            final(self)@.len() == old(self)@.len(),
            T::obeys_mul_spec() ==> final(self)@ == product_seq(old(self)@, rhs@),
    {
        let f = |a: T, b: T2| -> (r: T)
            requires
                a.mul_req(b),
            ensures
                T::obeys_mul_spec() ==> r == a.mul_spec(b),
            { a * b };
        self.zip_to_vec1(rhs, f);
        assert(T::obeys_mul_spec() ==> self@ =~= product_seq(old(self)@, rhs@));
    }

    /// `self[i] *= rhs` at every position.
    pub fn mul_value<T2: Copy>(&mut self, rhs: T2)
        where
            T: Mul<T2, Output = T>,
        requires
            forall|i: int| 0 <= i < old(self)@.len() ==> (#[trigger] old(self)@[i]).mul_req(rhs),
        ensures
            final(self)@.len() == old(self)@.len(),
            T::obeys_mul_spec() ==> final(self)@ == product_seq(old(self)@, broadcast(old(self)@, rhs)),
    {
        let f = |a: T, b: T2| -> (r: T)
            requires
                a.mul_req(b),
            ensures
                T::obeys_mul_spec() ==> r == a.mul_spec(b),
            { a * b };
        self.zip_to_value(rhs, f);
        assert(T::obeys_mul_spec() ==> self@ =~= product_seq(old(self)@, broadcast(old(self)@, rhs)));
    }

    /// `self[i] /= rhs[i]` at every position.
    pub fn div_vec1<T2: Copy>(&mut self, rhs: &Vec1<T2>)
        where
            T: Div<T2, Output = T>,
        requires
            old(self)@.len() == rhs@.len(),
            forall|i: int| 0 <= i < rhs@.len() ==> (#[trigger] old(self)@[i]).div_req(rhs@[i]),
        ensures
            final(self)@.len() == old(self)@.len(),
            T::obeys_div_spec() ==> final(self)@ == quotient_seq(old(self)@, rhs@),
    {
        let f = |a: T, b: T2| -> (r: T)
            requires
                a.div_req(b),
            ensures
                T::obeys_div_spec() ==> r == a.div_spec(b),
            { a / b };
        self.zip_to_vec1(rhs, f);
        assert(T::obeys_div_spec() ==> self@ =~= quotient_seq(old(self)@, rhs@));
    }

    /// `self[i] /= rhs` at every position.
    pub fn div_value<T2: Copy>(&mut self, rhs: T2)
        where
            T: Div<T2, Output = T>,
        requires
            forall|i: int| 0 <= i < old(self)@.len() ==> (#[trigger] old(self)@[i]).div_req(rhs),
        ensures
            final(self)@.len() == old(self)@.len(),
            T::obeys_div_spec() ==> final(self)@ == quotient_seq(old(self)@, broadcast(old(self)@, rhs)),
    {
        let f = |a: T, b: T2| -> (r: T)
            requires
                a.div_req(b),
            ensures
                T::obeys_div_spec() ==> r == a.div_spec(b),
            { a / b };
        self.zip_to_value(rhs, f);
        assert(T::obeys_div_spec() ==> self@ =~= quotient_seq(old(self)@, broadcast(old(self)@, rhs)));
    }

    /// `self[i] += a[i] * b[i]` at every position, for `VMul(a, b)`, in one pass.
    pub fn add_mul_vec1<'a, T2: Copy, T3: Copy>(&mut self, rhs: VMul<'a, Vec1<T2>, Vec1<T3>>)
        where
            T: Add<T, Output = T>,
            T2: Mul<T3, Output = T>,
        requires
            T2::obeys_mul_spec(),
            old(self)@.len() == rhs.a@.len(),
            old(self)@.len() == rhs.b@.len(),
            forall|i: int|
                0 <= i < old(self)@.len() ==> (#[trigger] rhs.a@[i]).mul_req(rhs.b@[i])
                    && old(self)@[i].add_req(rhs.a@[i].mul_spec(rhs.b@[i])),
        ensures
            final(self)@.len() == old(self)@.len(),
            T::obeys_add_spec() ==> final(self)@ == sum_seq(old(self)@, product_seq(rhs.a@, rhs.b@)),
    {
        let f = |acc: T, b: T2, c: T3| -> (r: T)
            requires
                T2::obeys_mul_spec(),
                b.mul_req(c),
                acc.add_req(b.mul_spec(c)),
            ensures
                T::obeys_add_spec() ==> r == acc.add_spec(b.mul_spec(c)),
            { acc + b * c };
        self.zip_to_vec1_and_vec1(rhs.a, rhs.b, f);
        assert(T::obeys_add_spec() ==> self@ =~= sum_seq(old(self)@, product_seq(rhs.a@, rhs.b@)));
    }

    /// `self[i] += a[i] * b` at every position, for `VMul(a, b)` with a scalar `b`, in one pass.
    pub fn add_mul_value<'a, T2: Copy, T3: Copy>(&mut self, rhs: VMul<'a, Vec1<T2>, T3>)
        where
            T: Add<T, Output = T>,
            T2: Mul<T3, Output = T>,
        requires
            T2::obeys_mul_spec(),
            old(self)@.len() == rhs.a@.len(),
            forall|i: int|
                0 <= i < old(self)@.len() ==> (#[trigger] rhs.a@[i]).mul_req(*rhs.b)
                    && old(self)@[i].add_req(rhs.a@[i].mul_spec(*rhs.b)),
        ensures
            final(self)@.len() == old(self)@.len(),
            T::obeys_add_spec() ==> final(self)@ == sum_seq(
                old(self)@,
                product_seq(rhs.a@, broadcast(rhs.a@, *rhs.b)),
            ),
    {
        let f = |acc: T, b: T2, c: T3| -> (r: T)
            requires
                T2::obeys_mul_spec(),
                b.mul_req(c),
                acc.add_req(b.mul_spec(c)),
            ensures
                T::obeys_add_spec() ==> r == acc.add_spec(b.mul_spec(c)),
            { acc + b * c };
        self.zip_to_vec1_and_value(rhs.a, *rhs.b, f);
        assert(T::obeys_add_spec() ==> self@ =~= sum_seq(
            old(self)@,
            product_seq(rhs.a@, broadcast(rhs.a@, *rhs.b)),
        ));
    }

    /// `self[i] += a[i] / b[i]` at every position, for `VDiv(a, b)`, in one pass.
    pub fn add_div_vec1<'a, T2: Copy, T3: Copy>(&mut self, rhs: VDiv<'a, Vec1<T2>, Vec1<T3>>)
        where
            T: Add<T, Output = T>,
            T2: Div<T3, Output = T>,
        requires
            T2::obeys_div_spec(),
            old(self)@.len() == rhs.a@.len(),
            old(self)@.len() == rhs.b@.len(),
            forall|i: int|
                0 <= i < old(self)@.len() ==> (#[trigger] rhs.a@[i]).div_req(rhs.b@[i])
                    && old(self)@[i].add_req(rhs.a@[i].div_spec(rhs.b@[i])),
        ensures
            final(self)@.len() == old(self)@.len(),
            T::obeys_add_spec() ==> final(self)@ == sum_seq(old(self)@, quotient_seq(rhs.a@, rhs.b@)),
    {
        let f = |acc: T, b: T2, c: T3| -> (r: T)
            requires
                T2::obeys_div_spec(),
                b.div_req(c),
                acc.add_req(b.div_spec(c)),
            ensures
                T::obeys_add_spec() ==> r == acc.add_spec(b.div_spec(c)),
            { acc + b / c };
        self.zip_to_vec1_and_vec1(rhs.a, rhs.b, f);
        assert(T::obeys_add_spec() ==> self@ =~= sum_seq(old(self)@, quotient_seq(rhs.a@, rhs.b@)));
    }

    /// `self[i] += a[i] / b` at every position, for `VDiv(a, b)` with a scalar `b`, in one pass.
    pub fn add_div_value<'a, T2: Copy, T3: Copy>(&mut self, rhs: VDiv<'a, Vec1<T2>, T3>)
        where
            T: Add<T, Output = T>,
            T2: Div<T3, Output = T>,
        requires
            T2::obeys_div_spec(),
            old(self)@.len() == rhs.a@.len(),
            forall|i: int|
                0 <= i < old(self)@.len() ==> (#[trigger] rhs.a@[i]).div_req(*rhs.b)
                    && old(self)@[i].add_req(rhs.a@[i].div_spec(*rhs.b)),
        ensures
            final(self)@.len() == old(self)@.len(),
            T::obeys_add_spec() ==> final(self)@ == sum_seq(
                old(self)@,
                quotient_seq(rhs.a@, broadcast(rhs.a@, *rhs.b)),
            ),
    {
        let f = |acc: T, b: T2, c: T3| -> (r: T)
            requires
                T2::obeys_div_spec(),
                b.div_req(c),
                acc.add_req(b.div_spec(c)),
            ensures
                T::obeys_add_spec() ==> r == acc.add_spec(b.div_spec(c)),
            { acc + b / c };
        self.zip_to_vec1_and_value(rhs.a, *rhs.b, f);
        assert(T::obeys_add_spec() ==> self@ =~= sum_seq(
            old(self)@,
            quotient_seq(rhs.a@, broadcast(rhs.a@, *rhs.b)),
        ));
    }

    /// `self[i] -= a[i] * b[i]` at every position, for `VMul(a, b)`, in one pass.
    pub fn sub_mul_vec1<'a, T2: Copy, T3: Copy>(&mut self, rhs: VMul<'a, Vec1<T2>, Vec1<T3>>)
        where
            T: Sub<T, Output = T>,
            T2: Mul<T3, Output = T>,
        requires
            T2::obeys_mul_spec(),
            old(self)@.len() == rhs.a@.len(),
            old(self)@.len() == rhs.b@.len(),
            forall|i: int|
                0 <= i < old(self)@.len() ==> (#[trigger] rhs.a@[i]).mul_req(rhs.b@[i])
                    && old(self)@[i].sub_req(rhs.a@[i].mul_spec(rhs.b@[i])),
        ensures
            final(self)@.len() == old(self)@.len(),
            T::obeys_sub_spec() ==> final(self)@ == difference_seq(old(self)@, product_seq(rhs.a@, rhs.b@)),
    {
        let f = |acc: T, b: T2, c: T3| -> (r: T)
            requires
                T2::obeys_mul_spec(),
                b.mul_req(c),
                acc.sub_req(b.mul_spec(c)),
            ensures
                T::obeys_sub_spec() ==> r == acc.sub_spec(b.mul_spec(c)),
            { acc - b * c };
        self.zip_to_vec1_and_vec1(rhs.a, rhs.b, f);
        assert(T::obeys_sub_spec() ==> self@ =~= difference_seq(old(self)@, product_seq(rhs.a@, rhs.b@)));
    }

    /// `self[i] -= a[i] * b` at every position, for `VMul(a, b)` with a scalar `b`, in one pass.
    pub fn sub_mul_value<'a, T2: Copy, T3: Copy>(&mut self, rhs: VMul<'a, Vec1<T2>, T3>)
        where
            T: Sub<T, Output = T>,
            T2: Mul<T3, Output = T>,
        requires
            T2::obeys_mul_spec(),
            old(self)@.len() == rhs.a@.len(),
            forall|i: int|
                0 <= i < old(self)@.len() ==> (#[trigger] rhs.a@[i]).mul_req(*rhs.b)
                    && old(self)@[i].sub_req(rhs.a@[i].mul_spec(*rhs.b)),
        ensures
            final(self)@.len() == old(self)@.len(),
            T::obeys_sub_spec() ==> final(self)@ == difference_seq(
                old(self)@,
                product_seq(rhs.a@, broadcast(rhs.a@, *rhs.b)),
            ),
    {
        let f = |acc: T, b: T2, c: T3| -> (r: T)
            requires
                T2::obeys_mul_spec(),
                b.mul_req(c),
                acc.sub_req(b.mul_spec(c)),
            ensures
                T::obeys_sub_spec() ==> r == acc.sub_spec(b.mul_spec(c)),
            { acc - b * c };
        self.zip_to_vec1_and_value(rhs.a, *rhs.b, f);
        assert(T::obeys_sub_spec() ==> self@ =~= difference_seq(
            old(self)@,
            product_seq(rhs.a@, broadcast(rhs.a@, *rhs.b)),
        ));
    }

    /// `self[i] -= a[i] / b[i]` at every position, for `VDiv(a, b)`, in one pass.
    pub fn sub_div_vec1<'a, T2: Copy, T3: Copy>(&mut self, rhs: VDiv<'a, Vec1<T2>, Vec1<T3>>)
        where
            T: Sub<T, Output = T>,
            T2: Div<T3, Output = T>,
        requires
            T2::obeys_div_spec(),
            old(self)@.len() == rhs.a@.len(),
            old(self)@.len() == rhs.b@.len(),
            forall|i: int|
                0 <= i < old(self)@.len() ==> (#[trigger] rhs.a@[i]).div_req(rhs.b@[i])
                    && old(self)@[i].sub_req(rhs.a@[i].div_spec(rhs.b@[i])),
        ensures
            final(self)@.len() == old(self)@.len(),
            T::obeys_sub_spec() ==> final(self)@ == difference_seq(old(self)@, quotient_seq(rhs.a@, rhs.b@)),
    {
        let f = |acc: T, b: T2, c: T3| -> (r: T)
            requires
                T2::obeys_div_spec(),
                b.div_req(c),
                acc.sub_req(b.div_spec(c)),
            ensures
                T::obeys_sub_spec() ==> r == acc.sub_spec(b.div_spec(c)),
            { acc - b / c };
        self.zip_to_vec1_and_vec1(rhs.a, rhs.b, f);
        assert(T::obeys_sub_spec() ==> self@ =~= difference_seq(old(self)@, quotient_seq(rhs.a@, rhs.b@)));
    }

    /// `self[i] -= a[i] / b` at every position, for `VDiv(a, b)` with a scalar `b`, in one pass.
    pub fn sub_div_value<'a, T2: Copy, T3: Copy>(&mut self, rhs: VDiv<'a, Vec1<T2>, T3>)
        where
            T: Sub<T, Output = T>,
            T2: Div<T3, Output = T>,
        requires
            T2::obeys_div_spec(),
            old(self)@.len() == rhs.a@.len(),
            forall|i: int|
                0 <= i < old(self)@.len() ==> (#[trigger] rhs.a@[i]).div_req(*rhs.b)
                    && old(self)@[i].sub_req(rhs.a@[i].div_spec(*rhs.b)),
        ensures
            final(self)@.len() == old(self)@.len(),
            T::obeys_sub_spec() ==> final(self)@ == difference_seq(
                old(self)@,
                quotient_seq(rhs.a@, broadcast(rhs.a@, *rhs.b)),
            ),
    {
        let f = |acc: T, b: T2, c: T3| -> (r: T)
            requires
                T2::obeys_div_spec(),
                b.div_req(c),
                acc.sub_req(b.div_spec(c)),
            ensures
                T::obeys_sub_spec() ==> r == acc.sub_spec(b.div_spec(c)),
            { acc - b / c };
        self.zip_to_vec1_and_value(rhs.a, *rhs.b, f);
        assert(T::obeys_sub_spec() ==> self@ =~= difference_seq(
            old(self)@,
            quotient_seq(rhs.a@, broadcast(rhs.a@, *rhs.b)),
        ));
    }
}

} // verus!
