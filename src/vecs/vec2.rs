use vstd::prelude::*;

use super::Vec1;
use crate::ops::{broadcast, difference_seq, product_seq, quotient_seq, sum_seq, VDiv, VMul};
use core::ops::{Add, Div, Mul, Sub};
use vstd::std_specs::ops::{AddSpec, DivSpec, MulSpec, SubSpec};

verus! {

/// `n` two-component vectors, stored as a column of `x` and a column of `y`.
#[derive(Debug, Clone, PartialEq)]
pub struct Vec2<T> {
    pub x: Vec1<T>,
    pub y: Vec1<T>,
}

impl<T> Vec2<T> {
    /// The two columns have the same length.
    pub open spec fn wf(&self) -> bool {
        self.x@.len() == self.y@.len()
    }

    /// The number of vectors held.
    pub open spec fn spec_len(&self) -> nat {
        self.x@.len()
    }
}

impl<T: Copy> Vec2<T> {
    /// Replaces every component `c` of every vector by `f(c, rhs)`.
    pub fn zip_to_value<T2: Copy, F: Fn(T, T2) -> T>(&mut self, rhs: T2, f: F)
        requires
            old(self).wf(),
            forall|i: int| 0 <= i < old(self).x@.len() ==> f.requires((old(self).x@[i], rhs)),
            forall|i: int| 0 <= i < old(self).y@.len() ==> f.requires((old(self).y@[i], rhs)),
        ensures
            final(self).wf(),
            final(self).spec_len() == old(self).spec_len(),
            forall|i: int|
                0 <= i < old(self).x@.len() ==> f.ensures((old(self).x@[i], rhs), #[trigger] final(self).x@[i]),
            forall|i: int|
                0 <= i < old(self).y@.len() ==> f.ensures((old(self).y@[i], rhs), #[trigger] final(self).y@[i]),
    {
        self.x.zip_to_value(rhs, &f);
        self.y.zip_to_value(rhs, &f);
    }
}

impl<T> Default for Vec2<T> {
    fn default() -> (r: Self)
        ensures
            r.wf(),
            r.x@ == Seq::<T>::empty(),
            r.y@ == Seq::<T>::empty(),
    {
        Vec2 { x: Vec1::new(), y: Vec1::new() }
    }
}

impl<T: Default> Vec2<T> {
    /// `len` vectors of default components.
    pub fn default_with_len(len: usize) -> (r: Self)
        ensures
            r.wf(),
            r.spec_len() == len,
    {
        Vec2 { x: Vec1::default_with_len(len), y: Vec1::default_with_len(len) }
    }
}

/// `&a * &b` on a `Vec2` and a `Vec1` defers the product, to be consumed by an
/// accumulating method.
impl<'a, T1: Mul<T2>, T2> Mul<&'a Vec1<T2>> for &'a Vec2<T1> {
    type Output = VMul<'a, Vec2<T1>, Vec1<T2>>;

    fn mul(self, rhs: &'a Vec1<T2>) -> (r: VMul<'a, Vec2<T1>, Vec1<T2>>) {
        VMul::new(self, rhs)
    }
}

impl<'a, T1: Mul<T2>, T2> vstd::std_specs::ops::MulSpecImpl<&'a Vec1<T2>> for &'a Vec2<T1> {
    open spec fn obeys_mul_spec() -> bool {
        true
    }

    open spec fn mul_req(self, rhs: &'a Vec1<T2>) -> bool {
        true
    }

    open spec fn mul_spec(self, rhs: &'a Vec1<T2>) -> VMul<'a, Vec2<T1>, Vec1<T2>> {
        VMul { a: self, b: rhs }
    }
}

impl<T> Vec2<T> {
    /// No vectors.
    pub fn new() -> (r: Self)
        ensures
            r.wf(),
            r.x@ == Seq::<T>::empty(),
            r.y@ == Seq::<T>::empty(),
    {
        Vec2 { x: Vec1::new(), y: Vec1::new() }
    }

    pub fn len(&self) -> (r: usize)
        ensures
            r == self.spec_len(),
    {
        self.x.len()
    }

    pub fn is_empty(&self) -> (r: bool)
        ensures
            r <==> self.spec_len() == 0,
    {
        self.len() == 0
    }

    /// Mutable references to the two components of the vector at `index`,
    /// when both columns hold it.
    pub fn get_mut(&mut self, index: usize) -> (r: Option<(&mut T, &mut T)>)
        ensures
            index < old(self).x@.len() && index < old(self).y@.len() ==> match r {
                Some((xr, yr)) => *xr == old(self).x@[index as int] && *yr == old(self).y@[index as int]
                    && final(self).x@ == old(self).x@.update(index as int, *final(xr))
                    && final(self).y@ == old(self).y@.update(index as int, *final(yr)),
                None => false,
            },
            !(index < old(self).x@.len() && index < old(self).y@.len()) ==> r is None
                && final(self).x@ == old(self).x@ && final(self).y@ == old(self).y@,
    {
        if index < self.x.len() && index < self.y.len() {
            Some((&mut self.x.values[index], &mut self.y.values[index]))
        } else {
            None
        }
    }

    /// The two components of the vector at `index`, when both columns hold it.
    pub fn get(&self, index: usize) -> (r: Option<(&T, &T)>)
        ensures
            index < self.x@.len() && index < self.y@.len() ==> r == Some(
                (&self.x@[index as int], &self.y@[index as int]),
            ),
            !(index < self.x@.len() && index < self.y@.len()) ==> r is None,
    {
        match self.x.get(index) {
            Some(x) => match self.y.get(index) {
                Some(y) => Some((x, y)),
                None => None,
            },
            None => None,
        }
    }

    /// Sets the vector at `index` to (`x_value`, `y_value`), appends it when
    /// `index` is the length, and changes nothing when `index` lies beyond the end.
    /// Both columns are always updated together.
    pub fn insert(&mut self, x_value: T, y_value: T, index: usize)
        requires
            old(self).wf(),
        ensures
            final(self).wf(),
            index < old(self).spec_len() ==> final(self).x@ == old(self).x@.update(index as int, x_value)
                && final(self).y@ == old(self).y@.update(index as int, y_value),
            index == old(self).spec_len() ==> final(self).x@ == old(self).x@.push(x_value)
                && final(self).y@ == old(self).y@.push(y_value),
            index > old(self).spec_len() ==> final(self).x@ == old(self).x@ && final(self).y@ == old(
                self,
            ).y@,
    {
        let n = self.len();
        if index <= n {
            self.x.insert(x_value, index);
            self.y.insert(y_value, index);
        }
    }
}

impl<T: Copy> Vec2<T> {
    /// Replaces each vector (`x`, `y`) by `f(x, y, rhs)`.
    pub fn zip_both_to_value<T2: Copy, F: Fn(T, T, T2) -> (T, T)>(&mut self, rhs: T2, f: F)
        requires
            old(self).wf(),
            forall|i: int| 0 <= i < old(self).spec_len() ==> f.requires((old(self).x@[i], old(self).y@[i], rhs)),
        ensures
            final(self).wf(),
            final(self).spec_len() == old(self).spec_len(),
            forall|i: int|
                0 <= i < old(self).spec_len() ==> f.ensures(
                    (old(self).x@[i], old(self).y@[i], rhs),
                    (#[trigger] final(self).x@[i], final(self).y@[i]),
                ),
    {
        let ghost sx = self.x@;
        let ghost sy = self.y@;
        let n = self.len();
        let mut i: usize = 0;
        while i < n
            invariant
                n == sx.len(),
                sx.len() == sy.len(),
                self.x@.len() == n,
                self.y@.len() == n,
                0 <= i <= n,
                forall|j: int| 0 <= j < n ==> f.requires((sx[j], sy[j], rhs)),
                forall|j: int| 0 <= j < i ==> f.ensures((sx[j], sy[j], rhs), (#[trigger] self.x@[j], self.y@[j])),
                forall|j: int| i <= j < n ==> self.x@[j] == sx[j] && self.y@[j] == sy[j],
            decreases n - i,
        {
            let (a, b) = f(self.x.values[i], self.y.values[i], rhs);
            self.x.values.set(i, a);
            self.y.values.set(i, b);
            i += 1;
        }
    }

    /// Replaces each component `c` at position `i`, in both columns, by `f(c, rhs[i])`.
    pub fn zip_to_vec1<T2: Copy, F: Fn(T, T2) -> T>(&mut self, rhs: &Vec1<T2>, f: F)
        requires
            old(self).wf(),
            old(self).spec_len() == rhs@.len(),
            forall|i: int| 0 <= i < rhs@.len() ==> f.requires((old(self).x@[i], rhs@[i])),
            forall|i: int| 0 <= i < rhs@.len() ==> f.requires((old(self).y@[i], rhs@[i])),
        ensures
            final(self).wf(),
            final(self).spec_len() == old(self).spec_len(),
            forall|i: int|
                0 <= i < rhs@.len() ==> f.ensures((old(self).x@[i], rhs@[i]), #[trigger] final(self).x@[i]),
            forall|i: int|
                0 <= i < rhs@.len() ==> f.ensures((old(self).y@[i], rhs@[i]), #[trigger] final(self).y@[i]),
    {
        self.x.zip_to_vec1(rhs, &f);
        self.y.zip_to_vec1(rhs, &f);
    }

    /// Replaces each vector (`x`, `y`) at position `i` by `f(x, y, rhs[i])`.
    pub fn zip_both_to_vec1<T2: Copy, F: Fn(T, T, T2) -> (T, T)>(&mut self, rhs: &Vec1<T2>, f: F)
        requires
            old(self).wf(),
            old(self).spec_len() == rhs@.len(),
            forall|i: int| 0 <= i < rhs@.len() ==> f.requires((old(self).x@[i], old(self).y@[i], rhs@[i])),
        ensures
            final(self).wf(),
            final(self).spec_len() == old(self).spec_len(),
            forall|i: int|
                0 <= i < rhs@.len() ==> f.ensures(
                    (old(self).x@[i], old(self).y@[i], rhs@[i]),
                    (#[trigger] final(self).x@[i], final(self).y@[i]),
                ),
    {
        let ghost sx = self.x@;
        let ghost sy = self.y@;
        let n = self.len();
        let mut i: usize = 0;
        while i < n
            invariant
                n == sx.len(),
                sx.len() == sy.len(),
                rhs@.len() == n,
                self.x@.len() == n,
                self.y@.len() == n,
                0 <= i <= n,
                forall|j: int| 0 <= j < n ==> f.requires((sx[j], sy[j], rhs@[j])),
                forall|j: int|
                    0 <= j < i ==> f.ensures((sx[j], sy[j], rhs@[j]), (#[trigger] self.x@[j], self.y@[j])),
                forall|j: int| i <= j < n ==> self.x@[j] == sx[j] && self.y@[j] == sy[j],
            decreases n - i,
        {
            let (a, b) = f(self.x.values[i], self.y.values[i], rhs.values[i]);
            self.x.values.set(i, a);
            self.y.values.set(i, b);
            i += 1;
        }
    }

    /// Replaces each component `c` by `f(c, d)`, where `d` is the matching
    /// component of `rhs`.
    pub fn zip_to_vec2<T2: Copy, F: Fn(T, T2) -> T>(&mut self, rhs: &Vec2<T2>, f: F)
        requires
            old(self).wf(),
            rhs.wf(),
            old(self).spec_len() == rhs.spec_len(),
            forall|i: int| 0 <= i < rhs.spec_len() ==> f.requires((old(self).x@[i], rhs.x@[i])),
            forall|i: int| 0 <= i < rhs.spec_len() ==> f.requires((old(self).y@[i], rhs.y@[i])),
        ensures
            final(self).wf(),
            final(self).spec_len() == old(self).spec_len(),
            forall|i: int|
                0 <= i < rhs.spec_len() ==> f.ensures((old(self).x@[i], rhs.x@[i]), #[trigger] final(self).x@[i]),
            forall|i: int|
                0 <= i < rhs.spec_len() ==> f.ensures((old(self).y@[i], rhs.y@[i]), #[trigger] final(self).y@[i]),
    {
        self.x.zip_to_vec1(&rhs.x, &f);
        self.y.zip_to_vec1(&rhs.y, &f);
    }

    /// Replaces each vector (`x`, `y`) at position `i` by `f(x, y, rhs.x[i], rhs.y[i])`.
    pub fn zip_both_to_vec2<T2: Copy, F: Fn(T, T, T2, T2) -> (T, T)>(&mut self, rhs: &Vec2<T2>, f: F)
        requires
            old(self).wf(),
            rhs.wf(),
            old(self).spec_len() == rhs.spec_len(),
            forall|i: int|
                0 <= i < rhs.spec_len() ==> f.requires((old(self).x@[i], old(self).y@[i], rhs.x@[i], rhs.y@[i])),
        ensures
            final(self).wf(),
            final(self).spec_len() == old(self).spec_len(),
            forall|i: int|
                0 <= i < rhs.spec_len() ==> f.ensures(
                    (old(self).x@[i], old(self).y@[i], rhs.x@[i], rhs.y@[i]),
                    (#[trigger] final(self).x@[i], final(self).y@[i]),
                ),
    {
        let ghost sx = self.x@;
        let ghost sy = self.y@;
        let n = self.len();
        let mut i: usize = 0;
        while i < n
            invariant
                n == sx.len(),
                sx.len() == sy.len(),
                rhs.wf(),
                rhs.spec_len() == n,
                self.x@.len() == n,
                self.y@.len() == n,
                0 <= i <= n,
                forall|j: int| 0 <= j < n ==> f.requires((sx[j], sy[j], rhs.x@[j], rhs.y@[j])),
                forall|j: int|
                    0 <= j < i ==> f.ensures(
                        (sx[j], sy[j], rhs.x@[j], rhs.y@[j]),
                        (#[trigger] self.x@[j], self.y@[j]),
                    ),
                forall|j: int| i <= j < n ==> self.x@[j] == sx[j] && self.y@[j] == sy[j],
            decreases n - i,
        {
            let (a, b) = f(self.x.values[i], self.y.values[i], rhs.x.values[i], rhs.y.values[i]);
            self.x.values.set(i, a);
            self.y.values.set(i, b);
            i += 1;
        }
    }

    /// Replaces each component `c` by `f(c, d, value)`, where `d` is the
    /// matching component of `vec2`.
    pub fn zip_to_vec2_and_value<T2: Copy, T3: Copy, F: Fn(T, T2, T3) -> T>(
        &mut self,
        vec2: &Vec2<T2>,
        value: T3,
        f: F,
    )
        requires
            old(self).wf(),
            vec2.wf(),
            old(self).spec_len() == vec2.spec_len(),
            forall|i: int| 0 <= i < vec2.spec_len() ==> f.requires((old(self).x@[i], vec2.x@[i], value)),
            forall|i: int| 0 <= i < vec2.spec_len() ==> f.requires((old(self).y@[i], vec2.y@[i], value)),
        ensures
            final(self).wf(),
            final(self).spec_len() == old(self).spec_len(),
            forall|i: int|
                0 <= i < vec2.spec_len() ==> f.ensures(
                    (old(self).x@[i], vec2.x@[i], value),
                    #[trigger] final(self).x@[i],
                ),
            forall|i: int|
                0 <= i < vec2.spec_len() ==> f.ensures(
                    (old(self).y@[i], vec2.y@[i], value),
                    #[trigger] final(self).y@[i],
                ),
    {
        self.x.zip_to_vec1_and_value(&vec2.x, value, &f);
        self.y.zip_to_vec1_and_value(&vec2.y, value, &f);
    }

    /// Replaces each component `c` at position `i` by `f(c, d, vec1[i])`, where
    /// `d` is the matching component of `vec2`.
    pub fn zip_to_vec2_and_vec1<T2: Copy, T3: Copy, F: Fn(T, T2, T3) -> T>(
        &mut self,
        vec2: &Vec2<T2>,
        vec1: &Vec1<T3>,
        f: F,
    )
        requires
            old(self).wf(),
            vec2.wf(),
            old(self).spec_len() == vec2.spec_len(),
            old(self).spec_len() == vec1@.len(),
            forall|i: int| 0 <= i < vec1@.len() ==> f.requires((old(self).x@[i], vec2.x@[i], vec1@[i])),
            forall|i: int| 0 <= i < vec1@.len() ==> f.requires((old(self).y@[i], vec2.y@[i], vec1@[i])),
        ensures
            final(self).wf(),
            final(self).spec_len() == old(self).spec_len(),
            forall|i: int|
                0 <= i < vec1@.len() ==> f.ensures(
                    (old(self).x@[i], vec2.x@[i], vec1@[i]),
                    #[trigger] final(self).x@[i],
                ),
            forall|i: int|
                0 <= i < vec1@.len() ==> f.ensures(
                    (old(self).y@[i], vec2.y@[i], vec1@[i]),
                    #[trigger] final(self).y@[i],
                ),
    {
        self.x.zip_to_vec1_and_vec1(&vec2.x, vec1, &f);
        self.y.zip_to_vec1_and_vec1(&vec2.y, vec1, &f);
    }

    /// Replaces each vector (`x`, `y`) at position `i` by
    /// `f(x, y, vec2.x[i], vec2.y[i], value)`.
    pub fn zip_both_to_vec2_and_value<T2: Copy, T3: Copy, F: Fn(T, T, T2, T2, T3) -> (T, T)>(
        &mut self,
        vec2: &Vec2<T2>,
        value: T3,
        f: F,
    )
        requires
            old(self).wf(),
            vec2.wf(),
            old(self).spec_len() == vec2.spec_len(),
            forall|i: int|
                0 <= i < vec2.spec_len() ==> f.requires(
                    (old(self).x@[i], old(self).y@[i], vec2.x@[i], vec2.y@[i], value),
                ),
        ensures
            final(self).wf(),
            final(self).spec_len() == old(self).spec_len(),
            forall|i: int|
                0 <= i < vec2.spec_len() ==> f.ensures(
                    (old(self).x@[i], old(self).y@[i], vec2.x@[i], vec2.y@[i], value),
                    (#[trigger] final(self).x@[i], final(self).y@[i]),
                ),
    {
        let ghost sx = self.x@;
        let ghost sy = self.y@;
        let n = self.len();
        let mut i: usize = 0;
        while i < n
            invariant
                n == sx.len(),
                sx.len() == sy.len(),
                vec2.wf(),
                vec2.spec_len() == n,
                self.x@.len() == n,
                self.y@.len() == n,
                0 <= i <= n,
                forall|j: int| 0 <= j < n ==> f.requires((sx[j], sy[j], vec2.x@[j], vec2.y@[j], value)),
                forall|j: int|
                    0 <= j < i ==> f.ensures(
                        (sx[j], sy[j], vec2.x@[j], vec2.y@[j], value),
                        (#[trigger] self.x@[j], self.y@[j]),
                    ),
                forall|j: int| i <= j < n ==> self.x@[j] == sx[j] && self.y@[j] == sy[j],
            decreases n - i,
        {
            let (a, b) = f(
                self.x.values[i],
                self.y.values[i],
                vec2.x.values[i],
                vec2.y.values[i],
                value,
            );
            self.x.values.set(i, a);
            self.y.values.set(i, b);
            i += 1;
        }
    }

    /// Replaces each vector (`x`, `y`) at position `i` by
    /// `f(x, y, vec2.x[i], vec2.y[i], vec1[i])`.
    pub fn zip_both_to_vec2_and_vec1<T2: Copy, T3: Copy, F: Fn(T, T, T2, T2, T3) -> (T, T)>(
        &mut self,
        vec2: &Vec2<T2>,
        vec1: &Vec1<T3>,
        f: F,
    )
        requires
            old(self).wf(),
            vec2.wf(),
            old(self).spec_len() == vec2.spec_len(),
            old(self).spec_len() == vec1@.len(),
            forall|i: int|
                0 <= i < vec1@.len() ==> f.requires(
                    (old(self).x@[i], old(self).y@[i], vec2.x@[i], vec2.y@[i], vec1@[i]),
                ),
        ensures
            final(self).wf(),
            final(self).spec_len() == old(self).spec_len(),
            forall|i: int|
                0 <= i < vec1@.len() ==> f.ensures(
                    (old(self).x@[i], old(self).y@[i], vec2.x@[i], vec2.y@[i], vec1@[i]),
                    (#[trigger] final(self).x@[i], final(self).y@[i]),
                ),
    {
        let ghost sx = self.x@;
        let ghost sy = self.y@;
        let n = self.len();
        let mut i: usize = 0;
        while i < n
            invariant
                n == sx.len(),
                sx.len() == sy.len(),
                vec2.wf(),
                vec2.spec_len() == n,
                vec1@.len() == n,
                self.x@.len() == n,
                self.y@.len() == n,
                0 <= i <= n,
                forall|j: int| 0 <= j < n ==> f.requires((sx[j], sy[j], vec2.x@[j], vec2.y@[j], vec1@[j])),
                forall|j: int|
                    0 <= j < i ==> f.ensures(
                        (sx[j], sy[j], vec2.x@[j], vec2.y@[j], vec1@[j]),
                        (#[trigger] self.x@[j], self.y@[j]),
                    ),
                forall|j: int| i <= j < n ==> self.x@[j] == sx[j] && self.y@[j] == sy[j],
            decreases n - i,
        {
            let (a, b) = f(
                self.x.values[i],
                self.y.values[i],
                vec2.x.values[i],
                vec2.y.values[i],
                vec1.values[i],
            );
            self.x.values.set(i, a);
            self.y.values.set(i, b);
            i += 1;
        }
    }
}


impl<T: Copy> Vec2<T> {
    /// `self.x[i] += rhs.x[i]` and `self.y[i] += rhs.y[i]` at every position.
    pub fn add_vec2<T2: Copy>(&mut self, rhs: &Vec2<T2>)
        where
            T: Add<T2, Output = T>,
        requires
            old(self).wf(),
            rhs.wf(),
            old(self).spec_len() == rhs.spec_len(),
            forall|i: int| 0 <= i < rhs.spec_len() ==> (#[trigger] old(self).x@[i]).add_req(rhs.x@[i]),
            forall|i: int| 0 <= i < rhs.spec_len() ==> (#[trigger] old(self).y@[i]).add_req(rhs.y@[i]),
        ensures
            final(self).wf(),
            final(self).spec_len() == old(self).spec_len(),
            T::obeys_add_spec() ==> final(self).x@ == sum_seq(old(self).x@, rhs.x@),
            T::obeys_add_spec() ==> final(self).y@ == sum_seq(old(self).y@, rhs.y@),
    {
        self.x.add_vec1(&rhs.x);
        self.y.add_vec1(&rhs.y);
    }

    /// `self.x[i] -= rhs.x[i]` and `self.y[i] -= rhs.y[i]` at every position.
    pub fn sub_vec2<T2: Copy>(&mut self, rhs: &Vec2<T2>)
        where
            T: Sub<T2, Output = T>,
        requires
            old(self).wf(),
            rhs.wf(),
            old(self).spec_len() == rhs.spec_len(),
            forall|i: int| 0 <= i < rhs.spec_len() ==> (#[trigger] old(self).x@[i]).sub_req(rhs.x@[i]),
            forall|i: int| 0 <= i < rhs.spec_len() ==> (#[trigger] old(self).y@[i]).sub_req(rhs.y@[i]),
        ensures
            final(self).wf(),
            final(self).spec_len() == old(self).spec_len(),
            T::obeys_sub_spec() ==> final(self).x@ == difference_seq(old(self).x@, rhs.x@),
            T::obeys_sub_spec() ==> final(self).y@ == difference_seq(old(self).y@, rhs.y@),
    {
        self.x.sub_vec1(&rhs.x);
        self.y.sub_vec1(&rhs.y);
    }

    /// `self.x[i] *= rhs[i]` and `self.y[i] *= rhs[i]` at every position.
    pub fn mul_vec1<T2: Copy>(&mut self, rhs: &Vec1<T2>)
        where
            T: Mul<T2, Output = T>,
        requires
            old(self).wf(),
            old(self).spec_len() == rhs@.len(),
            forall|i: int| 0 <= i < rhs@.len() ==> (#[trigger] old(self).x@[i]).mul_req(rhs@[i]),
            forall|i: int| 0 <= i < rhs@.len() ==> (#[trigger] old(self).y@[i]).mul_req(rhs@[i]),
        ensures
            final(self).wf(),
            final(self).spec_len() == old(self).spec_len(),
            T::obeys_mul_spec() ==> final(self).x@ == product_seq(old(self).x@, rhs@),
            T::obeys_mul_spec() ==> final(self).y@ == product_seq(old(self).y@, rhs@),
    {
        self.x.mul_vec1(rhs);
        self.y.mul_vec1(rhs);
    }

    /// Every component *= `rhs`.
    pub fn mul_value<T2: Copy>(&mut self, rhs: T2)
        where
            T: Mul<T2, Output = T>,
        requires
            old(self).wf(),
            forall|i: int| 0 <= i < old(self).spec_len() ==> (#[trigger] old(self).x@[i]).mul_req(rhs),
            forall|i: int| 0 <= i < old(self).spec_len() ==> (#[trigger] old(self).y@[i]).mul_req(rhs),
        ensures
            final(self).wf(),
            final(self).spec_len() == old(self).spec_len(),
            T::obeys_mul_spec() ==> final(self).x@ == product_seq(old(self).x@, broadcast(old(self).x@, rhs)),
            T::obeys_mul_spec() ==> final(self).y@ == product_seq(old(self).y@, broadcast(old(self).y@, rhs)),
    {
        self.x.mul_value(rhs);
        self.y.mul_value(rhs);
    }

    /// `self.x[i] /= rhs[i]` and `self.y[i] /= rhs[i]` at every position.
    pub fn div_vec1<T2: Copy>(&mut self, rhs: &Vec1<T2>)
        where
            T: Div<T2, Output = T>,
        requires
            old(self).wf(),
            old(self).spec_len() == rhs@.len(),
            forall|i: int| 0 <= i < rhs@.len() ==> (#[trigger] old(self).x@[i]).div_req(rhs@[i]),
            forall|i: int| 0 <= i < rhs@.len() ==> (#[trigger] old(self).y@[i]).div_req(rhs@[i]),
        ensures
            final(self).wf(),
            final(self).spec_len() == old(self).spec_len(),
            T::obeys_div_spec() ==> final(self).x@ == quotient_seq(old(self).x@, rhs@),
            T::obeys_div_spec() ==> final(self).y@ == quotient_seq(old(self).y@, rhs@),
    {
        self.x.div_vec1(rhs);
        self.y.div_vec1(rhs);
    }

    /// Every component /= `rhs`.
    pub fn div_value<T2: Copy>(&mut self, rhs: T2)
        where
            T: Div<T2, Output = T>,
        requires
            old(self).wf(),
            forall|i: int| 0 <= i < old(self).spec_len() ==> (#[trigger] old(self).x@[i]).div_req(rhs),
            forall|i: int| 0 <= i < old(self).spec_len() ==> (#[trigger] old(self).y@[i]).div_req(rhs),
        ensures
            final(self).wf(),
            final(self).spec_len() == old(self).spec_len(),
            T::obeys_div_spec() ==> final(self).x@ == quotient_seq(old(self).x@, broadcast(old(self).x@, rhs)),
            T::obeys_div_spec() ==> final(self).y@ == quotient_seq(old(self).y@, broadcast(old(self).y@, rhs)),
    {
        self.x.div_value(rhs);
        self.y.div_value(rhs);
    }

    /// `self.x[i] += a.x[i] * b[i]` and `self.y[i] += a.y[i] * b[i]`, for
    /// `VMul(a, b)`, in one pass per column.
    pub fn add_mul_vec1<'a, T2: Copy, T3: Copy>(&mut self, rhs: VMul<'a, Vec2<T2>, Vec1<T3>>)
        where
            T: Add<T, Output = T>,
            T2: Mul<T3, Output = T>,
        requires
            T2::obeys_mul_spec(),
            old(self).wf(),
            rhs.a.wf(),
            old(self).spec_len() == rhs.a.spec_len(),
            old(self).spec_len() == rhs.b@.len(),
            forall|i: int|
                0 <= i < old(self).spec_len() ==> (#[trigger] rhs.a.x@[i]).mul_req(rhs.b@[i])
                    && old(self).x@[i].add_req(rhs.a.x@[i].mul_spec(rhs.b@[i])),
            forall|i: int|
                0 <= i < old(self).spec_len() ==> (#[trigger] rhs.a.y@[i]).mul_req(rhs.b@[i])
                    && old(self).y@[i].add_req(rhs.a.y@[i].mul_spec(rhs.b@[i])),
        ensures
            final(self).wf(),
            final(self).spec_len() == old(self).spec_len(),
            T::obeys_add_spec() ==> final(self).x@ == sum_seq(old(self).x@, product_seq(rhs.a.x@, rhs.b@)),
            T::obeys_add_spec() ==> final(self).y@ == sum_seq(old(self).y@, product_seq(rhs.a.y@, rhs.b@)),
    {
        self.x.add_mul_vec1(VMul::new(&rhs.a.x, rhs.b));
        self.y.add_mul_vec1(VMul::new(&rhs.a.y, rhs.b));
    }

    /// `self.x[i] += a.x[i] / b[i]` and `self.y[i] += a.y[i] / b[i]`, for
    /// `VDiv(a, b)`, in one pass per column.
    pub fn add_div_vec1<'a, T2: Copy, T3: Copy>(&mut self, rhs: VDiv<'a, Vec2<T2>, Vec1<T3>>)
        where
            T: Add<T, Output = T>,
            T2: Div<T3, Output = T>,
        requires
            T2::obeys_div_spec(),
            old(self).wf(),
            rhs.a.wf(),
            old(self).spec_len() == rhs.a.spec_len(),
            old(self).spec_len() == rhs.b@.len(),
            forall|i: int|
                0 <= i < old(self).spec_len() ==> (#[trigger] rhs.a.x@[i]).div_req(rhs.b@[i])
                    && old(self).x@[i].add_req(rhs.a.x@[i].div_spec(rhs.b@[i])),
            forall|i: int|
                0 <= i < old(self).spec_len() ==> (#[trigger] rhs.a.y@[i]).div_req(rhs.b@[i])
                    && old(self).y@[i].add_req(rhs.a.y@[i].div_spec(rhs.b@[i])),
        ensures
            final(self).wf(),
            final(self).spec_len() == old(self).spec_len(),
            T::obeys_add_spec() ==> final(self).x@ == sum_seq(old(self).x@, quotient_seq(rhs.a.x@, rhs.b@)),
            T::obeys_add_spec() ==> final(self).y@ == sum_seq(old(self).y@, quotient_seq(rhs.a.y@, rhs.b@)),
    {
        self.x.add_div_vec1(VDiv::new(&rhs.a.x, rhs.b));
        self.y.add_div_vec1(VDiv::new(&rhs.a.y, rhs.b));
    }

    /// `self.x[i] -= a.x[i] * b[i]` and `self.y[i] -= a.y[i] * b[i]`, for
    /// `VMul(a, b)`, in one pass per column.
    pub fn sub_mul_vec1<'a, T2: Copy, T3: Copy>(&mut self, rhs: VMul<'a, Vec2<T2>, Vec1<T3>>)
        where
            T: Sub<T, Output = T>,
            T2: Mul<T3, Output = T>,
        requires
            T2::obeys_mul_spec(),
            old(self).wf(),
            rhs.a.wf(),
            old(self).spec_len() == rhs.a.spec_len(),
            old(self).spec_len() == rhs.b@.len(),
            forall|i: int|
                0 <= i < old(self).spec_len() ==> (#[trigger] rhs.a.x@[i]).mul_req(rhs.b@[i])
                    && old(self).x@[i].sub_req(rhs.a.x@[i].mul_spec(rhs.b@[i])),
            forall|i: int|
                0 <= i < old(self).spec_len() ==> (#[trigger] rhs.a.y@[i]).mul_req(rhs.b@[i])
                    && old(self).y@[i].sub_req(rhs.a.y@[i].mul_spec(rhs.b@[i])),
        ensures
            final(self).wf(),
            final(self).spec_len() == old(self).spec_len(),
            T::obeys_sub_spec() ==> final(self).x@ == difference_seq(old(self).x@, product_seq(rhs.a.x@, rhs.b@)),
            T::obeys_sub_spec() ==> final(self).y@ == difference_seq(old(self).y@, product_seq(rhs.a.y@, rhs.b@)),
    {
        self.x.sub_mul_vec1(VMul::new(&rhs.a.x, rhs.b));
        self.y.sub_mul_vec1(VMul::new(&rhs.a.y, rhs.b));
    }

    /// `self.x[i] -= a.x[i] / b[i]` and `self.y[i] -= a.y[i] / b[i]`, for
    /// `VDiv(a, b)`, in one pass per column.
    pub fn sub_div_vec1<'a, T2: Copy, T3: Copy>(&mut self, rhs: VDiv<'a, Vec2<T2>, Vec1<T3>>)
        where
            T: Sub<T, Output = T>,
            T2: Div<T3, Output = T>,
        requires
            T2::obeys_div_spec(),
            old(self).wf(),
            rhs.a.wf(),
            old(self).spec_len() == rhs.a.spec_len(),
            old(self).spec_len() == rhs.b@.len(),
            forall|i: int|
                0 <= i < old(self).spec_len() ==> (#[trigger] rhs.a.x@[i]).div_req(rhs.b@[i])
                    && old(self).x@[i].sub_req(rhs.a.x@[i].div_spec(rhs.b@[i])),
            forall|i: int|
                0 <= i < old(self).spec_len() ==> (#[trigger] rhs.a.y@[i]).div_req(rhs.b@[i])
                    && old(self).y@[i].sub_req(rhs.a.y@[i].div_spec(rhs.b@[i])),
        ensures
            final(self).wf(),
            final(self).spec_len() == old(self).spec_len(),
            T::obeys_sub_spec() ==> final(self).x@ == difference_seq(old(self).x@, quotient_seq(rhs.a.x@, rhs.b@)),
            T::obeys_sub_spec() ==> final(self).y@ == difference_seq(old(self).y@, quotient_seq(rhs.a.y@, rhs.b@)),
    {
        self.x.sub_div_vec1(VDiv::new(&rhs.a.x, rhs.b));
        self.y.sub_div_vec1(VDiv::new(&rhs.a.y, rhs.b));
    }

    /// `self.x[i] += a.x[i] * b` and `self.y[i] += a.y[i] * b`, for `VMul(a, b)` with a
    /// scalar `b`, in one pass per column.
    pub fn add_mul_value<'a, T2: Copy, T3: Copy>(&mut self, rhs: VMul<'a, Vec2<T2>, T3>)
        where
            T: Add<T, Output = T>,
            T2: Mul<T3, Output = T>,
        requires
            T2::obeys_mul_spec(),
            old(self).wf(),
            rhs.a.wf(),
            old(self).spec_len() == rhs.a.spec_len(),
            forall|i: int|
                0 <= i < old(self).spec_len() ==> (#[trigger] rhs.a.x@[i]).mul_req(*rhs.b)
                    && old(self).x@[i].add_req(rhs.a.x@[i].mul_spec(*rhs.b)),
            forall|i: int|
                0 <= i < old(self).spec_len() ==> (#[trigger] rhs.a.y@[i]).mul_req(*rhs.b)
                    && old(self).y@[i].add_req(rhs.a.y@[i].mul_spec(*rhs.b)),
        ensures
            final(self).wf(),
            final(self).spec_len() == old(self).spec_len(),
            T::obeys_add_spec() ==> final(self).x@ == sum_seq(
                old(self).x@,
                product_seq(rhs.a.x@, broadcast(rhs.a.x@, *rhs.b)),
            ),
            T::obeys_add_spec() ==> final(self).y@ == sum_seq(
                old(self).y@,
                product_seq(rhs.a.y@, broadcast(rhs.a.y@, *rhs.b)),
            ),
    {
        self.x.add_mul_value(VMul::new(&rhs.a.x, rhs.b));
        self.y.add_mul_value(VMul::new(&rhs.a.y, rhs.b));
    }
}

} // verus!
