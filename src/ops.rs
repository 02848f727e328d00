//! Deferred multiply / divide tokens, and sequence models of elementwise arithmetic.
use vstd::prelude::*;

use core::ops::{Add, Div, Mul, Sub};
use vstd::std_specs::ops::{AddSpec, DivSpec, MulSpec, SubSpec};

use crate::vecs::Vec2;

verus! {

/// A binary operation on one pair of elements, selected by the token type.
pub trait VecOp<T1, T2> {
    type Output;

    /// When the operation may run on `a` and `b`.
    spec fn op_req(a: T1, b: T2) -> bool;

    /// Whether `op_spec` models the operation exactly.
    spec fn obeys_op_spec() -> bool;

    /// The result of the operation on `a` and `b`.
    spec fn op_spec(a: T1, b: T2) -> Self::Output;

    fn function(a: T1, b: T2) -> (r: Self::Output)
        requires
            Self::op_req(a, b),
        ensures
            Self::obeys_op_spec() ==> r == Self::op_spec(a, b),
    ;
}

/// The unevaluated product `a * b`, consumed by an accumulating method.
#[derive(Debug, Copy, Clone)]
pub struct VMul<'a, A, B> {
    pub a: &'a A,
    pub b: &'a B,
}

/// The unevaluated quotient `a / b`, consumed by an accumulating method.
#[derive(Debug, Copy, Clone)]
pub struct VDiv<'a, A, B> {
    pub a: &'a A,
    pub b: &'a B,
}

impl<'a, A, B> VMul<'a, A, B> {
    pub fn new(a: &'a A, b: &'a B) -> (r: Self)
        ensures
            r.a == a,
            r.b == b,
    {
        VMul { a, b }
    }
}

impl<'a, A, B> VDiv<'a, A, B> {
    pub fn new(a: &'a A, b: &'a B) -> (r: Self)
        ensures
            r.a == a,
            r.b == b,
    {
        VDiv { a, b }
    }
}

impl<'a, A, B, T1: Copy + Mul<T2>, T2: Copy> VecOp<T1, T2> for VMul<'a, A, B> {
    type Output = T1::Output;

    open spec fn op_req(a: T1, b: T2) -> bool {
        a.mul_req(b)
    }

    open spec fn obeys_op_spec() -> bool {
        T1::obeys_mul_spec()
    }

    open spec fn op_spec(a: T1, b: T2) -> T1::Output {
        a.mul_spec(b)
    }

    fn function(a: T1, b: T2) -> (r: T1::Output) {
        a * b
    }
}

impl<'a, A, B, T1: Copy + Div<T2>, T2: Copy> VecOp<T1, T2> for VDiv<'a, A, B> {
    type Output = T1::Output;

    open spec fn op_req(a: T1, b: T2) -> bool {
        a.div_req(b)
    }

    open spec fn obeys_op_spec() -> bool {
        T1::obeys_div_spec()
    }

    open spec fn op_spec(a: T1, b: T2) -> T1::Output {
        a.div_spec(b)
    }

    fn function(a: T1, b: T2) -> (r: T1::Output) {
        a / b
    }
}

/// `a[i] + b[i]` at each position of `a`.
pub open spec fn sum_seq<A: Add<B, Output = A>, B>(a: Seq<A>, b: Seq<B>) -> Seq<A> {
    Seq::new(a.len(), |i: int| a[i].add_spec(b[i]))
}

/// `a[i] - b[i]` at each position of `a`.
pub open spec fn difference_seq<A: Sub<B, Output = A>, B>(a: Seq<A>, b: Seq<B>) -> Seq<A> {
    Seq::new(a.len(), |i: int| a[i].sub_spec(b[i]))
}

/// `a[i] * b[i]` at each position of `a`.
pub open spec fn product_seq<A: Mul<B>, B>(a: Seq<A>, b: Seq<B>) -> Seq<A::Output> {
    Seq::new(a.len(), |i: int| a[i].mul_spec(b[i]))
}

/// `a[i] / b[i]` at each position of `a`.
pub open spec fn quotient_seq<A: Div<B>, B>(a: Seq<A>, b: Seq<B>) -> Seq<A::Output> {
    Seq::new(a.len(), |i: int| a[i].div_spec(b[i]))
}

/// Every element of `a` with the same `b` on the right: the broadcast of a scalar.
pub open spec fn broadcast<A, B>(a: Seq<A>, b: B) -> Seq<B> {
    Seq::new(a.len(), |i: int| b)
}

/// `x[i] * x[i] + y[i] * y[i]` at each position of `x`.
pub open spec fn magnitude_squared_seq<T: Add<Output = T> + Mul<Output = T>>(x: Seq<T>, y: Seq<T>) -> Seq<T> {
    sum_seq(product_seq(x, x), product_seq(y, y))
}

/// Accumulating a deferred product in one pass (`add_mul_vec1`) gives what
/// two passes give: first the elementwise product `tmp[i] = b[i] * c[i]`
/// (`mul_vec1` on a copy of `b`), then `a[i] + tmp[i]` (`add_vec1`).
/// Each position holds `a[i] + b[i] * c[i]`.
pub proof fn lemma_fused_mul_add<T: Add<Output = T> + Mul<Output = T>>(a: Seq<T>, b: Seq<T>, c: Seq<T>)
    requires
        a.len() == b.len(),
        b.len() == c.len(),
    ensures
        ({
            let tmp = product_seq(b, c);
            &&& tmp.len() == a.len()
            &&& sum_seq(a, product_seq(b, c)) == sum_seq(a, tmp)
            &&& forall|i: int|
                0 <= i < a.len() ==> #[trigger] sum_seq(a, tmp)[i] == a[i].add_spec(b[i].mul_spec(c[i]))
        }),
{
}

/// Scaling the vectors of `v` by a nonzero `s` (`mul_value`) and then dividing
/// them by `s` (`div_value`) gives back `v`, for unsigned integer components
/// whose products with `s` do not overflow.
pub proof fn lemma_scale_round_trip(v: Vec2<u64>, s: u64)
    requires
        v.wf(),
        s != 0,
        forall|i: int| 0 <= i < v.spec_len() ==> (#[trigger] v.x@[i]).mul_req(s) && v.y@[i].mul_req(s),
    ensures
        ({
            let sx = product_seq(v.x@, broadcast(v.x@, s));
            let sy = product_seq(v.y@, broadcast(v.y@, s));
            quotient_seq(sx, broadcast(sx, s)) == v.x@ && quotient_seq(sy, broadcast(sy, s)) == v.y@
        }),
{
    let sx = product_seq(v.x@, broadcast(v.x@, s));
    let sy = product_seq(v.y@, broadcast(v.y@, s));
    assert forall|i: int| 0 <= i < v.spec_len() implies #[trigger] quotient_seq(sx, broadcast(sx, s))[i]
        == v.x@[i] by {
        let a = v.x@[i];
        assert(v.x@[i].mul_req(s));
        assert((a * s) / (s as int) == a) by (nonlinear_arith)
            requires
                s != 0,
        ;
    }
    assert forall|i: int| 0 <= i < v.spec_len() implies #[trigger] quotient_seq(sy, broadcast(sy, s))[i]
        == v.y@[i] by {
        let a = v.y@[i];
        assert(v.x@[i].mul_req(s));
        assert((a * s) / (s as int) == a) by (nonlinear_arith)
            requires
                s != 0,
        ;
    }
    assert(quotient_seq(sx, broadcast(sx, s)) =~= v.x@);
    assert(quotient_seq(sy, broadcast(sy, s)) =~= v.y@);
}

} // verus!
