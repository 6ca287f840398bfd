//! A vector of elements and the dot product of two vectors.

use crate::convert::converts_to;
use crate::error::{Error, Operands};
use crate::inner_product::{
    dot, dot_in_range, is_zero, lemma_dot_commutes, lemma_in_range_shorter, obeys_arithmetic,
    partial, partial_in_range,
};
use std::ops::{Add, AddAssign, Deref, Mul};
use vstd::prelude::*;
use vstd::std_specs::ops::MulSpec;

verus! {

/// An immutable sequence of elements.
pub struct Vector<T> {
    data: Vec<T>,
}

impl<T> View for Vector<T> {
    type V = Seq<T>;

    closed spec fn view(&self) -> Seq<T> {
        self.data@
    }
}

impl<T> Vector<T> {
    /// A vector of the items that `data` converts to, in their order.
    pub fn new<D: Into<Vec<T>>>(data: D) -> (v: Self)
        ensures
            converts_to(data, v@),
    {
        Self { data: data.into() }
    }
}

/// Read-only access to the elements: length and indexing go through here.
impl<T> Deref for Vector<T> {
    type Target = Vec<T>;

    fn deref(&self) -> (items: &Vec<T>)
        ensures
            items@ == self@,
    {
        &self.data
    }
}

/// The dot product of two vectors of one length does not depend on their
/// order, where the multiplication of two elements does not.
pub proof fn lemma_dot_product_commutes<T: Add<Output = T> + Mul<Output = T>>(
    zero: T,
    a: Vector<T>,
    b: Vector<T>,
)
    requires
        a@.len() == b@.len(),
        forall|x: T, y: T| #[trigger] x.mul_spec(y) == y.mul_spec(x),
    ensures
        dot(zero, a@, b@) == dot(zero, b@, a@),
{
    lemma_dot_commutes(zero, a@, b@);
}

/// The dot product `a[0]*b[0] + ... + a[n-1]*b[n-1]` of two vectors of one
/// length `n`, summed from left to right onto the element type's default
/// value. Vectors of different lengths are refused.
///
/// That no `+` or `*` leaves what the element type allows is for the caller
/// to see to, and only where the lengths agree.
pub fn dot_product<T>(a: Vector<T>, b: Vector<T>) -> (r: Result<T, Error>) where
    T: Add<Output = T> + AddAssign + Mul<Output = T> + Copy + Default,

    requires
        a@.len() == b@.len() ==> obeys_arithmetic::<T>() && forall|zero: T|
            is_zero(zero) ==> dot_in_range(zero, a@, b@),
    ensures
        a@.len() != b@.len() ==> r == Err::<T, Error>(Error::DimensionMismatch(Operands::Vectors)),
        a@.len() == b@.len() ==> r is Ok && exists|zero: T|
            is_zero(zero) && r->Ok_0 == dot(zero, a@, b@),
{
    if a.len() != b.len() {
        return Err(Error::DimensionMismatch(Operands::Vectors));
    }
    let zero = T::default();
    assert(is_zero(zero));
    let mut result = zero;
    let mut i: usize = 0;
    while i < a.len()
        invariant
            i <= a@.len(),
            a@.len() == b@.len(),
            obeys_arithmetic::<T>(),
            partial_in_range(zero, a@, b@, a@.len()),
            result == partial(zero, a@, b@, i as nat),
        decreases a@.len() - i,
    {
        proof {
            lemma_in_range_shorter(zero, a@, b@, (i + 1) as nat, a@.len());
        }
        result = result + a[i] * b[i];
        i = i + 1;
    }
    Ok(result)
}

} // verus!
