//! What is known of the conversions that build a buffer from a caller's value.

use vstd::prelude::*;

verus! {

/// `std`'s identity conversion, `impl<T> From<T> for T`: it hands its
/// argument back unchanged.
pub assume_specification<A>[ <A as std::convert::From<A>>::from ](a: A) -> (r: A)
    ensures
        r == a,
;

/// `std`'s `impl<T, const N: usize> From<[T; N]> for Vec<T>`: the vector holds
/// the array's items, in the array's order.
pub assume_specification<A, const N: usize>[ <Vec<A> as std::convert::From<[A; N]>>::from ](
    a: [A; N],
) -> (v: Vec<A>)
    ensures
        v@ == a@,
;

/// `cells` is the content of a vector that `data.into()` may return.
pub open spec fn converts_to<T, D: Into<Vec<T>>>(data: D, cells: Seq<T>) -> bool {
    exists|buffer: Vec<T>| D::into.ensures((data,), buffer) && buffer@ == cells
}

} // verus!
