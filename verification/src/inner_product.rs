//! The inner product of two sequences, accumulated from left to right with the
//! element type's own `+` and `*`, starting from its default value.

use std::ops::{Add, Mul};
use vstd::prelude::*;
use vstd::std_specs::ops::{AddSpec, MulSpec};

verus! {

/// `z` is a value that `T::default()` may return: the element type's zero.
pub open spec fn is_zero<T: Default>(z: T) -> bool {
    T::default.ensures((), z)
}

/// The element type's `+` and `*` return what `add_spec` and `mul_spec` say.
pub open spec fn obeys_arithmetic<T: Add<Output = T> + Mul<Output = T>>() -> bool {
    T::obeys_add_spec() && T::obeys_mul_spec()
}

/// `zero + a[0]*b[0] + ... + a[n-1]*b[n-1]`, associated to the left.
pub open spec fn partial<T: Add<Output = T> + Mul<Output = T>>(
    zero: T,
    a: Seq<T>,
    b: Seq<T>,
    n: nat,
) -> T
    decreases n,
{
    if n == 0 {
        zero
    } else {
        partial(zero, a, b, (n - 1) as nat).add_spec(a[n - 1].mul_spec(b[n - 1]))
    }
}

/// The inner product of `a` and `b`, which are of one length.
pub open spec fn dot<T: Add<Output = T> + Mul<Output = T>>(zero: T, a: Seq<T>, b: Seq<T>) -> T {
    partial(zero, a, b, a.len())
}

/// Every `*` and `+` that `partial(zero, a, b, n)` performs is one that the
/// element type allows: for the machine integers, none of them overflows.
pub open spec fn partial_in_range<T: Add<Output = T> + Mul<Output = T>>(
    zero: T,
    a: Seq<T>,
    b: Seq<T>,
    n: nat,
) -> bool
    decreases n,
{
    n == 0 || {
        &&& partial_in_range(zero, a, b, (n - 1) as nat)
        &&& a[n - 1].mul_req(b[n - 1])
        &&& partial(zero, a, b, (n - 1) as nat).add_req(a[n - 1].mul_spec(b[n - 1]))
    }
}

/// Every operation of `dot(zero, a, b)` is one that the element type allows.
pub open spec fn dot_in_range<T: Add<Output = T> + Mul<Output = T>>(
    zero: T,
    a: Seq<T>,
    b: Seq<T>,
) -> bool {
    partial_in_range(zero, a, b, a.len())
}

/// What is in range for `n` terms is in range for fewer.
pub proof fn lemma_in_range_shorter<T: Add<Output = T> + Mul<Output = T>>(
    zero: T,
    a: Seq<T>,
    b: Seq<T>,
    m: nat,
    n: nat,
)
    requires
        m <= n,
        partial_in_range(zero, a, b, n),
    ensures
        partial_in_range(zero, a, b, m),
    decreases n,
{
    if m < n {
        lemma_in_range_shorter(zero, a, b, m, (n - 1) as nat);
    }
}

/// `a[0]*b[0] + ... + a[n-1]*b[n-1]` over the integers.
pub open spec fn sum_of_products(a: Seq<int>, b: Seq<int>, n: nat) -> int
    decreases n,
{
    if n == 0 {
        0
    } else {
        sum_of_products(a, b, (n - 1) as nat) + a[n - 1] * b[n - 1]
    }
}

/// An inner product that is in range is exact. Let `value` give each element
/// its integer, the zero 0, and let `+` and `*` of the element type, wherever
/// it allows them, be those of the integers, as they are for the machine
/// integers. Then the inner product has the value of the sum of the products.
pub proof fn lemma_dot_is_exact<T: Add<Output = T> + Mul<Output = T>>(
    zero: T,
    a: Seq<T>,
    b: Seq<T>,
    value: spec_fn(T) -> int,
)
    requires
        a.len() == b.len(),
        dot_in_range(zero, a, b),
        value(zero) == 0,
        forall|x: T, y: T| x.add_req(y) ==> value(#[trigger] x.add_spec(y)) == value(x) + value(y),
        forall|x: T, y: T| x.mul_req(y) ==> value(#[trigger] x.mul_spec(y)) == value(x) * value(y),
    ensures
        value(dot(zero, a, b)) == sum_of_products(
            a.map_values(value),
            b.map_values(value),
            a.len(),
        ),
{
    lemma_partial_is_exact(zero, a, b, value, a.len());
}

proof fn lemma_partial_is_exact<T: Add<Output = T> + Mul<Output = T>>(
    zero: T,
    a: Seq<T>,
    b: Seq<T>,
    value: spec_fn(T) -> int,
    n: nat,
)
    requires
        n <= a.len() == b.len(),
        partial_in_range(zero, a, b, n),
        value(zero) == 0,
        forall|x: T, y: T| x.add_req(y) ==> value(#[trigger] x.add_spec(y)) == value(x) + value(y),
        forall|x: T, y: T| x.mul_req(y) ==> value(#[trigger] x.mul_spec(y)) == value(x) * value(y),
    ensures
        value(partial(zero, a, b, n)) == sum_of_products(
            a.map_values(value),
            b.map_values(value),
            n,
        ),
    decreases n,
{
    if n > 0 {
        lemma_partial_is_exact(zero, a, b, value, (n - 1) as nat);
    }
}

/// Products that are small enough keep an inner product in range. Let the
/// element type allow every `+` and `*` whose result over the integers lies
/// between `low` and `high`, as the machine integers do, and let each product
/// `a[k]*b[k]` lie between `-bound` and `bound`. Then the inner product of
/// `n` terms is in range if `n * bound` lies between `low` and `high` too.
pub proof fn lemma_in_range_when_bounded<T: Add<Output = T> + Mul<Output = T>>(
    zero: T,
    a: Seq<T>,
    b: Seq<T>,
    value: spec_fn(T) -> int,
    low: int,
    high: int,
    bound: int,
)
    requires
        a.len() == b.len(),
        value(zero) == 0,
        forall|x: T, y: T| low <= value(x) + value(y) <= high ==> #[trigger] x.add_req(y),
        forall|x: T, y: T| low <= value(x) * value(y) <= high ==> #[trigger] x.mul_req(y),
        forall|x: T, y: T| x.add_req(y) ==> value(#[trigger] x.add_spec(y)) == value(x) + value(y),
        forall|x: T, y: T| x.mul_req(y) ==> value(#[trigger] x.mul_spec(y)) == value(x) * value(y),
        forall|k: int|
            0 <= k < a.len() ==> -bound <= #[trigger] value(a[k]) * value(b[k]) <= bound,
        low <= -(a.len() * bound),
        a.len() * bound <= high,
        0 <= bound,
    ensures
        dot_in_range(zero, a, b),
{
    lemma_partial_in_range_when_bounded(zero, a, b, value, low, high, bound, a.len());
}

proof fn lemma_partial_in_range_when_bounded<T: Add<Output = T> + Mul<Output = T>>(
    zero: T,
    a: Seq<T>,
    b: Seq<T>,
    value: spec_fn(T) -> int,
    low: int,
    high: int,
    bound: int,
    n: nat,
)
    requires
        n <= a.len() == b.len(),
        value(zero) == 0,
        forall|x: T, y: T| low <= value(x) + value(y) <= high ==> #[trigger] x.add_req(y),
        forall|x: T, y: T| low <= value(x) * value(y) <= high ==> #[trigger] x.mul_req(y),
        forall|x: T, y: T| x.add_req(y) ==> value(#[trigger] x.add_spec(y)) == value(x) + value(y),
        forall|x: T, y: T| x.mul_req(y) ==> value(#[trigger] x.mul_spec(y)) == value(x) * value(y),
        forall|k: int|
            0 <= k < a.len() ==> -bound <= #[trigger] value(a[k]) * value(b[k]) <= bound,
        low <= -(a.len() * bound),
        a.len() * bound <= high,
        0 <= bound,
    ensures
        partial_in_range(zero, a, b, n),
        -(n * bound) <= value(partial(zero, a, b, n)) <= n * bound,
    decreases n,
{
    if n > 0 {
        let m = (n - 1) as nat;
        lemma_partial_in_range_when_bounded(zero, a, b, value, low, high, bound, m);
        let x = a[n - 1];
        let y = b[n - 1];
        assert(-bound <= value(a[n - 1]) * value(b[n - 1]) <= bound);
        assert(m * bound + bound == n * bound && n * bound <= a.len() * bound && bound <= n
            * bound) by (nonlinear_arith)
            requires
                m + 1 == n,
                1 <= n <= a.len(),
                0 <= bound,
        ;
        assert(x.mul_req(y));
        assert(partial(zero, a, b, m).add_req(x.mul_spec(y)));
    }
}

/// The inner product does not depend on the order of its two operands where
/// the element type's multiplication does not: `dot(a, b) == dot(b, a)`.
pub proof fn lemma_dot_commutes<T: Add<Output = T> + Mul<Output = T>>(zero: T, a: Seq<T>, b: Seq<T>)
    requires
        a.len() == b.len(),
        forall|x: T, y: T| #[trigger] x.mul_spec(y) == y.mul_spec(x),
    ensures
        dot(zero, a, b) == dot(zero, b, a),
{
    lemma_partial_commutes(zero, a, b, a.len());
}

proof fn lemma_partial_commutes<T: Add<Output = T> + Mul<Output = T>>(
    zero: T,
    a: Seq<T>,
    b: Seq<T>,
    n: nat,
)
    requires
        forall|x: T, y: T| #[trigger] x.mul_spec(y) == y.mul_spec(x),
    ensures
        partial(zero, a, b, n) == partial(zero, b, a, n),
    decreases n,
{
    if n > 0 {
        lemma_partial_commutes(zero, a, b, (n - 1) as nat);
    }
}

} // verus!
