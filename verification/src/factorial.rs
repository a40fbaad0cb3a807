//! The product that `factorial_rust` computes, and its reduction to 64 bits.

use vstd::arithmetic::div_mod::{lemma_mul_mod_noop_left, lemma_small_mod};
use vstd::arithmetic::mul::{lemma_mul_inequality, lemma_mul_is_commutative};
use vstd::prelude::*;

verus! {

/// The product of the integers from 1 up to, but not including, `n`.
///
/// For `n` of 0 and 1 there is nothing to multiply, and the value is 1. For
/// `n >= 1` this is the factorial of `n - 1`.
pub open spec fn product_below(n: nat) -> nat
    decreases n,
{
    if n <= 1 {
        1
    } else {
        ((n - 1) * product_below((n - 1) as nat)) as nat
    }
}

/// `product_below(n)` as a `u64` holds it: reduced modulo 2^64.
pub open spec fn wrapped_product(n: u64) -> u64 {
    (product_below(n as nat) % 0x1_0000_0000_0000_0000) as u64
}

/// The product never shrinks as `n` grows, and is never 0.
pub proof fn lemma_product_below_grows(a: nat, b: nat)
    requires
        a <= b,
    ensures
        1 <= product_below(a) <= product_below(b),
    decreases b,
{
    if b >= 2 {
        let smaller = (b - 1) as nat;
        lemma_product_below_grows(if a < b { a } else { smaller }, smaller);
        lemma_mul_inequality(1, b - 1, product_below(smaller) as int);
    }
}

/// The product fits in 64 bits for `n` up to 21, and for no larger `n`: from
/// 22 on, what `factorial_rust` returns is not the product but its remainder.
pub proof fn lemma_product_fits_up_to_21(n: nat)
    ensures
        product_below(n) <= u64::MAX <==> n <= 21,
{
    // Unfolded in two halves: 10!, then from there 20! and 21!.
    assert(product_below(11) == 3628800) by {
        reveal_with_fuel(product_below, 12);
    }
    assert(product_below(21) == 2432902008176640000) by {
        reveal_with_fuel(product_below, 11);
    }
    assert(product_below(22) == 51090942171709440000);
    if n <= 21 {
        lemma_product_below_grows(n, 21);
    } else {
        lemma_product_below_grows(22, n);
    }
}

/// Multiplies the integers from 1 up to, but not including, `n`, in 64-bit
/// wrapping arithmetic.
///
/// Despite its name the result is the factorial of `n - 1`, not of `n`:
/// `factorial_rust(5)` is 24. Every `n` is accepted. Where the product does
/// not fit in 64 bits no error is raised: the result is the product modulo
/// 2^64.
pub fn factorial_rust(n: u64) -> (value: u64)
    ensures
        value == wrapped_product(n),
        product_below(n as nat) <= u64::MAX ==> value == product_below(n as nat),
        n <= 1 ==> value == 1,
{
    let mut value: u64 = 1;
    let mut i: u64 = 1;
    while i < n
        invariant
            1 <= i,
            i <= n || i == 1,
            value == wrapped_product(i),
        decreases n - i,
    {
        proof {
            let below = product_below(i as nat) as int;
            lemma_mul_mod_noop_left(below, i as int, 0x1_0000_0000_0000_0000);
            lemma_mul_is_commutative(below, i as int);
        }
        value = value.wrapping_mul(i);
        i = i + 1;
    }
    proof {
        if product_below(n as nat) <= u64::MAX {
            lemma_small_mod(product_below(n as nat), 0x1_0000_0000_0000_0000);
        }
    }
    value
}

} // verus!
