//! Fibonacci numbers over arbitrary-precision integers.
//!
//! The main entry point is [`fast_doubling_fibonacci`], an O(log n)
//! evaluator that walks the bits of the index and applies the fast-doubling
//! identities. [`slow_fibonacci`] is the linear-time oracle that iterates
//! the elementary recurrence; both are proved to return exactly
//! [`fib::fib`] of the index.

use vstd::prelude::*;

pub mod fib;
pub mod natural;

use crate::fib::fib;
use crate::fib::lemma_fib_doubling;
use crate::fib::lemma_fib_sub_in_range;
use crate::natural::natural_add;
use crate::natural::natural_double;
use crate::natural::natural_mul;
use crate::natural::natural_one;
use crate::natural::natural_square;
use crate::natural::natural_sub;
use crate::natural::natural_value;
use crate::natural::natural_zero;
use vstd::arithmetic::div_mod::lemma_basic_div;
use vstd::arithmetic::div_mod::lemma_div_denominator;
use vstd::arithmetic::div_mod::lemma_div_multiples_vanish;
use vstd::arithmetic::div_mod::lemma_fundamental_div_mod;

verus! {

/// 2 to the power e; tracks that the bit cursor of the fast-doubling walk
/// stays a power of two.
spec fn pow2(e: nat) -> nat
    decreases e,
{
    if e == 0 {
        1
    } else {
        2 * pow2((e - 1) as nat)
    }
}

/// Calculates the Fibonacci number at a specified index using the fast
/// doubling identities F(2k) = F(k)(2F(k+1) - F(k)) and
/// F(2k+1) = F(k)^2 + F(k+1)^2. It walks the bits of the index from the
/// most significant one downward, doubling the reached index at every step
/// and advancing it by one where the bit is set, so it needs only
/// O(log index) arithmetic steps.
pub fn fast_doubling_fibonacci(index: usize) -> (r: malachite::Natural)
    ensures
        natural_value(r) == fib(index as nat),
{
    let mut a = natural_zero();
    let mut b = natural_one();

    if index == 0 {
        return a;
    }
    if index == 1 {
        return b;
    }

    // The highest power of two that is no greater than index.
    let mut bit: usize = 1;
    let ghost mut e: nat = 0;
    while bit <= index / 2
        invariant
            1 <= bit <= index,
            bit as nat == pow2(e),
            2 <= index,
        decreases index - bit,
    {
        proof {
            lemma_fundamental_div_mod(index as int, 2);
            assert(pow2(e + 1) == 2 * pow2(e));
        }
        bit = bit * 2;
        proof {
            e = e + 1;
        }
    }

    proof {
        lemma_fundamental_div_mod(index as int, 2);
        assert(index < 2 * bit);
        lemma_basic_div(index as int, 2 * bit as int);
    }
    let ghost mut k: nat = 0;

    // (a, b) stays (F(k), F(k+1)) for the prefix k of index's bits walked
    // so far; each iteration doubles k and, where the current bit of index
    // is set, advances it by one.
    while bit != 0
        invariant
            natural_value(a) == fib(k),
            natural_value(b) == fib(k + 1),
            bit != 0 ==> bit as nat == pow2(e) && k == (index as nat) / (2 * bit as nat),
            bit == 0 ==> k == index as nat,
        decreases bit,
    {
        let ghost k0: nat = k;

        // Doubling step: (a, b) = (F(2k), F(2k+1)).
        proof {
            lemma_fib_sub_in_range(k0);
        }
        let doubled = natural_double(&b);
        let diff = natural_sub(&doubled, &a);
        let squares = natural_add(&natural_square(&a), &natural_square(&b));
        a = natural_mul(&a, &diff);
        b = squares;
        proof {
            lemma_fib_doubling(k0);
            k = 2 * k0;
        }

        // Advance step where the current bit of index is set:
        // (a, b) = (F(2k+1), F(2k+2)).
        if (index / bit) % 2 == 1 {
            let t = natural_add(&a, &b);
            a = b;
            b = t;
            proof {
                k = 2 * k0 + 1;
                assert(fib(2 * k0 + 2) == fib(2 * k0) + fib(2 * k0 + 1));
            }
        }

        proof {
            lemma_div_denominator(index as int, bit as int, 2);
            lemma_fundamental_div_mod((index as int) / (bit as int), 2);
            assert(k == (index as nat) / (bit as nat));
        }
        let ghost bit0: nat = bit as nat;
        bit = bit / 2;
        proof {
            if bit != 0 {
                assert(e != 0) by {
                    if e == 0 {
                        assert(pow2(0) == 1);
                    }
                };
                e = (e - 1) as nat;
                assert(bit0 == 2 * pow2(e));
                lemma_div_multiples_vanish(pow2(e) as int, 2);
                assert(bit as nat == pow2(e));
                assert(k == (index as nat) / (2 * bit as nat));
            } else {
                assert(bit0 == 1);
                lemma_div_multiples_vanish(index as int, 1);
                assert(k == index as nat);
            }
        }
    }
    a
}

/// Calculates Fibonacci numbers by iterating the elementary recurrence
/// `(a, b) = (b, a + b)` from (F(0), F(1)). Linear in the index; used as
/// an oracle to cross-check the fast-doubling evaluator.
pub fn slow_fibonacci(n: usize) -> (r: malachite::Natural)
    ensures
        natural_value(r) == fib(n as nat),
{
    let mut a = natural_zero();
    let mut b = natural_one();
    let mut i: usize = 0;
    while i < n
        invariant
            i <= n,
            natural_value(a) == fib(i as nat),
            natural_value(b) == fib(i as nat + 1),
        decreases n - i,
    {
        let t = natural_add(&a, &b);
        a = b;
        b = t;
        i = i + 1;
        assert(fib(i as nat + 1) == fib((i - 1) as nat) + fib(i as nat));
    }
    a
}

} // verus!
