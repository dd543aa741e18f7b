//! The mathematical Fibonacci sequence and the laws the evaluators are
//! proved against: the recurrence, monotonic growth, and the fast-doubling
//! identities.

use vstd::prelude::*;

verus! {

/// The Fibonacci sequence: F(0) = 0, F(1) = 1, F(n) = F(n-2) + F(n-1).
pub open spec fn fib(n: nat) -> nat
    decreases n,
{
    if n == 0 {
        0
    } else if n == 1 {
        1
    } else {
        fib((n - 2) as nat) + fib((n - 1) as nat)
    }
}

/// Recurrence law: past the two base values, every Fibonacci number is
/// the sum of the two before it.
pub proof fn lemma_fib_recurrence(n: nat)
    requires
        n >= 2,
    ensures
        fib(n) == fib((n - 1) as nat) + fib((n - 2) as nat),
{
}

/// Growth law: the Fibonacci sequence never decreases.
pub proof fn lemma_fib_monotone(n: nat)
    ensures
        fib(n) <= fib(n + 1),
{
    if n >= 1 {
        assert(fib(n + 1) == fib((n - 1) as nat) + fib(n));
    }
}

/// Doubling identities: F(2k) = F(k)(2F(k+1) - F(k)) and
/// F(2k+1) = F(k)^2 + F(k+1)^2. These are what lets an evaluator reach
/// index n in O(log n) arithmetic steps.
pub proof fn lemma_fib_doubling(k: nat)
    ensures
        fib(2 * k) == fib(k) * (2 * fib(k + 1) - fib(k)),
        fib(2 * k + 1) == fib(k) * fib(k) + fib(k + 1) * fib(k + 1),
    decreases k,
{
    if k == 0 {
        assert(fib(0) == 0);
        assert(fib(1) == 1);
        assert(fib(1) == fib(0) * fib(0) + fib(1) * fib(1)) by (nonlinear_arith)
            requires
                fib(0) == 0,
                fib(1) == 1,
        ;
        assert(fib(0) == fib(0) * (2 * fib(1) - fib(0))) by (nonlinear_arith)
            requires
                fib(0) == 0,
        ;
    } else {
        let j = (k - 1) as nat;
        lemma_fib_doubling(j);
        let a = fib(j);
        let b = fib(k);
        assert(fib(k + 1) == a + b);
        assert(fib(2 * j + 2) == fib(2 * j) + fib(2 * j + 1));
        assert(fib(2 * j + 3) == fib(2 * j + 1) + fib(2 * j + 2));
        assert(a * (2 * b - a) + (a * a + b * b) == b * (2 * (a + b) - b)) by (nonlinear_arith);
        assert((a * a + b * b) + b * (2 * (a + b) - b) == b * b + (a + b) * (a + b))
            by (nonlinear_arith);
        assert(2 * k == 2 * j + 2);
        assert(2 * k + 1 == 2 * j + 3);
        assert(fib(2 * k) == b * (2 * (a + b) - b));
        assert(fib(2 * k + 1) == b * b + (a + b) * (a + b));
        assert(fib(k + 1) * fib(k + 1) == (a + b) * (a + b));
    }
}

/// A Fibonacci number is at most double its successor, so the subtraction
/// 2F(k+1) - F(k) in the doubling step never goes below zero.
pub proof fn lemma_fib_sub_in_range(k: nat)
    ensures
        fib(k) <= 2 * fib(k + 1),
{
    lemma_fib_monotone(k);
}

} // verus!
