//! Positions of the Fibonacci sequence.
use vstd::prelude::*;

verus! {

/// The Fibonacci number at `n`: 0, 1, 1, 2, 3, 5, 8, ...
pub open spec fn fib_at(n: nat) -> nat
    decreases n,
{
    if n < 2 {
        n
    } else {
        fib_at((n - 1) as nat) + fib_at((n - 2) as nat)
    }
}

/// The sequence never decreases.
pub proof fn lemma_fib_monotonic(m: nat, n: nat)
    requires
        m <= n,
    ensures
        fib_at(m) <= fib_at(n),
    decreases n,
{
    if m < n {
        if n >= 2 {
            lemma_fib_monotonic(m, (n - 1) as nat);
        }
    }
}

/// The Fibonacci number at position `pos`, where it fits in a `u64`.
pub fn fib(pos: u64) -> (r: u64)
    requires
        fib_at(pos as nat) <= u64::MAX,
    ensures
        r == fib_at(pos as nat),
    decreases pos,
{
    if pos == 0 || pos == 1 {
        return pos;
    }
    proof {
        lemma_fib_monotonic((pos - 1) as nat, pos as nat);
        lemma_fib_monotonic((pos - 2) as nat, pos as nat);
    }
    fib(pos - 1) + fib(pos - 2)
}

} // verus!
