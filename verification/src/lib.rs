//! A small Fibonacci engine: the nth Fibonacci number under 32-bit wrapping
//! arithmetic, and batches of identical such computations.

use vstd::prelude::*;

verus! {

/// The modulus of 32-bit wrapping arithmetic: 2^32.
pub const WRAP_MODULUS: u64 = 0x1_0000_0000;

/// The mathematical Fibonacci sequence: F(0) = 0, F(1) = 1,
/// F(k) = F(k-1) + F(k-2).
pub open spec fn fib(n: nat) -> nat
    decreases n,
{
    if n == 0 {
        0
    } else if n == 1 {
        1
    } else {
        fib((n - 1) as nat) + fib((n - 2) as nat)
    }
}

/// The nth Fibonacci number reduced modulo 2^32: what a 32-bit accumulator
/// holds after computing the sequence with silent wraparound.
pub open spec fn fib_wrapped(n: nat) -> nat {
    fib(n) % (WRAP_MODULUS as nat)
}

/// For n in {0, 1}, the engine returns n itself.
pub proof fn lemma_fib_base(n: nat)
    requires
        n <= 1,
    ensures
        fib_wrapped(n) == n,
{
}

/// For all n >= 2, the wrapped value obeys the Fibonacci recurrence
/// modulo 2^32: adding the two preceding wrapped values and reducing
/// again gives the wrapped value at n.
pub proof fn lemma_fib_wrapped_recurrence(n: nat)
    requires
        n >= 2,
    ensures
        fib_wrapped(n) == (fib_wrapped((n - 1) as nat) + fib_wrapped((n - 2) as nat)) % (
        WRAP_MODULUS as nat),
{
    assert(fib(n) == fib((n - 1) as nat) + fib((n - 2) as nat));
    vstd::arithmetic::div_mod::lemma_add_mod_noop(
        fib((n - 1) as nat) as int,
        fib((n - 2) as nat) as int,
        WRAP_MODULUS as int,
    );
}

/// The nth Fibonacci number in 32-bit wrapping arithmetic, by iterative
/// accumulation: O(n) time, O(1) space. Sums that exceed 2^32 - 1 wrap
/// around; the result is always F(n) mod 2^32.
pub fn fibonacci(n: u32) -> (r: u32)
    ensures
        r == fib_wrapped(n as nat),
{
    if n <= 1 {
        proof {
            lemma_fib_base(n as nat);
        }
        return n;
    }
    let mut a: u32 = 0;
    let mut b: u32 = 1;
    let mut i: u32 = 1;
    while i < n
        invariant
            1 <= i <= n,
            a == fib((i - 1) as nat) % (WRAP_MODULUS as nat),
            b == fib(i as nat) % (WRAP_MODULUS as nat),
        decreases n - i,
    {
        let t: u32 = (((a as u64) + (b as u64)) % WRAP_MODULUS) as u32;
        proof {
            assert(fib((i + 1) as nat) == fib(i as nat) + fib((i - 1) as nat));
            vstd::arithmetic::div_mod::lemma_add_mod_noop(
                fib((i - 1) as nat) as int,
                fib(i as nat) as int,
                WRAP_MODULUS as int,
            );
        }
        a = b;
        b = t;
        i = i + 1;
    }
    b
}

/// `count` independent, identical computations of `fibonacci(n)`, in
/// insertion order: a vector of exactly `count` elements, each equal to
/// F(n) mod 2^32. A count of zero gives an empty vector.
pub fn batch_fibonacci(count: u32, n: u32) -> (r: Vec<u32>)
    ensures
        r@.len() == count,
        forall|i: int| 0 <= i < count ==> r@[i] == fib_wrapped(n as nat),
{
    let mut results: Vec<u32> = Vec::with_capacity(count as usize);
    let mut k: u32 = 0;
    while k < count
        invariant
            k <= count,
            results@.len() == k,
            forall|i: int| 0 <= i < k ==> results@[i] == fib_wrapped(n as nat),
        decreases count - k,
    {
        results.push(fibonacci(n));
        k = k + 1;
    }
    results
}

} // verus!
