//! The exponential backoff schedule.
//!
//! Each time a site triggers a backoff, the quiet period grows by a factor
//! of three: 3 cycles after the first backoff, 9 after the second, 27 after
//! the third, and so on. The schedule saturates at `u64::MAX` once the
//! exact power no longer fits a machine word.

use vstd::prelude::*;

verus! {

/// `3^n`, the mathematical power.
pub open spec fn pow3(n: nat) -> nat
    decreases n,
{
    if n == 0 {
        1
    } else {
        3 * pow3((n - 1) as nat)
    }
}

/// The quiet period imposed by the `n`-th backoff: `3^n` cycles, saturated
/// at `u64::MAX` where the power exceeds the machine word.
pub open spec fn cooldown_length(n: u32) -> u64 {
    if pow3(n as nat) <= u64::MAX {
        pow3(n as nat) as u64
    } else {
        u64::MAX
    }
}

/// `pow3` grows with its exponent.
pub proof fn lemma_pow3_increases(a: nat, b: nat)
    requires
        a <= b,
    ensures
        pow3(a) <= pow3(b),
    decreases b,
{
    if a < b {
        lemma_pow3_increases(a, (b - 1) as nat);
    }
}

/// Computes the cooldown imposed by the `n`-th backoff.
pub fn backoff_cycles(n: u32) -> (r: u64)
    ensures
        r == cooldown_length(n),
{
    let mut r: u64 = 1;
    let mut i: u32 = 0;
    while i < n
        invariant
            i <= n,
            r == pow3(i as nat),
        decreases n - i,
    {
        if r > u64::MAX / 3 {
            proof {
                lemma_pow3_increases((i + 1) as nat, n as nat);
            }
            return u64::MAX;
        }
        r = r * 3;
        i = i + 1;
    }
    r
}

} // verus!
