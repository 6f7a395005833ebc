//! Powers of ten: the scale factors that align two precisions.

use vstd::prelude::*;

verus! {

/// `10^n`, the scale factor that lifts a magnitude by `n` decimal places.
pub open spec fn pow10(n: nat) -> nat
    decreases n,
{
    if n == 0 {
        1
    } else {
        10 * pow10((n - 1) as nat)
    }
}

/// A power of ten is at least one.
pub proof fn lemma_pow10_pos(n: nat)
    ensures
        pow10(n) >= 1,
    decreases n,
{
    if n > 0 {
        lemma_pow10_pos((n - 1) as nat);
    }
}

/// Powers of ten turn addition of exponents into multiplication.
pub proof fn lemma_pow10_adds(m: nat, n: nat)
    ensures
        pow10(m + n) == pow10(m) * pow10(n),
    decreases m,
{
    if m == 0 {
        assert(pow10(0 + n) == 1 * pow10(n));
    } else {
        lemma_pow10_adds((m - 1) as nat, n);
        assert(pow10(m + n) == 10 * pow10((m - 1) as nat + n));
        assert(10 * (pow10((m - 1) as nat) * pow10(n)) == (10 * pow10((m - 1) as nat)) * pow10(
            n,
        )) by (nonlinear_arith);
    }
}

/// Powers of ten grow with the exponent.
pub proof fn lemma_pow10_increases(m: nat, n: nat)
    requires
        m <= n,
    ensures
        pow10(m) <= pow10(n),
{
    lemma_pow10_adds(m, (n - m) as nat);
    lemma_pow10_pos((n - m) as nat);
    lemma_pow10_pos(m);
    assert(pow10(m) * pow10((n - m) as nat) >= pow10(m)) by (nonlinear_arith)
        requires
            pow10(m) >= 1,
            pow10((n - m) as nat) >= 1,
    ;
}

/// Computes `10^d` when it fits in a `u64` magnitude, and reports the
/// overflow otherwise.
pub fn pow10_checked(d: u8) -> (r: Option<u64>)
    ensures
        r is Some <==> pow10(d as nat) <= u64::MAX,
        r is Some ==> r->Some_0 == pow10(d as nat),
{
    let mut acc: u64 = 1;
    let mut i: u8 = 0;
    while i < d
        invariant
            i <= d,
            acc == pow10(i as nat),
        decreases d - i,
    {
        acc = match acc.checked_mul(10) {
            Some(v) => v,
            None => {
                proof {
                    lemma_pow10_increases((i + 1) as nat, d as nat);
                }
                return None;
            },
        };
        i = i + 1;
    }
    Some(acc)
}

} // verus!
