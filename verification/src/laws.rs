//! The laws of scaled-value arithmetic, each stated over the spec-level
//! model that the operations' contracts use.

use vstd::prelude::*;

verus! {

use crate::scale::pow10;
use crate::scale::lemma_pow10_adds;
use crate::scale::lemma_pow10_pos;
use crate::Token;
use crate::add_ok;
use crate::aligned_value;
use crate::max_decimals;
use crate::precision_diff;
use crate::same_quantity;
use crate::spec_add;
use crate::spec_sub;
use crate::sub_ok;

/// Aligning to the larger precision leaves the higher-precision magnitude
/// unchanged and multiplies the lower-precision magnitude by the scale
/// factor `10^precision_diff`.
pub proof fn lemma_alignment_shape(a: Token, b: Token)
    ensures
        b.decimals <= a.decimals ==> aligned_value(a, max_decimals(a, b)) == a.value,
        b.decimals <= a.decimals ==> aligned_value(b, max_decimals(a, b)) == (b.value as nat)
            * pow10(precision_diff(a, b)),
        a.decimals <= b.decimals ==> aligned_value(b, max_decimals(a, b)) == b.value,
        a.decimals <= b.decimals ==> aligned_value(a, max_decimals(a, b)) == (a.value as nat)
            * pow10(precision_diff(a, b)),
{
    assert(pow10(0) == 1);
    let av: nat = a.value as nat;
    let bv: nat = b.value as nat;
    if b.decimals <= a.decimals {
        assert(aligned_value(a, max_decimals(a, b)) == av * pow10(0));
        assert(av * pow10(0) == av) by (nonlinear_arith)
            requires
                pow10(0) == 1,
        ;
    }
    if a.decimals <= b.decimals {
        assert(aligned_value(b, max_decimals(a, b)) == bv * pow10(0));
        assert(bv * pow10(0) == bv) by (nonlinear_arith)
            requires
                pow10(0) == 1,
        ;
    }
}

/// Cross-multiplied equality agrees with comparing the magnitudes after
/// aligning both operands to the larger precision, which is what the
/// executable operations do.
pub proof fn lemma_aligned_eq_iff_same_quantity(a: Token, b: Token)
    ensures
        same_quantity(a, b) <==> aligned_value(a, max_decimals(a, b)) == aligned_value(
            b,
            max_decimals(a, b),
        ),
{
    if a.decimals <= b.decimals {
        lemma_aligned_eq_iff_same_quantity_ordered(a, b);
    } else {
        lemma_aligned_eq_iff_same_quantity_ordered(b, a);
    }
}

proof fn lemma_aligned_eq_iff_same_quantity_ordered(lo: Token, hi: Token)
    requires
        lo.decimals <= hi.decimals,
    ensures
        same_quantity(lo, hi) <==> aligned_value(lo, hi.decimals) == aligned_value(
            hi,
            hi.decimals,
        ),
{
    let d: nat = (hi.decimals - lo.decimals) as nat;
    let pl: nat = pow10(lo.decimals as nat);
    let pd: nat = pow10(d);
    let lv: nat = lo.value as nat;
    let hv: nat = hi.value as nat;
    lemma_pow10_adds(lo.decimals as nat, d);
    lemma_pow10_pos(lo.decimals as nat);
    lemma_alignment_shape(lo, hi);
    assert(pow10(hi.decimals as nat) == pl * pd);
    assert((lv * (pl * pd) == hv * pl) <==> (lv * pd == hv)) by (nonlinear_arith)
        requires
            pl >= 1,
    ;
}

/// Quantity equality is reflexive.
pub proof fn lemma_same_quantity_reflexive(a: Token)
    ensures
        same_quantity(a, a),
{
}

/// Quantity equality is symmetric.
pub proof fn lemma_same_quantity_symmetric(a: Token, b: Token)
    ensures
        same_quantity(a, b) == same_quantity(b, a),
{
}

/// Quantity equality is transitive: it is equality of the rational numbers
/// the tokens denote.
pub proof fn lemma_same_quantity_transitive(a: Token, b: Token, c: Token)
    requires
        same_quantity(a, b),
        same_quantity(b, c),
    ensures
        same_quantity(a, c),
{
    let av: nat = a.value as nat;
    let bv: nat = b.value as nat;
    let cv: nat = c.value as nat;
    let pa: nat = pow10(a.decimals as nat);
    let pb: nat = pow10(b.decimals as nat);
    let pc: nat = pow10(c.decimals as nat);
    lemma_pow10_pos(b.decimals as nat);
    assert(av * pc == cv * pa) by (nonlinear_arith)
        requires
            av * pb == bv * pa,
            bv * pc == cv * pb,
            pb >= 1,
    ;
}

/// Addition is commutative: both operand orders succeed together, and then
/// they return the identical token.
pub proof fn lemma_add_commutative(a: Token, b: Token)
    ensures
        add_ok(a, b) == add_ok(b, a),
        add_ok(a, b) ==> spec_add(a, b) == spec_add(b, a),
{
}

/// With equal precisions the scale factor is one: addition is plain
/// magnitude addition at the shared precision.
pub proof fn lemma_add_same_precision(a: Token, b: Token)
    requires
        a.decimals == b.decimals,
    ensures
        add_ok(a, b) <==> a.value + b.value <= u64::MAX,
        add_ok(a, b) ==> spec_add(a, b) == (Token {
            value: (a.value + b.value) as u64,
            decimals: a.decimals,
        }),
{
    lemma_alignment_shape(a, b);
    assert(pow10(0) == 1);
}

/// With equal precisions the scale factor is one: subtraction is plain
/// magnitude subtraction at the shared precision, and it succeeds exactly
/// when no underflow threatens.
pub proof fn lemma_sub_same_precision(a: Token, b: Token)
    requires
        a.decimals == b.decimals,
    ensures
        sub_ok(a, b) <==> b.value <= a.value,
        sub_ok(a, b) ==> spec_sub(a, b) == (Token {
            value: (a.value - b.value) as u64,
            decimals: a.decimals,
        }),
{
    lemma_alignment_shape(a, b);
    assert(pow10(0) == 1);
}

/// Subtraction is order-sensitive: the two orders can both succeed only
/// when the operands denote the same quantity, and then both differences
/// are the zero token. Whenever the quantities differ, one of the two
/// orders asks for a negative result, which no token represents, and
/// fails.
pub proof fn lemma_sub_order_sensitive(a: Token, b: Token)
    requires
        sub_ok(a, b),
        sub_ok(b, a),
    ensures
        same_quantity(a, b),
        spec_sub(a, b) == spec_sub(b, a),
        spec_sub(a, b).value == 0,
{
    lemma_aligned_eq_iff_same_quantity(a, b);
    assert(max_decimals(b, a) == max_decimals(a, b));
}

/// `c` denotes the rational sum of `a` and `b`:
/// `c.value / 10^c.decimals == a.value / 10^a.decimals + b.value / 10^b.decimals`,
/// stated by cross-multiplication over the common denominator
/// `10^(a.decimals + b.decimals)`.
pub open spec fn denotes_sum(c: Token, a: Token, b: Token) -> bool {
    (c.value as nat) * pow10((a.decimals + b.decimals) as nat) == ((a.value as nat) * pow10(
        b.decimals as nat,
    ) + (b.value as nat) * pow10(a.decimals as nat)) * pow10(c.decimals as nat)
}

/// The token that `add` returns denotes the rational sum of its operands.
pub proof fn lemma_add_denotes_sum(a: Token, b: Token)
    requires
        add_ok(a, b),
    ensures
        denotes_sum(spec_add(a, b), a, b),
{
    let m: u8 = max_decimals(a, b);
    let av: nat = a.value as nat;
    let bv: nat = b.value as nat;
    let da: nat = (m - a.decimals) as nat;
    let db: nat = (m - b.decimals) as nat;
    let pa: nat = pow10(a.decimals as nat);
    let pb: nat = pow10(b.decimals as nat);
    let pm: nat = pow10(m as nat);
    let pda: nat = pow10(da);
    let pdb: nat = pow10(db);
    lemma_pow10_adds(da, a.decimals as nat);
    lemma_pow10_adds(db, b.decimals as nat);
    lemma_pow10_adds(a.decimals as nat, b.decimals as nat);
    let r: Token = spec_add(a, b);
    let rv: nat = r.value as nat;
    assert(rv == av * pda + bv * pdb);
    assert(pda * pa == pm);
    assert(pdb * pb == pm);
    assert(rv * (pa * pb) == (av * pb + bv * pa) * pm) by (nonlinear_arith)
        requires
            rv == av * pda + bv * pdb,
            pda * pa == pm,
            pdb * pb == pm,
    ;
}

/// Any two tokens that denote the rational sum of the same operands denote
/// the same quantity, whatever precisions they use.
pub proof fn lemma_sum_representations_agree(a: Token, b: Token, c1: Token, c2: Token)
    requires
        denotes_sum(c1, a, b),
        denotes_sum(c2, a, b),
    ensures
        same_quantity(c1, c2),
{
    let s: nat = (a.value as nat) * pow10(b.decimals as nat) + (b.value as nat) * pow10(
        a.decimals as nat,
    );
    let ps: nat = pow10((a.decimals + b.decimals) as nat);
    let p1: nat = pow10(c1.decimals as nat);
    let p2: nat = pow10(c2.decimals as nat);
    let v1: nat = c1.value as nat;
    let v2: nat = c2.value as nat;
    lemma_pow10_pos((a.decimals + b.decimals) as nat);
    assert(v1 * p2 == v2 * p1) by (nonlinear_arith)
        requires
            v1 * ps == s * p1,
            v2 * ps == s * p2,
            ps >= 1,
    ;
}

/// Precision independence of addition: the token `add` returns equals,
/// under quantity equality, every token that denotes the rational sum of
/// the operands — in particular the plain same-precision sum and each of
/// its rescalings.
pub proof fn lemma_add_precision_independent(a: Token, b: Token, c: Token)
    requires
        add_ok(a, b),
        denotes_sum(c, a, b),
    ensures
        same_quantity(spec_add(a, b), c),
{
    lemma_add_denotes_sum(a, b);
    lemma_sum_representations_agree(a, b, spec_add(a, b), c);
}

} // verus!
