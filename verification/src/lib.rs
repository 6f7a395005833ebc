//! Scaled-value arithmetic: quantities stored as an unsigned 64-bit
//! magnitude together with a decimal-place count, denoting the rational
//! number `value / 10^decimals`. Addition, subtraction and equality first
//! align the two operands to the larger of their precisions by multiplying
//! the lower-precision magnitude by the matching power of ten; no digit of
//! the higher-precision operand is ever dropped, and no floating point is
//! involved.
//!
//! Overflow policy: a scale factor, a scaled magnitude or a sum that does
//! not fit in `u64`, and a difference below zero, make `add` and `sub`
//! return [`ArithmeticOverflow`] instead of panicking or wrapping. Equality
//! needs no such escape: a magnitude whose scaled form exceeds `u64::MAX`
//! cannot equal any representable magnitude, so [`Token::equals`] is total.

use vstd::prelude::*;

pub mod laws;
pub mod scale;

verus! {

use crate::scale::pow10;
use crate::scale::pow10_checked;

/// A quantity expressed in the smallest unit implied by `decimals`: the
/// pair denotes the rational number `value / 10^decimals`. Any magnitude
/// and any precision form a valid token; there is no canonical form, so
/// `(1, 0)` and `(1000, 3)` are distinct representations of the same
/// quantity.
#[derive(Clone, Copy, Debug)]
pub struct Token {
    pub value: u64,
    pub decimals: u8,
}

/// The single arithmetic failure: a scale factor, a scaled magnitude or a
/// sum beyond `u64::MAX`, or a difference below zero.
#[derive(Clone, Copy, Debug)]
pub struct ArithmeticOverflow;

/// The larger of the two precisions: the precision of every operation's
/// result.
pub open spec fn max_decimals(a: Token, b: Token) -> u8 {
    if a.decimals >= b.decimals {
        a.decimals
    } else {
        b.decimals
    }
}

/// How many decimal places separate the two operands.
pub open spec fn precision_diff(a: Token, b: Token) -> nat {
    if a.decimals >= b.decimals {
        (a.decimals - b.decimals) as nat
    } else {
        (b.decimals - a.decimals) as nat
    }
}

/// The magnitude of `t` re-expressed with `p` decimal places.
pub open spec fn aligned_value(t: Token, p: u8) -> nat
    recommends
        t.decimals <= p,
{
    (t.value as nat) * pow10((p - t.decimals) as nat)
}

/// `a` and `b` denote the same rational quantity:
/// `a.value / 10^a.decimals == b.value / 10^b.decimals`, stated by
/// cross-multiplication so that only integers appear.
pub open spec fn same_quantity(a: Token, b: Token) -> bool {
    (a.value as nat) * pow10(b.decimals as nat) == (b.value as nat) * pow10(a.decimals as nat)
}

/// `add` succeeds exactly when the scale factor fits in a `u64` and the
/// aligned magnitudes sum within `u64::MAX`.
pub open spec fn add_ok(a: Token, b: Token) -> bool {
    &&& pow10(precision_diff(a, b)) <= u64::MAX
    &&& aligned_value(a, max_decimals(a, b)) + aligned_value(b, max_decimals(a, b)) <= u64::MAX
}

/// The token that `add` returns: the aligned magnitudes summed, at the
/// larger precision.
pub open spec fn spec_add(a: Token, b: Token) -> Token {
    Token {
        value: (aligned_value(a, max_decimals(a, b)) + aligned_value(b, max_decimals(a, b))) as u64,
        decimals: max_decimals(a, b),
    }
}

/// `sub` succeeds exactly when the scale factor and both aligned magnitudes
/// fit in a `u64` and the aligned difference is not negative.
pub open spec fn sub_ok(a: Token, b: Token) -> bool {
    &&& pow10(precision_diff(a, b)) <= u64::MAX
    &&& aligned_value(a, max_decimals(a, b)) <= u64::MAX
    &&& aligned_value(b, max_decimals(a, b)) <= u64::MAX
    &&& aligned_value(b, max_decimals(a, b)) <= aligned_value(a, max_decimals(a, b))
}

/// The token that `sub` returns: the aligned difference `a - b`, at the
/// larger precision.
pub open spec fn spec_sub(a: Token, b: Token) -> Token {
    Token {
        value: (aligned_value(a, max_decimals(a, b)) - aligned_value(b, max_decimals(a, b))) as u64,
        decimals: max_decimals(a, b),
    }
}

impl Token {
    /// Builds the token denoting `value / 10^decimals`. Every magnitude and
    /// every precision is accepted; nothing is normalized.
    pub fn new(value: u64, decimals: u8) -> (t: Token)
        ensures
            t == (Token { value, decimals }),
    {
        Token { value, decimals }
    }

    /// Adds `self` and `rhs` after aligning them to the larger precision:
    /// the lower-precision magnitude is multiplied by `10^diff` and the two
    /// magnitudes are summed. Fails exactly when the scale factor or the
    /// aligned sum does not fit in a `u64`.
    pub fn add(self, rhs: Token) -> (r: Result<Token, ArithmeticOverflow>)
        ensures
            r is Ok <==> add_ok(self, rhs),
            r is Ok ==> r->Ok_0 == spec_add(self, rhs),
    {
        let scale_rhs: bool = self.decimals > rhs.decimals;
        let d: u8 = if scale_rhs {
            self.decimals - rhs.decimals
        } else {
            rhs.decimals - self.decimals
        };
        let lo: u64 = if scale_rhs {
            rhs.value
        } else {
            self.value
        };
        let hi: u64 = if scale_rhs {
            self.value
        } else {
            rhs.value
        };
        let m: u8 = if scale_rhs {
            self.decimals
        } else {
            rhs.decimals
        };
        proof {
            crate::laws::lemma_alignment_shape(self, rhs);
        }
        let scale: u64 = match pow10_checked(d) {
            Some(s) => s,
            None => {
                return Err(ArithmeticOverflow);
            },
        };
        proof {
            assert((lo as nat) * pow10(d as nat) == lo * scale) by (nonlinear_arith)
                requires
                    scale == pow10(d as nat),
            ;
        }
        let scaled: u64 = match lo.checked_mul(scale) {
            Some(v) => v,
            None => {
                return Err(ArithmeticOverflow);
            },
        };
        let value: u64 = match scaled.checked_add(hi) {
            Some(v) => v,
            None => {
                return Err(ArithmeticOverflow);
            },
        };
        Ok(Token { value, decimals: m })
    }

    /// Subtracts `rhs` from `self` after aligning them to the larger
    /// precision: whichever operand has the lower precision is scaled up by
    /// `10^diff`, and the aligned `rhs` magnitude is taken from the aligned
    /// `self` magnitude. Fails exactly when the scale factor or a scaled
    /// magnitude does not fit in a `u64`, or when the true difference would
    /// be negative, which no token can represent.
    pub fn sub(self, rhs: Token) -> (r: Result<Token, ArithmeticOverflow>)
        ensures
            r is Ok <==> sub_ok(self, rhs),
            r is Ok ==> r->Ok_0 == spec_sub(self, rhs),
    {
        let scale_rhs: bool = self.decimals > rhs.decimals;
        let d: u8 = if scale_rhs {
            self.decimals - rhs.decimals
        } else {
            rhs.decimals - self.decimals
        };
        proof {
            crate::laws::lemma_alignment_shape(self, rhs);
        }
        let scale: u64 = match pow10_checked(d) {
            Some(s) => s,
            None => {
                return Err(ArithmeticOverflow);
            },
        };
        if scale_rhs {
            proof {
                assert((rhs.value as nat) * pow10(d as nat) == rhs.value * scale)
                    by (nonlinear_arith)
                    requires
                        scale == pow10(d as nat),
                ;
            }
            let scaled: u64 = match rhs.value.checked_mul(scale) {
                Some(v) => v,
                None => {
                    return Err(ArithmeticOverflow);
                },
            };
            let value: u64 = match self.value.checked_sub(scaled) {
                Some(v) => v,
                None => {
                    return Err(ArithmeticOverflow);
                },
            };
            Ok(Token { value, decimals: self.decimals })
        } else {
            proof {
                assert((self.value as nat) * pow10(d as nat) == self.value * scale)
                    by (nonlinear_arith)
                    requires
                        scale == pow10(d as nat),
                ;
            }
            let scaled: u64 = match self.value.checked_mul(scale) {
                Some(v) => v,
                None => {
                    return Err(ArithmeticOverflow);
                },
            };
            let value: u64 = match scaled.checked_sub(rhs.value) {
                Some(v) => v,
                None => {
                    return Err(ArithmeticOverflow);
                },
            };
            Ok(Token { value, decimals: rhs.decimals })
        }
    }

    /// Decides whether `self` and `rhs` denote the same rational quantity:
    /// the lower-precision magnitude, scaled up to the larger precision,
    /// must equal the other magnitude exactly. Total: a scaled magnitude
    /// beyond `u64::MAX` can equal no `u64` magnitude, so those cases
    /// compare unequal unless both magnitudes are zero.
    pub fn equals(&self, rhs: &Token) -> (r: bool)
        ensures
            r == same_quantity(*self, *rhs),
    {
        let scale_rhs: bool = self.decimals > rhs.decimals;
        let d: u8 = if scale_rhs {
            self.decimals - rhs.decimals
        } else {
            rhs.decimals - self.decimals
        };
        let lo: u64 = if scale_rhs {
            rhs.value
        } else {
            self.value
        };
        let hi: u64 = if scale_rhs {
            self.value
        } else {
            rhs.value
        };
        proof {
            crate::laws::lemma_aligned_eq_iff_same_quantity(*self, *rhs);
            crate::laws::lemma_alignment_shape(*self, *rhs);
        }
        match pow10_checked(d) {
            None => {
                proof {
                    if lo == 0 {
                        assert((lo as nat) * pow10(d as nat) == 0) by (nonlinear_arith)
                            requires
                                lo == 0,
                        ;
                    } else {
                        assert((lo as nat) * pow10(d as nat) >= pow10(d as nat))
                            by (nonlinear_arith)
                            requires
                                lo >= 1,
                        ;
                    }
                }
                lo == 0 && hi == 0
            },
            Some(scale) => {
                proof {
                    assert((lo as nat) * pow10(d as nat) == lo * scale) by (nonlinear_arith)
                        requires
                            scale == pow10(d as nat),
                    ;
                }
                match lo.checked_mul(scale) {
                    None => false,
                    Some(ls) => ls == hi,
                }
            },
        }
    }
}

impl PartialEq for Token {
    /// `==` on tokens is quantity equality, not field equality: a token at
    /// one precision equals every rescaling of it at another precision.
    fn eq(&self, other: &Token) -> (r: bool) {
        self.equals(other)
    }
}

impl vstd::std_specs::cmp::PartialEqSpecImpl for Token {
    open spec fn obeys_eq_spec() -> bool {
        true
    }

    open spec fn eq_spec(&self, other: &Token) -> bool {
        same_quantity(*self, *other)
    }
}

} // verus!
