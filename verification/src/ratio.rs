//! Exact fractions: the efficiency of a stripe and signed changes.

use crate::text::{append_one_decimal, one_decimal};
use vstd::prelude::*;
use vstd::string::StringExecFns;

verus! {

/// An exact signed fraction: `numerator / denominator`, negated where
/// `negative` is set. A denominator of zero stands for no value.
#[derive(Debug, Clone, Copy, PartialEq, Eq, Structural)]
pub struct SignedRatio {
    pub negative: bool,
    pub numerator: u128,
    pub denominator: u128,
}

impl SignedRatio {
    /// The fraction `0 / 1`.
    pub open spec fn spec_zero() -> SignedRatio {
        SignedRatio { negative: false, numerator: 0, denominator: 1 }
    }

    /// Whether the fraction has a value, and that value is zero.
    pub open spec fn is_zero(self) -> bool {
        self.numerator == 0 && self.denominator != 0
    }

    /// The relative change from `from` to `to`: `to / from - 1`, that is
    /// `(to - from) / from`.
    pub open spec fn spec_relative_change(from: u128, to: u128) -> SignedRatio {
        if to >= from {
            SignedRatio { negative: false, numerator: (to - from) as u128, denominator: from }
        } else {
            SignedRatio { negative: true, numerator: (from - to) as u128, denominator: from }
        }
    }

    /// The fraction `0 / 1`.
    pub fn zero() -> (r: SignedRatio)
        ensures
            r == Self::spec_zero(),
    {
        SignedRatio { negative: false, numerator: 0, denominator: 1 }
    }

    /// The relative change from `from` to `to`.
    pub fn relative_change(from: u128, to: u128) -> (r: SignedRatio)
        ensures
            r == Self::spec_relative_change(from, to),
    {
        if to >= from {
            SignedRatio { negative: false, numerator: to - from, denominator: from }
        } else {
            SignedRatio { negative: true, numerator: from - to, denominator: from }
        }
    }
}

/// The fraction of raw capacity that holds data, kept exactly: the data
/// drives of a stripe over all drives of the stripe.
#[derive(Debug, Clone, Copy, PartialEq, Eq, Structural)]
pub struct Efficiency {
    /// Drives of one stripe that hold data.
    pub data_drives: u32,
    /// All drives of one stripe.
    pub stripe_size: u32,
}

impl Efficiency {
    /// `self - other` as one fraction over the product of the stripe sizes.
    pub open spec fn spec_minus(self, other: Efficiency) -> SignedRatio {
        let left = self.data_drives * other.stripe_size;
        let right = other.data_drives * self.stripe_size;
        let over = self.stripe_size * other.stripe_size;
        if left >= right {
            SignedRatio { negative: false, numerator: (left - right) as u128, denominator: over as u128 }
        } else {
            SignedRatio { negative: true, numerator: (right - left) as u128, denominator: over as u128 }
        }
    }

    /// The efficiency as a percentage with one digit after the point,
    /// rounded half to even.
    pub open spec fn percent_text(self) -> Seq<char>
        recommends
            self.stripe_size >= 1,
    {
        one_decimal(self.data_drives as nat * 100, self.stripe_size as nat) + "%"@
    }

    /// `self - other`, exactly.
    pub fn minus(&self, other: &Efficiency) -> (r: SignedRatio)
        ensures
            r == self.spec_minus(*other),
    {
        assert(self.data_drives * other.stripe_size <= u64::MAX && other.data_drives
            * self.stripe_size <= u64::MAX && self.stripe_size * other.stripe_size <= u64::MAX)
            by (nonlinear_arith)
            requires
                self.data_drives <= u32::MAX,
                self.stripe_size <= u32::MAX,
                other.data_drives <= u32::MAX,
                other.stripe_size <= u32::MAX,
        ;
        let left: u128 = (self.data_drives as u128) * (other.stripe_size as u128);
        let right: u128 = (other.data_drives as u128) * (self.stripe_size as u128);
        let over: u128 = (self.stripe_size as u128) * (other.stripe_size as u128);
        if left >= right {
            SignedRatio { negative: false, numerator: left - right, denominator: over }
        } else {
            SignedRatio { negative: true, numerator: right - left, denominator: over }
        }
    }

    /// Appends the percentage to `out`.
    pub fn append_percent(&self, out: &mut String)
        requires
            self.stripe_size >= 1,
        ensures
            final(out)@ == old(out)@ + self.percent_text(),
    {
        append_one_decimal(out, (self.data_drives as u128) * 100, self.stripe_size as u128);
        out.append("%");
        assert(out@ =~= old(out)@ + self.percent_text());
    }
}

/// An efficiency on a stripe of at least one drive differs from itself by
/// zero.
pub proof fn lemma_minus_self_is_zero(e: Efficiency)
    requires
        e.stripe_size > 0,
    ensures
        e.spec_minus(e).is_zero(),
{
    assert(e.stripe_size * e.stripe_size > 0) by (nonlinear_arith)
        requires
            e.stripe_size > 0,
    ;
    assert(e.stripe_size * e.stripe_size <= u64::MAX) by (nonlinear_arith)
        requires
            e.stripe_size <= u32::MAX,
    ;
}

} // verus!
