//! The score and its qualitative rating.
//!
//! A score is a double-precision number. The library does no floating-point
//! arithmetic, so it holds the number by its IEEE 754 bit pattern: what
//! `f64::to_bits` gives and `f64::from_bits` takes. Two facts about bit
//! patterns are all that comparing and rating need. Numbers without sign bit
//! are ordered like their patterns, and numbers with sign bit the other way
//! round. A pattern past an infinity is not a number.

use core::cmp::Ordering;
use vstd::prelude::*;
use vstd::std_specs::cmp::{PartialEqSpecImpl, PartialOrdSpecImpl};

verus! {

/// The sign bit of a double-precision number; alone it is the pattern of -0.0.
pub const SIGN_BIT: u64 = 0x8000_0000_0000_0000;

/// The bit pattern of positive infinity.
pub const INFINITY: u64 = 0x7FF0_0000_0000_0000;

/// The bit pattern of negative infinity.
pub const NEG_INFINITY: u64 = 0xFFF0_0000_0000_0000;

/// The bit pattern of 0.1, where the rating Low begins.
pub const LOW_FROM: u64 = 0x3FB9_9999_9999_999A;

/// The bit pattern of 4.0, where the rating Medium begins.
pub const MEDIUM_FROM: u64 = 0x4010_0000_0000_0000;

/// The bit pattern of 7.0, where the rating High begins.
pub const HIGH_FROM: u64 = 0x401C_0000_0000_0000;

/// The bit pattern of 8.9, where the rating High ends.
pub const HIGH_TO: u64 = 0x4021_CCCC_CCCC_CCCD;

/// The bit pattern is that of a number: it is not past an infinity.
pub open spec fn is_number(bits: u64) -> bool {
    if bits >= SIGN_BIT {
        bits <= NEG_INFINITY
    } else {
        bits <= INFINITY
    }
}

/// The two bit patterns are those of the same number: the patterns are the
/// same, or both are a zero, with or without sign.
pub open spec fn same_number(a: u64, b: u64) -> bool {
    is_number(a) && is_number(b) && (a == b || ((a == 0 || a == SIGN_BIT) && (b == 0 || b
        == SIGN_BIT)))
}

/// The number with the bit pattern `a` is less than the number with the bit
/// pattern `b`.
pub open spec fn less(a: u64, b: u64) -> bool {
    &&& is_number(a)
    &&& is_number(b)
    &&& !same_number(a, b)
    &&& if a >= SIGN_BIT {
        b < SIGN_BIT || a > b
    } else {
        b < SIGN_BIT && a < b
    }
}

/// Base/Temporal/Environmental CVSS Score
///
/// Scores are compared the way their numbers are: what is not a number
/// equals nothing and is not ordered, and the two zeros are equal.
#[derive(Clone, Copy, Debug)]
pub struct Score {
    bits: u64,
}

impl View for Score {
    type V = u64;

    closed spec fn view(&self) -> u64 {
        self.bits
    }
}

impl Score {
    /// The score with the given bit pattern.
    pub fn from_bits(bits: u64) -> (s: Score)
        ensures
            s@ == bits,
    {
        Score { bits }
    }

    /// The bit pattern of the score.
    pub fn to_bits(self) -> (bits: u64)
        ensures
            bits == self@,
    {
        self.bits
    }

    /// Tells whether the score is a number.
    pub fn is_number(self) -> (b: bool)
        ensures
            b == is_number(self@),
    {
        if self.bits >= SIGN_BIT {
            self.bits <= NEG_INFINITY
        } else {
            self.bits <= INFINITY
        }
    }

    /// The qualitative rating of the score.
    pub fn severity(self) -> (s: Severity)
        ensures
            s == Severity::rating(self@),
    {
        Severity::from_score(self)
    }
}

impl Default for Score {
    /// The score 0.0.
    fn default() -> (s: Score)
        ensures
            s@ == 0,
    {
        Score { bits: 0 }
    }
}

impl PartialEq for Score {
    fn eq(&self, other: &Score) -> (r: bool) {
        let a = self.bits;
        let b = other.bits;
        self.is_number() && other.is_number() && (a == b || ((a == 0 || a == SIGN_BIT) && (b == 0
            || b == SIGN_BIT)))
    }
}

impl PartialEqSpecImpl for Score {
    open spec fn obeys_eq_spec() -> bool {
        true
    }

    open spec fn eq_spec(&self, other: &Score) -> bool {
        same_number(self@, other@)
    }
}

impl PartialOrd for Score {
    fn partial_cmp(&self, other: &Score) -> (r: Option<Ordering>) {
        let a = self.bits;
        let b = other.bits;
        if !self.is_number() || !other.is_number() {
            None
        } else if a == b || ((a == 0 || a == SIGN_BIT) && (b == 0 || b == SIGN_BIT)) {
            Some(Ordering::Equal)
        } else if a >= SIGN_BIT {
            if b < SIGN_BIT || a > b {
                Some(Ordering::Less)
            } else {
                Some(Ordering::Greater)
            }
        } else {
            if b < SIGN_BIT && a < b {
                Some(Ordering::Less)
            } else {
                Some(Ordering::Greater)
            }
        }
    }
}

impl PartialOrdSpecImpl for Score {
    open spec fn obeys_partial_cmp_spec() -> bool {
        true
    }

    open spec fn partial_cmp_spec(&self, other: &Score) -> Option<Ordering> {
        if !is_number(self@) || !is_number(other@) {
            None
        } else if same_number(self@, other@) {
            Some(Ordering::Equal)
        } else if less(self@, other@) {
            Some(Ordering::Less)
        } else {
            Some(Ordering::Greater)
        }
    }
}

/// Qualitative Severity Rating Scale, from the lowest rating to the highest.
#[derive(Clone, Copy, Debug, PartialEq, Eq, Hash, Structural)]
pub enum Severity {
    /// The rating "None".
    Nil,
    Low,
    Medium,
    High,
    Critical,
}

impl Severity {
    /// The name of the rating, for display.
    pub open spec fn name(self) -> Seq<char> {
        match self {
            Severity::Nil => "None"@,
            Severity::Low => "Low"@,
            Severity::Medium => "Medium"@,
            Severity::High => "High"@,
            Severity::Critical => "Critical"@,
        }
    }

    /// The place of the rating on the scale: 0 for None, 4 for Critical.
    pub open spec fn rank(self) -> nat {
        match self {
            Severity::Nil => 0,
            Severity::Low => 1,
            Severity::Medium => 2,
            Severity::High => 3,
            Severity::Critical => 4,
        }
    }

    /// The rating of the number with the given bit pattern.
    ///
    /// The bands are closed at their lower end and leave no number out: a
    /// number below 0.1 rates None, one from 0.1 to below 4.0 Low, one from 4.0
    /// to below 7.0 Medium, one from 7.0 up to 8.9 High, and one above 8.9
    /// Critical. What is not a number rates Critical.
    pub open spec fn rating(bits: u64) -> Severity {
        if bits >= SIGN_BIT {
            // below zero, or a zero with sign; past negative infinity, not a number
            if bits <= NEG_INFINITY {
                Severity::Nil
            } else {
                Severity::Critical
            }
        } else if bits < LOW_FROM {
            Severity::Nil
        } else if bits < MEDIUM_FROM {
            Severity::Low
        } else if bits < HIGH_FROM {
            Severity::Medium
        } else if bits <= HIGH_TO {
            Severity::High
        } else {
            Severity::Critical
        }
    }

    /// The qualitative rating of a score.
    pub fn from_score(s: Score) -> (r: Severity)
        ensures
            r == Self::rating(s@),
    {
        let bits = s.to_bits();
        if bits >= SIGN_BIT {
            if bits <= NEG_INFINITY {
                Severity::Nil
            } else {
                Severity::Critical
            }
        } else if bits < LOW_FROM {
            Severity::Nil
        } else if bits < MEDIUM_FROM {
            Severity::Low
        } else if bits < HIGH_FROM {
            Severity::Medium
        } else if bits <= HIGH_TO {
            Severity::High
        } else {
            Severity::Critical
        }
    }

    /// The display string of the rating.
    pub fn to_string(&self) -> (s: String)
        ensures
            s@ == self.name(),
    {
        match self {
            Severity::Nil => "None".to_owned(),
            Severity::Low => "Low".to_owned(),
            Severity::Medium => "Medium".to_owned(),
            Severity::High => "High".to_owned(),
            Severity::Critical => "Critical".to_owned(),
        }
    }

    /// Severity is monotonic: of any two numbers, the lesser does not rate
    /// higher.
    pub proof fn lemma_rating_monotonic(a: u64, b: u64)
        requires
            less(a, b),
        ensures
            Self::rating(a).rank() <= Self::rating(b).rank(),
    {
    }

    /// Two patterns of the same number rate the same.
    pub proof fn lemma_rating_of_same_number(a: u64, b: u64)
        requires
            same_number(a, b),
        ensures
            Self::rating(a) == Self::rating(b),
    {
    }
}

} // verus!
