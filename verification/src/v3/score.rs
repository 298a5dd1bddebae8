//! CVSS v3 scores: what the score formulas decide before they compute.
//!
//! The formulas themselves work on real numbers. What they are applied to is
//! decided here: whether the scope counts as changed in the environment,
//! which weight stands for a modified metric, which exponent and which
//! rounding the minor version asks for. Weights are in thousandths.

use vstd::prelude::*;
use super::{base, env, MinorVersion, V3Vector};
use crate::common::{NumValue, Optional};

verus! {

impl MinorVersion {
    /// The exponent in the Modified Impact formula for a changed scope: 13 for
    /// 3.1, 15 for 3.0.
    pub open spec fn spec_modified_impact_exponent(self) -> u32 {
        match self {
            MinorVersion::V1 => 13,
            MinorVersion::V0 => 15,
        }
    }

    /// The exponent in the Modified Impact formula for a changed scope.
    #[verifier::when_used_as_spec(spec_modified_impact_exponent)]
    pub fn modified_impact_exponent(self) -> (p: u32)
        ensures
            p == self.spec_modified_impact_exponent(),
    {
        match self {
            MinorVersion::V1 => 13,
            MinorVersion::V0 => 15,
        }
    }
}

impl V3Vector {
    /// Whether the scope is changed.
    pub open spec fn spec_scope_changed(&self) -> bool {
        self.scope == base::Scope::Changed
    }

    /// Whether the scope is changed.
    #[verifier::when_used_as_spec(spec_scope_changed)]
    pub fn scope_changed(&self) -> (b: bool)
        ensures
            b == self.spec_scope_changed(),
    {
        self.scope == base::Scope::Changed
    }

    /// Whether the scope counts as changed in the environment: Modified Scope
    /// decides where it is defined, Scope where it is not.
    pub open spec fn spec_modified_scope_changed(&self) -> bool {
        if self.modified_scope == env::ModifiedScope::NotDefined {
            self.scope == base::Scope::Changed
        } else {
            self.modified_scope == env::ModifiedScope::Changed
        }
    }

    /// Whether the scope counts as changed in the environment.
    #[verifier::when_used_as_spec(spec_modified_scope_changed)]
    pub fn modified_scope_changed(&self) -> (b: bool)
        ensures
            b == self.spec_modified_scope_changed(),
    {
        if self.modified_scope == env::ModifiedScope::NotDefined {
            self.scope == base::Scope::Changed
        } else {
            self.modified_scope == env::ModifiedScope::Changed
        }
    }

    /// The weight of Privileges Required in the Exploitability formula, which
    /// depends on whether the scope is changed.
    pub fn privileges_required_value(&self) -> (w: u32)
        ensures
            w == self.privileges_required.weight_scoped(self.scope_changed()),
    {
        self.privileges_required.num_value_scoped(self.scope_changed())
    }

    /// The weight that stands for Modified Attack Vector: its own where it is
    /// defined, that of Attack Vector where it is not.
    pub fn modified_attack_vector_value(&self) -> (w: u32)
        ensures
            w == if self.modified_attack_vector.undefined() {
                self.attack_vector.weight()
            } else {
                self.modified_attack_vector.weight()
            },
    {
        if !self.modified_attack_vector.is_undefined() {
            self.modified_attack_vector.num_value()
        } else {
            self.attack_vector.num_value()
        }
    }

    /// The weight that stands for Modified Attack Complexity: its own where it
    /// is defined, that of Attack Complexity where it is not.
    pub fn modified_attack_complexity_value(&self) -> (w: u32)
        ensures
            w == if self.modified_attack_complexity.undefined() {
                self.attack_complexity.weight()
            } else {
                self.modified_attack_complexity.weight()
            },
    {
        if !self.modified_attack_complexity.is_undefined() {
            self.modified_attack_complexity.num_value()
        } else {
            self.attack_complexity.num_value()
        }
    }

    /// The weight that stands for Modified Privileges Required: its own where
    /// it is defined, that of Privileges Required where it is not; either is
    /// taken for the scope as it counts in the environment.
    pub fn modified_privileges_required_value(&self) -> (w: u32)
        ensures
            w == if self.modified_privileges_required.undefined() {
                self.privileges_required.weight_scoped(self.modified_scope_changed())
            } else {
                self.modified_privileges_required.weight_scoped(self.modified_scope_changed())
            },
    {
        let scope_changed = self.modified_scope_changed();
        if !self.modified_privileges_required.is_undefined() {
            self.modified_privileges_required.num_value_scoped(scope_changed)
        } else {
            self.privileges_required.num_value_scoped(scope_changed)
        }
    }

    /// The weight that stands for Modified User Interaction: its own where it
    /// is defined, that of User Interaction where it is not.
    pub fn modified_user_interaction_value(&self) -> (w: u32)
        ensures
            w == if self.modified_user_interaction.undefined() {
                self.user_interaction.weight()
            } else {
                self.modified_user_interaction.weight()
            },
    {
        if !self.modified_user_interaction.is_undefined() {
            self.modified_user_interaction.num_value()
        } else {
            self.user_interaction.num_value()
        }
    }

    /// The weight that stands for Modified Confidentiality: its own where it is
    /// defined, that of Confidentiality where it is not.
    pub fn modified_confidentiality_value(&self) -> (w: u32)
        ensures
            w == if self.modified_confidentiality.undefined() {
                self.confidentiality.weight()
            } else {
                self.modified_confidentiality.weight()
            },
    {
        if !self.modified_confidentiality.is_undefined() {
            self.modified_confidentiality.num_value()
        } else {
            self.confidentiality.num_value()
        }
    }

    /// The weight that stands for Modified Integrity: its own where it is
    /// defined, that of Integrity where it is not.
    pub fn modified_integrity_value(&self) -> (w: u32)
        ensures
            w == if self.modified_integrity.undefined() {
                self.integrity.weight()
            } else {
                self.modified_integrity.weight()
            },
    {
        if !self.modified_integrity.is_undefined() {
            self.modified_integrity.num_value()
        } else {
            self.integrity.num_value()
        }
    }

    /// The weight that stands for Modified Availability: its own where it is
    /// defined, that of Availability where it is not.
    pub fn modified_availability_value(&self) -> (w: u32)
        ensures
            w == if self.modified_availability.undefined() {
                self.availability.weight()
            } else {
                self.modified_availability.weight()
            },
    {
        if !self.modified_availability.is_undefined() {
            self.modified_availability.num_value()
        } else {
            self.availability.num_value()
        }
    }
}

/// A number given as a fraction: `numerator / denominator`.
#[derive(Clone, Copy, Debug, PartialEq, Eq, Hash, Structural)]
pub struct Fraction {
    pub numerator: u64,
    pub denominator: u64,
}

/// The rounding of CVSS 3.1 on a score that has been scaled by 100 000 and cut
/// to an integer: a multiple of 10 000 is the score itself, in hundred
/// thousandths; any other value is rounded up to the next tenth.
pub open spec fn roundup_3_1_spec(int_input: u64) -> Fraction {
    if int_input % 10_000 == 0 {
        Fraction { numerator: int_input, denominator: 100_000 }
    } else {
        Fraction { numerator: (int_input / 10_000 + 1) as u64, denominator: 10 }
    }
}

/// Rounds a score up to one decimal place as CVSS 3.1 asks. The score comes
/// scaled by 100 000 and cut to an integer.
///
/// The result is a whole number of tenths, it is not below the score, and it
/// is less than a tenth above it.
pub fn roundup_3_1(int_input: u64) -> (r: Fraction)
    ensures
        r == roundup_3_1_spec(int_input),
        r.denominator == 100_000 || r.denominator == 10,
        (r.numerator * 10) % (r.denominator as int) == 0,
        int_input * r.denominator <= r.numerator * 100_000 < (int_input + 10_000) * r.denominator,
{
    if int_input % 10_000 == 0 {
        Fraction { numerator: int_input, denominator: 100_000 }
    } else {
        Fraction { numerator: int_input / 10_000 + 1, denominator: 10 }
    }
}

} // verus!
