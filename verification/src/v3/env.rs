//! CVSS v3 environmental metrics

use vstd::prelude::*;
use crate::codes::lemma_code_literals;
use crate::common::{decoded, AsStr, NumValue, Optional, ParseError};
use crate::grammar::{free_of, METRIC_DELIM, VECTOR_DELIM};
use crate::text::str_eq;

verus! {

/// Confidentiality Requirement (`CR`). Importance of confidentiality to the
/// environment.
#[derive(Clone, Copy, Debug, PartialEq, Eq, Hash, Structural)]
pub enum ConfidentialityRequirement {
    /// code `X`, weight 1.0.
    NotDefined,
    /// code `H`, weight 1.5.
    High,
    /// code `M`, weight 1.0.
    Medium,
    /// code `L`, weight 0.5.
    Low,
}

impl ConfidentialityRequirement {
    /// The value that `code` stands for, if it is a code of this metric.
    pub open spec fn decode(code: Seq<char>) -> Option<Self> {
        if code == "X"@ {
            Some(ConfidentialityRequirement::NotDefined)
        } else if code == "H"@ {
            Some(ConfidentialityRequirement::High)
        } else if code == "M"@ {
            Some(ConfidentialityRequirement::Medium)
        } else if code == "L"@ {
            Some(ConfidentialityRequirement::Low)
        } else {
            None
        }
    }

    /// Reads a value from its code; any other string is an incorrect value.
    pub fn from_str(value: &str) -> (r: Result<Self, ParseError>)
        ensures
            r == decoded(Self::decode(value@)),
    {
        if str_eq(value, "X") {
            Ok(ConfidentialityRequirement::NotDefined)
        } else if str_eq(value, "H") {
            Ok(ConfidentialityRequirement::High)
        } else if str_eq(value, "M") {
            Ok(ConfidentialityRequirement::Medium)
        } else if str_eq(value, "L") {
            Ok(ConfidentialityRequirement::Low)
        } else {
            Err(ParseError::IncorrectValue)
        }
    }

    /// Decoding the code of a value gives the value back.
    pub proof fn lemma_decode_code(v: Self)
        ensures
            Self::decode(v.code()) == Some(v),
    {
        lemma_code_literals();
    }

    /// A string that decodes to a value is the code of that value.
    pub proof fn lemma_code_decode(code: Seq<char>)
        ensures
            Self::decode(code) matches Some(v) ==> v.code() == code,
    {
    }

    /// No code holds a delimiter of the vector grammar.
    pub proof fn lemma_code_plain(v: Self)
        ensures
            free_of(v.code(), METRIC_DELIM),
            free_of(v.code(), VECTOR_DELIM),
    {
        lemma_code_literals();
    }
}

impl core::str::FromStr for ConfidentialityRequirement {
    type Err = ParseError;

    /// Reads a value from its code, for `str::parse`.
    fn from_str(value: &str) -> (r: Result<Self, ParseError>)
        ensures
            r == decoded(Self::decode(value@)),
    {
        ConfidentialityRequirement::from_str(value)
    }
}

impl AsStr for ConfidentialityRequirement {
    open spec fn code(&self) -> Seq<char> {
        match self {
            ConfidentialityRequirement::NotDefined => "X"@,
            ConfidentialityRequirement::High => "H"@,
            ConfidentialityRequirement::Medium => "M"@,
            ConfidentialityRequirement::Low => "L"@,
        }
    }

    fn as_str(&self) -> (s: &str) {
        match self {
            ConfidentialityRequirement::NotDefined => "X",
            ConfidentialityRequirement::High => "H",
            ConfidentialityRequirement::Medium => "M",
            ConfidentialityRequirement::Low => "L",
        }
    }
}

impl Optional for ConfidentialityRequirement {
    open spec fn undefined(&self) -> bool {
        *self == ConfidentialityRequirement::NotDefined
    }

    fn is_undefined(&self) -> (b: bool) {
        match self {
            ConfidentialityRequirement::NotDefined => true,
            _ => false,
        }
    }
}

impl NumValue for ConfidentialityRequirement {
    open spec fn weight(&self) -> nat {
        match self {
            ConfidentialityRequirement::NotDefined => 1000,
            ConfidentialityRequirement::High => 1500,
            ConfidentialityRequirement::Medium => 1000,
            ConfidentialityRequirement::Low => 500,
        }
    }

    fn num_value(&self) -> (w: u32) {
        match self {
            ConfidentialityRequirement::NotDefined => 1000,
            ConfidentialityRequirement::High => 1500,
            ConfidentialityRequirement::Medium => 1000,
            ConfidentialityRequirement::Low => 500,
        }
    }
}

/// Integrity Requirement (`IR`). Importance of integrity to the environment.
#[derive(Clone, Copy, Debug, PartialEq, Eq, Hash, Structural)]
pub enum IntegrityRequirement {
    /// code `X`, weight 1.0.
    NotDefined,
    /// code `H`, weight 1.5.
    High,
    /// code `M`, weight 1.0.
    Medium,
    /// code `L`, weight 0.5.
    Low,
}

impl IntegrityRequirement {
    /// The value that `code` stands for, if it is a code of this metric.
    pub open spec fn decode(code: Seq<char>) -> Option<Self> {
        if code == "X"@ {
            Some(IntegrityRequirement::NotDefined)
        } else if code == "H"@ {
            Some(IntegrityRequirement::High)
        } else if code == "M"@ {
            Some(IntegrityRequirement::Medium)
        } else if code == "L"@ {
            Some(IntegrityRequirement::Low)
        } else {
            None
        }
    }

    /// Reads a value from its code; any other string is an incorrect value.
    pub fn from_str(value: &str) -> (r: Result<Self, ParseError>)
        ensures
            r == decoded(Self::decode(value@)),
    {
        if str_eq(value, "X") {
            Ok(IntegrityRequirement::NotDefined)
        } else if str_eq(value, "H") {
            Ok(IntegrityRequirement::High)
        } else if str_eq(value, "M") {
            Ok(IntegrityRequirement::Medium)
        } else if str_eq(value, "L") {
            Ok(IntegrityRequirement::Low)
        } else {
            Err(ParseError::IncorrectValue)
        }
    }

    /// Decoding the code of a value gives the value back.
    pub proof fn lemma_decode_code(v: Self)
        ensures
            Self::decode(v.code()) == Some(v),
    {
        lemma_code_literals();
    }

    /// A string that decodes to a value is the code of that value.
    pub proof fn lemma_code_decode(code: Seq<char>)
        ensures
            Self::decode(code) matches Some(v) ==> v.code() == code,
    {
    }

    /// No code holds a delimiter of the vector grammar.
    pub proof fn lemma_code_plain(v: Self)
        ensures
            free_of(v.code(), METRIC_DELIM),
            free_of(v.code(), VECTOR_DELIM),
    {
        lemma_code_literals();
    }
}

impl core::str::FromStr for IntegrityRequirement {
    type Err = ParseError;

    /// Reads a value from its code, for `str::parse`.
    fn from_str(value: &str) -> (r: Result<Self, ParseError>)
        ensures
            r == decoded(Self::decode(value@)),
    {
        IntegrityRequirement::from_str(value)
    }
}

impl AsStr for IntegrityRequirement {
    open spec fn code(&self) -> Seq<char> {
        match self {
            IntegrityRequirement::NotDefined => "X"@,
            IntegrityRequirement::High => "H"@,
            IntegrityRequirement::Medium => "M"@,
            IntegrityRequirement::Low => "L"@,
        }
    }

    fn as_str(&self) -> (s: &str) {
        match self {
            IntegrityRequirement::NotDefined => "X",
            IntegrityRequirement::High => "H",
            IntegrityRequirement::Medium => "M",
            IntegrityRequirement::Low => "L",
        }
    }
}

impl Optional for IntegrityRequirement {
    open spec fn undefined(&self) -> bool {
        *self == IntegrityRequirement::NotDefined
    }

    fn is_undefined(&self) -> (b: bool) {
        match self {
            IntegrityRequirement::NotDefined => true,
            _ => false,
        }
    }
}

impl NumValue for IntegrityRequirement {
    open spec fn weight(&self) -> nat {
        match self {
            IntegrityRequirement::NotDefined => 1000,
            IntegrityRequirement::High => 1500,
            IntegrityRequirement::Medium => 1000,
            IntegrityRequirement::Low => 500,
        }
    }

    fn num_value(&self) -> (w: u32) {
        match self {
            IntegrityRequirement::NotDefined => 1000,
            IntegrityRequirement::High => 1500,
            IntegrityRequirement::Medium => 1000,
            IntegrityRequirement::Low => 500,
        }
    }
}

/// Availability Requirement (`AR`). Importance of availability to the
/// environment.
#[derive(Clone, Copy, Debug, PartialEq, Eq, Hash, Structural)]
pub enum AvailabilityRequirement {
    /// code `X`, weight 1.0.
    NotDefined,
    /// code `H`, weight 1.5.
    High,
    /// code `M`, weight 1.0.
    Medium,
    /// code `L`, weight 0.5.
    Low,
}

impl AvailabilityRequirement {
    /// The value that `code` stands for, if it is a code of this metric.
    pub open spec fn decode(code: Seq<char>) -> Option<Self> {
        if code == "X"@ {
            Some(AvailabilityRequirement::NotDefined)
        } else if code == "H"@ {
            Some(AvailabilityRequirement::High)
        } else if code == "M"@ {
            Some(AvailabilityRequirement::Medium)
        } else if code == "L"@ {
            Some(AvailabilityRequirement::Low)
        } else {
            None
        }
    }

    /// Reads a value from its code; any other string is an incorrect value.
    pub fn from_str(value: &str) -> (r: Result<Self, ParseError>)
        ensures
            r == decoded(Self::decode(value@)),
    {
        if str_eq(value, "X") {
            Ok(AvailabilityRequirement::NotDefined)
        } else if str_eq(value, "H") {
            Ok(AvailabilityRequirement::High)
        } else if str_eq(value, "M") {
            Ok(AvailabilityRequirement::Medium)
        } else if str_eq(value, "L") {
            Ok(AvailabilityRequirement::Low)
        } else {
            Err(ParseError::IncorrectValue)
        }
    }

    /// Decoding the code of a value gives the value back.
    pub proof fn lemma_decode_code(v: Self)
        ensures
            Self::decode(v.code()) == Some(v),
    {
        lemma_code_literals();
    }

    /// A string that decodes to a value is the code of that value.
    pub proof fn lemma_code_decode(code: Seq<char>)
        ensures
            Self::decode(code) matches Some(v) ==> v.code() == code,
    {
    }

    /// No code holds a delimiter of the vector grammar.
    pub proof fn lemma_code_plain(v: Self)
        ensures
            free_of(v.code(), METRIC_DELIM),
            free_of(v.code(), VECTOR_DELIM),
    {
        lemma_code_literals();
    }
}

impl core::str::FromStr for AvailabilityRequirement {
    type Err = ParseError;

    /// Reads a value from its code, for `str::parse`.
    fn from_str(value: &str) -> (r: Result<Self, ParseError>)
        ensures
            r == decoded(Self::decode(value@)),
    {
        AvailabilityRequirement::from_str(value)
    }
}

impl AsStr for AvailabilityRequirement {
    open spec fn code(&self) -> Seq<char> {
        match self {
            AvailabilityRequirement::NotDefined => "X"@,
            AvailabilityRequirement::High => "H"@,
            AvailabilityRequirement::Medium => "M"@,
            AvailabilityRequirement::Low => "L"@,
        }
    }

    fn as_str(&self) -> (s: &str) {
        match self {
            AvailabilityRequirement::NotDefined => "X",
            AvailabilityRequirement::High => "H",
            AvailabilityRequirement::Medium => "M",
            AvailabilityRequirement::Low => "L",
        }
    }
}

impl Optional for AvailabilityRequirement {
    open spec fn undefined(&self) -> bool {
        *self == AvailabilityRequirement::NotDefined
    }

    fn is_undefined(&self) -> (b: bool) {
        match self {
            AvailabilityRequirement::NotDefined => true,
            _ => false,
        }
    }
}

impl NumValue for AvailabilityRequirement {
    open spec fn weight(&self) -> nat {
        match self {
            AvailabilityRequirement::NotDefined => 1000,
            AvailabilityRequirement::High => 1500,
            AvailabilityRequirement::Medium => 1000,
            AvailabilityRequirement::Low => 500,
        }
    }

    fn num_value(&self) -> (w: u32) {
        match self {
            AvailabilityRequirement::NotDefined => 1000,
            AvailabilityRequirement::High => 1500,
            AvailabilityRequirement::Medium => 1000,
            AvailabilityRequirement::Low => 500,
        }
    }
}

/// Modified Attack Vector (`MAV`). Attack Vector as it is in the environment.
#[derive(Clone, Copy, Debug, PartialEq, Eq, Hash, Structural)]
pub enum ModifiedAttackVector {
    /// code `X`, weight 1.0.
    NotDefined,
    /// code `N`, weight 0.85.
    Network,
    /// code `A`, weight 0.62.
    Adjacent,
    /// code `L`, weight 0.55.
    Local,
    /// code `P`, weight 0.2.
    Physical,
}

impl ModifiedAttackVector {
    /// The value that `code` stands for, if it is a code of this metric.
    pub open spec fn decode(code: Seq<char>) -> Option<Self> {
        if code == "X"@ {
            Some(ModifiedAttackVector::NotDefined)
        } else if code == "N"@ {
            Some(ModifiedAttackVector::Network)
        } else if code == "A"@ {
            Some(ModifiedAttackVector::Adjacent)
        } else if code == "L"@ {
            Some(ModifiedAttackVector::Local)
        } else if code == "P"@ {
            Some(ModifiedAttackVector::Physical)
        } else {
            None
        }
    }

    /// Reads a value from its code; any other string is an incorrect value.
    pub fn from_str(value: &str) -> (r: Result<Self, ParseError>)
        ensures
            r == decoded(Self::decode(value@)),
    {
        if str_eq(value, "X") {
            Ok(ModifiedAttackVector::NotDefined)
        } else if str_eq(value, "N") {
            Ok(ModifiedAttackVector::Network)
        } else if str_eq(value, "A") {
            Ok(ModifiedAttackVector::Adjacent)
        } else if str_eq(value, "L") {
            Ok(ModifiedAttackVector::Local)
        } else if str_eq(value, "P") {
            Ok(ModifiedAttackVector::Physical)
        } else {
            Err(ParseError::IncorrectValue)
        }
    }

    /// Decoding the code of a value gives the value back.
    pub proof fn lemma_decode_code(v: Self)
        ensures
            Self::decode(v.code()) == Some(v),
    {
        lemma_code_literals();
    }

    /// A string that decodes to a value is the code of that value.
    pub proof fn lemma_code_decode(code: Seq<char>)
        ensures
            Self::decode(code) matches Some(v) ==> v.code() == code,
    {
    }

    /// No code holds a delimiter of the vector grammar.
    pub proof fn lemma_code_plain(v: Self)
        ensures
            free_of(v.code(), METRIC_DELIM),
            free_of(v.code(), VECTOR_DELIM),
    {
        lemma_code_literals();
    }
}

impl core::str::FromStr for ModifiedAttackVector {
    type Err = ParseError;

    /// Reads a value from its code, for `str::parse`.
    fn from_str(value: &str) -> (r: Result<Self, ParseError>)
        ensures
            r == decoded(Self::decode(value@)),
    {
        ModifiedAttackVector::from_str(value)
    }
}

impl AsStr for ModifiedAttackVector {
    open spec fn code(&self) -> Seq<char> {
        match self {
            ModifiedAttackVector::NotDefined => "X"@,
            ModifiedAttackVector::Network => "N"@,
            ModifiedAttackVector::Adjacent => "A"@,
            ModifiedAttackVector::Local => "L"@,
            ModifiedAttackVector::Physical => "P"@,
        }
    }

    fn as_str(&self) -> (s: &str) {
        match self {
            ModifiedAttackVector::NotDefined => "X",
            ModifiedAttackVector::Network => "N",
            ModifiedAttackVector::Adjacent => "A",
            ModifiedAttackVector::Local => "L",
            ModifiedAttackVector::Physical => "P",
        }
    }
}

impl Optional for ModifiedAttackVector {
    open spec fn undefined(&self) -> bool {
        *self == ModifiedAttackVector::NotDefined
    }

    fn is_undefined(&self) -> (b: bool) {
        match self {
            ModifiedAttackVector::NotDefined => true,
            _ => false,
        }
    }
}

impl NumValue for ModifiedAttackVector {
    open spec fn weight(&self) -> nat {
        match self {
            ModifiedAttackVector::NotDefined => 1000,
            ModifiedAttackVector::Network => 850,
            ModifiedAttackVector::Adjacent => 620,
            ModifiedAttackVector::Local => 550,
            ModifiedAttackVector::Physical => 200,
        }
    }

    fn num_value(&self) -> (w: u32) {
        match self {
            ModifiedAttackVector::NotDefined => 1000,
            ModifiedAttackVector::Network => 850,
            ModifiedAttackVector::Adjacent => 620,
            ModifiedAttackVector::Local => 550,
            ModifiedAttackVector::Physical => 200,
        }
    }
}

/// Modified Attack Complexity (`MAC`). Attack Complexity as it is in the
/// environment.
#[derive(Clone, Copy, Debug, PartialEq, Eq, Hash, Structural)]
pub enum ModifiedAttackComplexity {
    /// code `X`, weight 1.0.
    NotDefined,
    /// code `L`, weight 0.77.
    Low,
    /// code `H`, weight 0.44.
    High,
}

impl ModifiedAttackComplexity {
    /// The value that `code` stands for, if it is a code of this metric.
    pub open spec fn decode(code: Seq<char>) -> Option<Self> {
        if code == "X"@ {
            Some(ModifiedAttackComplexity::NotDefined)
        } else if code == "L"@ {
            Some(ModifiedAttackComplexity::Low)
        } else if code == "H"@ {
            Some(ModifiedAttackComplexity::High)
        } else {
            None
        }
    }

    /// Reads a value from its code; any other string is an incorrect value.
    pub fn from_str(value: &str) -> (r: Result<Self, ParseError>)
        ensures
            r == decoded(Self::decode(value@)),
    {
        if str_eq(value, "X") {
            Ok(ModifiedAttackComplexity::NotDefined)
        } else if str_eq(value, "L") {
            Ok(ModifiedAttackComplexity::Low)
        } else if str_eq(value, "H") {
            Ok(ModifiedAttackComplexity::High)
        } else {
            Err(ParseError::IncorrectValue)
        }
    }

    /// Decoding the code of a value gives the value back.
    pub proof fn lemma_decode_code(v: Self)
        ensures
            Self::decode(v.code()) == Some(v),
    {
        lemma_code_literals();
    }

    /// A string that decodes to a value is the code of that value.
    pub proof fn lemma_code_decode(code: Seq<char>)
        ensures
            Self::decode(code) matches Some(v) ==> v.code() == code,
    {
    }

    /// No code holds a delimiter of the vector grammar.
    pub proof fn lemma_code_plain(v: Self)
        ensures
            free_of(v.code(), METRIC_DELIM),
            free_of(v.code(), VECTOR_DELIM),
    {
        lemma_code_literals();
    }
}

impl core::str::FromStr for ModifiedAttackComplexity {
    type Err = ParseError;

    /// Reads a value from its code, for `str::parse`.
    fn from_str(value: &str) -> (r: Result<Self, ParseError>)
        ensures
            r == decoded(Self::decode(value@)),
    {
        ModifiedAttackComplexity::from_str(value)
    }
}

impl AsStr for ModifiedAttackComplexity {
    open spec fn code(&self) -> Seq<char> {
        match self {
            ModifiedAttackComplexity::NotDefined => "X"@,
            ModifiedAttackComplexity::Low => "L"@,
            ModifiedAttackComplexity::High => "H"@,
        }
    }

    fn as_str(&self) -> (s: &str) {
        match self {
            ModifiedAttackComplexity::NotDefined => "X",
            ModifiedAttackComplexity::Low => "L",
            ModifiedAttackComplexity::High => "H",
        }
    }
}

impl Optional for ModifiedAttackComplexity {
    open spec fn undefined(&self) -> bool {
        *self == ModifiedAttackComplexity::NotDefined
    }

    fn is_undefined(&self) -> (b: bool) {
        match self {
            ModifiedAttackComplexity::NotDefined => true,
            _ => false,
        }
    }
}

impl NumValue for ModifiedAttackComplexity {
    open spec fn weight(&self) -> nat {
        match self {
            ModifiedAttackComplexity::NotDefined => 1000,
            ModifiedAttackComplexity::Low => 770,
            ModifiedAttackComplexity::High => 440,
        }
    }

    fn num_value(&self) -> (w: u32) {
        match self {
            ModifiedAttackComplexity::NotDefined => 1000,
            ModifiedAttackComplexity::Low => 770,
            ModifiedAttackComplexity::High => 440,
        }
    }
}

/// Modified Privileges Required (`MPR`). Privileges Required as it is in the
/// environment.
#[derive(Clone, Copy, Debug, PartialEq, Eq, Hash, Structural)]
pub enum ModifiedPrivilegesRequired {
    /// code `X`, weight 1.0.
    NotDefined,
    /// "None": code `N`, weight 0.85.
    Nil,
    /// code `L`, weight 0.62, or 0.68 where the scope changes.
    Low,
    /// code `H`, weight 0.27, or 0.5 where the scope changes.
    High,
}

impl ModifiedPrivilegesRequired {
    /// The value that `code` stands for, if it is a code of this metric.
    pub open spec fn decode(code: Seq<char>) -> Option<Self> {
        if code == "X"@ {
            Some(ModifiedPrivilegesRequired::NotDefined)
        } else if code == "N"@ {
            Some(ModifiedPrivilegesRequired::Nil)
        } else if code == "L"@ {
            Some(ModifiedPrivilegesRequired::Low)
        } else if code == "H"@ {
            Some(ModifiedPrivilegesRequired::High)
        } else {
            None
        }
    }

    /// Reads a value from its code; any other string is an incorrect value.
    pub fn from_str(value: &str) -> (r: Result<Self, ParseError>)
        ensures
            r == decoded(Self::decode(value@)),
    {
        if str_eq(value, "X") {
            Ok(ModifiedPrivilegesRequired::NotDefined)
        } else if str_eq(value, "N") {
            Ok(ModifiedPrivilegesRequired::Nil)
        } else if str_eq(value, "L") {
            Ok(ModifiedPrivilegesRequired::Low)
        } else if str_eq(value, "H") {
            Ok(ModifiedPrivilegesRequired::High)
        } else {
            Err(ParseError::IncorrectValue)
        }
    }

    /// The weight of the value in thousandths, which depends on whether the
    /// scope changes.
    pub open spec fn weight_scoped(self, scope_change: bool) -> nat {
        match self {
            ModifiedPrivilegesRequired::NotDefined => 1000,
            ModifiedPrivilegesRequired::Nil => 850,
            ModifiedPrivilegesRequired::Low => if scope_change {
                680
            } else {
                620
            },
            ModifiedPrivilegesRequired::High => if scope_change {
                500
            } else {
                270
            },
        }
    }

    /// The weight of the value in thousandths, given whether the scope
    /// changes.
    pub fn num_value_scoped(&self, scope_change: bool) -> (w: u32)
        ensures
            w == self.weight_scoped(scope_change),
    {
        match self {
            ModifiedPrivilegesRequired::NotDefined => 1000,
            ModifiedPrivilegesRequired::Nil => 850,
            ModifiedPrivilegesRequired::Low => if scope_change {
                680
            } else {
                620
            },
            ModifiedPrivilegesRequired::High => if scope_change {
                500
            } else {
                270
            },
        }
    }

    /// Decoding the code of a value gives the value back.
    pub proof fn lemma_decode_code(v: Self)
        ensures
            Self::decode(v.code()) == Some(v),
    {
        lemma_code_literals();
    }

    /// A string that decodes to a value is the code of that value.
    pub proof fn lemma_code_decode(code: Seq<char>)
        ensures
            Self::decode(code) matches Some(v) ==> v.code() == code,
    {
    }

    /// No code holds a delimiter of the vector grammar.
    pub proof fn lemma_code_plain(v: Self)
        ensures
            free_of(v.code(), METRIC_DELIM),
            free_of(v.code(), VECTOR_DELIM),
    {
        lemma_code_literals();
    }
}

impl core::str::FromStr for ModifiedPrivilegesRequired {
    type Err = ParseError;

    /// Reads a value from its code, for `str::parse`.
    fn from_str(value: &str) -> (r: Result<Self, ParseError>)
        ensures
            r == decoded(Self::decode(value@)),
    {
        ModifiedPrivilegesRequired::from_str(value)
    }
}

impl AsStr for ModifiedPrivilegesRequired {
    open spec fn code(&self) -> Seq<char> {
        match self {
            ModifiedPrivilegesRequired::NotDefined => "X"@,
            ModifiedPrivilegesRequired::Nil => "N"@,
            ModifiedPrivilegesRequired::Low => "L"@,
            ModifiedPrivilegesRequired::High => "H"@,
        }
    }

    fn as_str(&self) -> (s: &str) {
        match self {
            ModifiedPrivilegesRequired::NotDefined => "X",
            ModifiedPrivilegesRequired::Nil => "N",
            ModifiedPrivilegesRequired::Low => "L",
            ModifiedPrivilegesRequired::High => "H",
        }
    }
}

impl Optional for ModifiedPrivilegesRequired {
    open spec fn undefined(&self) -> bool {
        *self == ModifiedPrivilegesRequired::NotDefined
    }

    fn is_undefined(&self) -> (b: bool) {
        match self {
            ModifiedPrivilegesRequired::NotDefined => true,
            _ => false,
        }
    }
}

impl NumValue for ModifiedPrivilegesRequired {
    open spec fn weight(&self) -> nat {
        self.weight_scoped(false)
    }

    fn num_value(&self) -> (w: u32) {
        self.num_value_scoped(false)
    }
}

/// Modified User Interaction (`MUI`). User Interaction as it is in the
/// environment.
#[derive(Clone, Copy, Debug, PartialEq, Eq, Hash, Structural)]
pub enum ModifiedUserInteraction {
    /// code `X`, weight 1.0.
    NotDefined,
    /// "None": code `N`, weight 0.85.
    Nil,
    /// code `R`, weight 0.62.
    Required,
}

impl ModifiedUserInteraction {
    /// The value that `code` stands for, if it is a code of this metric.
    pub open spec fn decode(code: Seq<char>) -> Option<Self> {
        if code == "X"@ {
            Some(ModifiedUserInteraction::NotDefined)
        } else if code == "N"@ {
            Some(ModifiedUserInteraction::Nil)
        } else if code == "R"@ {
            Some(ModifiedUserInteraction::Required)
        } else {
            None
        }
    }

    /// Reads a value from its code; any other string is an incorrect value.
    pub fn from_str(value: &str) -> (r: Result<Self, ParseError>)
        ensures
            r == decoded(Self::decode(value@)),
    {
        if str_eq(value, "X") {
            Ok(ModifiedUserInteraction::NotDefined)
        } else if str_eq(value, "N") {
            Ok(ModifiedUserInteraction::Nil)
        } else if str_eq(value, "R") {
            Ok(ModifiedUserInteraction::Required)
        } else {
            Err(ParseError::IncorrectValue)
        }
    }

    /// Decoding the code of a value gives the value back.
    pub proof fn lemma_decode_code(v: Self)
        ensures
            Self::decode(v.code()) == Some(v),
    {
        lemma_code_literals();
    }

    /// A string that decodes to a value is the code of that value.
    pub proof fn lemma_code_decode(code: Seq<char>)
        ensures
            Self::decode(code) matches Some(v) ==> v.code() == code,
    {
    }

    /// No code holds a delimiter of the vector grammar.
    pub proof fn lemma_code_plain(v: Self)
        ensures
            free_of(v.code(), METRIC_DELIM),
            free_of(v.code(), VECTOR_DELIM),
    {
        lemma_code_literals();
    }
}

impl core::str::FromStr for ModifiedUserInteraction {
    type Err = ParseError;

    /// Reads a value from its code, for `str::parse`.
    fn from_str(value: &str) -> (r: Result<Self, ParseError>)
        ensures
            r == decoded(Self::decode(value@)),
    {
        ModifiedUserInteraction::from_str(value)
    }
}

impl AsStr for ModifiedUserInteraction {
    open spec fn code(&self) -> Seq<char> {
        match self {
            ModifiedUserInteraction::NotDefined => "X"@,
            ModifiedUserInteraction::Nil => "N"@,
            ModifiedUserInteraction::Required => "R"@,
        }
    }

    fn as_str(&self) -> (s: &str) {
        match self {
            ModifiedUserInteraction::NotDefined => "X",
            ModifiedUserInteraction::Nil => "N",
            ModifiedUserInteraction::Required => "R",
        }
    }
}

impl Optional for ModifiedUserInteraction {
    open spec fn undefined(&self) -> bool {
        *self == ModifiedUserInteraction::NotDefined
    }

    fn is_undefined(&self) -> (b: bool) {
        match self {
            ModifiedUserInteraction::NotDefined => true,
            _ => false,
        }
    }
}

impl NumValue for ModifiedUserInteraction {
    open spec fn weight(&self) -> nat {
        match self {
            ModifiedUserInteraction::NotDefined => 1000,
            ModifiedUserInteraction::Nil => 850,
            ModifiedUserInteraction::Required => 620,
        }
    }

    fn num_value(&self) -> (w: u32) {
        match self {
            ModifiedUserInteraction::NotDefined => 1000,
            ModifiedUserInteraction::Nil => 850,
            ModifiedUserInteraction::Required => 620,
        }
    }
}

/// Modified Scope (`MS`). Scope as it is in the environment.
#[derive(Clone, Copy, Debug, PartialEq, Eq, Hash, Structural)]
pub enum ModifiedScope {
    /// code `X`.
    NotDefined,
    /// code `U`.
    Unchanged,
    /// code `C`.
    Changed,
}

impl ModifiedScope {
    /// The value that `code` stands for, if it is a code of this metric.
    pub open spec fn decode(code: Seq<char>) -> Option<Self> {
        if code == "X"@ {
            Some(ModifiedScope::NotDefined)
        } else if code == "U"@ {
            Some(ModifiedScope::Unchanged)
        } else if code == "C"@ {
            Some(ModifiedScope::Changed)
        } else {
            None
        }
    }

    /// Reads a value from its code; any other string is an incorrect value.
    pub fn from_str(value: &str) -> (r: Result<Self, ParseError>)
        ensures
            r == decoded(Self::decode(value@)),
    {
        if str_eq(value, "X") {
            Ok(ModifiedScope::NotDefined)
        } else if str_eq(value, "U") {
            Ok(ModifiedScope::Unchanged)
        } else if str_eq(value, "C") {
            Ok(ModifiedScope::Changed)
        } else {
            Err(ParseError::IncorrectValue)
        }
    }

    /// Decoding the code of a value gives the value back.
    pub proof fn lemma_decode_code(v: Self)
        ensures
            Self::decode(v.code()) == Some(v),
    {
        lemma_code_literals();
    }

    /// A string that decodes to a value is the code of that value.
    pub proof fn lemma_code_decode(code: Seq<char>)
        ensures
            Self::decode(code) matches Some(v) ==> v.code() == code,
    {
    }

    /// No code holds a delimiter of the vector grammar.
    pub proof fn lemma_code_plain(v: Self)
        ensures
            free_of(v.code(), METRIC_DELIM),
            free_of(v.code(), VECTOR_DELIM),
    {
        lemma_code_literals();
    }
}

impl core::str::FromStr for ModifiedScope {
    type Err = ParseError;

    /// Reads a value from its code, for `str::parse`.
    fn from_str(value: &str) -> (r: Result<Self, ParseError>)
        ensures
            r == decoded(Self::decode(value@)),
    {
        ModifiedScope::from_str(value)
    }
}

impl AsStr for ModifiedScope {
    open spec fn code(&self) -> Seq<char> {
        match self {
            ModifiedScope::NotDefined => "X"@,
            ModifiedScope::Unchanged => "U"@,
            ModifiedScope::Changed => "C"@,
        }
    }

    fn as_str(&self) -> (s: &str) {
        match self {
            ModifiedScope::NotDefined => "X",
            ModifiedScope::Unchanged => "U",
            ModifiedScope::Changed => "C",
        }
    }
}

impl Optional for ModifiedScope {
    open spec fn undefined(&self) -> bool {
        *self == ModifiedScope::NotDefined
    }

    fn is_undefined(&self) -> (b: bool) {
        match self {
            ModifiedScope::NotDefined => true,
            _ => false,
        }
    }
}

/// Modified Confidentiality (`MC`). Confidentiality impact as it is in the
/// environment.
#[derive(Clone, Copy, Debug, PartialEq, Eq, Hash, Structural)]
pub enum ModifiedConfidentiality {
    /// code `X`, weight 1.0.
    NotDefined,
    /// "None": code `N`, weight 0.0.
    Nil,
    /// code `L`, weight 0.22.
    Low,
    /// code `H`, weight 0.56.
    High,
}

impl ModifiedConfidentiality {
    /// The value that `code` stands for, if it is a code of this metric.
    pub open spec fn decode(code: Seq<char>) -> Option<Self> {
        if code == "X"@ {
            Some(ModifiedConfidentiality::NotDefined)
        } else if code == "N"@ {
            Some(ModifiedConfidentiality::Nil)
        } else if code == "L"@ {
            Some(ModifiedConfidentiality::Low)
        } else if code == "H"@ {
            Some(ModifiedConfidentiality::High)
        } else {
            None
        }
    }

    /// Reads a value from its code; any other string is an incorrect value.
    pub fn from_str(value: &str) -> (r: Result<Self, ParseError>)
        ensures
            r == decoded(Self::decode(value@)),
    {
        if str_eq(value, "X") {
            Ok(ModifiedConfidentiality::NotDefined)
        } else if str_eq(value, "N") {
            Ok(ModifiedConfidentiality::Nil)
        } else if str_eq(value, "L") {
            Ok(ModifiedConfidentiality::Low)
        } else if str_eq(value, "H") {
            Ok(ModifiedConfidentiality::High)
        } else {
            Err(ParseError::IncorrectValue)
        }
    }

    /// Decoding the code of a value gives the value back.
    pub proof fn lemma_decode_code(v: Self)
        ensures
            Self::decode(v.code()) == Some(v),
    {
        lemma_code_literals();
    }

    /// A string that decodes to a value is the code of that value.
    pub proof fn lemma_code_decode(code: Seq<char>)
        ensures
            Self::decode(code) matches Some(v) ==> v.code() == code,
    {
    }

    /// No code holds a delimiter of the vector grammar.
    pub proof fn lemma_code_plain(v: Self)
        ensures
            free_of(v.code(), METRIC_DELIM),
            free_of(v.code(), VECTOR_DELIM),
    {
        lemma_code_literals();
    }
}

impl core::str::FromStr for ModifiedConfidentiality {
    type Err = ParseError;

    /// Reads a value from its code, for `str::parse`.
    fn from_str(value: &str) -> (r: Result<Self, ParseError>)
        ensures
            r == decoded(Self::decode(value@)),
    {
        ModifiedConfidentiality::from_str(value)
    }
}

impl AsStr for ModifiedConfidentiality {
    open spec fn code(&self) -> Seq<char> {
        match self {
            ModifiedConfidentiality::NotDefined => "X"@,
            ModifiedConfidentiality::Nil => "N"@,
            ModifiedConfidentiality::Low => "L"@,
            ModifiedConfidentiality::High => "H"@,
        }
    }

    fn as_str(&self) -> (s: &str) {
        match self {
            ModifiedConfidentiality::NotDefined => "X",
            ModifiedConfidentiality::Nil => "N",
            ModifiedConfidentiality::Low => "L",
            ModifiedConfidentiality::High => "H",
        }
    }
}

impl Optional for ModifiedConfidentiality {
    open spec fn undefined(&self) -> bool {
        *self == ModifiedConfidentiality::NotDefined
    }

    fn is_undefined(&self) -> (b: bool) {
        match self {
            ModifiedConfidentiality::NotDefined => true,
            _ => false,
        }
    }
}

impl NumValue for ModifiedConfidentiality {
    open spec fn weight(&self) -> nat {
        match self {
            ModifiedConfidentiality::NotDefined => 1000,
            ModifiedConfidentiality::Nil => 0,
            ModifiedConfidentiality::Low => 220,
            ModifiedConfidentiality::High => 560,
        }
    }

    fn num_value(&self) -> (w: u32) {
        match self {
            ModifiedConfidentiality::NotDefined => 1000,
            ModifiedConfidentiality::Nil => 0,
            ModifiedConfidentiality::Low => 220,
            ModifiedConfidentiality::High => 560,
        }
    }
}

/// Modified Integrity (`MI`). Integrity impact as it is in the environment.
#[derive(Clone, Copy, Debug, PartialEq, Eq, Hash, Structural)]
pub enum ModifiedIntegrity {
    /// code `X`, weight 1.0.
    NotDefined,
    /// "None": code `N`, weight 0.0.
    Nil,
    /// code `L`, weight 0.22.
    Low,
    /// code `H`, weight 0.56.
    High,
}

impl ModifiedIntegrity {
    /// The value that `code` stands for, if it is a code of this metric.
    pub open spec fn decode(code: Seq<char>) -> Option<Self> {
        if code == "X"@ {
            Some(ModifiedIntegrity::NotDefined)
        } else if code == "N"@ {
            Some(ModifiedIntegrity::Nil)
        } else if code == "L"@ {
            Some(ModifiedIntegrity::Low)
        } else if code == "H"@ {
            Some(ModifiedIntegrity::High)
        } else {
            None
        }
    }

    /// Reads a value from its code; any other string is an incorrect value.
    pub fn from_str(value: &str) -> (r: Result<Self, ParseError>)
        ensures
            r == decoded(Self::decode(value@)),
    {
        if str_eq(value, "X") {
            Ok(ModifiedIntegrity::NotDefined)
        } else if str_eq(value, "N") {
            Ok(ModifiedIntegrity::Nil)
        } else if str_eq(value, "L") {
            Ok(ModifiedIntegrity::Low)
        } else if str_eq(value, "H") {
            Ok(ModifiedIntegrity::High)
        } else {
            Err(ParseError::IncorrectValue)
        }
    }

    /// Decoding the code of a value gives the value back.
    pub proof fn lemma_decode_code(v: Self)
        ensures
            Self::decode(v.code()) == Some(v),
    {
        lemma_code_literals();
    }

    /// A string that decodes to a value is the code of that value.
    pub proof fn lemma_code_decode(code: Seq<char>)
        ensures
            Self::decode(code) matches Some(v) ==> v.code() == code,
    {
    }

    /// No code holds a delimiter of the vector grammar.
    pub proof fn lemma_code_plain(v: Self)
        ensures
            free_of(v.code(), METRIC_DELIM),
            free_of(v.code(), VECTOR_DELIM),
    {
        lemma_code_literals();
    }
}

impl core::str::FromStr for ModifiedIntegrity {
    type Err = ParseError;

    /// Reads a value from its code, for `str::parse`.
    fn from_str(value: &str) -> (r: Result<Self, ParseError>)
        ensures
            r == decoded(Self::decode(value@)),
    {
        ModifiedIntegrity::from_str(value)
    }
}

impl AsStr for ModifiedIntegrity {
    open spec fn code(&self) -> Seq<char> {
        match self {
            ModifiedIntegrity::NotDefined => "X"@,
            ModifiedIntegrity::Nil => "N"@,
            ModifiedIntegrity::Low => "L"@,
            ModifiedIntegrity::High => "H"@,
        }
    }

    fn as_str(&self) -> (s: &str) {
        match self {
            ModifiedIntegrity::NotDefined => "X",
            ModifiedIntegrity::Nil => "N",
            ModifiedIntegrity::Low => "L",
            ModifiedIntegrity::High => "H",
        }
    }
}

impl Optional for ModifiedIntegrity {
    open spec fn undefined(&self) -> bool {
        *self == ModifiedIntegrity::NotDefined
    }

    fn is_undefined(&self) -> (b: bool) {
        match self {
            ModifiedIntegrity::NotDefined => true,
            _ => false,
        }
    }
}

impl NumValue for ModifiedIntegrity {
    open spec fn weight(&self) -> nat {
        match self {
            ModifiedIntegrity::NotDefined => 1000,
            ModifiedIntegrity::Nil => 0,
            ModifiedIntegrity::Low => 220,
            ModifiedIntegrity::High => 560,
        }
    }

    fn num_value(&self) -> (w: u32) {
        match self {
            ModifiedIntegrity::NotDefined => 1000,
            ModifiedIntegrity::Nil => 0,
            ModifiedIntegrity::Low => 220,
            ModifiedIntegrity::High => 560,
        }
    }
}

/// Modified Availability (`MA`). Availability impact as it is in the
/// environment.
#[derive(Clone, Copy, Debug, PartialEq, Eq, Hash, Structural)]
pub enum ModifiedAvailability {
    /// code `X`, weight 1.0.
    NotDefined,
    /// "None": code `N`, weight 0.0.
    Nil,
    /// code `L`, weight 0.22.
    Low,
    /// code `H`, weight 0.56.
    High,
}

impl ModifiedAvailability {
    /// The value that `code` stands for, if it is a code of this metric.
    pub open spec fn decode(code: Seq<char>) -> Option<Self> {
        if code == "X"@ {
            Some(ModifiedAvailability::NotDefined)
        } else if code == "N"@ {
            Some(ModifiedAvailability::Nil)
        } else if code == "L"@ {
            Some(ModifiedAvailability::Low)
        } else if code == "H"@ {
            Some(ModifiedAvailability::High)
        } else {
            None
        }
    }

    /// Reads a value from its code; any other string is an incorrect value.
    pub fn from_str(value: &str) -> (r: Result<Self, ParseError>)
        ensures
            r == decoded(Self::decode(value@)),
    {
        if str_eq(value, "X") {
            Ok(ModifiedAvailability::NotDefined)
        } else if str_eq(value, "N") {
            Ok(ModifiedAvailability::Nil)
        } else if str_eq(value, "L") {
            Ok(ModifiedAvailability::Low)
        } else if str_eq(value, "H") {
            Ok(ModifiedAvailability::High)
        } else {
            Err(ParseError::IncorrectValue)
        }
    }

    /// Decoding the code of a value gives the value back.
    pub proof fn lemma_decode_code(v: Self)
        ensures
            Self::decode(v.code()) == Some(v),
    {
        lemma_code_literals();
    }

    /// A string that decodes to a value is the code of that value.
    pub proof fn lemma_code_decode(code: Seq<char>)
        ensures
            Self::decode(code) matches Some(v) ==> v.code() == code,
    {
    }

    /// No code holds a delimiter of the vector grammar.
    pub proof fn lemma_code_plain(v: Self)
        ensures
            free_of(v.code(), METRIC_DELIM),
            free_of(v.code(), VECTOR_DELIM),
    {
        lemma_code_literals();
    }
}

impl core::str::FromStr for ModifiedAvailability {
    type Err = ParseError;

    /// Reads a value from its code, for `str::parse`.
    fn from_str(value: &str) -> (r: Result<Self, ParseError>)
        ensures
            r == decoded(Self::decode(value@)),
    {
        ModifiedAvailability::from_str(value)
    }
}

impl AsStr for ModifiedAvailability {
    open spec fn code(&self) -> Seq<char> {
        match self {
            ModifiedAvailability::NotDefined => "X"@,
            ModifiedAvailability::Nil => "N"@,
            ModifiedAvailability::Low => "L"@,
            ModifiedAvailability::High => "H"@,
        }
    }

    fn as_str(&self) -> (s: &str) {
        match self {
            ModifiedAvailability::NotDefined => "X",
            ModifiedAvailability::Nil => "N",
            ModifiedAvailability::Low => "L",
            ModifiedAvailability::High => "H",
        }
    }
}

impl Optional for ModifiedAvailability {
    open spec fn undefined(&self) -> bool {
        *self == ModifiedAvailability::NotDefined
    }

    fn is_undefined(&self) -> (b: bool) {
        match self {
            ModifiedAvailability::NotDefined => true,
            _ => false,
        }
    }
}

impl NumValue for ModifiedAvailability {
    open spec fn weight(&self) -> nat {
        match self {
            ModifiedAvailability::NotDefined => 1000,
            ModifiedAvailability::Nil => 0,
            ModifiedAvailability::Low => 220,
            ModifiedAvailability::High => 560,
        }
    }

    fn num_value(&self) -> (w: u32) {
        match self {
            ModifiedAvailability::NotDefined => 1000,
            ModifiedAvailability::Nil => 0,
            ModifiedAvailability::Low => 220,
            ModifiedAvailability::High => 560,
        }
    }
}

} // verus!
