//! CVSS v2 environmental metrics

use vstd::prelude::*;
use crate::codes::lemma_code_literals;
use crate::common::{decoded, AsStr, NumValue, Optional, ParseError};
use crate::grammar::{free_of, METRIC_DELIM, VECTOR_DELIM};
use crate::text::str_eq;

verus! {

/// Collateral Damage Potential (`CDP`). Potential for loss of life, assets or
/// revenue.
#[derive(Clone, Copy, Debug, PartialEq, Eq, Hash, Structural)]
pub enum CollateralDamagePotential {
    /// "None": code `N`, weight 0.0.
    Nil,
    /// code `L`, weight 0.1.
    Low,
    /// code `LM`, weight 0.3.
    LowMedium,
    /// code `MH`, weight 0.4.
    MediumHigh,
    /// code `H`, weight 0.5.
    High,
    /// code `ND`, weight 0.0.
    NotDefined,
}

impl CollateralDamagePotential {
    /// The value that `code` stands for, if it is a code of this metric.
    pub open spec fn decode(code: Seq<char>) -> Option<Self> {
        if code == "N"@ {
            Some(CollateralDamagePotential::Nil)
        } else if code == "L"@ {
            Some(CollateralDamagePotential::Low)
        } else if code == "LM"@ {
            Some(CollateralDamagePotential::LowMedium)
        } else if code == "MH"@ {
            Some(CollateralDamagePotential::MediumHigh)
        } else if code == "H"@ {
            Some(CollateralDamagePotential::High)
        } else if code == "ND"@ {
            Some(CollateralDamagePotential::NotDefined)
        } else {
            None
        }
    }

    /// Reads a value from its code; any other string is an incorrect value.
    pub fn from_str(value: &str) -> (r: Result<Self, ParseError>)
        ensures
            r == decoded(Self::decode(value@)),
    {
        if str_eq(value, "N") {
            Ok(CollateralDamagePotential::Nil)
        } else if str_eq(value, "L") {
            Ok(CollateralDamagePotential::Low)
        } else if str_eq(value, "LM") {
            Ok(CollateralDamagePotential::LowMedium)
        } else if str_eq(value, "MH") {
            Ok(CollateralDamagePotential::MediumHigh)
        } else if str_eq(value, "H") {
            Ok(CollateralDamagePotential::High)
        } else if str_eq(value, "ND") {
            Ok(CollateralDamagePotential::NotDefined)
        } else {
            Err(ParseError::IncorrectValue)
        }
    }

    /// Decoding the code of a value gives the value back.
    pub proof fn lemma_decode_code(v: Self)
        ensures
            Self::decode(v.code()) == Some(v),
    {
        lemma_code_literals();
    }

    /// A string that decodes to a value is the code of that value.
    pub proof fn lemma_code_decode(code: Seq<char>)
        ensures
            Self::decode(code) matches Some(v) ==> v.code() == code,
    {
    }

    /// No code holds a delimiter of the vector grammar.
    pub proof fn lemma_code_plain(v: Self)
        ensures
            free_of(v.code(), METRIC_DELIM),
            free_of(v.code(), VECTOR_DELIM),
    {
        lemma_code_literals();
    }
}

impl core::str::FromStr for CollateralDamagePotential {
    type Err = ParseError;

    /// Reads a value from its code, for `str::parse`.
    fn from_str(value: &str) -> (r: Result<Self, ParseError>)
        ensures
            r == decoded(Self::decode(value@)),
    {
        CollateralDamagePotential::from_str(value)
    }
}

impl AsStr for CollateralDamagePotential {
    open spec fn code(&self) -> Seq<char> {
        match self {
            CollateralDamagePotential::Nil => "N"@,
            CollateralDamagePotential::Low => "L"@,
            CollateralDamagePotential::LowMedium => "LM"@,
            CollateralDamagePotential::MediumHigh => "MH"@,
            CollateralDamagePotential::High => "H"@,
            CollateralDamagePotential::NotDefined => "ND"@,
        }
    }

    fn as_str(&self) -> (s: &str) {
        match self {
            CollateralDamagePotential::Nil => "N",
            CollateralDamagePotential::Low => "L",
            CollateralDamagePotential::LowMedium => "LM",
            CollateralDamagePotential::MediumHigh => "MH",
            CollateralDamagePotential::High => "H",
            CollateralDamagePotential::NotDefined => "ND",
        }
    }
}

impl Optional for CollateralDamagePotential {
    open spec fn undefined(&self) -> bool {
        *self == CollateralDamagePotential::NotDefined
    }

    fn is_undefined(&self) -> (b: bool) {
        match self {
            CollateralDamagePotential::NotDefined => true,
            _ => false,
        }
    }
}

impl NumValue for CollateralDamagePotential {
    open spec fn weight(&self) -> nat {
        match self {
            CollateralDamagePotential::Nil => 0,
            CollateralDamagePotential::Low => 100,
            CollateralDamagePotential::LowMedium => 300,
            CollateralDamagePotential::MediumHigh => 400,
            CollateralDamagePotential::High => 500,
            CollateralDamagePotential::NotDefined => 0,
        }
    }

    fn num_value(&self) -> (w: u32) {
        match self {
            CollateralDamagePotential::Nil => 0,
            CollateralDamagePotential::Low => 100,
            CollateralDamagePotential::LowMedium => 300,
            CollateralDamagePotential::MediumHigh => 400,
            CollateralDamagePotential::High => 500,
            CollateralDamagePotential::NotDefined => 0,
        }
    }
}

/// Target Distribution (`TD`). Share of the systems of the environment that are
/// vulnerable.
#[derive(Clone, Copy, Debug, PartialEq, Eq, Hash, Structural)]
pub enum TargetDistribution {
    /// "None": code `N`, weight 0.0.
    Nil,
    /// code `L`, weight 0.25.
    Low,
    /// code `M`, weight 0.75.
    Medium,
    /// code `H`, weight 1.0.
    High,
    /// code `ND`, weight 1.0.
    NotDefined,
}

impl TargetDistribution {
    /// The value that `code` stands for, if it is a code of this metric.
    pub open spec fn decode(code: Seq<char>) -> Option<Self> {
        if code == "N"@ {
            Some(TargetDistribution::Nil)
        } else if code == "L"@ {
            Some(TargetDistribution::Low)
        } else if code == "M"@ {
            Some(TargetDistribution::Medium)
        } else if code == "H"@ {
            Some(TargetDistribution::High)
        } else if code == "ND"@ {
            Some(TargetDistribution::NotDefined)
        } else {
            None
        }
    }

    /// Reads a value from its code; any other string is an incorrect value.
    pub fn from_str(value: &str) -> (r: Result<Self, ParseError>)
        ensures
            r == decoded(Self::decode(value@)),
    {
        if str_eq(value, "N") {
            Ok(TargetDistribution::Nil)
        } else if str_eq(value, "L") {
            Ok(TargetDistribution::Low)
        } else if str_eq(value, "M") {
            Ok(TargetDistribution::Medium)
        } else if str_eq(value, "H") {
            Ok(TargetDistribution::High)
        } else if str_eq(value, "ND") {
            Ok(TargetDistribution::NotDefined)
        } else {
            Err(ParseError::IncorrectValue)
        }
    }

    /// Decoding the code of a value gives the value back.
    pub proof fn lemma_decode_code(v: Self)
        ensures
            Self::decode(v.code()) == Some(v),
    {
        lemma_code_literals();
    }

    /// A string that decodes to a value is the code of that value.
    pub proof fn lemma_code_decode(code: Seq<char>)
        ensures
            Self::decode(code) matches Some(v) ==> v.code() == code,
    {
    }

    /// No code holds a delimiter of the vector grammar.
    pub proof fn lemma_code_plain(v: Self)
        ensures
            free_of(v.code(), METRIC_DELIM),
            free_of(v.code(), VECTOR_DELIM),
    {
        lemma_code_literals();
    }
}

impl core::str::FromStr for TargetDistribution {
    type Err = ParseError;

    /// Reads a value from its code, for `str::parse`.
    fn from_str(value: &str) -> (r: Result<Self, ParseError>)
        ensures
            r == decoded(Self::decode(value@)),
    {
        TargetDistribution::from_str(value)
    }
}

impl AsStr for TargetDistribution {
    open spec fn code(&self) -> Seq<char> {
        match self {
            TargetDistribution::Nil => "N"@,
            TargetDistribution::Low => "L"@,
            TargetDistribution::Medium => "M"@,
            TargetDistribution::High => "H"@,
            TargetDistribution::NotDefined => "ND"@,
        }
    }

    fn as_str(&self) -> (s: &str) {
        match self {
            TargetDistribution::Nil => "N",
            TargetDistribution::Low => "L",
            TargetDistribution::Medium => "M",
            TargetDistribution::High => "H",
            TargetDistribution::NotDefined => "ND",
        }
    }
}

impl Optional for TargetDistribution {
    open spec fn undefined(&self) -> bool {
        *self == TargetDistribution::NotDefined
    }

    fn is_undefined(&self) -> (b: bool) {
        match self {
            TargetDistribution::NotDefined => true,
            _ => false,
        }
    }
}

impl NumValue for TargetDistribution {
    open spec fn weight(&self) -> nat {
        match self {
            TargetDistribution::Nil => 0,
            TargetDistribution::Low => 250,
            TargetDistribution::Medium => 750,
            TargetDistribution::High => 1000,
            TargetDistribution::NotDefined => 1000,
        }
    }

    fn num_value(&self) -> (w: u32) {
        match self {
            TargetDistribution::Nil => 0,
            TargetDistribution::Low => 250,
            TargetDistribution::Medium => 750,
            TargetDistribution::High => 1000,
            TargetDistribution::NotDefined => 1000,
        }
    }
}

/// Confidentiality Requirement (`CR`). Importance of confidentiality to the
/// environment.
#[derive(Clone, Copy, Debug, PartialEq, Eq, Hash, Structural)]
pub enum ConfidentialityRequirement {
    /// code `ND`, weight 1.0.
    NotDefined,
    /// code `H`, weight 1.51.
    High,
    /// code `M`, weight 1.0.
    Medium,
    /// code `L`, weight 0.5.
    Low,
}

impl ConfidentialityRequirement {
    /// The value that `code` stands for, if it is a code of this metric.
    pub open spec fn decode(code: Seq<char>) -> Option<Self> {
        if code == "ND"@ {
            Some(ConfidentialityRequirement::NotDefined)
        } else if code == "H"@ {
            Some(ConfidentialityRequirement::High)
        } else if code == "M"@ {
            Some(ConfidentialityRequirement::Medium)
        } else if code == "L"@ {
            Some(ConfidentialityRequirement::Low)
        } else {
            None
        }
    }

    /// Reads a value from its code; any other string is an incorrect value.
    pub fn from_str(value: &str) -> (r: Result<Self, ParseError>)
        ensures
            r == decoded(Self::decode(value@)),
    {
        if str_eq(value, "ND") {
            Ok(ConfidentialityRequirement::NotDefined)
        } else if str_eq(value, "H") {
            Ok(ConfidentialityRequirement::High)
        } else if str_eq(value, "M") {
            Ok(ConfidentialityRequirement::Medium)
        } else if str_eq(value, "L") {
            Ok(ConfidentialityRequirement::Low)
        } else {
            Err(ParseError::IncorrectValue)
        }
    }

    /// Decoding the code of a value gives the value back.
    pub proof fn lemma_decode_code(v: Self)
        ensures
            Self::decode(v.code()) == Some(v),
    {
        lemma_code_literals();
    }

    /// A string that decodes to a value is the code of that value.
    pub proof fn lemma_code_decode(code: Seq<char>)
        ensures
            Self::decode(code) matches Some(v) ==> v.code() == code,
    {
    }

    /// No code holds a delimiter of the vector grammar.
    pub proof fn lemma_code_plain(v: Self)
        ensures
            free_of(v.code(), METRIC_DELIM),
            free_of(v.code(), VECTOR_DELIM),
    {
        lemma_code_literals();
    }
}

impl core::str::FromStr for ConfidentialityRequirement {
    type Err = ParseError;

    /// Reads a value from its code, for `str::parse`.
    fn from_str(value: &str) -> (r: Result<Self, ParseError>)
        ensures
            r == decoded(Self::decode(value@)),
    {
        ConfidentialityRequirement::from_str(value)
    }
}

impl AsStr for ConfidentialityRequirement {
    open spec fn code(&self) -> Seq<char> {
        match self {
            ConfidentialityRequirement::NotDefined => "ND"@,
            ConfidentialityRequirement::High => "H"@,
            ConfidentialityRequirement::Medium => "M"@,
            ConfidentialityRequirement::Low => "L"@,
        }
    }

    fn as_str(&self) -> (s: &str) {
        match self {
            ConfidentialityRequirement::NotDefined => "ND",
            ConfidentialityRequirement::High => "H",
            ConfidentialityRequirement::Medium => "M",
            ConfidentialityRequirement::Low => "L",
        }
    }
}

impl Optional for ConfidentialityRequirement {
    open spec fn undefined(&self) -> bool {
        *self == ConfidentialityRequirement::NotDefined
    }

    fn is_undefined(&self) -> (b: bool) {
        match self {
            ConfidentialityRequirement::NotDefined => true,
            _ => false,
        }
    }
}

impl NumValue for ConfidentialityRequirement {
    open spec fn weight(&self) -> nat {
        match self {
            ConfidentialityRequirement::NotDefined => 1000,
            ConfidentialityRequirement::High => 1510,
            ConfidentialityRequirement::Medium => 1000,
            ConfidentialityRequirement::Low => 500,
        }
    }

    fn num_value(&self) -> (w: u32) {
        match self {
            ConfidentialityRequirement::NotDefined => 1000,
            ConfidentialityRequirement::High => 1510,
            ConfidentialityRequirement::Medium => 1000,
            ConfidentialityRequirement::Low => 500,
        }
    }
}

/// Integrity Requirement (`IR`). Importance of integrity to the environment.
#[derive(Clone, Copy, Debug, PartialEq, Eq, Hash, Structural)]
pub enum IntegrityRequirement {
    /// code `ND`, weight 1.0.
    NotDefined,
    /// code `H`, weight 1.51.
    High,
    /// code `M`, weight 1.0.
    Medium,
    /// code `L`, weight 0.5.
    Low,
}

impl IntegrityRequirement {
    /// The value that `code` stands for, if it is a code of this metric.
    pub open spec fn decode(code: Seq<char>) -> Option<Self> {
        if code == "ND"@ {
            Some(IntegrityRequirement::NotDefined)
        } else if code == "H"@ {
            Some(IntegrityRequirement::High)
        } else if code == "M"@ {
            Some(IntegrityRequirement::Medium)
        } else if code == "L"@ {
            Some(IntegrityRequirement::Low)
        } else {
            None
        }
    }

    /// Reads a value from its code; any other string is an incorrect value.
    pub fn from_str(value: &str) -> (r: Result<Self, ParseError>)
        ensures
            r == decoded(Self::decode(value@)),
    {
        if str_eq(value, "ND") {
            Ok(IntegrityRequirement::NotDefined)
        } else if str_eq(value, "H") {
            Ok(IntegrityRequirement::High)
        } else if str_eq(value, "M") {
            Ok(IntegrityRequirement::Medium)
        } else if str_eq(value, "L") {
            Ok(IntegrityRequirement::Low)
        } else {
            Err(ParseError::IncorrectValue)
        }
    }

    /// Decoding the code of a value gives the value back.
    pub proof fn lemma_decode_code(v: Self)
        ensures
            Self::decode(v.code()) == Some(v),
    {
        lemma_code_literals();
    }

    /// A string that decodes to a value is the code of that value.
    pub proof fn lemma_code_decode(code: Seq<char>)
        ensures
            Self::decode(code) matches Some(v) ==> v.code() == code,
    {
    }

    /// No code holds a delimiter of the vector grammar.
    pub proof fn lemma_code_plain(v: Self)
        ensures
            free_of(v.code(), METRIC_DELIM),
            free_of(v.code(), VECTOR_DELIM),
    {
        lemma_code_literals();
    }
}

impl core::str::FromStr for IntegrityRequirement {
    type Err = ParseError;

    /// Reads a value from its code, for `str::parse`.
    fn from_str(value: &str) -> (r: Result<Self, ParseError>)
        ensures
            r == decoded(Self::decode(value@)),
    {
        IntegrityRequirement::from_str(value)
    }
}

impl AsStr for IntegrityRequirement {
    open spec fn code(&self) -> Seq<char> {
        match self {
            IntegrityRequirement::NotDefined => "ND"@,
            IntegrityRequirement::High => "H"@,
            IntegrityRequirement::Medium => "M"@,
            IntegrityRequirement::Low => "L"@,
        }
    }

    fn as_str(&self) -> (s: &str) {
        match self {
            IntegrityRequirement::NotDefined => "ND",
            IntegrityRequirement::High => "H",
            IntegrityRequirement::Medium => "M",
            IntegrityRequirement::Low => "L",
        }
    }
}

impl Optional for IntegrityRequirement {
    open spec fn undefined(&self) -> bool {
        *self == IntegrityRequirement::NotDefined
    }

    fn is_undefined(&self) -> (b: bool) {
        match self {
            IntegrityRequirement::NotDefined => true,
            _ => false,
        }
    }
}

impl NumValue for IntegrityRequirement {
    open spec fn weight(&self) -> nat {
        match self {
            IntegrityRequirement::NotDefined => 1000,
            IntegrityRequirement::High => 1510,
            IntegrityRequirement::Medium => 1000,
            IntegrityRequirement::Low => 500,
        }
    }

    fn num_value(&self) -> (w: u32) {
        match self {
            IntegrityRequirement::NotDefined => 1000,
            IntegrityRequirement::High => 1510,
            IntegrityRequirement::Medium => 1000,
            IntegrityRequirement::Low => 500,
        }
    }
}

/// Availability Requirement (`AR`). Importance of availability to the
/// environment.
#[derive(Clone, Copy, Debug, PartialEq, Eq, Hash, Structural)]
pub enum AvailabilityRequirement {
    /// code `ND`, weight 1.0.
    NotDefined,
    /// code `H`, weight 1.51.
    High,
    /// code `M`, weight 1.0.
    Medium,
    /// code `L`, weight 0.5.
    Low,
}

impl AvailabilityRequirement {
    /// The value that `code` stands for, if it is a code of this metric.
    pub open spec fn decode(code: Seq<char>) -> Option<Self> {
        if code == "ND"@ {
            Some(AvailabilityRequirement::NotDefined)
        } else if code == "H"@ {
            Some(AvailabilityRequirement::High)
        } else if code == "M"@ {
            Some(AvailabilityRequirement::Medium)
        } else if code == "L"@ {
            Some(AvailabilityRequirement::Low)
        } else {
            None
        }
    }

    /// Reads a value from its code; any other string is an incorrect value.
    pub fn from_str(value: &str) -> (r: Result<Self, ParseError>)
        ensures
            r == decoded(Self::decode(value@)),
    {
        if str_eq(value, "ND") {
            Ok(AvailabilityRequirement::NotDefined)
        } else if str_eq(value, "H") {
            Ok(AvailabilityRequirement::High)
        } else if str_eq(value, "M") {
            Ok(AvailabilityRequirement::Medium)
        } else if str_eq(value, "L") {
            Ok(AvailabilityRequirement::Low)
        } else {
            Err(ParseError::IncorrectValue)
        }
    }

    /// Decoding the code of a value gives the value back.
    pub proof fn lemma_decode_code(v: Self)
        ensures
            Self::decode(v.code()) == Some(v),
    {
        lemma_code_literals();
    }

    /// A string that decodes to a value is the code of that value.
    pub proof fn lemma_code_decode(code: Seq<char>)
        ensures
            Self::decode(code) matches Some(v) ==> v.code() == code,
    {
    }

    /// No code holds a delimiter of the vector grammar.
    pub proof fn lemma_code_plain(v: Self)
        ensures
            free_of(v.code(), METRIC_DELIM),
            free_of(v.code(), VECTOR_DELIM),
    {
        lemma_code_literals();
    }
}

impl core::str::FromStr for AvailabilityRequirement {
    type Err = ParseError;

    /// Reads a value from its code, for `str::parse`.
    fn from_str(value: &str) -> (r: Result<Self, ParseError>)
        ensures
            r == decoded(Self::decode(value@)),
    {
        AvailabilityRequirement::from_str(value)
    }
}

impl AsStr for AvailabilityRequirement {
    open spec fn code(&self) -> Seq<char> {
        match self {
            AvailabilityRequirement::NotDefined => "ND"@,
            AvailabilityRequirement::High => "H"@,
            AvailabilityRequirement::Medium => "M"@,
            AvailabilityRequirement::Low => "L"@,
        }
    }

    fn as_str(&self) -> (s: &str) {
        match self {
            AvailabilityRequirement::NotDefined => "ND",
            AvailabilityRequirement::High => "H",
            AvailabilityRequirement::Medium => "M",
            AvailabilityRequirement::Low => "L",
        }
    }
}

impl Optional for AvailabilityRequirement {
    open spec fn undefined(&self) -> bool {
        *self == AvailabilityRequirement::NotDefined
    }

    fn is_undefined(&self) -> (b: bool) {
        match self {
            AvailabilityRequirement::NotDefined => true,
            _ => false,
        }
    }
}

impl NumValue for AvailabilityRequirement {
    open spec fn weight(&self) -> nat {
        match self {
            AvailabilityRequirement::NotDefined => 1000,
            AvailabilityRequirement::High => 1510,
            AvailabilityRequirement::Medium => 1000,
            AvailabilityRequirement::Low => 500,
        }
    }

    fn num_value(&self) -> (w: u32) {
        match self {
            AvailabilityRequirement::NotDefined => 1000,
            AvailabilityRequirement::High => 1510,
            AvailabilityRequirement::Medium => 1000,
            AvailabilityRequirement::Low => 500,
        }
    }
}

} // verus!
