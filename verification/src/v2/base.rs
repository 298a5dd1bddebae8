//! CVSS v2 base metrics

use vstd::prelude::*;
use crate::codes::lemma_code_literals;
use crate::common::{decoded, AsStr, NumValue, ParseError};
use crate::grammar::{free_of, METRIC_DELIM, VECTOR_DELIM};
use crate::text::str_eq;

verus! {

/// Access Vector (`AV`). How the vulnerability is reached.
#[derive(Clone, Copy, Debug, PartialEq, Eq, Hash, Structural)]
pub enum AccessVector {
    /// code `L`, weight 0.395.
    Local,
    /// code `A`, weight 0.646.
    AdjacentNetwork,
    /// code `N`, weight 1.0.
    Network,
}

impl AccessVector {
    /// The value that `code` stands for, if it is a code of this metric.
    pub open spec fn decode(code: Seq<char>) -> Option<Self> {
        if code == "L"@ {
            Some(AccessVector::Local)
        } else if code == "A"@ {
            Some(AccessVector::AdjacentNetwork)
        } else if code == "N"@ {
            Some(AccessVector::Network)
        } else {
            None
        }
    }

    /// Reads a value from its code; any other string is an incorrect value.
    pub fn from_str(value: &str) -> (r: Result<Self, ParseError>)
        ensures
            r == decoded(Self::decode(value@)),
    {
        if str_eq(value, "L") {
            Ok(AccessVector::Local)
        } else if str_eq(value, "A") {
            Ok(AccessVector::AdjacentNetwork)
        } else if str_eq(value, "N") {
            Ok(AccessVector::Network)
        } else {
            Err(ParseError::IncorrectValue)
        }
    }

    /// Decoding the code of a value gives the value back.
    pub proof fn lemma_decode_code(v: Self)
        ensures
            Self::decode(v.code()) == Some(v),
    {
        lemma_code_literals();
    }

    /// A string that decodes to a value is the code of that value.
    pub proof fn lemma_code_decode(code: Seq<char>)
        ensures
            Self::decode(code) matches Some(v) ==> v.code() == code,
    {
    }

    /// No code holds a delimiter of the vector grammar.
    pub proof fn lemma_code_plain(v: Self)
        ensures
            free_of(v.code(), METRIC_DELIM),
            free_of(v.code(), VECTOR_DELIM),
    {
        lemma_code_literals();
    }
}

impl core::str::FromStr for AccessVector {
    type Err = ParseError;

    /// Reads a value from its code, for `str::parse`.
    fn from_str(value: &str) -> (r: Result<Self, ParseError>)
        ensures
            r == decoded(Self::decode(value@)),
    {
        AccessVector::from_str(value)
    }
}

impl AsStr for AccessVector {
    open spec fn code(&self) -> Seq<char> {
        match self {
            AccessVector::Local => "L"@,
            AccessVector::AdjacentNetwork => "A"@,
            AccessVector::Network => "N"@,
        }
    }

    fn as_str(&self) -> (s: &str) {
        match self {
            AccessVector::Local => "L",
            AccessVector::AdjacentNetwork => "A",
            AccessVector::Network => "N",
        }
    }
}

impl NumValue for AccessVector {
    open spec fn weight(&self) -> nat {
        match self {
            AccessVector::Local => 395,
            AccessVector::AdjacentNetwork => 646,
            AccessVector::Network => 1000,
        }
    }

    fn num_value(&self) -> (w: u32) {
        match self {
            AccessVector::Local => 395,
            AccessVector::AdjacentNetwork => 646,
            AccessVector::Network => 1000,
        }
    }
}

/// Access Complexity (`AC`). How hard the attack is once the attacker has
/// access.
#[derive(Clone, Copy, Debug, PartialEq, Eq, Hash, Structural)]
pub enum AccessComplexity {
    /// code `H`, weight 0.35.
    High,
    /// code `M`, weight 0.61.
    Medium,
    /// code `L`, weight 0.71.
    Low,
}

impl AccessComplexity {
    /// The value that `code` stands for, if it is a code of this metric.
    pub open spec fn decode(code: Seq<char>) -> Option<Self> {
        if code == "H"@ {
            Some(AccessComplexity::High)
        } else if code == "M"@ {
            Some(AccessComplexity::Medium)
        } else if code == "L"@ {
            Some(AccessComplexity::Low)
        } else {
            None
        }
    }

    /// Reads a value from its code; any other string is an incorrect value.
    pub fn from_str(value: &str) -> (r: Result<Self, ParseError>)
        ensures
            r == decoded(Self::decode(value@)),
    {
        if str_eq(value, "H") {
            Ok(AccessComplexity::High)
        } else if str_eq(value, "M") {
            Ok(AccessComplexity::Medium)
        } else if str_eq(value, "L") {
            Ok(AccessComplexity::Low)
        } else {
            Err(ParseError::IncorrectValue)
        }
    }

    /// Decoding the code of a value gives the value back.
    pub proof fn lemma_decode_code(v: Self)
        ensures
            Self::decode(v.code()) == Some(v),
    {
        lemma_code_literals();
    }

    /// A string that decodes to a value is the code of that value.
    pub proof fn lemma_code_decode(code: Seq<char>)
        ensures
            Self::decode(code) matches Some(v) ==> v.code() == code,
    {
    }

    /// No code holds a delimiter of the vector grammar.
    pub proof fn lemma_code_plain(v: Self)
        ensures
            free_of(v.code(), METRIC_DELIM),
            free_of(v.code(), VECTOR_DELIM),
    {
        lemma_code_literals();
    }
}

impl core::str::FromStr for AccessComplexity {
    type Err = ParseError;

    /// Reads a value from its code, for `str::parse`.
    fn from_str(value: &str) -> (r: Result<Self, ParseError>)
        ensures
            r == decoded(Self::decode(value@)),
    {
        AccessComplexity::from_str(value)
    }
}

impl AsStr for AccessComplexity {
    open spec fn code(&self) -> Seq<char> {
        match self {
            AccessComplexity::High => "H"@,
            AccessComplexity::Medium => "M"@,
            AccessComplexity::Low => "L"@,
        }
    }

    fn as_str(&self) -> (s: &str) {
        match self {
            AccessComplexity::High => "H",
            AccessComplexity::Medium => "M",
            AccessComplexity::Low => "L",
        }
    }
}

impl NumValue for AccessComplexity {
    open spec fn weight(&self) -> nat {
        match self {
            AccessComplexity::High => 350,
            AccessComplexity::Medium => 610,
            AccessComplexity::Low => 710,
        }
    }

    fn num_value(&self) -> (w: u32) {
        match self {
            AccessComplexity::High => 350,
            AccessComplexity::Medium => 610,
            AccessComplexity::Low => 710,
        }
    }
}

/// Authentication (`Au`). How often an attacker must authenticate.
#[derive(Clone, Copy, Debug, PartialEq, Eq, Hash, Structural)]
pub enum Authentication {
    /// code `M`, weight 0.45.
    Multiple,
    /// code `S`, weight 0.56.
    Single,
    /// "None": code `N`, weight 0.704.
    Nil,
}

impl Authentication {
    /// The value that `code` stands for, if it is a code of this metric.
    pub open spec fn decode(code: Seq<char>) -> Option<Self> {
        if code == "M"@ {
            Some(Authentication::Multiple)
        } else if code == "S"@ {
            Some(Authentication::Single)
        } else if code == "N"@ {
            Some(Authentication::Nil)
        } else {
            None
        }
    }

    /// Reads a value from its code; any other string is an incorrect value.
    pub fn from_str(value: &str) -> (r: Result<Self, ParseError>)
        ensures
            r == decoded(Self::decode(value@)),
    {
        if str_eq(value, "M") {
            Ok(Authentication::Multiple)
        } else if str_eq(value, "S") {
            Ok(Authentication::Single)
        } else if str_eq(value, "N") {
            Ok(Authentication::Nil)
        } else {
            Err(ParseError::IncorrectValue)
        }
    }

    /// Decoding the code of a value gives the value back.
    pub proof fn lemma_decode_code(v: Self)
        ensures
            Self::decode(v.code()) == Some(v),
    {
        lemma_code_literals();
    }

    /// A string that decodes to a value is the code of that value.
    pub proof fn lemma_code_decode(code: Seq<char>)
        ensures
            Self::decode(code) matches Some(v) ==> v.code() == code,
    {
    }

    /// No code holds a delimiter of the vector grammar.
    pub proof fn lemma_code_plain(v: Self)
        ensures
            free_of(v.code(), METRIC_DELIM),
            free_of(v.code(), VECTOR_DELIM),
    {
        lemma_code_literals();
    }
}

impl core::str::FromStr for Authentication {
    type Err = ParseError;

    /// Reads a value from its code, for `str::parse`.
    fn from_str(value: &str) -> (r: Result<Self, ParseError>)
        ensures
            r == decoded(Self::decode(value@)),
    {
        Authentication::from_str(value)
    }
}

impl AsStr for Authentication {
    open spec fn code(&self) -> Seq<char> {
        match self {
            Authentication::Multiple => "M"@,
            Authentication::Single => "S"@,
            Authentication::Nil => "N"@,
        }
    }

    fn as_str(&self) -> (s: &str) {
        match self {
            Authentication::Multiple => "M",
            Authentication::Single => "S",
            Authentication::Nil => "N",
        }
    }
}

impl NumValue for Authentication {
    open spec fn weight(&self) -> nat {
        match self {
            Authentication::Multiple => 450,
            Authentication::Single => 560,
            Authentication::Nil => 704,
        }
    }

    fn num_value(&self) -> (w: u32) {
        match self {
            Authentication::Multiple => 450,
            Authentication::Single => 560,
            Authentication::Nil => 704,
        }
    }
}

/// Confidentiality Impact (`C`). Impact on confidentiality.
#[derive(Clone, Copy, Debug, PartialEq, Eq, Hash, Structural)]
pub enum ConfidentialityImpact {
    /// "None": code `N`, weight 0.0.
    Nil,
    /// code `P`, weight 0.275.
    Partial,
    /// code `C`, weight 0.66.
    Complete,
}

impl ConfidentialityImpact {
    /// The value that `code` stands for, if it is a code of this metric.
    pub open spec fn decode(code: Seq<char>) -> Option<Self> {
        if code == "N"@ {
            Some(ConfidentialityImpact::Nil)
        } else if code == "P"@ {
            Some(ConfidentialityImpact::Partial)
        } else if code == "C"@ {
            Some(ConfidentialityImpact::Complete)
        } else {
            None
        }
    }

    /// Reads a value from its code; any other string is an incorrect value.
    pub fn from_str(value: &str) -> (r: Result<Self, ParseError>)
        ensures
            r == decoded(Self::decode(value@)),
    {
        if str_eq(value, "N") {
            Ok(ConfidentialityImpact::Nil)
        } else if str_eq(value, "P") {
            Ok(ConfidentialityImpact::Partial)
        } else if str_eq(value, "C") {
            Ok(ConfidentialityImpact::Complete)
        } else {
            Err(ParseError::IncorrectValue)
        }
    }

    /// Decoding the code of a value gives the value back.
    pub proof fn lemma_decode_code(v: Self)
        ensures
            Self::decode(v.code()) == Some(v),
    {
        lemma_code_literals();
    }

    /// A string that decodes to a value is the code of that value.
    pub proof fn lemma_code_decode(code: Seq<char>)
        ensures
            Self::decode(code) matches Some(v) ==> v.code() == code,
    {
    }

    /// No code holds a delimiter of the vector grammar.
    pub proof fn lemma_code_plain(v: Self)
        ensures
            free_of(v.code(), METRIC_DELIM),
            free_of(v.code(), VECTOR_DELIM),
    {
        lemma_code_literals();
    }
}

impl core::str::FromStr for ConfidentialityImpact {
    type Err = ParseError;

    /// Reads a value from its code, for `str::parse`.
    fn from_str(value: &str) -> (r: Result<Self, ParseError>)
        ensures
            r == decoded(Self::decode(value@)),
    {
        ConfidentialityImpact::from_str(value)
    }
}

impl AsStr for ConfidentialityImpact {
    open spec fn code(&self) -> Seq<char> {
        match self {
            ConfidentialityImpact::Nil => "N"@,
            ConfidentialityImpact::Partial => "P"@,
            ConfidentialityImpact::Complete => "C"@,
        }
    }

    fn as_str(&self) -> (s: &str) {
        match self {
            ConfidentialityImpact::Nil => "N",
            ConfidentialityImpact::Partial => "P",
            ConfidentialityImpact::Complete => "C",
        }
    }
}

impl NumValue for ConfidentialityImpact {
    open spec fn weight(&self) -> nat {
        match self {
            ConfidentialityImpact::Nil => 0,
            ConfidentialityImpact::Partial => 275,
            ConfidentialityImpact::Complete => 660,
        }
    }

    fn num_value(&self) -> (w: u32) {
        match self {
            ConfidentialityImpact::Nil => 0,
            ConfidentialityImpact::Partial => 275,
            ConfidentialityImpact::Complete => 660,
        }
    }
}

/// Integrity Impact (`I`). Impact on integrity.
#[derive(Clone, Copy, Debug, PartialEq, Eq, Hash, Structural)]
pub enum IntegrityImpact {
    /// "None": code `N`, weight 0.0.
    Nil,
    /// code `P`, weight 0.275.
    Partial,
    /// code `C`, weight 0.66.
    Complete,
}

impl IntegrityImpact {
    /// The value that `code` stands for, if it is a code of this metric.
    pub open spec fn decode(code: Seq<char>) -> Option<Self> {
        if code == "N"@ {
            Some(IntegrityImpact::Nil)
        } else if code == "P"@ {
            Some(IntegrityImpact::Partial)
        } else if code == "C"@ {
            Some(IntegrityImpact::Complete)
        } else {
            None
        }
    }

    /// Reads a value from its code; any other string is an incorrect value.
    pub fn from_str(value: &str) -> (r: Result<Self, ParseError>)
        ensures
            r == decoded(Self::decode(value@)),
    {
        if str_eq(value, "N") {
            Ok(IntegrityImpact::Nil)
        } else if str_eq(value, "P") {
            Ok(IntegrityImpact::Partial)
        } else if str_eq(value, "C") {
            Ok(IntegrityImpact::Complete)
        } else {
            Err(ParseError::IncorrectValue)
        }
    }

    /// Decoding the code of a value gives the value back.
    pub proof fn lemma_decode_code(v: Self)
        ensures
            Self::decode(v.code()) == Some(v),
    {
        lemma_code_literals();
    }

    /// A string that decodes to a value is the code of that value.
    pub proof fn lemma_code_decode(code: Seq<char>)
        ensures
            Self::decode(code) matches Some(v) ==> v.code() == code,
    {
    }

    /// No code holds a delimiter of the vector grammar.
    pub proof fn lemma_code_plain(v: Self)
        ensures
            free_of(v.code(), METRIC_DELIM),
            free_of(v.code(), VECTOR_DELIM),
    {
        lemma_code_literals();
    }
}

impl core::str::FromStr for IntegrityImpact {
    type Err = ParseError;

    /// Reads a value from its code, for `str::parse`.
    fn from_str(value: &str) -> (r: Result<Self, ParseError>)
        ensures
            r == decoded(Self::decode(value@)),
    {
        IntegrityImpact::from_str(value)
    }
}

impl AsStr for IntegrityImpact {
    open spec fn code(&self) -> Seq<char> {
        match self {
            IntegrityImpact::Nil => "N"@,
            IntegrityImpact::Partial => "P"@,
            IntegrityImpact::Complete => "C"@,
        }
    }

    fn as_str(&self) -> (s: &str) {
        match self {
            IntegrityImpact::Nil => "N",
            IntegrityImpact::Partial => "P",
            IntegrityImpact::Complete => "C",
        }
    }
}

impl NumValue for IntegrityImpact {
    open spec fn weight(&self) -> nat {
        match self {
            IntegrityImpact::Nil => 0,
            IntegrityImpact::Partial => 275,
            IntegrityImpact::Complete => 660,
        }
    }

    fn num_value(&self) -> (w: u32) {
        match self {
            IntegrityImpact::Nil => 0,
            IntegrityImpact::Partial => 275,
            IntegrityImpact::Complete => 660,
        }
    }
}

/// Availability Impact (`A`). Impact on availability.
#[derive(Clone, Copy, Debug, PartialEq, Eq, Hash, Structural)]
pub enum AvailabilityImpact {
    /// "None": code `N`, weight 0.0.
    Nil,
    /// code `P`, weight 0.275.
    Partial,
    /// code `C`, weight 0.66.
    Complete,
}

impl AvailabilityImpact {
    /// The value that `code` stands for, if it is a code of this metric.
    pub open spec fn decode(code: Seq<char>) -> Option<Self> {
        if code == "N"@ {
            Some(AvailabilityImpact::Nil)
        } else if code == "P"@ {
            Some(AvailabilityImpact::Partial)
        } else if code == "C"@ {
            Some(AvailabilityImpact::Complete)
        } else {
            None
        }
    }

    /// Reads a value from its code; any other string is an incorrect value.
    pub fn from_str(value: &str) -> (r: Result<Self, ParseError>)
        ensures
            r == decoded(Self::decode(value@)),
    {
        if str_eq(value, "N") {
            Ok(AvailabilityImpact::Nil)
        } else if str_eq(value, "P") {
            Ok(AvailabilityImpact::Partial)
        } else if str_eq(value, "C") {
            Ok(AvailabilityImpact::Complete)
        } else {
            Err(ParseError::IncorrectValue)
        }
    }

    /// Decoding the code of a value gives the value back.
    pub proof fn lemma_decode_code(v: Self)
        ensures
            Self::decode(v.code()) == Some(v),
    {
        lemma_code_literals();
    }

    /// A string that decodes to a value is the code of that value.
    pub proof fn lemma_code_decode(code: Seq<char>)
        ensures
            Self::decode(code) matches Some(v) ==> v.code() == code,
    {
    }

    /// No code holds a delimiter of the vector grammar.
    pub proof fn lemma_code_plain(v: Self)
        ensures
            free_of(v.code(), METRIC_DELIM),
            free_of(v.code(), VECTOR_DELIM),
    {
        lemma_code_literals();
    }
}

impl core::str::FromStr for AvailabilityImpact {
    type Err = ParseError;

    /// Reads a value from its code, for `str::parse`.
    fn from_str(value: &str) -> (r: Result<Self, ParseError>)
        ensures
            r == decoded(Self::decode(value@)),
    {
        AvailabilityImpact::from_str(value)
    }
}

impl AsStr for AvailabilityImpact {
    open spec fn code(&self) -> Seq<char> {
        match self {
            AvailabilityImpact::Nil => "N"@,
            AvailabilityImpact::Partial => "P"@,
            AvailabilityImpact::Complete => "C"@,
        }
    }

    fn as_str(&self) -> (s: &str) {
        match self {
            AvailabilityImpact::Nil => "N",
            AvailabilityImpact::Partial => "P",
            AvailabilityImpact::Complete => "C",
        }
    }
}

impl NumValue for AvailabilityImpact {
    open spec fn weight(&self) -> nat {
        match self {
            AvailabilityImpact::Nil => 0,
            AvailabilityImpact::Partial => 275,
            AvailabilityImpact::Complete => 660,
        }
    }

    fn num_value(&self) -> (w: u32) {
        match self {
            AvailabilityImpact::Nil => 0,
            AvailabilityImpact::Partial => 275,
            AvailabilityImpact::Complete => 660,
        }
    }
}

} // verus!
