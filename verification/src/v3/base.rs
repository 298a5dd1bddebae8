//! CVSS v3 base metrics

use vstd::prelude::*;
use crate::codes::lemma_code_literals;
use crate::common::{decoded, AsStr, NumValue, ParseError};
use crate::grammar::{free_of, METRIC_DELIM, VECTOR_DELIM};
use crate::text::str_eq;

verus! {

/// Attack Vector (`AV`). The context by which the vulnerability can be
/// exploited.
#[derive(Clone, Copy, Debug, PartialEq, Eq, Hash, Structural)]
pub enum AttackVector {
    /// code `N`, weight 0.85.
    Network,
    /// code `A`, weight 0.62.
    Adjacent,
    /// code `L`, weight 0.55.
    Local,
    /// code `P`, weight 0.2.
    Physical,
}

impl AttackVector {
    /// The value that `code` stands for, if it is a code of this metric.
    pub open spec fn decode(code: Seq<char>) -> Option<Self> {
        if code == "N"@ {
            Some(AttackVector::Network)
        } else if code == "A"@ {
            Some(AttackVector::Adjacent)
        } else if code == "L"@ {
            Some(AttackVector::Local)
        } else if code == "P"@ {
            Some(AttackVector::Physical)
        } else {
            None
        }
    }

    /// Reads a value from its code; any other string is an incorrect value.
    pub fn from_str(value: &str) -> (r: Result<Self, ParseError>)
        ensures
            r == decoded(Self::decode(value@)),
    {
        if str_eq(value, "N") {
            Ok(AttackVector::Network)
        } else if str_eq(value, "A") {
            Ok(AttackVector::Adjacent)
        } else if str_eq(value, "L") {
            Ok(AttackVector::Local)
        } else if str_eq(value, "P") {
            Ok(AttackVector::Physical)
        } else {
            Err(ParseError::IncorrectValue)
        }
    }

    /// Decoding the code of a value gives the value back.
    pub proof fn lemma_decode_code(v: Self)
        ensures
            Self::decode(v.code()) == Some(v),
    {
        lemma_code_literals();
    }

    /// A string that decodes to a value is the code of that value.
    pub proof fn lemma_code_decode(code: Seq<char>)
        ensures
            Self::decode(code) matches Some(v) ==> v.code() == code,
    {
    }

    /// No code holds a delimiter of the vector grammar.
    pub proof fn lemma_code_plain(v: Self)
        ensures
            free_of(v.code(), METRIC_DELIM),
            free_of(v.code(), VECTOR_DELIM),
    {
        lemma_code_literals();
    }
}

impl core::str::FromStr for AttackVector {
    type Err = ParseError;

    /// Reads a value from its code, for `str::parse`.
    fn from_str(value: &str) -> (r: Result<Self, ParseError>)
        ensures
            r == decoded(Self::decode(value@)),
    {
        AttackVector::from_str(value)
    }
}

impl AsStr for AttackVector {
    open spec fn code(&self) -> Seq<char> {
        match self {
            AttackVector::Network => "N"@,
            AttackVector::Adjacent => "A"@,
            AttackVector::Local => "L"@,
            AttackVector::Physical => "P"@,
        }
    }

    fn as_str(&self) -> (s: &str) {
        match self {
            AttackVector::Network => "N",
            AttackVector::Adjacent => "A",
            AttackVector::Local => "L",
            AttackVector::Physical => "P",
        }
    }
}

impl NumValue for AttackVector {
    open spec fn weight(&self) -> nat {
        match self {
            AttackVector::Network => 850,
            AttackVector::Adjacent => 620,
            AttackVector::Local => 550,
            AttackVector::Physical => 200,
        }
    }

    fn num_value(&self) -> (w: u32) {
        match self {
            AttackVector::Network => 850,
            AttackVector::Adjacent => 620,
            AttackVector::Local => 550,
            AttackVector::Physical => 200,
        }
    }
}

/// Attack Complexity (`AC`). Conditions beyond the attacker's control that must
/// exist for the attack.
#[derive(Clone, Copy, Debug, PartialEq, Eq, Hash, Structural)]
pub enum AttackComplexity {
    /// code `L`, weight 0.77.
    Low,
    /// code `H`, weight 0.44.
    High,
}

impl AttackComplexity {
    /// The value that `code` stands for, if it is a code of this metric.
    pub open spec fn decode(code: Seq<char>) -> Option<Self> {
        if code == "L"@ {
            Some(AttackComplexity::Low)
        } else if code == "H"@ {
            Some(AttackComplexity::High)
        } else {
            None
        }
    }

    /// Reads a value from its code; any other string is an incorrect value.
    pub fn from_str(value: &str) -> (r: Result<Self, ParseError>)
        ensures
            r == decoded(Self::decode(value@)),
    {
        if str_eq(value, "L") {
            Ok(AttackComplexity::Low)
        } else if str_eq(value, "H") {
            Ok(AttackComplexity::High)
        } else {
            Err(ParseError::IncorrectValue)
        }
    }

    /// Decoding the code of a value gives the value back.
    pub proof fn lemma_decode_code(v: Self)
        ensures
            Self::decode(v.code()) == Some(v),
    {
        lemma_code_literals();
    }

    /// A string that decodes to a value is the code of that value.
    pub proof fn lemma_code_decode(code: Seq<char>)
        ensures
            Self::decode(code) matches Some(v) ==> v.code() == code,
    {
    }

    /// No code holds a delimiter of the vector grammar.
    pub proof fn lemma_code_plain(v: Self)
        ensures
            free_of(v.code(), METRIC_DELIM),
            free_of(v.code(), VECTOR_DELIM),
    {
        lemma_code_literals();
    }
}

impl core::str::FromStr for AttackComplexity {
    type Err = ParseError;

    /// Reads a value from its code, for `str::parse`.
    fn from_str(value: &str) -> (r: Result<Self, ParseError>)
        ensures
            r == decoded(Self::decode(value@)),
    {
        AttackComplexity::from_str(value)
    }
}

impl AsStr for AttackComplexity {
    open spec fn code(&self) -> Seq<char> {
        match self {
            AttackComplexity::Low => "L"@,
            AttackComplexity::High => "H"@,
        }
    }

    fn as_str(&self) -> (s: &str) {
        match self {
            AttackComplexity::Low => "L",
            AttackComplexity::High => "H",
        }
    }
}

impl NumValue for AttackComplexity {
    open spec fn weight(&self) -> nat {
        match self {
            AttackComplexity::Low => 770,
            AttackComplexity::High => 440,
        }
    }

    fn num_value(&self) -> (w: u32) {
        match self {
            AttackComplexity::Low => 770,
            AttackComplexity::High => 440,
        }
    }
}

/// Privileges Required (`PR`). Level of privileges an attacker needs before the
/// attack.
#[derive(Clone, Copy, Debug, PartialEq, Eq, Hash, Structural)]
pub enum PrivilegesRequired {
    /// "None": code `N`, weight 0.85.
    Nil,
    /// code `L`, weight 0.62, or 0.68 where the scope changes.
    Low,
    /// code `H`, weight 0.27, or 0.5 where the scope changes.
    High,
}

impl PrivilegesRequired {
    /// The value that `code` stands for, if it is a code of this metric.
    pub open spec fn decode(code: Seq<char>) -> Option<Self> {
        if code == "N"@ {
            Some(PrivilegesRequired::Nil)
        } else if code == "L"@ {
            Some(PrivilegesRequired::Low)
        } else if code == "H"@ {
            Some(PrivilegesRequired::High)
        } else {
            None
        }
    }

    /// Reads a value from its code; any other string is an incorrect value.
    pub fn from_str(value: &str) -> (r: Result<Self, ParseError>)
        ensures
            r == decoded(Self::decode(value@)),
    {
        if str_eq(value, "N") {
            Ok(PrivilegesRequired::Nil)
        } else if str_eq(value, "L") {
            Ok(PrivilegesRequired::Low)
        } else if str_eq(value, "H") {
            Ok(PrivilegesRequired::High)
        } else {
            Err(ParseError::IncorrectValue)
        }
    }

    /// The weight of the value in thousandths, which depends on whether the
    /// scope changes.
    pub open spec fn weight_scoped(self, scope_change: bool) -> nat {
        match self {
            PrivilegesRequired::Nil => 850,
            PrivilegesRequired::Low => if scope_change {
                680
            } else {
                620
            },
            PrivilegesRequired::High => if scope_change {
                500
            } else {
                270
            },
        }
    }

    /// The weight of the value in thousandths, given whether the scope
    /// changes.
    pub fn num_value_scoped(&self, scope_change: bool) -> (w: u32)
        ensures
            w == self.weight_scoped(scope_change),
    {
        match self {
            PrivilegesRequired::Nil => 850,
            PrivilegesRequired::Low => if scope_change {
                680
            } else {
                620
            },
            PrivilegesRequired::High => if scope_change {
                500
            } else {
                270
            },
        }
    }

    /// Decoding the code of a value gives the value back.
    pub proof fn lemma_decode_code(v: Self)
        ensures
            Self::decode(v.code()) == Some(v),
    {
        lemma_code_literals();
    }

    /// A string that decodes to a value is the code of that value.
    pub proof fn lemma_code_decode(code: Seq<char>)
        ensures
            Self::decode(code) matches Some(v) ==> v.code() == code,
    {
    }

    /// No code holds a delimiter of the vector grammar.
    pub proof fn lemma_code_plain(v: Self)
        ensures
            free_of(v.code(), METRIC_DELIM),
            free_of(v.code(), VECTOR_DELIM),
    {
        lemma_code_literals();
    }
}

impl core::str::FromStr for PrivilegesRequired {
    type Err = ParseError;

    /// Reads a value from its code, for `str::parse`.
    fn from_str(value: &str) -> (r: Result<Self, ParseError>)
        ensures
            r == decoded(Self::decode(value@)),
    {
        PrivilegesRequired::from_str(value)
    }
}

impl AsStr for PrivilegesRequired {
    open spec fn code(&self) -> Seq<char> {
        match self {
            PrivilegesRequired::Nil => "N"@,
            PrivilegesRequired::Low => "L"@,
            PrivilegesRequired::High => "H"@,
        }
    }

    fn as_str(&self) -> (s: &str) {
        match self {
            PrivilegesRequired::Nil => "N",
            PrivilegesRequired::Low => "L",
            PrivilegesRequired::High => "H",
        }
    }
}

impl NumValue for PrivilegesRequired {
    open spec fn weight(&self) -> nat {
        self.weight_scoped(false)
    }

    fn num_value(&self) -> (w: u32) {
        self.num_value_scoped(false)
    }
}

/// User Interaction (`UI`). Whether a user other than the attacker must take
/// part.
#[derive(Clone, Copy, Debug, PartialEq, Eq, Hash, Structural)]
pub enum UserInteraction {
    /// "None": code `N`, weight 0.85.
    Nil,
    /// code `R`, weight 0.62.
    Required,
}

impl UserInteraction {
    /// The value that `code` stands for, if it is a code of this metric.
    pub open spec fn decode(code: Seq<char>) -> Option<Self> {
        if code == "N"@ {
            Some(UserInteraction::Nil)
        } else if code == "R"@ {
            Some(UserInteraction::Required)
        } else {
            None
        }
    }

    /// Reads a value from its code; any other string is an incorrect value.
    pub fn from_str(value: &str) -> (r: Result<Self, ParseError>)
        ensures
            r == decoded(Self::decode(value@)),
    {
        if str_eq(value, "N") {
            Ok(UserInteraction::Nil)
        } else if str_eq(value, "R") {
            Ok(UserInteraction::Required)
        } else {
            Err(ParseError::IncorrectValue)
        }
    }

    /// Decoding the code of a value gives the value back.
    pub proof fn lemma_decode_code(v: Self)
        ensures
            Self::decode(v.code()) == Some(v),
    {
        lemma_code_literals();
    }

    /// A string that decodes to a value is the code of that value.
    pub proof fn lemma_code_decode(code: Seq<char>)
        ensures
            Self::decode(code) matches Some(v) ==> v.code() == code,
    {
    }

    /// No code holds a delimiter of the vector grammar.
    pub proof fn lemma_code_plain(v: Self)
        ensures
            free_of(v.code(), METRIC_DELIM),
            free_of(v.code(), VECTOR_DELIM),
    {
        lemma_code_literals();
    }
}

impl core::str::FromStr for UserInteraction {
    type Err = ParseError;

    /// Reads a value from its code, for `str::parse`.
    fn from_str(value: &str) -> (r: Result<Self, ParseError>)
        ensures
            r == decoded(Self::decode(value@)),
    {
        UserInteraction::from_str(value)
    }
}

impl AsStr for UserInteraction {
    open spec fn code(&self) -> Seq<char> {
        match self {
            UserInteraction::Nil => "N"@,
            UserInteraction::Required => "R"@,
        }
    }

    fn as_str(&self) -> (s: &str) {
        match self {
            UserInteraction::Nil => "N",
            UserInteraction::Required => "R",
        }
    }
}

impl NumValue for UserInteraction {
    open spec fn weight(&self) -> nat {
        match self {
            UserInteraction::Nil => 850,
            UserInteraction::Required => 620,
        }
    }

    fn num_value(&self) -> (w: u32) {
        match self {
            UserInteraction::Nil => 850,
            UserInteraction::Required => 620,
        }
    }
}

/// Scope (`S`). Whether the vulnerability affects resources beyond its security
/// scope.
#[derive(Clone, Copy, Debug, PartialEq, Eq, Hash, Structural)]
pub enum Scope {
    /// code `U`.
    Unchanged,
    /// code `C`.
    Changed,
}

impl Scope {
    /// The value that `code` stands for, if it is a code of this metric.
    pub open spec fn decode(code: Seq<char>) -> Option<Self> {
        if code == "U"@ {
            Some(Scope::Unchanged)
        } else if code == "C"@ {
            Some(Scope::Changed)
        } else {
            None
        }
    }

    /// Reads a value from its code; any other string is an incorrect value.
    pub fn from_str(value: &str) -> (r: Result<Self, ParseError>)
        ensures
            r == decoded(Self::decode(value@)),
    {
        if str_eq(value, "U") {
            Ok(Scope::Unchanged)
        } else if str_eq(value, "C") {
            Ok(Scope::Changed)
        } else {
            Err(ParseError::IncorrectValue)
        }
    }

    /// Decoding the code of a value gives the value back.
    pub proof fn lemma_decode_code(v: Self)
        ensures
            Self::decode(v.code()) == Some(v),
    {
        lemma_code_literals();
    }

    /// A string that decodes to a value is the code of that value.
    pub proof fn lemma_code_decode(code: Seq<char>)
        ensures
            Self::decode(code) matches Some(v) ==> v.code() == code,
    {
    }

    /// No code holds a delimiter of the vector grammar.
    pub proof fn lemma_code_plain(v: Self)
        ensures
            free_of(v.code(), METRIC_DELIM),
            free_of(v.code(), VECTOR_DELIM),
    {
        lemma_code_literals();
    }
}

impl core::str::FromStr for Scope {
    type Err = ParseError;

    /// Reads a value from its code, for `str::parse`.
    fn from_str(value: &str) -> (r: Result<Self, ParseError>)
        ensures
            r == decoded(Self::decode(value@)),
    {
        Scope::from_str(value)
    }
}

impl AsStr for Scope {
    open spec fn code(&self) -> Seq<char> {
        match self {
            Scope::Unchanged => "U"@,
            Scope::Changed => "C"@,
        }
    }

    fn as_str(&self) -> (s: &str) {
        match self {
            Scope::Unchanged => "U",
            Scope::Changed => "C",
        }
    }
}

/// Confidentiality (`C`). Impact on confidentiality.
#[derive(Clone, Copy, Debug, PartialEq, Eq, Hash, Structural)]
pub enum Confidentiality {
    /// code `H`, weight 0.56.
    High,
    /// code `L`, weight 0.22.
    Low,
    /// "None": code `N`, weight 0.0.
    Nil,
}

impl Confidentiality {
    /// The value that `code` stands for, if it is a code of this metric.
    pub open spec fn decode(code: Seq<char>) -> Option<Self> {
        if code == "H"@ {
            Some(Confidentiality::High)
        } else if code == "L"@ {
            Some(Confidentiality::Low)
        } else if code == "N"@ {
            Some(Confidentiality::Nil)
        } else {
            None
        }
    }

    /// Reads a value from its code; any other string is an incorrect value.
    pub fn from_str(value: &str) -> (r: Result<Self, ParseError>)
        ensures
            r == decoded(Self::decode(value@)),
    {
        if str_eq(value, "H") {
            Ok(Confidentiality::High)
        } else if str_eq(value, "L") {
            Ok(Confidentiality::Low)
        } else if str_eq(value, "N") {
            Ok(Confidentiality::Nil)
        } else {
            Err(ParseError::IncorrectValue)
        }
    }

    /// Decoding the code of a value gives the value back.
    pub proof fn lemma_decode_code(v: Self)
        ensures
            Self::decode(v.code()) == Some(v),
    {
        lemma_code_literals();
    }

    /// A string that decodes to a value is the code of that value.
    pub proof fn lemma_code_decode(code: Seq<char>)
        ensures
            Self::decode(code) matches Some(v) ==> v.code() == code,
    {
    }

    /// No code holds a delimiter of the vector grammar.
    pub proof fn lemma_code_plain(v: Self)
        ensures
            free_of(v.code(), METRIC_DELIM),
            free_of(v.code(), VECTOR_DELIM),
    {
        lemma_code_literals();
    }
}

impl core::str::FromStr for Confidentiality {
    type Err = ParseError;

    /// Reads a value from its code, for `str::parse`.
    fn from_str(value: &str) -> (r: Result<Self, ParseError>)
        ensures
            r == decoded(Self::decode(value@)),
    {
        Confidentiality::from_str(value)
    }
}

impl AsStr for Confidentiality {
    open spec fn code(&self) -> Seq<char> {
        match self {
            Confidentiality::High => "H"@,
            Confidentiality::Low => "L"@,
            Confidentiality::Nil => "N"@,
        }
    }

    fn as_str(&self) -> (s: &str) {
        match self {
            Confidentiality::High => "H",
            Confidentiality::Low => "L",
            Confidentiality::Nil => "N",
        }
    }
}

impl NumValue for Confidentiality {
    open spec fn weight(&self) -> nat {
        match self {
            Confidentiality::High => 560,
            Confidentiality::Low => 220,
            Confidentiality::Nil => 0,
        }
    }

    fn num_value(&self) -> (w: u32) {
        match self {
            Confidentiality::High => 560,
            Confidentiality::Low => 220,
            Confidentiality::Nil => 0,
        }
    }
}

/// Integrity (`I`). Impact on integrity.
#[derive(Clone, Copy, Debug, PartialEq, Eq, Hash, Structural)]
pub enum Integrity {
    /// code `H`, weight 0.56.
    High,
    /// code `L`, weight 0.22.
    Low,
    /// "None": code `N`, weight 0.0.
    Nil,
}

impl Integrity {
    /// The value that `code` stands for, if it is a code of this metric.
    pub open spec fn decode(code: Seq<char>) -> Option<Self> {
        if code == "H"@ {
            Some(Integrity::High)
        } else if code == "L"@ {
            Some(Integrity::Low)
        } else if code == "N"@ {
            Some(Integrity::Nil)
        } else {
            None
        }
    }

    /// Reads a value from its code; any other string is an incorrect value.
    pub fn from_str(value: &str) -> (r: Result<Self, ParseError>)
        ensures
            r == decoded(Self::decode(value@)),
    {
        if str_eq(value, "H") {
            Ok(Integrity::High)
        } else if str_eq(value, "L") {
            Ok(Integrity::Low)
        } else if str_eq(value, "N") {
            Ok(Integrity::Nil)
        } else {
            Err(ParseError::IncorrectValue)
        }
    }

    /// Decoding the code of a value gives the value back.
    pub proof fn lemma_decode_code(v: Self)
        ensures
            Self::decode(v.code()) == Some(v),
    {
        lemma_code_literals();
    }

    /// A string that decodes to a value is the code of that value.
    pub proof fn lemma_code_decode(code: Seq<char>)
        ensures
            Self::decode(code) matches Some(v) ==> v.code() == code,
    {
    }

    /// No code holds a delimiter of the vector grammar.
    pub proof fn lemma_code_plain(v: Self)
        ensures
            free_of(v.code(), METRIC_DELIM),
            free_of(v.code(), VECTOR_DELIM),
    {
        lemma_code_literals();
    }
}

impl core::str::FromStr for Integrity {
    type Err = ParseError;

    /// Reads a value from its code, for `str::parse`.
    fn from_str(value: &str) -> (r: Result<Self, ParseError>)
        ensures
            r == decoded(Self::decode(value@)),
    {
        Integrity::from_str(value)
    }
}

impl AsStr for Integrity {
    open spec fn code(&self) -> Seq<char> {
        match self {
            Integrity::High => "H"@,
            Integrity::Low => "L"@,
            Integrity::Nil => "N"@,
        }
    }

    fn as_str(&self) -> (s: &str) {
        match self {
            Integrity::High => "H",
            Integrity::Low => "L",
            Integrity::Nil => "N",
        }
    }
}

impl NumValue for Integrity {
    open spec fn weight(&self) -> nat {
        match self {
            Integrity::High => 560,
            Integrity::Low => 220,
            Integrity::Nil => 0,
        }
    }

    fn num_value(&self) -> (w: u32) {
        match self {
            Integrity::High => 560,
            Integrity::Low => 220,
            Integrity::Nil => 0,
        }
    }
}

/// Availability (`A`). Impact on availability.
#[derive(Clone, Copy, Debug, PartialEq, Eq, Hash, Structural)]
pub enum Availability {
    /// code `H`, weight 0.56.
    High,
    /// code `L`, weight 0.22.
    Low,
    /// "None": code `N`, weight 0.0.
    Nil,
}

impl Availability {
    /// The value that `code` stands for, if it is a code of this metric.
    pub open spec fn decode(code: Seq<char>) -> Option<Self> {
        if code == "H"@ {
            Some(Availability::High)
        } else if code == "L"@ {
            Some(Availability::Low)
        } else if code == "N"@ {
            Some(Availability::Nil)
        } else {
            None
        }
    }

    /// Reads a value from its code; any other string is an incorrect value.
    pub fn from_str(value: &str) -> (r: Result<Self, ParseError>)
        ensures
            r == decoded(Self::decode(value@)),
    {
        if str_eq(value, "H") {
            Ok(Availability::High)
        } else if str_eq(value, "L") {
            Ok(Availability::Low)
        } else if str_eq(value, "N") {
            Ok(Availability::Nil)
        } else {
            Err(ParseError::IncorrectValue)
        }
    }

    /// Decoding the code of a value gives the value back.
    pub proof fn lemma_decode_code(v: Self)
        ensures
            Self::decode(v.code()) == Some(v),
    {
        lemma_code_literals();
    }

    /// A string that decodes to a value is the code of that value.
    pub proof fn lemma_code_decode(code: Seq<char>)
        ensures
            Self::decode(code) matches Some(v) ==> v.code() == code,
    {
    }

    /// No code holds a delimiter of the vector grammar.
    pub proof fn lemma_code_plain(v: Self)
        ensures
            free_of(v.code(), METRIC_DELIM),
            free_of(v.code(), VECTOR_DELIM),
    {
        lemma_code_literals();
    }
}

impl core::str::FromStr for Availability {
    type Err = ParseError;

    /// Reads a value from its code, for `str::parse`.
    fn from_str(value: &str) -> (r: Result<Self, ParseError>)
        ensures
            r == decoded(Self::decode(value@)),
    {
        Availability::from_str(value)
    }
}

impl AsStr for Availability {
    open spec fn code(&self) -> Seq<char> {
        match self {
            Availability::High => "H"@,
            Availability::Low => "L"@,
            Availability::Nil => "N"@,
        }
    }

    fn as_str(&self) -> (s: &str) {
        match self {
            Availability::High => "H",
            Availability::Low => "L",
            Availability::Nil => "N",
        }
    }
}

impl NumValue for Availability {
    open spec fn weight(&self) -> nat {
        match self {
            Availability::High => 560,
            Availability::Low => 220,
            Availability::Nil => 0,
        }
    }

    fn num_value(&self) -> (w: u32) {
        match self {
            Availability::High => 560,
            Availability::Low => 220,
            Availability::Nil => 0,
        }
    }
}

} // verus!
