//! CVSS v2 temporal metrics

use vstd::prelude::*;
use crate::codes::lemma_code_literals;
use crate::common::{decoded, AsStr, NumValue, Optional, ParseError};
use crate::grammar::{free_of, METRIC_DELIM, VECTOR_DELIM};
use crate::text::str_eq;

verus! {

/// Exploitability (`E`). State of exploit techniques or code.
#[derive(Clone, Copy, Debug, PartialEq, Eq, Hash, Structural)]
pub enum Exploitability {
    /// code `ND`, weight 1.0.
    NotDefined,
    /// code `H`, weight 1.0.
    High,
    /// code `F`, weight 0.95.
    Functional,
    /// code `POC`, weight 0.9.
    ProofOfConcept,
    /// code `U`, weight 0.85.
    Unproven,
}

impl Exploitability {
    /// The value that `code` stands for, if it is a code of this metric.
    pub open spec fn decode(code: Seq<char>) -> Option<Self> {
        if code == "ND"@ {
            Some(Exploitability::NotDefined)
        } else if code == "H"@ {
            Some(Exploitability::High)
        } else if code == "F"@ {
            Some(Exploitability::Functional)
        } else if code == "POC"@ {
            Some(Exploitability::ProofOfConcept)
        } else if code == "U"@ {
            Some(Exploitability::Unproven)
        } else {
            None
        }
    }

    /// Reads a value from its code; any other string is an incorrect value.
    pub fn from_str(value: &str) -> (r: Result<Self, ParseError>)
        ensures
            r == decoded(Self::decode(value@)),
    {
        if str_eq(value, "ND") {
            Ok(Exploitability::NotDefined)
        } else if str_eq(value, "H") {
            Ok(Exploitability::High)
        } else if str_eq(value, "F") {
            Ok(Exploitability::Functional)
        } else if str_eq(value, "POC") {
            Ok(Exploitability::ProofOfConcept)
        } else if str_eq(value, "U") {
            Ok(Exploitability::Unproven)
        } else {
            Err(ParseError::IncorrectValue)
        }
    }

    /// Decoding the code of a value gives the value back.
    pub proof fn lemma_decode_code(v: Self)
        ensures
            Self::decode(v.code()) == Some(v),
    {
        lemma_code_literals();
    }

    /// A string that decodes to a value is the code of that value.
    pub proof fn lemma_code_decode(code: Seq<char>)
        ensures
            Self::decode(code) matches Some(v) ==> v.code() == code,
    {
    }

    /// No code holds a delimiter of the vector grammar.
    pub proof fn lemma_code_plain(v: Self)
        ensures
            free_of(v.code(), METRIC_DELIM),
            free_of(v.code(), VECTOR_DELIM),
    {
        lemma_code_literals();
    }
}

impl core::str::FromStr for Exploitability {
    type Err = ParseError;

    /// Reads a value from its code, for `str::parse`.
    fn from_str(value: &str) -> (r: Result<Self, ParseError>)
        ensures
            r == decoded(Self::decode(value@)),
    {
        Exploitability::from_str(value)
    }
}

impl AsStr for Exploitability {
    open spec fn code(&self) -> Seq<char> {
        match self {
            Exploitability::NotDefined => "ND"@,
            Exploitability::High => "H"@,
            Exploitability::Functional => "F"@,
            Exploitability::ProofOfConcept => "POC"@,
            Exploitability::Unproven => "U"@,
        }
    }

    fn as_str(&self) -> (s: &str) {
        match self {
            Exploitability::NotDefined => "ND",
            Exploitability::High => "H",
            Exploitability::Functional => "F",
            Exploitability::ProofOfConcept => "POC",
            Exploitability::Unproven => "U",
        }
    }
}

impl Optional for Exploitability {
    open spec fn undefined(&self) -> bool {
        *self == Exploitability::NotDefined
    }

    fn is_undefined(&self) -> (b: bool) {
        match self {
            Exploitability::NotDefined => true,
            _ => false,
        }
    }
}

impl NumValue for Exploitability {
    open spec fn weight(&self) -> nat {
        match self {
            Exploitability::NotDefined => 1000,
            Exploitability::High => 1000,
            Exploitability::Functional => 950,
            Exploitability::ProofOfConcept => 900,
            Exploitability::Unproven => 850,
        }
    }

    fn num_value(&self) -> (w: u32) {
        match self {
            Exploitability::NotDefined => 1000,
            Exploitability::High => 1000,
            Exploitability::Functional => 950,
            Exploitability::ProofOfConcept => 900,
            Exploitability::Unproven => 850,
        }
    }
}

/// Remediation Level (`RL`). Which kind of fix is available.
#[derive(Clone, Copy, Debug, PartialEq, Eq, Hash, Structural)]
pub enum RemediationLevel {
    /// code `ND`, weight 1.0.
    NotDefined,
    /// code `U`, weight 1.0.
    Unavailable,
    /// code `W`, weight 0.95.
    Workaround,
    /// code `TF`, weight 0.9.
    TemporaryFix,
    /// code `OF`, weight 0.87.
    OfficialFix,
}

impl RemediationLevel {
    /// The value that `code` stands for, if it is a code of this metric.
    pub open spec fn decode(code: Seq<char>) -> Option<Self> {
        if code == "ND"@ {
            Some(RemediationLevel::NotDefined)
        } else if code == "U"@ {
            Some(RemediationLevel::Unavailable)
        } else if code == "W"@ {
            Some(RemediationLevel::Workaround)
        } else if code == "TF"@ {
            Some(RemediationLevel::TemporaryFix)
        } else if code == "OF"@ {
            Some(RemediationLevel::OfficialFix)
        } else {
            None
        }
    }

    /// Reads a value from its code; any other string is an incorrect value.
    pub fn from_str(value: &str) -> (r: Result<Self, ParseError>)
        ensures
            r == decoded(Self::decode(value@)),
    {
        if str_eq(value, "ND") {
            Ok(RemediationLevel::NotDefined)
        } else if str_eq(value, "U") {
            Ok(RemediationLevel::Unavailable)
        } else if str_eq(value, "W") {
            Ok(RemediationLevel::Workaround)
        } else if str_eq(value, "TF") {
            Ok(RemediationLevel::TemporaryFix)
        } else if str_eq(value, "OF") {
            Ok(RemediationLevel::OfficialFix)
        } else {
            Err(ParseError::IncorrectValue)
        }
    }

    /// Decoding the code of a value gives the value back.
    pub proof fn lemma_decode_code(v: Self)
        ensures
            Self::decode(v.code()) == Some(v),
    {
        lemma_code_literals();
    }

    /// A string that decodes to a value is the code of that value.
    pub proof fn lemma_code_decode(code: Seq<char>)
        ensures
            Self::decode(code) matches Some(v) ==> v.code() == code,
    {
    }

    /// No code holds a delimiter of the vector grammar.
    pub proof fn lemma_code_plain(v: Self)
        ensures
            free_of(v.code(), METRIC_DELIM),
            free_of(v.code(), VECTOR_DELIM),
    {
        lemma_code_literals();
    }
}

impl core::str::FromStr for RemediationLevel {
    type Err = ParseError;

    /// Reads a value from its code, for `str::parse`.
    fn from_str(value: &str) -> (r: Result<Self, ParseError>)
        ensures
            r == decoded(Self::decode(value@)),
    {
        RemediationLevel::from_str(value)
    }
}

impl AsStr for RemediationLevel {
    open spec fn code(&self) -> Seq<char> {
        match self {
            RemediationLevel::NotDefined => "ND"@,
            RemediationLevel::Unavailable => "U"@,
            RemediationLevel::Workaround => "W"@,
            RemediationLevel::TemporaryFix => "TF"@,
            RemediationLevel::OfficialFix => "OF"@,
        }
    }

    fn as_str(&self) -> (s: &str) {
        match self {
            RemediationLevel::NotDefined => "ND",
            RemediationLevel::Unavailable => "U",
            RemediationLevel::Workaround => "W",
            RemediationLevel::TemporaryFix => "TF",
            RemediationLevel::OfficialFix => "OF",
        }
    }
}

impl Optional for RemediationLevel {
    open spec fn undefined(&self) -> bool {
        *self == RemediationLevel::NotDefined
    }

    fn is_undefined(&self) -> (b: bool) {
        match self {
            RemediationLevel::NotDefined => true,
            _ => false,
        }
    }
}

impl NumValue for RemediationLevel {
    open spec fn weight(&self) -> nat {
        match self {
            RemediationLevel::NotDefined => 1000,
            RemediationLevel::Unavailable => 1000,
            RemediationLevel::Workaround => 950,
            RemediationLevel::TemporaryFix => 900,
            RemediationLevel::OfficialFix => 870,
        }
    }

    fn num_value(&self) -> (w: u32) {
        match self {
            RemediationLevel::NotDefined => 1000,
            RemediationLevel::Unavailable => 1000,
            RemediationLevel::Workaround => 950,
            RemediationLevel::TemporaryFix => 900,
            RemediationLevel::OfficialFix => 870,
        }
    }
}

/// Report Confidence (`RC`). How far the report of the vulnerability is
/// confirmed.
#[derive(Clone, Copy, Debug, PartialEq, Eq, Hash, Structural)]
pub enum ReportConfidence {
    /// code `UC`, weight 0.9.
    Unconfirmed,
    /// code `UR`, weight 0.95.
    Uncorroborated,
    /// code `C`, weight 1.0.
    Confirmed,
    /// code `ND`, weight 1.0.
    NotDefined,
}

impl ReportConfidence {
    /// The value that `code` stands for, if it is a code of this metric.
    pub open spec fn decode(code: Seq<char>) -> Option<Self> {
        if code == "UC"@ {
            Some(ReportConfidence::Unconfirmed)
        } else if code == "UR"@ {
            Some(ReportConfidence::Uncorroborated)
        } else if code == "C"@ {
            Some(ReportConfidence::Confirmed)
        } else if code == "ND"@ {
            Some(ReportConfidence::NotDefined)
        } else {
            None
        }
    }

    /// Reads a value from its code; any other string is an incorrect value.
    pub fn from_str(value: &str) -> (r: Result<Self, ParseError>)
        ensures
            r == decoded(Self::decode(value@)),
    {
        if str_eq(value, "UC") {
            Ok(ReportConfidence::Unconfirmed)
        } else if str_eq(value, "UR") {
            Ok(ReportConfidence::Uncorroborated)
        } else if str_eq(value, "C") {
            Ok(ReportConfidence::Confirmed)
        } else if str_eq(value, "ND") {
            Ok(ReportConfidence::NotDefined)
        } else {
            Err(ParseError::IncorrectValue)
        }
    }

    /// Decoding the code of a value gives the value back.
    pub proof fn lemma_decode_code(v: Self)
        ensures
            Self::decode(v.code()) == Some(v),
    {
        lemma_code_literals();
    }

    /// A string that decodes to a value is the code of that value.
    pub proof fn lemma_code_decode(code: Seq<char>)
        ensures
            Self::decode(code) matches Some(v) ==> v.code() == code,
    {
    }

    /// No code holds a delimiter of the vector grammar.
    pub proof fn lemma_code_plain(v: Self)
        ensures
            free_of(v.code(), METRIC_DELIM),
            free_of(v.code(), VECTOR_DELIM),
    {
        lemma_code_literals();
    }
}

impl core::str::FromStr for ReportConfidence {
    type Err = ParseError;

    /// Reads a value from its code, for `str::parse`.
    fn from_str(value: &str) -> (r: Result<Self, ParseError>)
        ensures
            r == decoded(Self::decode(value@)),
    {
        ReportConfidence::from_str(value)
    }
}

impl AsStr for ReportConfidence {
    open spec fn code(&self) -> Seq<char> {
        match self {
            ReportConfidence::Unconfirmed => "UC"@,
            ReportConfidence::Uncorroborated => "UR"@,
            ReportConfidence::Confirmed => "C"@,
            ReportConfidence::NotDefined => "ND"@,
        }
    }

    fn as_str(&self) -> (s: &str) {
        match self {
            ReportConfidence::Unconfirmed => "UC",
            ReportConfidence::Uncorroborated => "UR",
            ReportConfidence::Confirmed => "C",
            ReportConfidence::NotDefined => "ND",
        }
    }
}

impl Optional for ReportConfidence {
    open spec fn undefined(&self) -> bool {
        *self == ReportConfidence::NotDefined
    }

    fn is_undefined(&self) -> (b: bool) {
        match self {
            ReportConfidence::NotDefined => true,
            _ => false,
        }
    }
}

impl NumValue for ReportConfidence {
    open spec fn weight(&self) -> nat {
        match self {
            ReportConfidence::Unconfirmed => 900,
            ReportConfidence::Uncorroborated => 950,
            ReportConfidence::Confirmed => 1000,
            ReportConfidence::NotDefined => 1000,
        }
    }

    fn num_value(&self) -> (w: u32) {
        match self {
            ReportConfidence::Unconfirmed => 900,
            ReportConfidence::Uncorroborated => 950,
            ReportConfidence::Confirmed => 1000,
            ReportConfidence::NotDefined => 1000,
        }
    }
}

} // verus!
