//! CVSS v3 temporal metrics

use vstd::prelude::*;
use crate::codes::lemma_code_literals;
use crate::common::{decoded, AsStr, NumValue, Optional, ParseError};
use crate::grammar::{free_of, METRIC_DELIM, VECTOR_DELIM};
use crate::text::str_eq;

verus! {

/// Exploit Code Maturity (`E`). State of exploit techniques or code.
#[derive(Clone, Copy, Debug, PartialEq, Eq, Hash, Structural)]
pub enum ExploitCodeMaturity {
    /// code `X`, weight 1.0.
    NotDefined,
    /// code `H`, weight 1.0.
    High,
    /// code `F`, weight 0.97.
    Functional,
    /// code `P`, weight 0.94.
    ProofOfConcept,
    /// code `U`, weight 0.91.
    Unproven,
}

impl ExploitCodeMaturity {
    /// The value that `code` stands for, if it is a code of this metric.
    pub open spec fn decode(code: Seq<char>) -> Option<Self> {
        if code == "X"@ {
            Some(ExploitCodeMaturity::NotDefined)
        } else if code == "H"@ {
            Some(ExploitCodeMaturity::High)
        } else if code == "F"@ {
            Some(ExploitCodeMaturity::Functional)
        } else if code == "P"@ {
            Some(ExploitCodeMaturity::ProofOfConcept)
        } else if code == "U"@ {
            Some(ExploitCodeMaturity::Unproven)
        } else {
            None
        }
    }

    /// Reads a value from its code; any other string is an incorrect value.
    pub fn from_str(value: &str) -> (r: Result<Self, ParseError>)
        ensures
            r == decoded(Self::decode(value@)),
    {
        if str_eq(value, "X") {
            Ok(ExploitCodeMaturity::NotDefined)
        } else if str_eq(value, "H") {
            Ok(ExploitCodeMaturity::High)
        } else if str_eq(value, "F") {
            Ok(ExploitCodeMaturity::Functional)
        } else if str_eq(value, "P") {
            Ok(ExploitCodeMaturity::ProofOfConcept)
        } else if str_eq(value, "U") {
            Ok(ExploitCodeMaturity::Unproven)
        } else {
            Err(ParseError::IncorrectValue)
        }
    }

    /// Decoding the code of a value gives the value back.
    pub proof fn lemma_decode_code(v: Self)
        ensures
            Self::decode(v.code()) == Some(v),
    {
        lemma_code_literals();
    }

    /// A string that decodes to a value is the code of that value.
    pub proof fn lemma_code_decode(code: Seq<char>)
        ensures
            Self::decode(code) matches Some(v) ==> v.code() == code,
    {
    }

    /// No code holds a delimiter of the vector grammar.
    pub proof fn lemma_code_plain(v: Self)
        ensures
            free_of(v.code(), METRIC_DELIM),
            free_of(v.code(), VECTOR_DELIM),
    {
        lemma_code_literals();
    }
}

impl core::str::FromStr for ExploitCodeMaturity {
    type Err = ParseError;

    /// Reads a value from its code, for `str::parse`.
    fn from_str(value: &str) -> (r: Result<Self, ParseError>)
        ensures
            r == decoded(Self::decode(value@)),
    {
        ExploitCodeMaturity::from_str(value)
    }
}

impl AsStr for ExploitCodeMaturity {
    open spec fn code(&self) -> Seq<char> {
        match self {
            ExploitCodeMaturity::NotDefined => "X"@,
            ExploitCodeMaturity::High => "H"@,
            ExploitCodeMaturity::Functional => "F"@,
            ExploitCodeMaturity::ProofOfConcept => "P"@,
            ExploitCodeMaturity::Unproven => "U"@,
        }
    }

    fn as_str(&self) -> (s: &str) {
        match self {
            ExploitCodeMaturity::NotDefined => "X",
            ExploitCodeMaturity::High => "H",
            ExploitCodeMaturity::Functional => "F",
            ExploitCodeMaturity::ProofOfConcept => "P",
            ExploitCodeMaturity::Unproven => "U",
        }
    }
}

impl Optional for ExploitCodeMaturity {
    open spec fn undefined(&self) -> bool {
        *self == ExploitCodeMaturity::NotDefined
    }

    fn is_undefined(&self) -> (b: bool) {
        match self {
            ExploitCodeMaturity::NotDefined => true,
            _ => false,
        }
    }
}

impl NumValue for ExploitCodeMaturity {
    open spec fn weight(&self) -> nat {
        match self {
            ExploitCodeMaturity::NotDefined => 1000,
            ExploitCodeMaturity::High => 1000,
            ExploitCodeMaturity::Functional => 970,
            ExploitCodeMaturity::ProofOfConcept => 940,
            ExploitCodeMaturity::Unproven => 910,
        }
    }

    fn num_value(&self) -> (w: u32) {
        match self {
            ExploitCodeMaturity::NotDefined => 1000,
            ExploitCodeMaturity::High => 1000,
            ExploitCodeMaturity::Functional => 970,
            ExploitCodeMaturity::ProofOfConcept => 940,
            ExploitCodeMaturity::Unproven => 910,
        }
    }
}

/// Remediation Level (`RL`). Which kind of fix is available.
#[derive(Clone, Copy, Debug, PartialEq, Eq, Hash, Structural)]
pub enum RemediationLevel {
    /// code `X`, weight 1.0.
    NotDefined,
    /// code `U`, weight 1.0.
    Unavailable,
    /// code `W`, weight 0.97.
    Workaround,
    /// code `T`, weight 0.96.
    TemporaryFix,
    /// code `O`, weight 0.95.
    OfficialFix,
}

impl RemediationLevel {
    /// The value that `code` stands for, if it is a code of this metric.
    pub open spec fn decode(code: Seq<char>) -> Option<Self> {
        if code == "X"@ {
            Some(RemediationLevel::NotDefined)
        } else if code == "U"@ {
            Some(RemediationLevel::Unavailable)
        } else if code == "W"@ {
            Some(RemediationLevel::Workaround)
        } else if code == "T"@ {
            Some(RemediationLevel::TemporaryFix)
        } else if code == "O"@ {
            Some(RemediationLevel::OfficialFix)
        } else {
            None
        }
    }

    /// Reads a value from its code; any other string is an incorrect value.
    pub fn from_str(value: &str) -> (r: Result<Self, ParseError>)
        ensures
            r == decoded(Self::decode(value@)),
    {
        if str_eq(value, "X") {
            Ok(RemediationLevel::NotDefined)
        } else if str_eq(value, "U") {
            Ok(RemediationLevel::Unavailable)
        } else if str_eq(value, "W") {
            Ok(RemediationLevel::Workaround)
        } else if str_eq(value, "T") {
            Ok(RemediationLevel::TemporaryFix)
        } else if str_eq(value, "O") {
            Ok(RemediationLevel::OfficialFix)
        } else {
            Err(ParseError::IncorrectValue)
        }
    }

    /// Decoding the code of a value gives the value back.
    pub proof fn lemma_decode_code(v: Self)
        ensures
            Self::decode(v.code()) == Some(v),
    {
        lemma_code_literals();
    }

    /// A string that decodes to a value is the code of that value.
    pub proof fn lemma_code_decode(code: Seq<char>)
        ensures
            Self::decode(code) matches Some(v) ==> v.code() == code,
    {
    }

    /// No code holds a delimiter of the vector grammar.
    pub proof fn lemma_code_plain(v: Self)
        ensures
            free_of(v.code(), METRIC_DELIM),
            free_of(v.code(), VECTOR_DELIM),
    {
        lemma_code_literals();
    }
}

impl core::str::FromStr for RemediationLevel {
    type Err = ParseError;

    /// Reads a value from its code, for `str::parse`.
    fn from_str(value: &str) -> (r: Result<Self, ParseError>)
        ensures
            r == decoded(Self::decode(value@)),
    {
        RemediationLevel::from_str(value)
    }
}

impl AsStr for RemediationLevel {
    open spec fn code(&self) -> Seq<char> {
        match self {
            RemediationLevel::NotDefined => "X"@,
            RemediationLevel::Unavailable => "U"@,
            RemediationLevel::Workaround => "W"@,
            RemediationLevel::TemporaryFix => "T"@,
            RemediationLevel::OfficialFix => "O"@,
        }
    }

    fn as_str(&self) -> (s: &str) {
        match self {
            RemediationLevel::NotDefined => "X",
            RemediationLevel::Unavailable => "U",
            RemediationLevel::Workaround => "W",
            RemediationLevel::TemporaryFix => "T",
            RemediationLevel::OfficialFix => "O",
        }
    }
}

impl Optional for RemediationLevel {
    open spec fn undefined(&self) -> bool {
        *self == RemediationLevel::NotDefined
    }

    fn is_undefined(&self) -> (b: bool) {
        match self {
            RemediationLevel::NotDefined => true,
            _ => false,
        }
    }
}

impl NumValue for RemediationLevel {
    open spec fn weight(&self) -> nat {
        match self {
            RemediationLevel::NotDefined => 1000,
            RemediationLevel::Unavailable => 1000,
            RemediationLevel::Workaround => 970,
            RemediationLevel::TemporaryFix => 960,
            RemediationLevel::OfficialFix => 950,
        }
    }

    fn num_value(&self) -> (w: u32) {
        match self {
            RemediationLevel::NotDefined => 1000,
            RemediationLevel::Unavailable => 1000,
            RemediationLevel::Workaround => 970,
            RemediationLevel::TemporaryFix => 960,
            RemediationLevel::OfficialFix => 950,
        }
    }
}

/// Report Confidence (`RC`). How far the report of the vulnerability is
/// confirmed.
#[derive(Clone, Copy, Debug, PartialEq, Eq, Hash, Structural)]
pub enum ReportConfidence {
    /// code `X`, weight 1.0.
    NotDefined,
    /// code `C`, weight 1.0.
    Confirmed,
    /// code `R`, weight 0.96.
    Reasonable,
    /// code `U`, weight 0.92.
    Unknown,
}

impl ReportConfidence {
    /// The value that `code` stands for, if it is a code of this metric.
    pub open spec fn decode(code: Seq<char>) -> Option<Self> {
        if code == "X"@ {
            Some(ReportConfidence::NotDefined)
        } else if code == "C"@ {
            Some(ReportConfidence::Confirmed)
        } else if code == "R"@ {
            Some(ReportConfidence::Reasonable)
        } else if code == "U"@ {
            Some(ReportConfidence::Unknown)
        } else {
            None
        }
    }

    /// Reads a value from its code; any other string is an incorrect value.
    pub fn from_str(value: &str) -> (r: Result<Self, ParseError>)
        ensures
            r == decoded(Self::decode(value@)),
    {
        if str_eq(value, "X") {
            Ok(ReportConfidence::NotDefined)
        } else if str_eq(value, "C") {
            Ok(ReportConfidence::Confirmed)
        } else if str_eq(value, "R") {
            Ok(ReportConfidence::Reasonable)
        } else if str_eq(value, "U") {
            Ok(ReportConfidence::Unknown)
        } else {
            Err(ParseError::IncorrectValue)
        }
    }

    /// Decoding the code of a value gives the value back.
    pub proof fn lemma_decode_code(v: Self)
        ensures
            Self::decode(v.code()) == Some(v),
    {
        lemma_code_literals();
    }

    /// A string that decodes to a value is the code of that value.
    pub proof fn lemma_code_decode(code: Seq<char>)
        ensures
            Self::decode(code) matches Some(v) ==> v.code() == code,
    {
    }

    /// No code holds a delimiter of the vector grammar.
    pub proof fn lemma_code_plain(v: Self)
        ensures
            free_of(v.code(), METRIC_DELIM),
            free_of(v.code(), VECTOR_DELIM),
    {
        lemma_code_literals();
    }
}

impl core::str::FromStr for ReportConfidence {
    type Err = ParseError;

    /// Reads a value from its code, for `str::parse`.
    fn from_str(value: &str) -> (r: Result<Self, ParseError>)
        ensures
            r == decoded(Self::decode(value@)),
    {
        ReportConfidence::from_str(value)
    }
}

impl AsStr for ReportConfidence {
    open spec fn code(&self) -> Seq<char> {
        match self {
            ReportConfidence::NotDefined => "X"@,
            ReportConfidence::Confirmed => "C"@,
            ReportConfidence::Reasonable => "R"@,
            ReportConfidence::Unknown => "U"@,
        }
    }

    fn as_str(&self) -> (s: &str) {
        match self {
            ReportConfidence::NotDefined => "X",
            ReportConfidence::Confirmed => "C",
            ReportConfidence::Reasonable => "R",
            ReportConfidence::Unknown => "U",
        }
    }
}

impl Optional for ReportConfidence {
    open spec fn undefined(&self) -> bool {
        *self == ReportConfidence::NotDefined
    }

    fn is_undefined(&self) -> (b: bool) {
        match self {
            ReportConfidence::NotDefined => true,
            _ => false,
        }
    }
}

impl NumValue for ReportConfidence {
    open spec fn weight(&self) -> nat {
        match self {
            ReportConfidence::NotDefined => 1000,
            ReportConfidence::Confirmed => 1000,
            ReportConfidence::Reasonable => 960,
            ReportConfidence::Unknown => 920,
        }
    }

    fn num_value(&self) -> (w: u32) {
        match self {
            ReportConfidence::NotDefined => 1000,
            ReportConfidence::Confirmed => 1000,
            ReportConfidence::Reasonable => 960,
            ReportConfidence::Unknown => 920,
        }
    }
}

} // verus!
