//! Common Vulnerability Scoring System vectors, versions 2, 3.0 and 3.1.
//!
//! The crate holds the metric values with their codes and weights, the
//! grammar of a vector string, and the parser and the canonical serializer of
//! both vector types. Every function states what it returns over the
//! characters of the strings involved, and Verus checks the statement.
//!
//! ```text
//! let cvss = V3Vector::from_str("CVSS:3.1/AV:N/AC:L/PR:N/UI:R/S:C/C:L/I:L/A:N/E:P/RL:W/RC:C");
//! cvss.unwrap().to_string() == "CVSS:3.1/AV:N/AC:L/PR:N/UI:R/S:C/C:L/I:L/A:N/E:P/RL:W/RC:C"
//! ```

use vstd::prelude::*;

pub mod codes;
pub mod common;
pub mod grammar;
pub mod score;
pub mod text;
pub mod v2;
pub mod v3;

pub use common::{AsStr, NumValue, Optional, ParseError, Score, Severity};
pub use v2::V2Vector;
pub use v3::{MinorVersion, V3Vector};

verus! {

/// Enum type and parser for CVSS of all supported versions.
#[derive(Clone, Copy, Debug, PartialEq, Eq, Hash, Structural)]
pub enum CVSS {
    V3(V3Vector),
    V2(V2Vector),
}

impl CVSS {
    /// What a vector string of either version parses to: the v3 vector where
    /// the v3 grammar takes the string, else what the v2 grammar makes of it.
    /// A string that neither takes is refused for the reason v2 gives.
    pub open spec fn parse_spec(s: Seq<char>) -> Result<CVSS, ParseError> {
        match V3Vector::parse_spec(s) {
            Ok(v) => Ok(CVSS::V3(v)),
            Err(_) => match V2Vector::parse_spec(s) {
                Ok(v) => Ok(CVSS::V2(v)),
                Err(e) => Err(e),
            },
        }
    }

    /// The canonical form of the vector, whichever version it has.
    pub open spec fn canonical(self) -> Seq<char> {
        match self {
            CVSS::V3(v) => v.canonical(),
            CVSS::V2(v) => v.canonical(),
        }
    }

    /// Parses a vector string of any supported version.
    pub fn parse(cvss_str: &str) -> (r: Result<CVSS, ParseError>)
        ensures
            r == Self::parse_spec(cvss_str@),
    {
        match V3Vector::from_str(cvss_str) {
            Ok(v) => Ok(CVSS::V3(v)),
            Err(_) => match V2Vector::from_str(cvss_str) {
                Ok(v) => Ok(CVSS::V2(v)),
                Err(e) => Err(e),
            },
        }
    }

    /// The canonical form of the vector, whichever version it has.
    pub fn to_string(&self) -> (vector: String)
        ensures
            vector@ == self.canonical(),
    {
        match self {
            CVSS::V3(v) => v.to_string(),
            CVSS::V2(v) => v.to_string(),
        }
    }

    /// Round trip: parsing the canonical form of a vector of either version
    /// gives the vector back, under its own version.
    pub proof fn lemma_parse_canonical(self)
        ensures
            Self::parse_spec(self.canonical()) == Ok::<CVSS, ParseError>(self),
    {
        match self {
            CVSS::V3(v) => {
                v.lemma_parse_canonical();
            },
            CVSS::V2(v) => {
                v.lemma_parse_canonical();
                v.lemma_not_v3();
            },
        }
    }
}

} // verus!
