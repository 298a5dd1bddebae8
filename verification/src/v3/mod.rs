//! CVSS v3.0/v3.1 implementation

pub mod base;
pub mod env;
pub mod score;
pub mod temporal;

use vstd::prelude::*;
use crate::common::{
    decoded, lemma_written, parse_metrics, required, shown, value_or, write_first, write_metric,
    write_optional, AsStr, ParseError,
};
use crate::grammar::{
    join, lemma_lookup, lemma_metrics_of_rendered, lemma_rendered_first, mapping, metrics_of,
    plain, render, well_formed, Field, MetricMap, VECTOR_DELIM,
};
use crate::text::starts_with;

verus! {

/// The minor version of a v3 vector. The prefix of the vector string fixes
/// it, and it selects the rounding rule and one exponent of the score
/// formulas.
#[derive(Clone, Copy, Debug, PartialEq, Eq, Hash, Structural)]
pub enum MinorVersion {
    /// CVSS 3.0, prefix `CVSS:3.0/`.
    V0,
    /// CVSS 3.1, prefix `CVSS:3.1/`.
    V1,
}

impl MinorVersion {
    /// The minor version that the beginning of a vector string names, if it is
    /// one of the two known prefixes.
    pub open spec fn of_prefix(s: Seq<char>) -> Option<Self> {
        if "CVSS:3.0/"@.is_prefix_of(s) {
            Some(MinorVersion::V0)
        } else if "CVSS:3.1/"@.is_prefix_of(s) {
            Some(MinorVersion::V1)
        } else {
            None
        }
    }

    /// The version prefix as it stands in front of the first metric.
    pub open spec fn prefix(self) -> Seq<char> {
        self.code().push(VECTOR_DELIM)
    }

    /// Reads the minor version from the beginning of a vector string; a string
    /// with another beginning is an incorrect value.
    pub fn from_str(cvss_str: &str) -> (r: Result<Self, ParseError>)
        ensures
            r == decoded(Self::of_prefix(cvss_str@)),
    {
        if starts_with(cvss_str, "CVSS:3.0/") {
            Ok(MinorVersion::V0)
        } else if starts_with(cvss_str, "CVSS:3.1/") {
            Ok(MinorVersion::V1)
        } else {
            Err(ParseError::IncorrectValue)
        }
    }

    /// A string that begins with the prefix of a minor version names that
    /// version; the prefix has nine characters.
    pub proof fn lemma_of_prefix(v: Self, rest: Seq<char>)
        ensures
            v.prefix().len() == 9,
            Self::of_prefix(v.prefix() + rest) == Some(v),
            (v.prefix() + rest).skip(9) == rest,
    {
        reveal_strlit("CVSS:3.0");
        reveal_strlit("CVSS:3.1");
        reveal_strlit("CVSS:3.0/");
        reveal_strlit("CVSS:3.1/");
        let s = v.prefix() + rest;
        assert(s.skip(9) =~= rest);
        assert(v.prefix() =~= s.subrange(0, 9));
        match v {
            MinorVersion::V0 => {
                assert("CVSS:3.0/"@ =~= v.prefix());
            },
            MinorVersion::V1 => {
                assert("CVSS:3.1/"@ =~= v.prefix());
                assert("CVSS:3.0/"@[7] != s.subrange(0, 9)[7]);
            },
        }
    }
}

impl core::str::FromStr for MinorVersion {
    type Err = ParseError;

    /// Reads the minor version from the beginning of a vector string, for
    /// `str::parse`.
    fn from_str(cvss_str: &str) -> (r: Result<Self, ParseError>)
        ensures
            r == decoded(Self::of_prefix(cvss_str@)),
    {
        MinorVersion::from_str(cvss_str)
    }
}

impl AsStr for MinorVersion {
    open spec fn code(&self) -> Seq<char> {
        match self {
            MinorVersion::V0 => "CVSS:3.0"@,
            MinorVersion::V1 => "CVSS:3.1"@,
        }
    }

    fn as_str(&self) -> (s: &str) {
        match self {
            MinorVersion::V0 => "CVSS:3.0",
            MinorVersion::V1 => "CVSS:3.1",
        }
    }
}

/// CVSS vector version 3.0/3.1
///
/// Holds one value of every metric: the eight base metrics, and the temporal
/// and environmental metrics, which are not defined unless given.
#[derive(Clone, Copy, Debug, PartialEq, Eq, Hash, Structural)]
pub struct V3Vector {
    pub minor_version: MinorVersion,
    pub attack_vector: base::AttackVector,
    pub attack_complexity: base::AttackComplexity,
    pub privileges_required: base::PrivilegesRequired,
    pub user_interaction: base::UserInteraction,
    pub scope: base::Scope,
    pub confidentiality: base::Confidentiality,
    pub integrity: base::Integrity,
    pub availability: base::Availability,
    pub exploit_code_maturity: temporal::ExploitCodeMaturity,
    pub remediation_level: temporal::RemediationLevel,
    pub report_confidence: temporal::ReportConfidence,
    pub confidentiality_requirement: env::ConfidentialityRequirement,
    pub integrity_requirement: env::IntegrityRequirement,
    pub availability_requirement: env::AvailabilityRequirement,
    pub modified_attack_vector: env::ModifiedAttackVector,
    pub modified_attack_complexity: env::ModifiedAttackComplexity,
    pub modified_privileges_required: env::ModifiedPrivilegesRequired,
    pub modified_user_interaction: env::ModifiedUserInteraction,
    pub modified_scope: env::ModifiedScope,
    pub modified_confidentiality: env::ModifiedConfidentiality,
    pub modified_integrity: env::ModifiedIntegrity,
    pub modified_availability: env::ModifiedAvailability,
}

/// The length and the characters of the metric names of a v3 vector.
proof fn lemma_name_literals()
    ensures
        "A"@.len() == 1 && "A"@[0] == 'A',
        "C"@.len() == 1 && "C"@[0] == 'C',
        "E"@.len() == 1 && "E"@[0] == 'E',
        "I"@.len() == 1 && "I"@[0] == 'I',
        "S"@.len() == 1 && "S"@[0] == 'S',
        "AC"@.len() == 2 && "AC"@[0] == 'A' && "AC"@[1] == 'C',
        "AR"@.len() == 2 && "AR"@[0] == 'A' && "AR"@[1] == 'R',
        "AV"@.len() == 2 && "AV"@[0] == 'A' && "AV"@[1] == 'V',
        "CR"@.len() == 2 && "CR"@[0] == 'C' && "CR"@[1] == 'R',
        "IR"@.len() == 2 && "IR"@[0] == 'I' && "IR"@[1] == 'R',
        "MA"@.len() == 2 && "MA"@[0] == 'M' && "MA"@[1] == 'A',
        "MC"@.len() == 2 && "MC"@[0] == 'M' && "MC"@[1] == 'C',
        "MI"@.len() == 2 && "MI"@[0] == 'M' && "MI"@[1] == 'I',
        "MS"@.len() == 2 && "MS"@[0] == 'M' && "MS"@[1] == 'S',
        "PR"@.len() == 2 && "PR"@[0] == 'P' && "PR"@[1] == 'R',
        "RC"@.len() == 2 && "RC"@[0] == 'R' && "RC"@[1] == 'C',
        "RL"@.len() == 2 && "RL"@[0] == 'R' && "RL"@[1] == 'L',
        "UI"@.len() == 2 && "UI"@[0] == 'U' && "UI"@[1] == 'I',
        "MAC"@.len() == 3 && "MAC"@[0] == 'M' && "MAC"@[1] == 'A' && "MAC"@[2] == 'C',
        "MAV"@.len() == 3 && "MAV"@[0] == 'M' && "MAV"@[1] == 'A' && "MAV"@[2] == 'V',
        "MPR"@.len() == 3 && "MPR"@[0] == 'M' && "MPR"@[1] == 'P' && "MPR"@[2] == 'R',
        "MUI"@.len() == 3 && "MUI"@[0] == 'M' && "MUI"@[1] == 'U' && "MUI"@[2] == 'I',
{
    reveal_strlit("A");
    reveal_strlit("C");
    reveal_strlit("E");
    reveal_strlit("I");
    reveal_strlit("S");
    reveal_strlit("AC");
    reveal_strlit("AR");
    reveal_strlit("AV");
    reveal_strlit("CR");
    reveal_strlit("IR");
    reveal_strlit("MA");
    reveal_strlit("MC");
    reveal_strlit("MI");
    reveal_strlit("MS");
    reveal_strlit("PR");
    reveal_strlit("RC");
    reveal_strlit("RL");
    reveal_strlit("UI");
    reveal_strlit("MAC");
    reveal_strlit("MAV");
    reveal_strlit("MPR");
    reveal_strlit("MUI");
}

impl V3Vector {
    /// Constructor: a 3.1 vector with the given base metrics and every other
    /// metric not defined.
    pub fn new(
        attack_vector: base::AttackVector,
        attack_complexity: base::AttackComplexity,
        privileges_required: base::PrivilegesRequired,
        user_interaction: base::UserInteraction,
        scope: base::Scope,
        confidentiality: base::Confidentiality,
        integrity: base::Integrity,
        availability: base::Availability,
    ) -> (v: Self)
        ensures
            v == (V3Vector {
                minor_version: MinorVersion::V1,
                attack_vector,
                attack_complexity,
                privileges_required,
                user_interaction,
                scope,
                confidentiality,
                integrity,
                availability,
                exploit_code_maturity: temporal::ExploitCodeMaturity::NotDefined,
                remediation_level: temporal::RemediationLevel::NotDefined,
                report_confidence: temporal::ReportConfidence::NotDefined,
                confidentiality_requirement: env::ConfidentialityRequirement::NotDefined,
                integrity_requirement: env::IntegrityRequirement::NotDefined,
                availability_requirement: env::AvailabilityRequirement::NotDefined,
                modified_attack_vector: env::ModifiedAttackVector::NotDefined,
                modified_attack_complexity: env::ModifiedAttackComplexity::NotDefined,
                modified_privileges_required: env::ModifiedPrivilegesRequired::NotDefined,
                modified_user_interaction: env::ModifiedUserInteraction::NotDefined,
                modified_scope: env::ModifiedScope::NotDefined,
                modified_confidentiality: env::ModifiedConfidentiality::NotDefined,
                modified_integrity: env::ModifiedIntegrity::NotDefined,
                modified_availability: env::ModifiedAvailability::NotDefined,
            }),
    {
        V3Vector {
            minor_version: MinorVersion::V1,
            attack_vector,
            attack_complexity,
            privileges_required,
            user_interaction,
            scope,
            confidentiality,
            integrity,
            availability,
            exploit_code_maturity: temporal::ExploitCodeMaturity::NotDefined,
            remediation_level: temporal::RemediationLevel::NotDefined,
            report_confidence: temporal::ReportConfidence::NotDefined,
            confidentiality_requirement: env::ConfidentialityRequirement::NotDefined,
            integrity_requirement: env::IntegrityRequirement::NotDefined,
            availability_requirement: env::AvailabilityRequirement::NotDefined,
            modified_attack_vector: env::ModifiedAttackVector::NotDefined,
            modified_attack_complexity: env::ModifiedAttackComplexity::NotDefined,
            modified_privileges_required: env::ModifiedPrivilegesRequired::NotDefined,
            modified_user_interaction: env::ModifiedUserInteraction::NotDefined,
            modified_scope: env::ModifiedScope::NotDefined,
            modified_confidentiality: env::ModifiedConfidentiality::NotDefined,
            modified_integrity: env::ModifiedIntegrity::NotDefined,
            modified_availability: env::ModifiedAvailability::NotDefined,
        }
    }

    /// The metrics in the fixed order of the canonical form: the eight base
    /// metrics, then the temporal and the environmental metrics, each of which
    /// is written only where it is defined.
    pub open spec fn fields(self) -> Seq<Field> {
        seq![
            ("AV"@, Some(self.attack_vector.code())),
            ("AC"@, Some(self.attack_complexity.code())),
            ("PR"@, Some(self.privileges_required.code())),
            ("UI"@, Some(self.user_interaction.code())),
            ("S"@, Some(self.scope.code())),
            ("C"@, Some(self.confidentiality.code())),
            ("I"@, Some(self.integrity.code())),
            ("A"@, Some(self.availability.code())),
            ("E"@, shown(self.exploit_code_maturity)),
            ("RL"@, shown(self.remediation_level)),
            ("RC"@, shown(self.report_confidence)),
            ("CR"@, shown(self.confidentiality_requirement)),
            ("IR"@, shown(self.integrity_requirement)),
            ("AR"@, shown(self.availability_requirement)),
            ("MAV"@, shown(self.modified_attack_vector)),
            ("MAC"@, shown(self.modified_attack_complexity)),
            ("MPR"@, shown(self.modified_privileges_required)),
            ("MUI"@, shown(self.modified_user_interaction)),
            ("MS"@, shown(self.modified_scope)),
            ("MC"@, shown(self.modified_confidentiality)),
            ("MI"@, shown(self.modified_integrity)),
            ("MA"@, shown(self.modified_availability)),
        ]
    }

    /// The components of the canonical form.
    pub open spec fn components(self) -> Seq<Seq<char>> {
        render(self.fields())
    }

    /// The mapping that the canonical form denotes: every metric that is
    /// written, under its name, with its code.
    pub open spec fn metrics(self) -> MetricMap {
        mapping(self.fields())
    }

    /// The canonical form of the vector: the version prefix, then the
    /// components separated by `/`.
    pub open spec fn canonical(self) -> Seq<char> {
        self.minor_version.prefix() + join(self.components(), VECTOR_DELIM)
    }

    /// The vector that a mapping of metrics denotes under a minor version.
    ///
    /// The base metrics are looked at in their fixed order: the first that is
    /// absent or has an unknown code decides the error. After them, an unknown
    /// code of any other metric is an incorrect value; a metric that is absent
    /// is not defined. Names that belong to no metric are passed over.
    pub open spec fn from_metrics(minor_version: MinorVersion, m: MetricMap) -> Result<
        Self,
        ParseError,
    > {
        let attack_vector = required(m, "AV"@, base::AttackVector::decode(m["AV"@]));
        let attack_complexity = required(m, "AC"@, base::AttackComplexity::decode(m["AC"@]));
        let privileges_required = required(m, "PR"@, base::PrivilegesRequired::decode(m["PR"@]));
        let user_interaction = required(m, "UI"@, base::UserInteraction::decode(m["UI"@]));
        let scope = required(m, "S"@, base::Scope::decode(m["S"@]));
        let confidentiality = required(m, "C"@, base::Confidentiality::decode(m["C"@]));
        let integrity = required(m, "I"@, base::Integrity::decode(m["I"@]));
        let availability = required(m, "A"@, base::Availability::decode(m["A"@]));
        let exploit_code_maturity = decoded(
            temporal::ExploitCodeMaturity::decode(value_or(m, "E"@, "X"@)),
        );
        let remediation_level = decoded(
            temporal::RemediationLevel::decode(value_or(m, "RL"@, "X"@)),
        );
        let report_confidence = decoded(
            temporal::ReportConfidence::decode(value_or(m, "RC"@, "X"@)),
        );
        let confidentiality_requirement = decoded(
            env::ConfidentialityRequirement::decode(value_or(m, "CR"@, "X"@)),
        );
        let integrity_requirement = decoded(
            env::IntegrityRequirement::decode(value_or(m, "IR"@, "X"@)),
        );
        let availability_requirement = decoded(
            env::AvailabilityRequirement::decode(value_or(m, "AR"@, "X"@)),
        );
        let modified_attack_vector = decoded(
            env::ModifiedAttackVector::decode(value_or(m, "MAV"@, "X"@)),
        );
        let modified_attack_complexity = decoded(
            env::ModifiedAttackComplexity::decode(value_or(m, "MAC"@, "X"@)),
        );
        let modified_privileges_required = decoded(
            env::ModifiedPrivilegesRequired::decode(value_or(m, "MPR"@, "X"@)),
        );
        let modified_user_interaction = decoded(
            env::ModifiedUserInteraction::decode(value_or(m, "MUI"@, "X"@)),
        );
        let modified_scope = decoded(env::ModifiedScope::decode(value_or(m, "MS"@, "X"@)));
        let modified_confidentiality = decoded(
            env::ModifiedConfidentiality::decode(value_or(m, "MC"@, "X"@)),
        );
        let modified_integrity = decoded(env::ModifiedIntegrity::decode(value_or(m, "MI"@, "X"@)));
        let modified_availability = decoded(
            env::ModifiedAvailability::decode(value_or(m, "MA"@, "X"@)),
        );
        if attack_vector is Err {
            Err(attack_vector->Err_0)
        } else if attack_complexity is Err {
            Err(attack_complexity->Err_0)
        } else if privileges_required is Err {
            Err(privileges_required->Err_0)
        } else if user_interaction is Err {
            Err(user_interaction->Err_0)
        } else if scope is Err {
            Err(scope->Err_0)
        } else if confidentiality is Err {
            Err(confidentiality->Err_0)
        } else if integrity is Err {
            Err(integrity->Err_0)
        } else if availability is Err {
            Err(availability->Err_0)
        } else if {
            ||| exploit_code_maturity is Err
            ||| remediation_level is Err
            ||| report_confidence is Err
            ||| confidentiality_requirement is Err
            ||| integrity_requirement is Err
            ||| availability_requirement is Err
            ||| modified_attack_vector is Err
            ||| modified_attack_complexity is Err
            ||| modified_privileges_required is Err
            ||| modified_user_interaction is Err
            ||| modified_scope is Err
            ||| modified_confidentiality is Err
            ||| modified_integrity is Err
            ||| modified_availability is Err
        } {
            Err(ParseError::IncorrectValue)
        } else {
            Ok(
                V3Vector {
                    minor_version,
                    attack_vector: attack_vector->Ok_0,
                    attack_complexity: attack_complexity->Ok_0,
                    privileges_required: privileges_required->Ok_0,
                    user_interaction: user_interaction->Ok_0,
                    scope: scope->Ok_0,
                    confidentiality: confidentiality->Ok_0,
                    integrity: integrity->Ok_0,
                    availability: availability->Ok_0,
                    exploit_code_maturity: exploit_code_maturity->Ok_0,
                    remediation_level: remediation_level->Ok_0,
                    report_confidence: report_confidence->Ok_0,
                    confidentiality_requirement: confidentiality_requirement->Ok_0,
                    integrity_requirement: integrity_requirement->Ok_0,
                    availability_requirement: availability_requirement->Ok_0,
                    modified_attack_vector: modified_attack_vector->Ok_0,
                    modified_attack_complexity: modified_attack_complexity->Ok_0,
                    modified_privileges_required: modified_privileges_required->Ok_0,
                    modified_user_interaction: modified_user_interaction->Ok_0,
                    modified_scope: modified_scope->Ok_0,
                    modified_confidentiality: modified_confidentiality->Ok_0,
                    modified_integrity: modified_integrity->Ok_0,
                    modified_availability: modified_availability->Ok_0,
                },
            )
        }
    }

    /// What a vector string parses to. The string must begin with a version
    /// prefix; what follows the prefix is tokenized and read as metrics.
    pub open spec fn parse_spec(s: Seq<char>) -> Result<Self, ParseError> {
        match MinorVersion::of_prefix(s) {
            None => Err(ParseError::IncorrectValue),
            Some(minor_version) => match metrics_of(s.skip(9)) {
                Err(e) => Err(e),
                Ok(m) => Self::from_metrics(minor_version, m),
            },
        }
    }

    /// The temporal metrics that a temporal vector string denotes; a metric
    /// that it does not name is not defined.
    pub open spec fn temporal_of(s: Seq<char>) -> Result<
        (temporal::ExploitCodeMaturity, temporal::RemediationLevel, temporal::ReportConfidence),
        ParseError,
    > {
        match metrics_of(s) {
            Err(e) => Err(e),
            Ok(m) => {
                let e = decoded(temporal::ExploitCodeMaturity::decode(value_or(m, "E"@, "X"@)));
                let rl = decoded(temporal::RemediationLevel::decode(value_or(m, "RL"@, "X"@)));
                let rc = decoded(temporal::ReportConfidence::decode(value_or(m, "RC"@, "X"@)));
                if e is Err || rl is Err || rc is Err {
                    Err(ParseError::IncorrectValue)
                } else {
                    Ok((e->Ok_0, rl->Ok_0, rc->Ok_0))
                }
            },
        }
    }

    /// Writes the vector in its canonical form, which parses back to the
    /// vector.
    pub fn as_string(&self) -> (vector: String)
        ensures
            vector@ == self.canonical(),
            Self::parse_spec(vector@) == Ok::<Self, ParseError>(*self),
    {
        let mut vector = self.minor_version.as_str().to_owned();
        let ghost head = self.minor_version.prefix();
        proof {
            reveal_strlit("CVSS:3.0");
            reveal_strlit("CVSS:3.1");
        }

        let fields = write_first(&mut vector, "AV", &self.attack_vector);
        let fields = write_metric(&mut vector, "AC", &self.attack_complexity, Ghost(head), fields);
        let fields = write_metric(
            &mut vector,
            "PR",
            &self.privileges_required,
            Ghost(head),
            fields,
        );
        let fields = write_metric(&mut vector, "UI", &self.user_interaction, Ghost(head), fields);
        let fields = write_metric(&mut vector, "S", &self.scope, Ghost(head), fields);
        let fields = write_metric(&mut vector, "C", &self.confidentiality, Ghost(head), fields);
        let fields = write_metric(&mut vector, "I", &self.integrity, Ghost(head), fields);
        let fields = write_metric(&mut vector, "A", &self.availability, Ghost(head), fields);

        let fields = write_optional(
            &mut vector,
            "E",
            &self.exploit_code_maturity,
            Ghost(head),
            fields,
        );
        let fields = write_optional(
            &mut vector,
            "RL",
            &self.remediation_level,
            Ghost(head),
            fields,
        );
        let fields = write_optional(
            &mut vector,
            "RC",
            &self.report_confidence,
            Ghost(head),
            fields,
        );

        let fields = write_optional(
            &mut vector,
            "CR",
            &self.confidentiality_requirement,
            Ghost(head),
            fields,
        );
        let fields = write_optional(
            &mut vector,
            "IR",
            &self.integrity_requirement,
            Ghost(head),
            fields,
        );
        let fields = write_optional(
            &mut vector,
            "AR",
            &self.availability_requirement,
            Ghost(head),
            fields,
        );
        let fields = write_optional(
            &mut vector,
            "MAV",
            &self.modified_attack_vector,
            Ghost(head),
            fields,
        );
        let fields = write_optional(
            &mut vector,
            "MAC",
            &self.modified_attack_complexity,
            Ghost(head),
            fields,
        );
        let fields = write_optional(
            &mut vector,
            "MPR",
            &self.modified_privileges_required,
            Ghost(head),
            fields,
        );
        let fields = write_optional(
            &mut vector,
            "MUI",
            &self.modified_user_interaction,
            Ghost(head),
            fields,
        );
        let fields = write_optional(&mut vector, "MS", &self.modified_scope, Ghost(head), fields);
        let fields = write_optional(
            &mut vector,
            "MC",
            &self.modified_confidentiality,
            Ghost(head),
            fields,
        );
        let fields = write_optional(
            &mut vector,
            "MI",
            &self.modified_integrity,
            Ghost(head),
            fields,
        );
        let fields = write_optional(
            &mut vector,
            "MA",
            &self.modified_availability,
            Ghost(head),
            fields,
        );

        proof {
            lemma_written(vector@, head, fields@);
            assert(fields@ =~= self.fields());
            self.lemma_parse_canonical();
        }
        vector
    }

    /// The canonical form of the vector, as `as_string` writes it.
    pub fn to_string(&self) -> (vector: String)
        ensures
            vector@ == self.canonical(),
            Self::parse_spec(vector@) == Ok::<Self, ParseError>(*self),
    {
        self.as_string()
    }

    /// Parse a CVSS 3 string and return V3Vector.
    pub fn parse(cvss_str: &str) -> (r: Result<Self, ParseError>)
        ensures
            r == Self::parse_spec(cvss_str@),
    {
        // Determine the minor version
        let minor_version = MinorVersion::from_str(cvss_str)?;
        proof {
            reveal_strlit("CVSS:3.0/");
            reveal_strlit("CVSS:3.1/");
        }
        let metrics = cvss_str.substring_char(9, cvss_str.unicode_len());

        let parsed = parse_metrics(metrics)?;

        let attack_vector = match parsed.get("AV") {
            Some(value) => base::AttackVector::from_str(value)?,
            None => {
                return Err(ParseError::Missing);
            },
        };
        let attack_complexity = match parsed.get("AC") {
            Some(value) => base::AttackComplexity::from_str(value)?,
            None => {
                return Err(ParseError::Missing);
            },
        };
        let privileges_required = match parsed.get("PR") {
            Some(value) => base::PrivilegesRequired::from_str(value)?,
            None => {
                return Err(ParseError::Missing);
            },
        };
        let user_interaction = match parsed.get("UI") {
            Some(value) => base::UserInteraction::from_str(value)?,
            None => {
                return Err(ParseError::Missing);
            },
        };
        let scope = match parsed.get("S") {
            Some(value) => base::Scope::from_str(value)?,
            None => {
                return Err(ParseError::Missing);
            },
        };
        let confidentiality = match parsed.get("C") {
            Some(value) => base::Confidentiality::from_str(value)?,
            None => {
                return Err(ParseError::Missing);
            },
        };
        let integrity = match parsed.get("I") {
            Some(value) => base::Integrity::from_str(value)?,
            None => {
                return Err(ParseError::Missing);
            },
        };
        let availability = match parsed.get("A") {
            Some(value) => base::Availability::from_str(value)?,
            None => {
                return Err(ParseError::Missing);
            },
        };

        let exploit_code_maturity = temporal::ExploitCodeMaturity::from_str(
            parsed.get_or("E", "X"),
        )?;
        let remediation_level = temporal::RemediationLevel::from_str(parsed.get_or("RL", "X"))?;
        let report_confidence = temporal::ReportConfidence::from_str(parsed.get_or("RC", "X"))?;
        let confidentiality_requirement = env::ConfidentialityRequirement::from_str(
            parsed.get_or("CR", "X"),
        )?;
        let integrity_requirement = env::IntegrityRequirement::from_str(parsed.get_or("IR", "X"))?;
        let availability_requirement = env::AvailabilityRequirement::from_str(
            parsed.get_or("AR", "X"),
        )?;
        let modified_attack_vector = env::ModifiedAttackVector::from_str(
            parsed.get_or("MAV", "X"),
        )?;
        let modified_attack_complexity = env::ModifiedAttackComplexity::from_str(
            parsed.get_or("MAC", "X"),
        )?;
        let modified_privileges_required = env::ModifiedPrivilegesRequired::from_str(
            parsed.get_or("MPR", "X"),
        )?;
        let modified_user_interaction = env::ModifiedUserInteraction::from_str(
            parsed.get_or("MUI", "X"),
        )?;
        let modified_scope = env::ModifiedScope::from_str(parsed.get_or("MS", "X"))?;
        let modified_confidentiality = env::ModifiedConfidentiality::from_str(
            parsed.get_or("MC", "X"),
        )?;
        let modified_integrity = env::ModifiedIntegrity::from_str(parsed.get_or("MI", "X"))?;
        let modified_availability = env::ModifiedAvailability::from_str(parsed.get_or("MA", "X"))?;

        Ok(
            V3Vector {
                minor_version,
                attack_vector,
                attack_complexity,
                privileges_required,
                user_interaction,
                scope,
                confidentiality,
                integrity,
                availability,
                exploit_code_maturity,
                remediation_level,
                report_confidence,
                confidentiality_requirement,
                integrity_requirement,
                availability_requirement,
                modified_attack_vector,
                modified_attack_complexity,
                modified_privileges_required,
                modified_user_interaction,
                modified_scope,
                modified_confidentiality,
                modified_integrity,
                modified_availability,
            },
        )
    }

    /// Parses a vector string, as `parse` does.
    pub fn from_str(cvss_str: &str) -> (r: Result<Self, ParseError>)
        ensures
            r == Self::parse_spec(cvss_str@),
    {
        Self::parse(cvss_str)
    }

    /// Parse the temporal fields in `temporal_str`, adding them to the
    /// `V3Vector`.
    ///
    /// The three temporal metrics are replaced together: one that the string
    /// does not name becomes not defined. Where the string is refused, the
    /// vector stays as it was.
    pub fn extend_with_temporal(&mut self, temporal_str: &str) -> (r: Result<(), ParseError>)
        ensures
            match Self::temporal_of(temporal_str@) {
                Ok((e, rl, rc)) => r is Ok && *final(self) == (V3Vector {
                    exploit_code_maturity: e,
                    remediation_level: rl,
                    report_confidence: rc,
                    ..*old(self)
                }),
                Err(e) => r == Err::<(), ParseError>(e) && *final(self) == *old(self),
            },
    {
        let parsed = parse_metrics(temporal_str)?;

        let exploit_code_maturity = temporal::ExploitCodeMaturity::from_str(
            parsed.get_or("E", "X"),
        )?;
        let remediation_level = temporal::RemediationLevel::from_str(parsed.get_or("RL", "X"))?;
        let report_confidence = temporal::ReportConfidence::from_str(parsed.get_or("RC", "X"))?;

        self.exploit_code_maturity = exploit_code_maturity;
        self.remediation_level = remediation_level;
        self.report_confidence = report_confidence;

        Ok(())
    }

    /// The metrics of a vector can be written and read back: the names differ
    /// from each other, and neither a name nor a code holds a delimiter.
    pub proof fn lemma_fields(self)
        ensures
            well_formed(self.fields()),
            self.components().len() >= 1,
    {
        reveal(well_formed);
        lemma_name_literals();
        base::AttackVector::lemma_code_plain(self.attack_vector);
        base::AttackComplexity::lemma_code_plain(self.attack_complexity);
        base::PrivilegesRequired::lemma_code_plain(self.privileges_required);
        base::UserInteraction::lemma_code_plain(self.user_interaction);
        base::Scope::lemma_code_plain(self.scope);
        base::Confidentiality::lemma_code_plain(self.confidentiality);
        base::Integrity::lemma_code_plain(self.integrity);
        base::Availability::lemma_code_plain(self.availability);
        temporal::ExploitCodeMaturity::lemma_code_plain(self.exploit_code_maturity);
        temporal::RemediationLevel::lemma_code_plain(self.remediation_level);
        temporal::ReportConfidence::lemma_code_plain(self.report_confidence);
        env::ConfidentialityRequirement::lemma_code_plain(self.confidentiality_requirement);
        env::IntegrityRequirement::lemma_code_plain(self.integrity_requirement);
        env::AvailabilityRequirement::lemma_code_plain(self.availability_requirement);
        env::ModifiedAttackVector::lemma_code_plain(self.modified_attack_vector);
        env::ModifiedAttackComplexity::lemma_code_plain(self.modified_attack_complexity);
        env::ModifiedPrivilegesRequired::lemma_code_plain(self.modified_privileges_required);
        env::ModifiedUserInteraction::lemma_code_plain(self.modified_user_interaction);
        env::ModifiedScope::lemma_code_plain(self.modified_scope);
        env::ModifiedConfidentiality::lemma_code_plain(self.modified_confidentiality);
        env::ModifiedIntegrity::lemma_code_plain(self.modified_integrity);
        env::ModifiedAvailability::lemma_code_plain(self.modified_availability);
        let fields = self.fields();
        assert(fields[0].0 == "AV"@ && plain(fields[0].0));
        assert(fields[1].0 == "AC"@ && plain(fields[1].0));
        assert(fields[2].0 == "PR"@ && plain(fields[2].0));
        assert(fields[3].0 == "UI"@ && plain(fields[3].0));
        assert(fields[4].0 == "S"@ && plain(fields[4].0));
        assert(fields[5].0 == "C"@ && plain(fields[5].0));
        assert(fields[6].0 == "I"@ && plain(fields[6].0));
        assert(fields[7].0 == "A"@ && plain(fields[7].0));
        assert(fields[8].0 == "E"@ && plain(fields[8].0));
        assert(fields[9].0 == "RL"@ && plain(fields[9].0));
        assert(fields[10].0 == "RC"@ && plain(fields[10].0));
        assert(fields[11].0 == "CR"@ && plain(fields[11].0));
        assert(fields[12].0 == "IR"@ && plain(fields[12].0));
        assert(fields[13].0 == "AR"@ && plain(fields[13].0));
        assert(fields[14].0 == "MAV"@ && plain(fields[14].0));
        assert(fields[15].0 == "MAC"@ && plain(fields[15].0));
        assert(fields[16].0 == "MPR"@ && plain(fields[16].0));
        assert(fields[17].0 == "MUI"@ && plain(fields[17].0));
        assert(fields[18].0 == "MS"@ && plain(fields[18].0));
        assert(fields[19].0 == "MC"@ && plain(fields[19].0));
        assert(fields[20].0 == "MI"@ && plain(fields[20].0));
        assert(fields[21].0 == "MA"@ && plain(fields[21].0));
        lemma_rendered_first(fields);
    }

    /// Looking the metrics up by name: the mapping of the metrics holds each
    /// base metric under its name, with its code; for any other metric it
    /// holds the code where the metric is defined and nothing where it is not,
    /// so that the code is found, or the default in its place.
    pub proof fn lemma_lookups(self)
        ensures
            self.metrics().contains_key("AV"@),
            self.metrics()["AV"@] == self.attack_vector.code(),
            self.metrics().contains_key("AC"@),
            self.metrics()["AC"@] == self.attack_complexity.code(),
            self.metrics().contains_key("PR"@),
            self.metrics()["PR"@] == self.privileges_required.code(),
            self.metrics().contains_key("UI"@),
            self.metrics()["UI"@] == self.user_interaction.code(),
            self.metrics().contains_key("S"@),
            self.metrics()["S"@] == self.scope.code(),
            self.metrics().contains_key("C"@),
            self.metrics()["C"@] == self.confidentiality.code(),
            self.metrics().contains_key("I"@),
            self.metrics()["I"@] == self.integrity.code(),
            self.metrics().contains_key("A"@),
            self.metrics()["A"@] == self.availability.code(),
            value_or(self.metrics(), "E"@, "X"@) == self.exploit_code_maturity.code(),
            value_or(self.metrics(), "RL"@, "X"@) == self.remediation_level.code(),
            value_or(self.metrics(), "RC"@, "X"@) == self.report_confidence.code(),
            value_or(self.metrics(), "CR"@, "X"@) == self.confidentiality_requirement.code(),
            value_or(self.metrics(), "IR"@, "X"@) == self.integrity_requirement.code(),
            value_or(self.metrics(), "AR"@, "X"@) == self.availability_requirement.code(),
            value_or(self.metrics(), "MAV"@, "X"@) == self.modified_attack_vector.code(),
            value_or(self.metrics(), "MAC"@, "X"@) == self.modified_attack_complexity.code(),
            value_or(self.metrics(), "MPR"@, "X"@) == self.modified_privileges_required.code(),
            value_or(self.metrics(), "MUI"@, "X"@) == self.modified_user_interaction.code(),
            value_or(self.metrics(), "MS"@, "X"@) == self.modified_scope.code(),
            value_or(self.metrics(), "MC"@, "X"@) == self.modified_confidentiality.code(),
            value_or(self.metrics(), "MI"@, "X"@) == self.modified_integrity.code(),
            value_or(self.metrics(), "MA"@, "X"@) == self.modified_availability.code(),
    {
        self.lemma_fields();
        let fields = self.fields();
        lemma_lookup(fields, 0);
        lemma_lookup(fields, 1);
        lemma_lookup(fields, 2);
        lemma_lookup(fields, 3);
        lemma_lookup(fields, 4);
        lemma_lookup(fields, 5);
        lemma_lookup(fields, 6);
        lemma_lookup(fields, 7);
        lemma_lookup(fields, 8);
        lemma_lookup(fields, 9);
        lemma_lookup(fields, 10);
        lemma_lookup(fields, 11);
        lemma_lookup(fields, 12);
        lemma_lookup(fields, 13);
        lemma_lookup(fields, 14);
        lemma_lookup(fields, 15);
        lemma_lookup(fields, 16);
        lemma_lookup(fields, 17);
        lemma_lookup(fields, 18);
        lemma_lookup(fields, 19);
        lemma_lookup(fields, 20);
        lemma_lookup(fields, 21);
    }

    /// Reading the mapping of the metrics gives the vector back.
    pub proof fn lemma_from_metrics(self)
        ensures
            Self::from_metrics(self.minor_version, self.metrics()) == Ok::<Self, ParseError>(
                self,
            ),
    {
        self.lemma_lookups();
        base::AttackVector::lemma_decode_code(self.attack_vector);
        base::AttackComplexity::lemma_decode_code(self.attack_complexity);
        base::PrivilegesRequired::lemma_decode_code(self.privileges_required);
        base::UserInteraction::lemma_decode_code(self.user_interaction);
        base::Scope::lemma_decode_code(self.scope);
        base::Confidentiality::lemma_decode_code(self.confidentiality);
        base::Integrity::lemma_decode_code(self.integrity);
        base::Availability::lemma_decode_code(self.availability);
        temporal::ExploitCodeMaturity::lemma_decode_code(self.exploit_code_maturity);
        temporal::RemediationLevel::lemma_decode_code(self.remediation_level);
        temporal::ReportConfidence::lemma_decode_code(self.report_confidence);
        env::ConfidentialityRequirement::lemma_decode_code(self.confidentiality_requirement);
        env::IntegrityRequirement::lemma_decode_code(self.integrity_requirement);
        env::AvailabilityRequirement::lemma_decode_code(self.availability_requirement);
        env::ModifiedAttackVector::lemma_decode_code(self.modified_attack_vector);
        env::ModifiedAttackComplexity::lemma_decode_code(self.modified_attack_complexity);
        env::ModifiedPrivilegesRequired::lemma_decode_code(self.modified_privileges_required);
        env::ModifiedUserInteraction::lemma_decode_code(self.modified_user_interaction);
        env::ModifiedScope::lemma_decode_code(self.modified_scope);
        env::ModifiedConfidentiality::lemma_decode_code(self.modified_confidentiality);
        env::ModifiedIntegrity::lemma_decode_code(self.modified_integrity);
        env::ModifiedAvailability::lemma_decode_code(self.modified_availability);
    }

    /// Round trip: parsing the canonical form of a vector gives the vector
    /// back, whatever its metrics are.
    pub proof fn lemma_parse_canonical(self)
        ensures
            Self::parse_spec(self.canonical()) == Ok::<Self, ParseError>(self),
    {
        MinorVersion::lemma_of_prefix(self.minor_version, join(self.components(), VECTOR_DELIM));
        self.lemma_fields();
        lemma_metrics_of_rendered(self.fields());
        self.lemma_from_metrics();
    }

    /// Canonical form: writing the vector that a string parses to gives the
    /// same text as writing any other vector with the same metrics, and
    /// parsing that text gives the same vector again.
    pub proof fn lemma_canonical_form(text: Seq<char>)
        ensures
            Self::parse_spec(text) matches Ok(v) ==> Self::parse_spec(v.canonical())
                == Self::parse_spec(text),
    {
        if let Ok(v) = Self::parse_spec(text) {
            v.lemma_parse_canonical();
        }
    }
}

impl core::str::FromStr for V3Vector {
    type Err = ParseError;

    /// Parses a vector string, for `str::parse`.
    fn from_str(cvss_str: &str) -> (r: Result<Self, ParseError>)
        ensures
            r == Self::parse_spec(cvss_str@),
    {
        V3Vector::parse(cvss_str)
    }
}

} // verus!
