//! CVSS v2 implementation

pub mod base;
pub mod env;
pub mod temporal;

use vstd::prelude::*;
use crate::common::{
    decoded, lemma_written, parse_metrics, required, shown, value_or, write_first, write_metric,
    write_optional, AsStr, ParseError,
};
use crate::grammar::{
    component, join, lemma_join_begins, lemma_lookup, lemma_metrics_of_rendered,
    lemma_rendered_first, mapping, metrics_of, plain, render, well_formed, Field, MetricMap,
    VECTOR_DELIM,
};

verus! {

/// CVSS vector version v2
///
/// Holds one value of every metric: the six base metrics, and the temporal
/// and environmental metrics, which are not defined unless given.
#[derive(Clone, Copy, Debug, PartialEq, Eq, Hash, Structural)]
pub struct V2Vector {
    pub access_vector: base::AccessVector,
    pub access_complexity: base::AccessComplexity,
    pub authentication: base::Authentication,
    pub confidentiality_impact: base::ConfidentialityImpact,
    pub integrity_impact: base::IntegrityImpact,
    pub availability_impact: base::AvailabilityImpact,
    pub exploitability: temporal::Exploitability,
    pub remediation_level: temporal::RemediationLevel,
    pub report_confidence: temporal::ReportConfidence,
    pub collateral_damage_potential: env::CollateralDamagePotential,
    pub target_distribution: env::TargetDistribution,
    pub confidentiality_requirement: env::ConfidentialityRequirement,
    pub integrity_requirement: env::IntegrityRequirement,
    pub availability_requirement: env::AvailabilityRequirement,
}

/// The length and the characters of the metric names of a v2 vector.
proof fn lemma_name_literals()
    ensures
        "A"@.len() == 1 && "A"@[0] == 'A',
        "C"@.len() == 1 && "C"@[0] == 'C',
        "E"@.len() == 1 && "E"@[0] == 'E',
        "I"@.len() == 1 && "I"@[0] == 'I',
        "AC"@.len() == 2 && "AC"@[0] == 'A' && "AC"@[1] == 'C',
        "AR"@.len() == 2 && "AR"@[0] == 'A' && "AR"@[1] == 'R',
        "AV"@.len() == 2 && "AV"@[0] == 'A' && "AV"@[1] == 'V',
        "Au"@.len() == 2 && "Au"@[0] == 'A' && "Au"@[1] == 'u',
        "CR"@.len() == 2 && "CR"@[0] == 'C' && "CR"@[1] == 'R',
        "IR"@.len() == 2 && "IR"@[0] == 'I' && "IR"@[1] == 'R',
        "RC"@.len() == 2 && "RC"@[0] == 'R' && "RC"@[1] == 'C',
        "RL"@.len() == 2 && "RL"@[0] == 'R' && "RL"@[1] == 'L',
        "TD"@.len() == 2 && "TD"@[0] == 'T' && "TD"@[1] == 'D',
        "CDP"@.len() == 3 && "CDP"@[0] == 'C' && "CDP"@[1] == 'D' && "CDP"@[2] == 'P',
{
    reveal_strlit("A");
    reveal_strlit("C");
    reveal_strlit("E");
    reveal_strlit("I");
    reveal_strlit("AC");
    reveal_strlit("AR");
    reveal_strlit("AV");
    reveal_strlit("Au");
    reveal_strlit("CR");
    reveal_strlit("IR");
    reveal_strlit("RC");
    reveal_strlit("RL");
    reveal_strlit("TD");
    reveal_strlit("CDP");
}

/// A vector string without its surrounding round brackets. Brackets are
/// taken off only where the string both begins with `(` and ends with `)`.
pub open spec fn unbracketed(s: Seq<char>) -> Seq<char> {
    if s.len() > 0 && s.first() == '(' && s.last() == ')' {
        s.subrange(1, s.len() - 1)
    } else {
        s
    }
}

impl V2Vector {
    /// Constructor: a vector with the given base metrics and every other
    /// metric not defined.
    pub fn new(
        access_vector: base::AccessVector,
        access_complexity: base::AccessComplexity,
        authentication: base::Authentication,
        confidentiality_impact: base::ConfidentialityImpact,
        integrity_impact: base::IntegrityImpact,
        availability_impact: base::AvailabilityImpact,
    ) -> (v: Self)
        ensures
            v == (V2Vector {
                access_vector,
                access_complexity,
                authentication,
                confidentiality_impact,
                integrity_impact,
                availability_impact,
                exploitability: temporal::Exploitability::NotDefined,
                remediation_level: temporal::RemediationLevel::NotDefined,
                report_confidence: temporal::ReportConfidence::NotDefined,
                collateral_damage_potential: env::CollateralDamagePotential::NotDefined,
                target_distribution: env::TargetDistribution::NotDefined,
                confidentiality_requirement: env::ConfidentialityRequirement::NotDefined,
                integrity_requirement: env::IntegrityRequirement::NotDefined,
                availability_requirement: env::AvailabilityRequirement::NotDefined,
            }),
    {
        V2Vector {
            access_vector,
            access_complexity,
            authentication,
            confidentiality_impact,
            integrity_impact,
            availability_impact,
            exploitability: temporal::Exploitability::NotDefined,
            remediation_level: temporal::RemediationLevel::NotDefined,
            report_confidence: temporal::ReportConfidence::NotDefined,
            collateral_damage_potential: env::CollateralDamagePotential::NotDefined,
            target_distribution: env::TargetDistribution::NotDefined,
            confidentiality_requirement: env::ConfidentialityRequirement::NotDefined,
            integrity_requirement: env::IntegrityRequirement::NotDefined,
            availability_requirement: env::AvailabilityRequirement::NotDefined,
        }
    }

    /// The metrics in the fixed order of the canonical form: the six base
    /// metrics, then the temporal and the environmental metrics, each of which
    /// is written only where it is defined.
    pub open spec fn fields(self) -> Seq<Field> {
        seq![
            ("AV"@, Some(self.access_vector.code())),
            ("AC"@, Some(self.access_complexity.code())),
            ("Au"@, Some(self.authentication.code())),
            ("C"@, Some(self.confidentiality_impact.code())),
            ("I"@, Some(self.integrity_impact.code())),
            ("A"@, Some(self.availability_impact.code())),
            ("E"@, shown(self.exploitability)),
            ("RL"@, shown(self.remediation_level)),
            ("RC"@, shown(self.report_confidence)),
            ("CDP"@, shown(self.collateral_damage_potential)),
            ("TD"@, shown(self.target_distribution)),
            ("CR"@, shown(self.confidentiality_requirement)),
            ("IR"@, shown(self.integrity_requirement)),
            ("AR"@, shown(self.availability_requirement)),
        ]
    }

    /// The components of the canonical form.
    pub open spec fn components(self) -> Seq<Seq<char>> {
        render(self.fields())
    }

    /// The mapping that the canonical form denotes: every metric that is
    /// written, under its name, with its code.
    pub open spec fn metrics(self) -> MetricMap {
        mapping(self.fields())
    }

    /// The canonical form of the vector: the components separated by `/`.
    pub open spec fn canonical(self) -> Seq<char> {
        join(self.components(), VECTOR_DELIM)
    }

    /// The vector that a mapping of metrics denotes.
    ///
    /// The base metrics are looked at in their fixed order: the first that is
    /// absent or has an unknown code decides the error. After them, an unknown
    /// code of any other metric is an incorrect value; a metric that is absent
    /// is not defined. Names that belong to no metric are passed over.
    pub open spec fn from_metrics(m: MetricMap) -> Result<Self, ParseError> {
        let access_vector = required(m, "AV"@, base::AccessVector::decode(m["AV"@]));
        let access_complexity = required(m, "AC"@, base::AccessComplexity::decode(m["AC"@]));
        let authentication = required(m, "Au"@, base::Authentication::decode(m["Au"@]));
        let confidentiality_impact = required(
            m,
            "C"@,
            base::ConfidentialityImpact::decode(m["C"@]),
        );
        let integrity_impact = required(m, "I"@, base::IntegrityImpact::decode(m["I"@]));
        let availability_impact = required(m, "A"@, base::AvailabilityImpact::decode(m["A"@]));
        let exploitability = decoded(temporal::Exploitability::decode(value_or(m, "E"@, "ND"@)));
        let remediation_level = decoded(
            temporal::RemediationLevel::decode(value_or(m, "RL"@, "ND"@)),
        );
        let report_confidence = decoded(
            temporal::ReportConfidence::decode(value_or(m, "RC"@, "ND"@)),
        );
        let collateral_damage_potential = decoded(
            env::CollateralDamagePotential::decode(value_or(m, "CDP"@, "ND"@)),
        );
        let target_distribution = decoded(
            env::TargetDistribution::decode(value_or(m, "TD"@, "ND"@)),
        );
        let confidentiality_requirement = decoded(
            env::ConfidentialityRequirement::decode(value_or(m, "CR"@, "ND"@)),
        );
        let integrity_requirement = decoded(
            env::IntegrityRequirement::decode(value_or(m, "IR"@, "ND"@)),
        );
        let availability_requirement = decoded(
            env::AvailabilityRequirement::decode(value_or(m, "AR"@, "ND"@)),
        );
        if access_vector is Err {
            Err(access_vector->Err_0)
        } else if access_complexity is Err {
            Err(access_complexity->Err_0)
        } else if authentication is Err {
            Err(authentication->Err_0)
        } else if confidentiality_impact is Err {
            Err(confidentiality_impact->Err_0)
        } else if integrity_impact is Err {
            Err(integrity_impact->Err_0)
        } else if availability_impact is Err {
            Err(availability_impact->Err_0)
        } else if {
            ||| exploitability is Err
            ||| remediation_level is Err
            ||| report_confidence is Err
            ||| collateral_damage_potential is Err
            ||| target_distribution is Err
            ||| confidentiality_requirement is Err
            ||| integrity_requirement is Err
            ||| availability_requirement is Err
        } {
            Err(ParseError::IncorrectValue)
        } else {
            Ok(
                V2Vector {
                    access_vector: access_vector->Ok_0,
                    access_complexity: access_complexity->Ok_0,
                    authentication: authentication->Ok_0,
                    confidentiality_impact: confidentiality_impact->Ok_0,
                    integrity_impact: integrity_impact->Ok_0,
                    availability_impact: availability_impact->Ok_0,
                    exploitability: exploitability->Ok_0,
                    remediation_level: remediation_level->Ok_0,
                    report_confidence: report_confidence->Ok_0,
                    collateral_damage_potential: collateral_damage_potential->Ok_0,
                    target_distribution: target_distribution->Ok_0,
                    confidentiality_requirement: confidentiality_requirement->Ok_0,
                    integrity_requirement: integrity_requirement->Ok_0,
                    availability_requirement: availability_requirement->Ok_0,
                },
            )
        }
    }

    /// What a vector string parses to. Surrounding round brackets are taken
    /// off; what is left is tokenized and read as metrics.
    pub open spec fn parse_spec(s: Seq<char>) -> Result<Self, ParseError> {
        match metrics_of(unbracketed(s)) {
            Err(e) => Err(e),
            Ok(m) => Self::from_metrics(m),
        }
    }

    /// The temporal metrics that a temporal vector string denotes; a metric
    /// that it does not name is not defined.
    pub open spec fn temporal_of(s: Seq<char>) -> Result<
        (temporal::Exploitability, temporal::RemediationLevel, temporal::ReportConfidence),
        ParseError,
    > {
        match metrics_of(s) {
            Err(e) => Err(e),
            Ok(m) => {
                let e = decoded(temporal::Exploitability::decode(value_or(m, "E"@, "ND"@)));
                let rl = decoded(temporal::RemediationLevel::decode(value_or(m, "RL"@, "ND"@)));
                let rc = decoded(temporal::ReportConfidence::decode(value_or(m, "RC"@, "ND"@)));
                if e is Err || rl is Err || rc is Err {
                    Err(ParseError::IncorrectValue)
                } else {
                    Ok((e->Ok_0, rl->Ok_0, rc->Ok_0))
                }
            },
        }
    }

    /// Writes the vector in its canonical form, which parses back to the
    /// vector.
    pub fn as_string(&self) -> (vector: String)
        ensures
            vector@ == self.canonical(),
            Self::parse_spec(vector@) == Ok::<Self, ParseError>(*self),
    {
        let mut vector = String::new();
        let ghost head = Seq::<char>::empty();

        let fields = write_first(&mut vector, "AV", &self.access_vector);
        let fields = write_metric(&mut vector, "AC", &self.access_complexity, Ghost(head), fields);
        let fields = write_metric(&mut vector, "Au", &self.authentication, Ghost(head), fields);
        let fields = write_metric(
            &mut vector,
            "C",
            &self.confidentiality_impact,
            Ghost(head),
            fields,
        );
        let fields = write_metric(&mut vector, "I", &self.integrity_impact, Ghost(head), fields);
        let fields = write_metric(&mut vector, "A", &self.availability_impact, Ghost(head), fields);

        let fields = write_optional(&mut vector, "E", &self.exploitability, Ghost(head), fields);
        let fields = write_optional(
            &mut vector,
            "RL",
            &self.remediation_level,
            Ghost(head),
            fields,
        );
        let fields = write_optional(
            &mut vector,
            "RC",
            &self.report_confidence,
            Ghost(head),
            fields,
        );

        let fields = write_optional(
            &mut vector,
            "CDP",
            &self.collateral_damage_potential,
            Ghost(head),
            fields,
        );
        let fields = write_optional(
            &mut vector,
            "TD",
            &self.target_distribution,
            Ghost(head),
            fields,
        );
        let fields = write_optional(
            &mut vector,
            "CR",
            &self.confidentiality_requirement,
            Ghost(head),
            fields,
        );
        let fields = write_optional(
            &mut vector,
            "IR",
            &self.integrity_requirement,
            Ghost(head),
            fields,
        );
        let fields = write_optional(
            &mut vector,
            "AR",
            &self.availability_requirement,
            Ghost(head),
            fields,
        );

        proof {
            lemma_written(vector@, head, fields@);
            assert(fields@ =~= self.fields());
            assert(head + self.canonical() =~= self.canonical());
            self.lemma_parse_canonical();
        }
        vector
    }

    /// The canonical form of the vector, as `as_string` writes it.
    pub fn to_string(&self) -> (vector: String)
        ensures
            vector@ == self.canonical(),
            Self::parse_spec(vector@) == Ok::<Self, ParseError>(*self),
    {
        self.as_string()
    }

    /// Parse a CVSS 2 string and return V2Vector.
    pub fn parse(cvss_str: &str) -> (r: Result<Self, ParseError>)
        ensures
            r == Self::parse_spec(cvss_str@),
    {
        // Remove round brackets ()
        let n = cvss_str.unicode_len();
        let bracketed = n >= 2 && cvss_str.get_char(0) == '(' && cvss_str.get_char(n - 1) == ')';
        let cvss_str_clean = if bracketed {
            cvss_str.substring_char(1, n - 1)
        } else {
            cvss_str
        };

        let parsed = parse_metrics(cvss_str_clean)?;

        let access_vector = match parsed.get("AV") {
            Some(value) => base::AccessVector::from_str(value)?,
            None => {
                return Err(ParseError::Missing);
            },
        };
        let access_complexity = match parsed.get("AC") {
            Some(value) => base::AccessComplexity::from_str(value)?,
            None => {
                return Err(ParseError::Missing);
            },
        };
        let authentication = match parsed.get("Au") {
            Some(value) => base::Authentication::from_str(value)?,
            None => {
                return Err(ParseError::Missing);
            },
        };
        let confidentiality_impact = match parsed.get("C") {
            Some(value) => base::ConfidentialityImpact::from_str(value)?,
            None => {
                return Err(ParseError::Missing);
            },
        };
        let integrity_impact = match parsed.get("I") {
            Some(value) => base::IntegrityImpact::from_str(value)?,
            None => {
                return Err(ParseError::Missing);
            },
        };
        let availability_impact = match parsed.get("A") {
            Some(value) => base::AvailabilityImpact::from_str(value)?,
            None => {
                return Err(ParseError::Missing);
            },
        };

        let exploitability = temporal::Exploitability::from_str(parsed.get_or("E", "ND"))?;
        let remediation_level = temporal::RemediationLevel::from_str(parsed.get_or("RL", "ND"))?;
        let report_confidence = temporal::ReportConfidence::from_str(parsed.get_or("RC", "ND"))?;
        let collateral_damage_potential = env::CollateralDamagePotential::from_str(
            parsed.get_or("CDP", "ND"),
        )?;
        let target_distribution = env::TargetDistribution::from_str(parsed.get_or("TD", "ND"))?;
        let confidentiality_requirement = env::ConfidentialityRequirement::from_str(
            parsed.get_or("CR", "ND"),
        )?;
        let integrity_requirement = env::IntegrityRequirement::from_str(parsed.get_or("IR", "ND"))?;
        let availability_requirement = env::AvailabilityRequirement::from_str(
            parsed.get_or("AR", "ND"),
        )?;

        Ok(
            V2Vector {
                access_vector,
                access_complexity,
                authentication,
                confidentiality_impact,
                integrity_impact,
                availability_impact,
                exploitability,
                remediation_level,
                report_confidence,
                collateral_damage_potential,
                target_distribution,
                confidentiality_requirement,
                integrity_requirement,
                availability_requirement,
            },
        )
    }

    /// Parses a vector string, as `parse` does.
    pub fn from_str(cvss_str: &str) -> (r: Result<Self, ParseError>)
        ensures
            r == Self::parse_spec(cvss_str@),
    {
        Self::parse(cvss_str)
    }

    /// Parse the temporal fields in `temporal_str`, adding them to the
    /// `V2Vector`.
    ///
    /// The three temporal metrics are replaced together: one that the string
    /// does not name becomes not defined. Where the string is refused, the
    /// vector stays as it was.
    pub fn extend_with_temporal(&mut self, temporal_str: &str) -> (r: Result<(), ParseError>)
        ensures
            match Self::temporal_of(temporal_str@) {
                Ok((e, rl, rc)) => r is Ok && *final(self) == (V2Vector {
                    exploitability: e,
                    remediation_level: rl,
                    report_confidence: rc,
                    ..*old(self)
                }),
                Err(e) => r == Err::<(), ParseError>(e) && *final(self) == *old(self),
            },
    {
        let parsed = parse_metrics(temporal_str)?;

        let exploitability = temporal::Exploitability::from_str(parsed.get_or("E", "ND"))?;
        let remediation_level = temporal::RemediationLevel::from_str(parsed.get_or("RL", "ND"))?;
        let report_confidence = temporal::ReportConfidence::from_str(parsed.get_or("RC", "ND"))?;

        self.exploitability = exploitability;
        self.remediation_level = remediation_level;
        self.report_confidence = report_confidence;

        Ok(())
    }

    /// The metrics of a vector can be written and read back: the names differ
    /// from each other, and neither a name nor a code holds a delimiter.
    pub proof fn lemma_fields(self)
        ensures
            well_formed(self.fields()),
            self.components().len() >= 1,
            self.components()[0] == component("AV"@, self.access_vector.code()),
    {
        reveal(well_formed);
        lemma_name_literals();
        base::AccessVector::lemma_code_plain(self.access_vector);
        base::AccessComplexity::lemma_code_plain(self.access_complexity);
        base::Authentication::lemma_code_plain(self.authentication);
        base::ConfidentialityImpact::lemma_code_plain(self.confidentiality_impact);
        base::IntegrityImpact::lemma_code_plain(self.integrity_impact);
        base::AvailabilityImpact::lemma_code_plain(self.availability_impact);
        temporal::Exploitability::lemma_code_plain(self.exploitability);
        temporal::RemediationLevel::lemma_code_plain(self.remediation_level);
        temporal::ReportConfidence::lemma_code_plain(self.report_confidence);
        env::CollateralDamagePotential::lemma_code_plain(self.collateral_damage_potential);
        env::TargetDistribution::lemma_code_plain(self.target_distribution);
        env::ConfidentialityRequirement::lemma_code_plain(self.confidentiality_requirement);
        env::IntegrityRequirement::lemma_code_plain(self.integrity_requirement);
        env::AvailabilityRequirement::lemma_code_plain(self.availability_requirement);
        let fields = self.fields();
        assert(fields[0].0 == "AV"@ && plain(fields[0].0));
        assert(fields[1].0 == "AC"@ && plain(fields[1].0));
        assert(fields[2].0 == "Au"@ && plain(fields[2].0));
        assert(fields[3].0 == "C"@ && plain(fields[3].0));
        assert(fields[4].0 == "I"@ && plain(fields[4].0));
        assert(fields[5].0 == "A"@ && plain(fields[5].0));
        assert(fields[6].0 == "E"@ && plain(fields[6].0));
        assert(fields[7].0 == "RL"@ && plain(fields[7].0));
        assert(fields[8].0 == "RC"@ && plain(fields[8].0));
        assert(fields[9].0 == "CDP"@ && plain(fields[9].0));
        assert(fields[10].0 == "TD"@ && plain(fields[10].0));
        assert(fields[11].0 == "CR"@ && plain(fields[11].0));
        assert(fields[12].0 == "IR"@ && plain(fields[12].0));
        assert(fields[13].0 == "AR"@ && plain(fields[13].0));
        lemma_rendered_first(fields);
    }

    /// Looking the metrics up by name: the mapping of the metrics holds each
    /// base metric under its name, with its code; for any other metric it
    /// holds the code where the metric is defined and nothing where it is not,
    /// so that the code is found, or the default in its place.
    pub proof fn lemma_lookups(self)
        ensures
            self.metrics().contains_key("AV"@),
            self.metrics()["AV"@] == self.access_vector.code(),
            self.metrics().contains_key("AC"@),
            self.metrics()["AC"@] == self.access_complexity.code(),
            self.metrics().contains_key("Au"@),
            self.metrics()["Au"@] == self.authentication.code(),
            self.metrics().contains_key("C"@),
            self.metrics()["C"@] == self.confidentiality_impact.code(),
            self.metrics().contains_key("I"@),
            self.metrics()["I"@] == self.integrity_impact.code(),
            self.metrics().contains_key("A"@),
            self.metrics()["A"@] == self.availability_impact.code(),
            value_or(self.metrics(), "E"@, "ND"@) == self.exploitability.code(),
            value_or(self.metrics(), "RL"@, "ND"@) == self.remediation_level.code(),
            value_or(self.metrics(), "RC"@, "ND"@) == self.report_confidence.code(),
            value_or(self.metrics(), "CDP"@, "ND"@) == self.collateral_damage_potential.code(),
            value_or(self.metrics(), "TD"@, "ND"@) == self.target_distribution.code(),
            value_or(self.metrics(), "CR"@, "ND"@) == self.confidentiality_requirement.code(),
            value_or(self.metrics(), "IR"@, "ND"@) == self.integrity_requirement.code(),
            value_or(self.metrics(), "AR"@, "ND"@) == self.availability_requirement.code(),
    {
        self.lemma_fields();
        let fields = self.fields();
        lemma_lookup(fields, 0);
        lemma_lookup(fields, 1);
        lemma_lookup(fields, 2);
        lemma_lookup(fields, 3);
        lemma_lookup(fields, 4);
        lemma_lookup(fields, 5);
        lemma_lookup(fields, 6);
        lemma_lookup(fields, 7);
        lemma_lookup(fields, 8);
        lemma_lookup(fields, 9);
        lemma_lookup(fields, 10);
        lemma_lookup(fields, 11);
        lemma_lookup(fields, 12);
        lemma_lookup(fields, 13);
    }

    /// Reading the mapping of the metrics gives the vector back.
    pub proof fn lemma_from_metrics(self)
        ensures
            Self::from_metrics(self.metrics()) == Ok::<Self, ParseError>(self),
    {
        self.lemma_lookups();
        base::AccessVector::lemma_decode_code(self.access_vector);
        base::AccessComplexity::lemma_decode_code(self.access_complexity);
        base::Authentication::lemma_decode_code(self.authentication);
        base::ConfidentialityImpact::lemma_decode_code(self.confidentiality_impact);
        base::IntegrityImpact::lemma_decode_code(self.integrity_impact);
        base::AvailabilityImpact::lemma_decode_code(self.availability_impact);
        temporal::Exploitability::lemma_decode_code(self.exploitability);
        temporal::RemediationLevel::lemma_decode_code(self.remediation_level);
        temporal::ReportConfidence::lemma_decode_code(self.report_confidence);
        env::CollateralDamagePotential::lemma_decode_code(self.collateral_damage_potential);
        env::TargetDistribution::lemma_decode_code(self.target_distribution);
        env::ConfidentialityRequirement::lemma_decode_code(self.confidentiality_requirement);
        env::IntegrityRequirement::lemma_decode_code(self.integrity_requirement);
        env::AvailabilityRequirement::lemma_decode_code(self.availability_requirement);
    }

    /// Round trip: parsing the canonical form of a vector gives the vector
    /// back, whatever its metrics are.
    pub proof fn lemma_parse_canonical(self)
        ensures
            Self::parse_spec(self.canonical()) == Ok::<Self, ParseError>(self),
    {
        self.lemma_fields();
        lemma_name_literals();
        lemma_join_begins(self.components(), VECTOR_DELIM);
        assert(self.canonical()[0] == self.components()[0][0]);
        assert(self.components()[0][0] == 'A');
        lemma_metrics_of_rendered(self.fields());
        self.lemma_from_metrics();
    }

    /// Legacy bracket form: a vector string in round brackets parses as the
    /// string without them does, unless that string is itself in brackets.
    pub proof fn lemma_parse_bracketed(s: Seq<char>)
        requires
            !(s.len() > 0 && s.first() == '(' && s.last() == ')'),
        ensures
            Self::parse_spec(seq!['('] + s + seq![')']) == Self::parse_spec(s),
    {
        let b = seq!['('] + s + seq![')'];
        assert(b.subrange(1, b.len() - 1) =~= s);
    }

    /// The canonical form of a v2 vector does not begin with a v3 version
    /// prefix, so the v3 grammar refuses it.
    pub proof fn lemma_not_v3(self)
        ensures
            crate::v3::V3Vector::parse_spec(self.canonical()) is Err,
    {
        self.lemma_fields();
        lemma_name_literals();
        reveal_strlit("CVSS:3.0/");
        reveal_strlit("CVSS:3.1/");
        lemma_join_begins(self.components(), VECTOR_DELIM);
        let s = self.canonical();
        assert(s[0] == self.components()[0][0]);
        assert(s[0] == 'A');
        assert("CVSS:3.0/"@[0] == 'C' && "CVSS:3.1/"@[0] == 'C');
        if "CVSS:3.0/"@.is_prefix_of(s) {
            assert(s.subrange(0, 9)[0] == 'C');
        }
        if "CVSS:3.1/"@.is_prefix_of(s) {
            assert(s.subrange(0, 9)[0] == 'C');
        }
    }

    /// Canonical form: writing the vector that a string parses to gives the
    /// same text as writing any other vector with the same metrics, and
    /// parsing that text gives the same vector again.
    pub proof fn lemma_canonical_form(text: Seq<char>)
        ensures
            Self::parse_spec(text) matches Ok(v) ==> Self::parse_spec(v.canonical())
                == Self::parse_spec(text),
    {
        if let Ok(v) = Self::parse_spec(text) {
            v.lemma_parse_canonical();
        }
    }
}

impl core::str::FromStr for V2Vector {
    type Err = ParseError;

    /// Parses a vector string, for `str::parse`.
    fn from_str(cvss_str: &str) -> (r: Result<Self, ParseError>)
        ensures
            r == Self::parse_spec(cvss_str@),
    {
        V2Vector::parse(cvss_str)
    }
}

} // verus!
