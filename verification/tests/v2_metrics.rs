use cvssrust::v2::base::{
    AccessComplexity, AccessVector, Authentication, AvailabilityImpact, ConfidentialityImpact,
    IntegrityImpact,
};
use cvssrust::v2::temporal::{Exploitability, RemediationLevel, ReportConfidence};
use cvssrust::v2::env::{
    AvailabilityRequirement, CollateralDamagePotential, ConfidentialityRequirement,
    IntegrityRequirement, TargetDistribution,
};
use cvssrust::{AsStr, NumValue, Optional, ParseError};

#[test]
fn v2_access_vector_codes() {
    assert_eq!(AccessVector::Local.as_str(), "L");
    assert_eq!(AccessVector::from_str("L"), Ok(AccessVector::Local));
    assert_eq!(AccessVector::AdjacentNetwork.as_str(), "A");
    assert_eq!(AccessVector::from_str("A"), Ok(AccessVector::AdjacentNetwork));
    assert_eq!(AccessVector::Network.as_str(), "N");
    assert_eq!(AccessVector::from_str("N"), Ok(AccessVector::Network));
    assert_eq!(AccessVector::from_str(""), Err(ParseError::IncorrectValue));
    assert_eq!(AccessVector::from_str("WRONG"), Err(ParseError::IncorrectValue));
    assert_eq!(AccessVector::from_str("X"), Err(ParseError::IncorrectValue));
    assert_eq!(AccessVector::from_str("l"), Err(ParseError::IncorrectValue));
    assert_eq!(AccessVector::from_str("L "), Err(ParseError::IncorrectValue));
    assert_eq!(AccessVector::from_str(" L"), Err(ParseError::IncorrectValue));
    assert_eq!(AccessVector::from_str("LL"), Err(ParseError::IncorrectValue));
}

#[test]
fn v2_access_vector_weights() {
    assert_eq!(AccessVector::Local.num_value(), 395);
    assert_eq!(AccessVector::AdjacentNetwork.num_value(), 646);
    assert_eq!(AccessVector::Network.num_value(), 1000);
}

#[test]
fn v2_access_complexity_codes() {
    assert_eq!(AccessComplexity::High.as_str(), "H");
    assert_eq!(AccessComplexity::from_str("H"), Ok(AccessComplexity::High));
    assert_eq!(AccessComplexity::Medium.as_str(), "M");
    assert_eq!(AccessComplexity::from_str("M"), Ok(AccessComplexity::Medium));
    assert_eq!(AccessComplexity::Low.as_str(), "L");
    assert_eq!(AccessComplexity::from_str("L"), Ok(AccessComplexity::Low));
    assert_eq!(AccessComplexity::from_str(""), Err(ParseError::IncorrectValue));
    assert_eq!(AccessComplexity::from_str("WRONG"), Err(ParseError::IncorrectValue));
    assert_eq!(AccessComplexity::from_str("X"), Err(ParseError::IncorrectValue));
    assert_eq!(AccessComplexity::from_str("h"), Err(ParseError::IncorrectValue));
    assert_eq!(AccessComplexity::from_str("H "), Err(ParseError::IncorrectValue));
    assert_eq!(AccessComplexity::from_str(" H"), Err(ParseError::IncorrectValue));
    assert_eq!(AccessComplexity::from_str("HH"), Err(ParseError::IncorrectValue));
}

#[test]
fn v2_access_complexity_weights() {
    assert_eq!(AccessComplexity::High.num_value(), 350);
    assert_eq!(AccessComplexity::Medium.num_value(), 610);
    assert_eq!(AccessComplexity::Low.num_value(), 710);
}

#[test]
fn v2_authentication_codes() {
    assert_eq!(Authentication::Multiple.as_str(), "M");
    assert_eq!(Authentication::from_str("M"), Ok(Authentication::Multiple));
    assert_eq!(Authentication::Single.as_str(), "S");
    assert_eq!(Authentication::from_str("S"), Ok(Authentication::Single));
    assert_eq!(Authentication::Nil.as_str(), "N");
    assert_eq!(Authentication::from_str("N"), Ok(Authentication::Nil));
    assert_eq!(Authentication::from_str(""), Err(ParseError::IncorrectValue));
    assert_eq!(Authentication::from_str("WRONG"), Err(ParseError::IncorrectValue));
    assert_eq!(Authentication::from_str("X"), Err(ParseError::IncorrectValue));
    assert_eq!(Authentication::from_str("m"), Err(ParseError::IncorrectValue));
    assert_eq!(Authentication::from_str("M "), Err(ParseError::IncorrectValue));
    assert_eq!(Authentication::from_str(" M"), Err(ParseError::IncorrectValue));
    assert_eq!(Authentication::from_str("MM"), Err(ParseError::IncorrectValue));
}

#[test]
fn v2_authentication_weights() {
    assert_eq!(Authentication::Multiple.num_value(), 450);
    assert_eq!(Authentication::Single.num_value(), 560);
    assert_eq!(Authentication::Nil.num_value(), 704);
}

#[test]
fn v2_confidentiality_impact_codes() {
    assert_eq!(ConfidentialityImpact::Nil.as_str(), "N");
    assert_eq!(ConfidentialityImpact::from_str("N"), Ok(ConfidentialityImpact::Nil));
    assert_eq!(ConfidentialityImpact::Partial.as_str(), "P");
    assert_eq!(ConfidentialityImpact::from_str("P"), Ok(ConfidentialityImpact::Partial));
    assert_eq!(ConfidentialityImpact::Complete.as_str(), "C");
    assert_eq!(ConfidentialityImpact::from_str("C"), Ok(ConfidentialityImpact::Complete));
    assert_eq!(ConfidentialityImpact::from_str(""), Err(ParseError::IncorrectValue));
    assert_eq!(ConfidentialityImpact::from_str("WRONG"), Err(ParseError::IncorrectValue));
    assert_eq!(ConfidentialityImpact::from_str("X"), Err(ParseError::IncorrectValue));
    assert_eq!(ConfidentialityImpact::from_str("n"), Err(ParseError::IncorrectValue));
    assert_eq!(ConfidentialityImpact::from_str("N "), Err(ParseError::IncorrectValue));
    assert_eq!(ConfidentialityImpact::from_str(" N"), Err(ParseError::IncorrectValue));
    assert_eq!(ConfidentialityImpact::from_str("NN"), Err(ParseError::IncorrectValue));
}

#[test]
fn v2_confidentiality_impact_weights() {
    assert_eq!(ConfidentialityImpact::Nil.num_value(), 0);
    assert_eq!(ConfidentialityImpact::Partial.num_value(), 275);
    assert_eq!(ConfidentialityImpact::Complete.num_value(), 660);
}

#[test]
fn v2_integrity_impact_codes() {
    assert_eq!(IntegrityImpact::Nil.as_str(), "N");
    assert_eq!(IntegrityImpact::from_str("N"), Ok(IntegrityImpact::Nil));
    assert_eq!(IntegrityImpact::Partial.as_str(), "P");
    assert_eq!(IntegrityImpact::from_str("P"), Ok(IntegrityImpact::Partial));
    assert_eq!(IntegrityImpact::Complete.as_str(), "C");
    assert_eq!(IntegrityImpact::from_str("C"), Ok(IntegrityImpact::Complete));
    assert_eq!(IntegrityImpact::from_str(""), Err(ParseError::IncorrectValue));
    assert_eq!(IntegrityImpact::from_str("WRONG"), Err(ParseError::IncorrectValue));
    assert_eq!(IntegrityImpact::from_str("X"), Err(ParseError::IncorrectValue));
    assert_eq!(IntegrityImpact::from_str("n"), Err(ParseError::IncorrectValue));
    assert_eq!(IntegrityImpact::from_str("N "), Err(ParseError::IncorrectValue));
    assert_eq!(IntegrityImpact::from_str(" N"), Err(ParseError::IncorrectValue));
    assert_eq!(IntegrityImpact::from_str("NN"), Err(ParseError::IncorrectValue));
}

#[test]
fn v2_integrity_impact_weights() {
    assert_eq!(IntegrityImpact::Nil.num_value(), 0);
    assert_eq!(IntegrityImpact::Partial.num_value(), 275);
    assert_eq!(IntegrityImpact::Complete.num_value(), 660);
}

#[test]
fn v2_availability_impact_codes() {
    assert_eq!(AvailabilityImpact::Nil.as_str(), "N");
    assert_eq!(AvailabilityImpact::from_str("N"), Ok(AvailabilityImpact::Nil));
    assert_eq!(AvailabilityImpact::Partial.as_str(), "P");
    assert_eq!(AvailabilityImpact::from_str("P"), Ok(AvailabilityImpact::Partial));
    assert_eq!(AvailabilityImpact::Complete.as_str(), "C");
    assert_eq!(AvailabilityImpact::from_str("C"), Ok(AvailabilityImpact::Complete));
    assert_eq!(AvailabilityImpact::from_str(""), Err(ParseError::IncorrectValue));
    assert_eq!(AvailabilityImpact::from_str("WRONG"), Err(ParseError::IncorrectValue));
    assert_eq!(AvailabilityImpact::from_str("X"), Err(ParseError::IncorrectValue));
    assert_eq!(AvailabilityImpact::from_str("n"), Err(ParseError::IncorrectValue));
    assert_eq!(AvailabilityImpact::from_str("N "), Err(ParseError::IncorrectValue));
    assert_eq!(AvailabilityImpact::from_str(" N"), Err(ParseError::IncorrectValue));
    assert_eq!(AvailabilityImpact::from_str("NN"), Err(ParseError::IncorrectValue));
}

#[test]
fn v2_availability_impact_weights() {
    assert_eq!(AvailabilityImpact::Nil.num_value(), 0);
    assert_eq!(AvailabilityImpact::Partial.num_value(), 275);
    assert_eq!(AvailabilityImpact::Complete.num_value(), 660);
}

#[test]
fn v2_exploitability_codes() {
    assert_eq!(Exploitability::NotDefined.as_str(), "ND");
    assert_eq!(Exploitability::from_str("ND"), Ok(Exploitability::NotDefined));
    assert_eq!(Exploitability::High.as_str(), "H");
    assert_eq!(Exploitability::from_str("H"), Ok(Exploitability::High));
    assert_eq!(Exploitability::Functional.as_str(), "F");
    assert_eq!(Exploitability::from_str("F"), Ok(Exploitability::Functional));
    assert_eq!(Exploitability::ProofOfConcept.as_str(), "POC");
    assert_eq!(Exploitability::from_str("POC"), Ok(Exploitability::ProofOfConcept));
    assert_eq!(Exploitability::Unproven.as_str(), "U");
    assert_eq!(Exploitability::from_str("U"), Ok(Exploitability::Unproven));
    assert_eq!(Exploitability::from_str(""), Err(ParseError::IncorrectValue));
    assert_eq!(Exploitability::from_str("WRONG"), Err(ParseError::IncorrectValue));
    assert_eq!(Exploitability::from_str("X"), Err(ParseError::IncorrectValue));
    assert_eq!(Exploitability::from_str("nd"), Err(ParseError::IncorrectValue));
    assert_eq!(Exploitability::from_str("ND "), Err(ParseError::IncorrectValue));
    assert_eq!(Exploitability::from_str(" ND"), Err(ParseError::IncorrectValue));
    assert_eq!(Exploitability::from_str("NDND"), Err(ParseError::IncorrectValue));
}

#[test]
fn v2_exploitability_weights() {
    assert_eq!(Exploitability::NotDefined.num_value(), 1000);
    assert_eq!(Exploitability::High.num_value(), 1000);
    assert_eq!(Exploitability::Functional.num_value(), 950);
    assert_eq!(Exploitability::ProofOfConcept.num_value(), 900);
    assert_eq!(Exploitability::Unproven.num_value(), 850);
}

#[test]
fn v2_exploitability_undefined() {
    assert!(Exploitability::NotDefined.is_undefined());
    assert!(!Exploitability::High.is_undefined());
    assert!(!Exploitability::Functional.is_undefined());
    assert!(!Exploitability::ProofOfConcept.is_undefined());
    assert!(!Exploitability::Unproven.is_undefined());
}

#[test]
fn v2_remediation_level_codes() {
    assert_eq!(RemediationLevel::NotDefined.as_str(), "ND");
    assert_eq!(RemediationLevel::from_str("ND"), Ok(RemediationLevel::NotDefined));
    assert_eq!(RemediationLevel::Unavailable.as_str(), "U");
    assert_eq!(RemediationLevel::from_str("U"), Ok(RemediationLevel::Unavailable));
    assert_eq!(RemediationLevel::Workaround.as_str(), "W");
    assert_eq!(RemediationLevel::from_str("W"), Ok(RemediationLevel::Workaround));
    assert_eq!(RemediationLevel::TemporaryFix.as_str(), "TF");
    assert_eq!(RemediationLevel::from_str("TF"), Ok(RemediationLevel::TemporaryFix));
    assert_eq!(RemediationLevel::OfficialFix.as_str(), "OF");
    assert_eq!(RemediationLevel::from_str("OF"), Ok(RemediationLevel::OfficialFix));
    assert_eq!(RemediationLevel::from_str(""), Err(ParseError::IncorrectValue));
    assert_eq!(RemediationLevel::from_str("WRONG"), Err(ParseError::IncorrectValue));
    assert_eq!(RemediationLevel::from_str("X"), Err(ParseError::IncorrectValue));
    assert_eq!(RemediationLevel::from_str("nd"), Err(ParseError::IncorrectValue));
    assert_eq!(RemediationLevel::from_str("ND "), Err(ParseError::IncorrectValue));
    assert_eq!(RemediationLevel::from_str(" ND"), Err(ParseError::IncorrectValue));
    assert_eq!(RemediationLevel::from_str("NDND"), Err(ParseError::IncorrectValue));
}

#[test]
fn v2_remediation_level_weights() {
    assert_eq!(RemediationLevel::NotDefined.num_value(), 1000);
    assert_eq!(RemediationLevel::Unavailable.num_value(), 1000);
    assert_eq!(RemediationLevel::Workaround.num_value(), 950);
    assert_eq!(RemediationLevel::TemporaryFix.num_value(), 900);
    assert_eq!(RemediationLevel::OfficialFix.num_value(), 870);
}

#[test]
fn v2_remediation_level_undefined() {
    assert!(RemediationLevel::NotDefined.is_undefined());
    assert!(!RemediationLevel::Unavailable.is_undefined());
    assert!(!RemediationLevel::Workaround.is_undefined());
    assert!(!RemediationLevel::TemporaryFix.is_undefined());
    assert!(!RemediationLevel::OfficialFix.is_undefined());
}

#[test]
fn v2_report_confidence_codes() {
    assert_eq!(ReportConfidence::Unconfirmed.as_str(), "UC");
    assert_eq!(ReportConfidence::from_str("UC"), Ok(ReportConfidence::Unconfirmed));
    assert_eq!(ReportConfidence::Uncorroborated.as_str(), "UR");
    assert_eq!(ReportConfidence::from_str("UR"), Ok(ReportConfidence::Uncorroborated));
    assert_eq!(ReportConfidence::Confirmed.as_str(), "C");
    assert_eq!(ReportConfidence::from_str("C"), Ok(ReportConfidence::Confirmed));
    assert_eq!(ReportConfidence::NotDefined.as_str(), "ND");
    assert_eq!(ReportConfidence::from_str("ND"), Ok(ReportConfidence::NotDefined));
    assert_eq!(ReportConfidence::from_str(""), Err(ParseError::IncorrectValue));
    assert_eq!(ReportConfidence::from_str("WRONG"), Err(ParseError::IncorrectValue));
    assert_eq!(ReportConfidence::from_str("X"), Err(ParseError::IncorrectValue));
    assert_eq!(ReportConfidence::from_str("uc"), Err(ParseError::IncorrectValue));
    assert_eq!(ReportConfidence::from_str("UC "), Err(ParseError::IncorrectValue));
    assert_eq!(ReportConfidence::from_str(" UC"), Err(ParseError::IncorrectValue));
    assert_eq!(ReportConfidence::from_str("UCUC"), Err(ParseError::IncorrectValue));
}

#[test]
fn v2_report_confidence_weights() {
    assert_eq!(ReportConfidence::Unconfirmed.num_value(), 900);
    assert_eq!(ReportConfidence::Uncorroborated.num_value(), 950);
    assert_eq!(ReportConfidence::Confirmed.num_value(), 1000);
    assert_eq!(ReportConfidence::NotDefined.num_value(), 1000);
}

#[test]
fn v2_report_confidence_undefined() {
    assert!(!ReportConfidence::Unconfirmed.is_undefined());
    assert!(!ReportConfidence::Uncorroborated.is_undefined());
    assert!(!ReportConfidence::Confirmed.is_undefined());
    assert!(ReportConfidence::NotDefined.is_undefined());
}

#[test]
fn v2_collateral_damage_potential_codes() {
    assert_eq!(CollateralDamagePotential::Nil.as_str(), "N");
    assert_eq!(CollateralDamagePotential::from_str("N"), Ok(CollateralDamagePotential::Nil));
    assert_eq!(CollateralDamagePotential::Low.as_str(), "L");
    assert_eq!(CollateralDamagePotential::from_str("L"), Ok(CollateralDamagePotential::Low));
    assert_eq!(CollateralDamagePotential::LowMedium.as_str(), "LM");
    assert_eq!(CollateralDamagePotential::from_str("LM"), Ok(CollateralDamagePotential::LowMedium));
    assert_eq!(CollateralDamagePotential::MediumHigh.as_str(), "MH");
    assert_eq!(
        CollateralDamagePotential::from_str("MH"),
        Ok(CollateralDamagePotential::MediumHigh)
    );
    assert_eq!(CollateralDamagePotential::High.as_str(), "H");
    assert_eq!(CollateralDamagePotential::from_str("H"), Ok(CollateralDamagePotential::High));
    assert_eq!(CollateralDamagePotential::NotDefined.as_str(), "ND");
    assert_eq!(
        CollateralDamagePotential::from_str("ND"),
        Ok(CollateralDamagePotential::NotDefined)
    );
    assert_eq!(CollateralDamagePotential::from_str(""), Err(ParseError::IncorrectValue));
    assert_eq!(CollateralDamagePotential::from_str("WRONG"), Err(ParseError::IncorrectValue));
    assert_eq!(CollateralDamagePotential::from_str("X"), Err(ParseError::IncorrectValue));
    assert_eq!(CollateralDamagePotential::from_str("n"), Err(ParseError::IncorrectValue));
    assert_eq!(CollateralDamagePotential::from_str("N "), Err(ParseError::IncorrectValue));
    assert_eq!(CollateralDamagePotential::from_str(" N"), Err(ParseError::IncorrectValue));
    assert_eq!(CollateralDamagePotential::from_str("NN"), Err(ParseError::IncorrectValue));
}

#[test]
fn v2_collateral_damage_potential_weights() {
    assert_eq!(CollateralDamagePotential::Nil.num_value(), 0);
    assert_eq!(CollateralDamagePotential::Low.num_value(), 100);
    assert_eq!(CollateralDamagePotential::LowMedium.num_value(), 300);
    assert_eq!(CollateralDamagePotential::MediumHigh.num_value(), 400);
    assert_eq!(CollateralDamagePotential::High.num_value(), 500);
    assert_eq!(CollateralDamagePotential::NotDefined.num_value(), 0);
}

#[test]
fn v2_collateral_damage_potential_undefined() {
    assert!(!CollateralDamagePotential::Nil.is_undefined());
    assert!(!CollateralDamagePotential::Low.is_undefined());
    assert!(!CollateralDamagePotential::LowMedium.is_undefined());
    assert!(!CollateralDamagePotential::MediumHigh.is_undefined());
    assert!(!CollateralDamagePotential::High.is_undefined());
    assert!(CollateralDamagePotential::NotDefined.is_undefined());
}

#[test]
fn v2_target_distribution_codes() {
    assert_eq!(TargetDistribution::Nil.as_str(), "N");
    assert_eq!(TargetDistribution::from_str("N"), Ok(TargetDistribution::Nil));
    assert_eq!(TargetDistribution::Low.as_str(), "L");
    assert_eq!(TargetDistribution::from_str("L"), Ok(TargetDistribution::Low));
    assert_eq!(TargetDistribution::Medium.as_str(), "M");
    assert_eq!(TargetDistribution::from_str("M"), Ok(TargetDistribution::Medium));
    assert_eq!(TargetDistribution::High.as_str(), "H");
    assert_eq!(TargetDistribution::from_str("H"), Ok(TargetDistribution::High));
    assert_eq!(TargetDistribution::NotDefined.as_str(), "ND");
    assert_eq!(TargetDistribution::from_str("ND"), Ok(TargetDistribution::NotDefined));
    assert_eq!(TargetDistribution::from_str(""), Err(ParseError::IncorrectValue));
    assert_eq!(TargetDistribution::from_str("WRONG"), Err(ParseError::IncorrectValue));
    assert_eq!(TargetDistribution::from_str("X"), Err(ParseError::IncorrectValue));
    assert_eq!(TargetDistribution::from_str("n"), Err(ParseError::IncorrectValue));
    assert_eq!(TargetDistribution::from_str("N "), Err(ParseError::IncorrectValue));
    assert_eq!(TargetDistribution::from_str(" N"), Err(ParseError::IncorrectValue));
    assert_eq!(TargetDistribution::from_str("NN"), Err(ParseError::IncorrectValue));
}

#[test]
fn v2_target_distribution_weights() {
    assert_eq!(TargetDistribution::Nil.num_value(), 0);
    assert_eq!(TargetDistribution::Low.num_value(), 250);
    assert_eq!(TargetDistribution::Medium.num_value(), 750);
    assert_eq!(TargetDistribution::High.num_value(), 1000);
    assert_eq!(TargetDistribution::NotDefined.num_value(), 1000);
}

#[test]
fn v2_target_distribution_undefined() {
    assert!(!TargetDistribution::Nil.is_undefined());
    assert!(!TargetDistribution::Low.is_undefined());
    assert!(!TargetDistribution::Medium.is_undefined());
    assert!(!TargetDistribution::High.is_undefined());
    assert!(TargetDistribution::NotDefined.is_undefined());
}

#[test]
fn v2_confidentiality_requirement_codes() {
    assert_eq!(ConfidentialityRequirement::NotDefined.as_str(), "ND");
    assert_eq!(
        ConfidentialityRequirement::from_str("ND"),
        Ok(ConfidentialityRequirement::NotDefined)
    );
    assert_eq!(ConfidentialityRequirement::High.as_str(), "H");
    assert_eq!(ConfidentialityRequirement::from_str("H"), Ok(ConfidentialityRequirement::High));
    assert_eq!(ConfidentialityRequirement::Medium.as_str(), "M");
    assert_eq!(ConfidentialityRequirement::from_str("M"), Ok(ConfidentialityRequirement::Medium));
    assert_eq!(ConfidentialityRequirement::Low.as_str(), "L");
    assert_eq!(ConfidentialityRequirement::from_str("L"), Ok(ConfidentialityRequirement::Low));
    assert_eq!(ConfidentialityRequirement::from_str(""), Err(ParseError::IncorrectValue));
    assert_eq!(ConfidentialityRequirement::from_str("WRONG"), Err(ParseError::IncorrectValue));
    assert_eq!(ConfidentialityRequirement::from_str("X"), Err(ParseError::IncorrectValue));
    assert_eq!(ConfidentialityRequirement::from_str("nd"), Err(ParseError::IncorrectValue));
    assert_eq!(ConfidentialityRequirement::from_str("ND "), Err(ParseError::IncorrectValue));
    assert_eq!(ConfidentialityRequirement::from_str(" ND"), Err(ParseError::IncorrectValue));
    assert_eq!(ConfidentialityRequirement::from_str("NDND"), Err(ParseError::IncorrectValue));
}

#[test]
fn v2_confidentiality_requirement_weights() {
    assert_eq!(ConfidentialityRequirement::NotDefined.num_value(), 1000);
    assert_eq!(ConfidentialityRequirement::High.num_value(), 1510);
    assert_eq!(ConfidentialityRequirement::Medium.num_value(), 1000);
    assert_eq!(ConfidentialityRequirement::Low.num_value(), 500);
}

#[test]
fn v2_confidentiality_requirement_undefined() {
    assert!(ConfidentialityRequirement::NotDefined.is_undefined());
    assert!(!ConfidentialityRequirement::High.is_undefined());
    assert!(!ConfidentialityRequirement::Medium.is_undefined());
    assert!(!ConfidentialityRequirement::Low.is_undefined());
}

#[test]
fn v2_integrity_requirement_codes() {
    assert_eq!(IntegrityRequirement::NotDefined.as_str(), "ND");
    assert_eq!(IntegrityRequirement::from_str("ND"), Ok(IntegrityRequirement::NotDefined));
    assert_eq!(IntegrityRequirement::High.as_str(), "H");
    assert_eq!(IntegrityRequirement::from_str("H"), Ok(IntegrityRequirement::High));
    assert_eq!(IntegrityRequirement::Medium.as_str(), "M");
    assert_eq!(IntegrityRequirement::from_str("M"), Ok(IntegrityRequirement::Medium));
    assert_eq!(IntegrityRequirement::Low.as_str(), "L");
    assert_eq!(IntegrityRequirement::from_str("L"), Ok(IntegrityRequirement::Low));
    assert_eq!(IntegrityRequirement::from_str(""), Err(ParseError::IncorrectValue));
    assert_eq!(IntegrityRequirement::from_str("WRONG"), Err(ParseError::IncorrectValue));
    assert_eq!(IntegrityRequirement::from_str("X"), Err(ParseError::IncorrectValue));
    assert_eq!(IntegrityRequirement::from_str("nd"), Err(ParseError::IncorrectValue));
    assert_eq!(IntegrityRequirement::from_str("ND "), Err(ParseError::IncorrectValue));
    assert_eq!(IntegrityRequirement::from_str(" ND"), Err(ParseError::IncorrectValue));
    assert_eq!(IntegrityRequirement::from_str("NDND"), Err(ParseError::IncorrectValue));
}

#[test]
fn v2_integrity_requirement_weights() {
    assert_eq!(IntegrityRequirement::NotDefined.num_value(), 1000);
    assert_eq!(IntegrityRequirement::High.num_value(), 1510);
    assert_eq!(IntegrityRequirement::Medium.num_value(), 1000);
    assert_eq!(IntegrityRequirement::Low.num_value(), 500);
}

#[test]
fn v2_integrity_requirement_undefined() {
    assert!(IntegrityRequirement::NotDefined.is_undefined());
    assert!(!IntegrityRequirement::High.is_undefined());
    assert!(!IntegrityRequirement::Medium.is_undefined());
    assert!(!IntegrityRequirement::Low.is_undefined());
}

#[test]
fn v2_availability_requirement_codes() {
    assert_eq!(AvailabilityRequirement::NotDefined.as_str(), "ND");
    assert_eq!(AvailabilityRequirement::from_str("ND"), Ok(AvailabilityRequirement::NotDefined));
    assert_eq!(AvailabilityRequirement::High.as_str(), "H");
    assert_eq!(AvailabilityRequirement::from_str("H"), Ok(AvailabilityRequirement::High));
    assert_eq!(AvailabilityRequirement::Medium.as_str(), "M");
    assert_eq!(AvailabilityRequirement::from_str("M"), Ok(AvailabilityRequirement::Medium));
    assert_eq!(AvailabilityRequirement::Low.as_str(), "L");
    assert_eq!(AvailabilityRequirement::from_str("L"), Ok(AvailabilityRequirement::Low));
    assert_eq!(AvailabilityRequirement::from_str(""), Err(ParseError::IncorrectValue));
    assert_eq!(AvailabilityRequirement::from_str("WRONG"), Err(ParseError::IncorrectValue));
    assert_eq!(AvailabilityRequirement::from_str("X"), Err(ParseError::IncorrectValue));
    assert_eq!(AvailabilityRequirement::from_str("nd"), Err(ParseError::IncorrectValue));
    assert_eq!(AvailabilityRequirement::from_str("ND "), Err(ParseError::IncorrectValue));
    assert_eq!(AvailabilityRequirement::from_str(" ND"), Err(ParseError::IncorrectValue));
    assert_eq!(AvailabilityRequirement::from_str("NDND"), Err(ParseError::IncorrectValue));
}

#[test]
fn v2_availability_requirement_weights() {
    assert_eq!(AvailabilityRequirement::NotDefined.num_value(), 1000);
    assert_eq!(AvailabilityRequirement::High.num_value(), 1510);
    assert_eq!(AvailabilityRequirement::Medium.num_value(), 1000);
    assert_eq!(AvailabilityRequirement::Low.num_value(), 500);
}

#[test]
fn v2_availability_requirement_undefined() {
    assert!(AvailabilityRequirement::NotDefined.is_undefined());
    assert!(!AvailabilityRequirement::High.is_undefined());
    assert!(!AvailabilityRequirement::Medium.is_undefined());
    assert!(!AvailabilityRequirement::Low.is_undefined());
}
