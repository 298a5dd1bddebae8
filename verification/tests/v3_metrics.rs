use cvssrust::v3::base::{
    AttackComplexity, AttackVector, Availability, Confidentiality, Integrity, PrivilegesRequired,
    Scope, UserInteraction,
};
use cvssrust::v3::temporal::{ExploitCodeMaturity, RemediationLevel, ReportConfidence};
use cvssrust::v3::env::{
    AvailabilityRequirement, ConfidentialityRequirement, IntegrityRequirement,
    ModifiedAttackComplexity, ModifiedAttackVector, ModifiedAvailability, ModifiedConfidentiality,
    ModifiedIntegrity, ModifiedPrivilegesRequired, ModifiedScope, ModifiedUserInteraction,
};
use cvssrust::{AsStr, NumValue, Optional, ParseError};

#[test]
fn v3_attack_vector_codes() {
    assert_eq!(AttackVector::Network.as_str(), "N");
    assert_eq!(AttackVector::from_str("N"), Ok(AttackVector::Network));
    assert_eq!(AttackVector::Adjacent.as_str(), "A");
    assert_eq!(AttackVector::from_str("A"), Ok(AttackVector::Adjacent));
    assert_eq!(AttackVector::Local.as_str(), "L");
    assert_eq!(AttackVector::from_str("L"), Ok(AttackVector::Local));
    assert_eq!(AttackVector::Physical.as_str(), "P");
    assert_eq!(AttackVector::from_str("P"), Ok(AttackVector::Physical));
    assert_eq!(AttackVector::from_str(""), Err(ParseError::IncorrectValue));
    assert_eq!(AttackVector::from_str("WRONG"), Err(ParseError::IncorrectValue));
    assert_eq!(AttackVector::from_str("ND"), Err(ParseError::IncorrectValue));
    assert_eq!(AttackVector::from_str("n"), Err(ParseError::IncorrectValue));
    assert_eq!(AttackVector::from_str("N "), Err(ParseError::IncorrectValue));
    assert_eq!(AttackVector::from_str(" N"), Err(ParseError::IncorrectValue));
    assert_eq!(AttackVector::from_str("NN"), Err(ParseError::IncorrectValue));
}

#[test]
fn v3_attack_vector_weights() {
    assert_eq!(AttackVector::Network.num_value(), 850);
    assert_eq!(AttackVector::Adjacent.num_value(), 620);
    assert_eq!(AttackVector::Local.num_value(), 550);
    assert_eq!(AttackVector::Physical.num_value(), 200);
}

#[test]
fn v3_attack_complexity_codes() {
    assert_eq!(AttackComplexity::Low.as_str(), "L");
    assert_eq!(AttackComplexity::from_str("L"), Ok(AttackComplexity::Low));
    assert_eq!(AttackComplexity::High.as_str(), "H");
    assert_eq!(AttackComplexity::from_str("H"), Ok(AttackComplexity::High));
    assert_eq!(AttackComplexity::from_str(""), Err(ParseError::IncorrectValue));
    assert_eq!(AttackComplexity::from_str("WRONG"), Err(ParseError::IncorrectValue));
    assert_eq!(AttackComplexity::from_str("ND"), Err(ParseError::IncorrectValue));
    assert_eq!(AttackComplexity::from_str("l"), Err(ParseError::IncorrectValue));
    assert_eq!(AttackComplexity::from_str("L "), Err(ParseError::IncorrectValue));
    assert_eq!(AttackComplexity::from_str(" L"), Err(ParseError::IncorrectValue));
    assert_eq!(AttackComplexity::from_str("LL"), Err(ParseError::IncorrectValue));
}

#[test]
fn v3_attack_complexity_weights() {
    assert_eq!(AttackComplexity::Low.num_value(), 770);
    assert_eq!(AttackComplexity::High.num_value(), 440);
}

#[test]
fn v3_privileges_required_codes() {
    assert_eq!(PrivilegesRequired::Nil.as_str(), "N");
    assert_eq!(PrivilegesRequired::from_str("N"), Ok(PrivilegesRequired::Nil));
    assert_eq!(PrivilegesRequired::Low.as_str(), "L");
    assert_eq!(PrivilegesRequired::from_str("L"), Ok(PrivilegesRequired::Low));
    assert_eq!(PrivilegesRequired::High.as_str(), "H");
    assert_eq!(PrivilegesRequired::from_str("H"), Ok(PrivilegesRequired::High));
    assert_eq!(PrivilegesRequired::from_str(""), Err(ParseError::IncorrectValue));
    assert_eq!(PrivilegesRequired::from_str("WRONG"), Err(ParseError::IncorrectValue));
    assert_eq!(PrivilegesRequired::from_str("ND"), Err(ParseError::IncorrectValue));
    assert_eq!(PrivilegesRequired::from_str("n"), Err(ParseError::IncorrectValue));
    assert_eq!(PrivilegesRequired::from_str("N "), Err(ParseError::IncorrectValue));
    assert_eq!(PrivilegesRequired::from_str(" N"), Err(ParseError::IncorrectValue));
    assert_eq!(PrivilegesRequired::from_str("NN"), Err(ParseError::IncorrectValue));
}

#[test]
fn v3_privileges_required_weights() {
    assert_eq!(PrivilegesRequired::Nil.num_value(), 850);
    assert_eq!(PrivilegesRequired::Nil.num_value_scoped(false), 850);
    assert_eq!(PrivilegesRequired::Nil.num_value_scoped(true), 850);
    assert_eq!(PrivilegesRequired::Low.num_value(), 620);
    assert_eq!(PrivilegesRequired::Low.num_value_scoped(false), 620);
    assert_eq!(PrivilegesRequired::Low.num_value_scoped(true), 680);
    assert_eq!(PrivilegesRequired::High.num_value(), 270);
    assert_eq!(PrivilegesRequired::High.num_value_scoped(false), 270);
    assert_eq!(PrivilegesRequired::High.num_value_scoped(true), 500);
}

#[test]
fn v3_user_interaction_codes() {
    assert_eq!(UserInteraction::Nil.as_str(), "N");
    assert_eq!(UserInteraction::from_str("N"), Ok(UserInteraction::Nil));
    assert_eq!(UserInteraction::Required.as_str(), "R");
    assert_eq!(UserInteraction::from_str("R"), Ok(UserInteraction::Required));
    assert_eq!(UserInteraction::from_str(""), Err(ParseError::IncorrectValue));
    assert_eq!(UserInteraction::from_str("WRONG"), Err(ParseError::IncorrectValue));
    assert_eq!(UserInteraction::from_str("ND"), Err(ParseError::IncorrectValue));
    assert_eq!(UserInteraction::from_str("n"), Err(ParseError::IncorrectValue));
    assert_eq!(UserInteraction::from_str("N "), Err(ParseError::IncorrectValue));
    assert_eq!(UserInteraction::from_str(" N"), Err(ParseError::IncorrectValue));
    assert_eq!(UserInteraction::from_str("NN"), Err(ParseError::IncorrectValue));
}

#[test]
fn v3_user_interaction_weights() {
    assert_eq!(UserInteraction::Nil.num_value(), 850);
    assert_eq!(UserInteraction::Required.num_value(), 620);
}

#[test]
fn v3_scope_codes() {
    assert_eq!(Scope::Unchanged.as_str(), "U");
    assert_eq!(Scope::from_str("U"), Ok(Scope::Unchanged));
    assert_eq!(Scope::Changed.as_str(), "C");
    assert_eq!(Scope::from_str("C"), Ok(Scope::Changed));
    assert_eq!(Scope::from_str(""), Err(ParseError::IncorrectValue));
    assert_eq!(Scope::from_str("WRONG"), Err(ParseError::IncorrectValue));
    assert_eq!(Scope::from_str("ND"), Err(ParseError::IncorrectValue));
    assert_eq!(Scope::from_str("u"), Err(ParseError::IncorrectValue));
    assert_eq!(Scope::from_str("U "), Err(ParseError::IncorrectValue));
    assert_eq!(Scope::from_str(" U"), Err(ParseError::IncorrectValue));
    assert_eq!(Scope::from_str("UU"), Err(ParseError::IncorrectValue));
}

#[test]
fn v3_confidentiality_codes() {
    assert_eq!(Confidentiality::High.as_str(), "H");
    assert_eq!(Confidentiality::from_str("H"), Ok(Confidentiality::High));
    assert_eq!(Confidentiality::Low.as_str(), "L");
    assert_eq!(Confidentiality::from_str("L"), Ok(Confidentiality::Low));
    assert_eq!(Confidentiality::Nil.as_str(), "N");
    assert_eq!(Confidentiality::from_str("N"), Ok(Confidentiality::Nil));
    assert_eq!(Confidentiality::from_str(""), Err(ParseError::IncorrectValue));
    assert_eq!(Confidentiality::from_str("WRONG"), Err(ParseError::IncorrectValue));
    assert_eq!(Confidentiality::from_str("ND"), Err(ParseError::IncorrectValue));
    assert_eq!(Confidentiality::from_str("h"), Err(ParseError::IncorrectValue));
    assert_eq!(Confidentiality::from_str("H "), Err(ParseError::IncorrectValue));
    assert_eq!(Confidentiality::from_str(" H"), Err(ParseError::IncorrectValue));
    assert_eq!(Confidentiality::from_str("HH"), Err(ParseError::IncorrectValue));
}

#[test]
fn v3_confidentiality_weights() {
    assert_eq!(Confidentiality::High.num_value(), 560);
    assert_eq!(Confidentiality::Low.num_value(), 220);
    assert_eq!(Confidentiality::Nil.num_value(), 0);
}

#[test]
fn v3_integrity_codes() {
    assert_eq!(Integrity::High.as_str(), "H");
    assert_eq!(Integrity::from_str("H"), Ok(Integrity::High));
    assert_eq!(Integrity::Low.as_str(), "L");
    assert_eq!(Integrity::from_str("L"), Ok(Integrity::Low));
    assert_eq!(Integrity::Nil.as_str(), "N");
    assert_eq!(Integrity::from_str("N"), Ok(Integrity::Nil));
    assert_eq!(Integrity::from_str(""), Err(ParseError::IncorrectValue));
    assert_eq!(Integrity::from_str("WRONG"), Err(ParseError::IncorrectValue));
    assert_eq!(Integrity::from_str("ND"), Err(ParseError::IncorrectValue));
    assert_eq!(Integrity::from_str("h"), Err(ParseError::IncorrectValue));
    assert_eq!(Integrity::from_str("H "), Err(ParseError::IncorrectValue));
    assert_eq!(Integrity::from_str(" H"), Err(ParseError::IncorrectValue));
    assert_eq!(Integrity::from_str("HH"), Err(ParseError::IncorrectValue));
}

#[test]
fn v3_integrity_weights() {
    assert_eq!(Integrity::High.num_value(), 560);
    assert_eq!(Integrity::Low.num_value(), 220);
    assert_eq!(Integrity::Nil.num_value(), 0);
}

#[test]
fn v3_availability_codes() {
    assert_eq!(Availability::High.as_str(), "H");
    assert_eq!(Availability::from_str("H"), Ok(Availability::High));
    assert_eq!(Availability::Low.as_str(), "L");
    assert_eq!(Availability::from_str("L"), Ok(Availability::Low));
    assert_eq!(Availability::Nil.as_str(), "N");
    assert_eq!(Availability::from_str("N"), Ok(Availability::Nil));
    assert_eq!(Availability::from_str(""), Err(ParseError::IncorrectValue));
    assert_eq!(Availability::from_str("WRONG"), Err(ParseError::IncorrectValue));
    assert_eq!(Availability::from_str("ND"), Err(ParseError::IncorrectValue));
    assert_eq!(Availability::from_str("h"), Err(ParseError::IncorrectValue));
    assert_eq!(Availability::from_str("H "), Err(ParseError::IncorrectValue));
    assert_eq!(Availability::from_str(" H"), Err(ParseError::IncorrectValue));
    assert_eq!(Availability::from_str("HH"), Err(ParseError::IncorrectValue));
}

#[test]
fn v3_availability_weights() {
    assert_eq!(Availability::High.num_value(), 560);
    assert_eq!(Availability::Low.num_value(), 220);
    assert_eq!(Availability::Nil.num_value(), 0);
}

#[test]
fn v3_exploit_code_maturity_codes() {
    assert_eq!(ExploitCodeMaturity::NotDefined.as_str(), "X");
    assert_eq!(ExploitCodeMaturity::from_str("X"), Ok(ExploitCodeMaturity::NotDefined));
    assert_eq!(ExploitCodeMaturity::High.as_str(), "H");
    assert_eq!(ExploitCodeMaturity::from_str("H"), Ok(ExploitCodeMaturity::High));
    assert_eq!(ExploitCodeMaturity::Functional.as_str(), "F");
    assert_eq!(ExploitCodeMaturity::from_str("F"), Ok(ExploitCodeMaturity::Functional));
    assert_eq!(ExploitCodeMaturity::ProofOfConcept.as_str(), "P");
    assert_eq!(ExploitCodeMaturity::from_str("P"), Ok(ExploitCodeMaturity::ProofOfConcept));
    assert_eq!(ExploitCodeMaturity::Unproven.as_str(), "U");
    assert_eq!(ExploitCodeMaturity::from_str("U"), Ok(ExploitCodeMaturity::Unproven));
    assert_eq!(ExploitCodeMaturity::from_str(""), Err(ParseError::IncorrectValue));
    assert_eq!(ExploitCodeMaturity::from_str("WRONG"), Err(ParseError::IncorrectValue));
    assert_eq!(ExploitCodeMaturity::from_str("ND"), Err(ParseError::IncorrectValue));
    assert_eq!(ExploitCodeMaturity::from_str("x"), Err(ParseError::IncorrectValue));
    assert_eq!(ExploitCodeMaturity::from_str("X "), Err(ParseError::IncorrectValue));
    assert_eq!(ExploitCodeMaturity::from_str(" X"), Err(ParseError::IncorrectValue));
    assert_eq!(ExploitCodeMaturity::from_str("XX"), Err(ParseError::IncorrectValue));
}

#[test]
fn v3_exploit_code_maturity_weights() {
    assert_eq!(ExploitCodeMaturity::NotDefined.num_value(), 1000);
    assert_eq!(ExploitCodeMaturity::High.num_value(), 1000);
    assert_eq!(ExploitCodeMaturity::Functional.num_value(), 970);
    assert_eq!(ExploitCodeMaturity::ProofOfConcept.num_value(), 940);
    assert_eq!(ExploitCodeMaturity::Unproven.num_value(), 910);
}

#[test]
fn v3_exploit_code_maturity_undefined() {
    assert!(ExploitCodeMaturity::NotDefined.is_undefined());
    assert!(!ExploitCodeMaturity::High.is_undefined());
    assert!(!ExploitCodeMaturity::Functional.is_undefined());
    assert!(!ExploitCodeMaturity::ProofOfConcept.is_undefined());
    assert!(!ExploitCodeMaturity::Unproven.is_undefined());
}

#[test]
fn v3_remediation_level_codes() {
    assert_eq!(RemediationLevel::NotDefined.as_str(), "X");
    assert_eq!(RemediationLevel::from_str("X"), Ok(RemediationLevel::NotDefined));
    assert_eq!(RemediationLevel::Unavailable.as_str(), "U");
    assert_eq!(RemediationLevel::from_str("U"), Ok(RemediationLevel::Unavailable));
    assert_eq!(RemediationLevel::Workaround.as_str(), "W");
    assert_eq!(RemediationLevel::from_str("W"), Ok(RemediationLevel::Workaround));
    assert_eq!(RemediationLevel::TemporaryFix.as_str(), "T");
    assert_eq!(RemediationLevel::from_str("T"), Ok(RemediationLevel::TemporaryFix));
    assert_eq!(RemediationLevel::OfficialFix.as_str(), "O");
    assert_eq!(RemediationLevel::from_str("O"), Ok(RemediationLevel::OfficialFix));
    assert_eq!(RemediationLevel::from_str(""), Err(ParseError::IncorrectValue));
    assert_eq!(RemediationLevel::from_str("WRONG"), Err(ParseError::IncorrectValue));
    assert_eq!(RemediationLevel::from_str("ND"), Err(ParseError::IncorrectValue));
    assert_eq!(RemediationLevel::from_str("x"), Err(ParseError::IncorrectValue));
    assert_eq!(RemediationLevel::from_str("X "), Err(ParseError::IncorrectValue));
    assert_eq!(RemediationLevel::from_str(" X"), Err(ParseError::IncorrectValue));
    assert_eq!(RemediationLevel::from_str("XX"), Err(ParseError::IncorrectValue));
}

#[test]
fn v3_remediation_level_weights() {
    assert_eq!(RemediationLevel::NotDefined.num_value(), 1000);
    assert_eq!(RemediationLevel::Unavailable.num_value(), 1000);
    assert_eq!(RemediationLevel::Workaround.num_value(), 970);
    assert_eq!(RemediationLevel::TemporaryFix.num_value(), 960);
    assert_eq!(RemediationLevel::OfficialFix.num_value(), 950);
}

#[test]
fn v3_remediation_level_undefined() {
    assert!(RemediationLevel::NotDefined.is_undefined());
    assert!(!RemediationLevel::Unavailable.is_undefined());
    assert!(!RemediationLevel::Workaround.is_undefined());
    assert!(!RemediationLevel::TemporaryFix.is_undefined());
    assert!(!RemediationLevel::OfficialFix.is_undefined());
}

#[test]
fn v3_report_confidence_codes() {
    assert_eq!(ReportConfidence::NotDefined.as_str(), "X");
    assert_eq!(ReportConfidence::from_str("X"), Ok(ReportConfidence::NotDefined));
    assert_eq!(ReportConfidence::Confirmed.as_str(), "C");
    assert_eq!(ReportConfidence::from_str("C"), Ok(ReportConfidence::Confirmed));
    assert_eq!(ReportConfidence::Reasonable.as_str(), "R");
    assert_eq!(ReportConfidence::from_str("R"), Ok(ReportConfidence::Reasonable));
    assert_eq!(ReportConfidence::Unknown.as_str(), "U");
    assert_eq!(ReportConfidence::from_str("U"), Ok(ReportConfidence::Unknown));
    assert_eq!(ReportConfidence::from_str(""), Err(ParseError::IncorrectValue));
    assert_eq!(ReportConfidence::from_str("WRONG"), Err(ParseError::IncorrectValue));
    assert_eq!(ReportConfidence::from_str("ND"), Err(ParseError::IncorrectValue));
    assert_eq!(ReportConfidence::from_str("x"), Err(ParseError::IncorrectValue));
    assert_eq!(ReportConfidence::from_str("X "), Err(ParseError::IncorrectValue));
    assert_eq!(ReportConfidence::from_str(" X"), Err(ParseError::IncorrectValue));
    assert_eq!(ReportConfidence::from_str("XX"), Err(ParseError::IncorrectValue));
}

#[test]
fn v3_report_confidence_weights() {
    assert_eq!(ReportConfidence::NotDefined.num_value(), 1000);
    assert_eq!(ReportConfidence::Confirmed.num_value(), 1000);
    assert_eq!(ReportConfidence::Reasonable.num_value(), 960);
    assert_eq!(ReportConfidence::Unknown.num_value(), 920);
}

#[test]
fn v3_report_confidence_undefined() {
    assert!(ReportConfidence::NotDefined.is_undefined());
    assert!(!ReportConfidence::Confirmed.is_undefined());
    assert!(!ReportConfidence::Reasonable.is_undefined());
    assert!(!ReportConfidence::Unknown.is_undefined());
}

#[test]
fn v3_confidentiality_requirement_codes() {
    assert_eq!(ConfidentialityRequirement::NotDefined.as_str(), "X");
    assert_eq!(
        ConfidentialityRequirement::from_str("X"),
        Ok(ConfidentialityRequirement::NotDefined)
    );
    assert_eq!(ConfidentialityRequirement::High.as_str(), "H");
    assert_eq!(ConfidentialityRequirement::from_str("H"), Ok(ConfidentialityRequirement::High));
    assert_eq!(ConfidentialityRequirement::Medium.as_str(), "M");
    assert_eq!(ConfidentialityRequirement::from_str("M"), Ok(ConfidentialityRequirement::Medium));
    assert_eq!(ConfidentialityRequirement::Low.as_str(), "L");
    assert_eq!(ConfidentialityRequirement::from_str("L"), Ok(ConfidentialityRequirement::Low));
    assert_eq!(ConfidentialityRequirement::from_str(""), Err(ParseError::IncorrectValue));
    assert_eq!(ConfidentialityRequirement::from_str("WRONG"), Err(ParseError::IncorrectValue));
    assert_eq!(ConfidentialityRequirement::from_str("ND"), Err(ParseError::IncorrectValue));
    assert_eq!(ConfidentialityRequirement::from_str("x"), Err(ParseError::IncorrectValue));
    assert_eq!(ConfidentialityRequirement::from_str("X "), Err(ParseError::IncorrectValue));
    assert_eq!(ConfidentialityRequirement::from_str(" X"), Err(ParseError::IncorrectValue));
    assert_eq!(ConfidentialityRequirement::from_str("XX"), Err(ParseError::IncorrectValue));
}

#[test]
fn v3_confidentiality_requirement_weights() {
    assert_eq!(ConfidentialityRequirement::NotDefined.num_value(), 1000);
    assert_eq!(ConfidentialityRequirement::High.num_value(), 1500);
    assert_eq!(ConfidentialityRequirement::Medium.num_value(), 1000);
    assert_eq!(ConfidentialityRequirement::Low.num_value(), 500);
}

#[test]
fn v3_confidentiality_requirement_undefined() {
    assert!(ConfidentialityRequirement::NotDefined.is_undefined());
    assert!(!ConfidentialityRequirement::High.is_undefined());
    assert!(!ConfidentialityRequirement::Medium.is_undefined());
    assert!(!ConfidentialityRequirement::Low.is_undefined());
}

#[test]
fn v3_integrity_requirement_codes() {
    assert_eq!(IntegrityRequirement::NotDefined.as_str(), "X");
    assert_eq!(IntegrityRequirement::from_str("X"), Ok(IntegrityRequirement::NotDefined));
    assert_eq!(IntegrityRequirement::High.as_str(), "H");
    assert_eq!(IntegrityRequirement::from_str("H"), Ok(IntegrityRequirement::High));
    assert_eq!(IntegrityRequirement::Medium.as_str(), "M");
    assert_eq!(IntegrityRequirement::from_str("M"), Ok(IntegrityRequirement::Medium));
    assert_eq!(IntegrityRequirement::Low.as_str(), "L");
    assert_eq!(IntegrityRequirement::from_str("L"), Ok(IntegrityRequirement::Low));
    assert_eq!(IntegrityRequirement::from_str(""), Err(ParseError::IncorrectValue));
    assert_eq!(IntegrityRequirement::from_str("WRONG"), Err(ParseError::IncorrectValue));
    assert_eq!(IntegrityRequirement::from_str("ND"), Err(ParseError::IncorrectValue));
    assert_eq!(IntegrityRequirement::from_str("x"), Err(ParseError::IncorrectValue));
    assert_eq!(IntegrityRequirement::from_str("X "), Err(ParseError::IncorrectValue));
    assert_eq!(IntegrityRequirement::from_str(" X"), Err(ParseError::IncorrectValue));
    assert_eq!(IntegrityRequirement::from_str("XX"), Err(ParseError::IncorrectValue));
}

#[test]
fn v3_integrity_requirement_weights() {
    assert_eq!(IntegrityRequirement::NotDefined.num_value(), 1000);
    assert_eq!(IntegrityRequirement::High.num_value(), 1500);
    assert_eq!(IntegrityRequirement::Medium.num_value(), 1000);
    assert_eq!(IntegrityRequirement::Low.num_value(), 500);
}

#[test]
fn v3_integrity_requirement_undefined() {
    assert!(IntegrityRequirement::NotDefined.is_undefined());
    assert!(!IntegrityRequirement::High.is_undefined());
    assert!(!IntegrityRequirement::Medium.is_undefined());
    assert!(!IntegrityRequirement::Low.is_undefined());
}

#[test]
fn v3_availability_requirement_codes() {
    assert_eq!(AvailabilityRequirement::NotDefined.as_str(), "X");
    assert_eq!(AvailabilityRequirement::from_str("X"), Ok(AvailabilityRequirement::NotDefined));
    assert_eq!(AvailabilityRequirement::High.as_str(), "H");
    assert_eq!(AvailabilityRequirement::from_str("H"), Ok(AvailabilityRequirement::High));
    assert_eq!(AvailabilityRequirement::Medium.as_str(), "M");
    assert_eq!(AvailabilityRequirement::from_str("M"), Ok(AvailabilityRequirement::Medium));
    assert_eq!(AvailabilityRequirement::Low.as_str(), "L");
    assert_eq!(AvailabilityRequirement::from_str("L"), Ok(AvailabilityRequirement::Low));
    assert_eq!(AvailabilityRequirement::from_str(""), Err(ParseError::IncorrectValue));
    assert_eq!(AvailabilityRequirement::from_str("WRONG"), Err(ParseError::IncorrectValue));
    assert_eq!(AvailabilityRequirement::from_str("ND"), Err(ParseError::IncorrectValue));
    assert_eq!(AvailabilityRequirement::from_str("x"), Err(ParseError::IncorrectValue));
    assert_eq!(AvailabilityRequirement::from_str("X "), Err(ParseError::IncorrectValue));
    assert_eq!(AvailabilityRequirement::from_str(" X"), Err(ParseError::IncorrectValue));
    assert_eq!(AvailabilityRequirement::from_str("XX"), Err(ParseError::IncorrectValue));
}

#[test]
fn v3_availability_requirement_weights() {
    assert_eq!(AvailabilityRequirement::NotDefined.num_value(), 1000);
    assert_eq!(AvailabilityRequirement::High.num_value(), 1500);
    assert_eq!(AvailabilityRequirement::Medium.num_value(), 1000);
    assert_eq!(AvailabilityRequirement::Low.num_value(), 500);
}

#[test]
fn v3_availability_requirement_undefined() {
    assert!(AvailabilityRequirement::NotDefined.is_undefined());
    assert!(!AvailabilityRequirement::High.is_undefined());
    assert!(!AvailabilityRequirement::Medium.is_undefined());
    assert!(!AvailabilityRequirement::Low.is_undefined());
}

#[test]
fn v3_modified_attack_vector_codes() {
    assert_eq!(ModifiedAttackVector::NotDefined.as_str(), "X");
    assert_eq!(ModifiedAttackVector::from_str("X"), Ok(ModifiedAttackVector::NotDefined));
    assert_eq!(ModifiedAttackVector::Network.as_str(), "N");
    assert_eq!(ModifiedAttackVector::from_str("N"), Ok(ModifiedAttackVector::Network));
    assert_eq!(ModifiedAttackVector::Adjacent.as_str(), "A");
    assert_eq!(ModifiedAttackVector::from_str("A"), Ok(ModifiedAttackVector::Adjacent));
    assert_eq!(ModifiedAttackVector::Local.as_str(), "L");
    assert_eq!(ModifiedAttackVector::from_str("L"), Ok(ModifiedAttackVector::Local));
    assert_eq!(ModifiedAttackVector::Physical.as_str(), "P");
    assert_eq!(ModifiedAttackVector::from_str("P"), Ok(ModifiedAttackVector::Physical));
    assert_eq!(ModifiedAttackVector::from_str(""), Err(ParseError::IncorrectValue));
    assert_eq!(ModifiedAttackVector::from_str("WRONG"), Err(ParseError::IncorrectValue));
    assert_eq!(ModifiedAttackVector::from_str("ND"), Err(ParseError::IncorrectValue));
    assert_eq!(ModifiedAttackVector::from_str("x"), Err(ParseError::IncorrectValue));
    assert_eq!(ModifiedAttackVector::from_str("X "), Err(ParseError::IncorrectValue));
    assert_eq!(ModifiedAttackVector::from_str(" X"), Err(ParseError::IncorrectValue));
    assert_eq!(ModifiedAttackVector::from_str("XX"), Err(ParseError::IncorrectValue));
}

#[test]
fn v3_modified_attack_vector_weights() {
    assert_eq!(ModifiedAttackVector::NotDefined.num_value(), 1000);
    assert_eq!(ModifiedAttackVector::Network.num_value(), 850);
    assert_eq!(ModifiedAttackVector::Adjacent.num_value(), 620);
    assert_eq!(ModifiedAttackVector::Local.num_value(), 550);
    assert_eq!(ModifiedAttackVector::Physical.num_value(), 200);
}

#[test]
fn v3_modified_attack_vector_undefined() {
    assert!(ModifiedAttackVector::NotDefined.is_undefined());
    assert!(!ModifiedAttackVector::Network.is_undefined());
    assert!(!ModifiedAttackVector::Adjacent.is_undefined());
    assert!(!ModifiedAttackVector::Local.is_undefined());
    assert!(!ModifiedAttackVector::Physical.is_undefined());
}

#[test]
fn v3_modified_attack_complexity_codes() {
    assert_eq!(ModifiedAttackComplexity::NotDefined.as_str(), "X");
    assert_eq!(ModifiedAttackComplexity::from_str("X"), Ok(ModifiedAttackComplexity::NotDefined));
    assert_eq!(ModifiedAttackComplexity::Low.as_str(), "L");
    assert_eq!(ModifiedAttackComplexity::from_str("L"), Ok(ModifiedAttackComplexity::Low));
    assert_eq!(ModifiedAttackComplexity::High.as_str(), "H");
    assert_eq!(ModifiedAttackComplexity::from_str("H"), Ok(ModifiedAttackComplexity::High));
    assert_eq!(ModifiedAttackComplexity::from_str(""), Err(ParseError::IncorrectValue));
    assert_eq!(ModifiedAttackComplexity::from_str("WRONG"), Err(ParseError::IncorrectValue));
    assert_eq!(ModifiedAttackComplexity::from_str("ND"), Err(ParseError::IncorrectValue));
    assert_eq!(ModifiedAttackComplexity::from_str("x"), Err(ParseError::IncorrectValue));
    assert_eq!(ModifiedAttackComplexity::from_str("X "), Err(ParseError::IncorrectValue));
    assert_eq!(ModifiedAttackComplexity::from_str(" X"), Err(ParseError::IncorrectValue));
    assert_eq!(ModifiedAttackComplexity::from_str("XX"), Err(ParseError::IncorrectValue));
}

#[test]
fn v3_modified_attack_complexity_weights() {
    assert_eq!(ModifiedAttackComplexity::NotDefined.num_value(), 1000);
    assert_eq!(ModifiedAttackComplexity::Low.num_value(), 770);
    assert_eq!(ModifiedAttackComplexity::High.num_value(), 440);
}

#[test]
fn v3_modified_attack_complexity_undefined() {
    assert!(ModifiedAttackComplexity::NotDefined.is_undefined());
    assert!(!ModifiedAttackComplexity::Low.is_undefined());
    assert!(!ModifiedAttackComplexity::High.is_undefined());
}

#[test]
fn v3_modified_privileges_required_codes() {
    assert_eq!(ModifiedPrivilegesRequired::NotDefined.as_str(), "X");
    assert_eq!(
        ModifiedPrivilegesRequired::from_str("X"),
        Ok(ModifiedPrivilegesRequired::NotDefined)
    );
    assert_eq!(ModifiedPrivilegesRequired::Nil.as_str(), "N");
    assert_eq!(ModifiedPrivilegesRequired::from_str("N"), Ok(ModifiedPrivilegesRequired::Nil));
    assert_eq!(ModifiedPrivilegesRequired::Low.as_str(), "L");
    assert_eq!(ModifiedPrivilegesRequired::from_str("L"), Ok(ModifiedPrivilegesRequired::Low));
    assert_eq!(ModifiedPrivilegesRequired::High.as_str(), "H");
    assert_eq!(ModifiedPrivilegesRequired::from_str("H"), Ok(ModifiedPrivilegesRequired::High));
    assert_eq!(ModifiedPrivilegesRequired::from_str(""), Err(ParseError::IncorrectValue));
    assert_eq!(ModifiedPrivilegesRequired::from_str("WRONG"), Err(ParseError::IncorrectValue));
    assert_eq!(ModifiedPrivilegesRequired::from_str("ND"), Err(ParseError::IncorrectValue));
    assert_eq!(ModifiedPrivilegesRequired::from_str("x"), Err(ParseError::IncorrectValue));
    assert_eq!(ModifiedPrivilegesRequired::from_str("X "), Err(ParseError::IncorrectValue));
    assert_eq!(ModifiedPrivilegesRequired::from_str(" X"), Err(ParseError::IncorrectValue));
    assert_eq!(ModifiedPrivilegesRequired::from_str("XX"), Err(ParseError::IncorrectValue));
}

#[test]
fn v3_modified_privileges_required_weights() {
    assert_eq!(ModifiedPrivilegesRequired::NotDefined.num_value(), 1000);
    assert_eq!(ModifiedPrivilegesRequired::NotDefined.num_value_scoped(false), 1000);
    assert_eq!(ModifiedPrivilegesRequired::NotDefined.num_value_scoped(true), 1000);
    assert_eq!(ModifiedPrivilegesRequired::Nil.num_value(), 850);
    assert_eq!(ModifiedPrivilegesRequired::Nil.num_value_scoped(false), 850);
    assert_eq!(ModifiedPrivilegesRequired::Nil.num_value_scoped(true), 850);
    assert_eq!(ModifiedPrivilegesRequired::Low.num_value(), 620);
    assert_eq!(ModifiedPrivilegesRequired::Low.num_value_scoped(false), 620);
    assert_eq!(ModifiedPrivilegesRequired::Low.num_value_scoped(true), 680);
    assert_eq!(ModifiedPrivilegesRequired::High.num_value(), 270);
    assert_eq!(ModifiedPrivilegesRequired::High.num_value_scoped(false), 270);
    assert_eq!(ModifiedPrivilegesRequired::High.num_value_scoped(true), 500);
}

#[test]
fn v3_modified_privileges_required_undefined() {
    assert!(ModifiedPrivilegesRequired::NotDefined.is_undefined());
    assert!(!ModifiedPrivilegesRequired::Nil.is_undefined());
    assert!(!ModifiedPrivilegesRequired::Low.is_undefined());
    assert!(!ModifiedPrivilegesRequired::High.is_undefined());
}

#[test]
fn v3_modified_user_interaction_codes() {
    assert_eq!(ModifiedUserInteraction::NotDefined.as_str(), "X");
    assert_eq!(ModifiedUserInteraction::from_str("X"), Ok(ModifiedUserInteraction::NotDefined));
    assert_eq!(ModifiedUserInteraction::Nil.as_str(), "N");
    assert_eq!(ModifiedUserInteraction::from_str("N"), Ok(ModifiedUserInteraction::Nil));
    assert_eq!(ModifiedUserInteraction::Required.as_str(), "R");
    assert_eq!(ModifiedUserInteraction::from_str("R"), Ok(ModifiedUserInteraction::Required));
    assert_eq!(ModifiedUserInteraction::from_str(""), Err(ParseError::IncorrectValue));
    assert_eq!(ModifiedUserInteraction::from_str("WRONG"), Err(ParseError::IncorrectValue));
    assert_eq!(ModifiedUserInteraction::from_str("ND"), Err(ParseError::IncorrectValue));
    assert_eq!(ModifiedUserInteraction::from_str("x"), Err(ParseError::IncorrectValue));
    assert_eq!(ModifiedUserInteraction::from_str("X "), Err(ParseError::IncorrectValue));
    assert_eq!(ModifiedUserInteraction::from_str(" X"), Err(ParseError::IncorrectValue));
    assert_eq!(ModifiedUserInteraction::from_str("XX"), Err(ParseError::IncorrectValue));
}

#[test]
fn v3_modified_user_interaction_weights() {
    assert_eq!(ModifiedUserInteraction::NotDefined.num_value(), 1000);
    assert_eq!(ModifiedUserInteraction::Nil.num_value(), 850);
    assert_eq!(ModifiedUserInteraction::Required.num_value(), 620);
}

#[test]
fn v3_modified_user_interaction_undefined() {
    assert!(ModifiedUserInteraction::NotDefined.is_undefined());
    assert!(!ModifiedUserInteraction::Nil.is_undefined());
    assert!(!ModifiedUserInteraction::Required.is_undefined());
}

#[test]
fn v3_modified_scope_codes() {
    assert_eq!(ModifiedScope::NotDefined.as_str(), "X");
    assert_eq!(ModifiedScope::from_str("X"), Ok(ModifiedScope::NotDefined));
    assert_eq!(ModifiedScope::Unchanged.as_str(), "U");
    assert_eq!(ModifiedScope::from_str("U"), Ok(ModifiedScope::Unchanged));
    assert_eq!(ModifiedScope::Changed.as_str(), "C");
    assert_eq!(ModifiedScope::from_str("C"), Ok(ModifiedScope::Changed));
    assert_eq!(ModifiedScope::from_str(""), Err(ParseError::IncorrectValue));
    assert_eq!(ModifiedScope::from_str("WRONG"), Err(ParseError::IncorrectValue));
    assert_eq!(ModifiedScope::from_str("ND"), Err(ParseError::IncorrectValue));
    assert_eq!(ModifiedScope::from_str("x"), Err(ParseError::IncorrectValue));
    assert_eq!(ModifiedScope::from_str("X "), Err(ParseError::IncorrectValue));
    assert_eq!(ModifiedScope::from_str(" X"), Err(ParseError::IncorrectValue));
    assert_eq!(ModifiedScope::from_str("XX"), Err(ParseError::IncorrectValue));
}

#[test]
fn v3_modified_scope_undefined() {
    assert!(ModifiedScope::NotDefined.is_undefined());
    assert!(!ModifiedScope::Unchanged.is_undefined());
    assert!(!ModifiedScope::Changed.is_undefined());
}

#[test]
fn v3_modified_confidentiality_codes() {
    assert_eq!(ModifiedConfidentiality::NotDefined.as_str(), "X");
    assert_eq!(ModifiedConfidentiality::from_str("X"), Ok(ModifiedConfidentiality::NotDefined));
    assert_eq!(ModifiedConfidentiality::Nil.as_str(), "N");
    assert_eq!(ModifiedConfidentiality::from_str("N"), Ok(ModifiedConfidentiality::Nil));
    assert_eq!(ModifiedConfidentiality::Low.as_str(), "L");
    assert_eq!(ModifiedConfidentiality::from_str("L"), Ok(ModifiedConfidentiality::Low));
    assert_eq!(ModifiedConfidentiality::High.as_str(), "H");
    assert_eq!(ModifiedConfidentiality::from_str("H"), Ok(ModifiedConfidentiality::High));
    assert_eq!(ModifiedConfidentiality::from_str(""), Err(ParseError::IncorrectValue));
    assert_eq!(ModifiedConfidentiality::from_str("WRONG"), Err(ParseError::IncorrectValue));
    assert_eq!(ModifiedConfidentiality::from_str("ND"), Err(ParseError::IncorrectValue));
    assert_eq!(ModifiedConfidentiality::from_str("x"), Err(ParseError::IncorrectValue));
    assert_eq!(ModifiedConfidentiality::from_str("X "), Err(ParseError::IncorrectValue));
    assert_eq!(ModifiedConfidentiality::from_str(" X"), Err(ParseError::IncorrectValue));
    assert_eq!(ModifiedConfidentiality::from_str("XX"), Err(ParseError::IncorrectValue));
}

#[test]
fn v3_modified_confidentiality_weights() {
    assert_eq!(ModifiedConfidentiality::NotDefined.num_value(), 1000);
    assert_eq!(ModifiedConfidentiality::Nil.num_value(), 0);
    assert_eq!(ModifiedConfidentiality::Low.num_value(), 220);
    assert_eq!(ModifiedConfidentiality::High.num_value(), 560);
}

#[test]
fn v3_modified_confidentiality_undefined() {
    assert!(ModifiedConfidentiality::NotDefined.is_undefined());
    assert!(!ModifiedConfidentiality::Nil.is_undefined());
    assert!(!ModifiedConfidentiality::Low.is_undefined());
    assert!(!ModifiedConfidentiality::High.is_undefined());
}

#[test]
fn v3_modified_integrity_codes() {
    assert_eq!(ModifiedIntegrity::NotDefined.as_str(), "X");
    assert_eq!(ModifiedIntegrity::from_str("X"), Ok(ModifiedIntegrity::NotDefined));
    assert_eq!(ModifiedIntegrity::Nil.as_str(), "N");
    assert_eq!(ModifiedIntegrity::from_str("N"), Ok(ModifiedIntegrity::Nil));
    assert_eq!(ModifiedIntegrity::Low.as_str(), "L");
    assert_eq!(ModifiedIntegrity::from_str("L"), Ok(ModifiedIntegrity::Low));
    assert_eq!(ModifiedIntegrity::High.as_str(), "H");
    assert_eq!(ModifiedIntegrity::from_str("H"), Ok(ModifiedIntegrity::High));
    assert_eq!(ModifiedIntegrity::from_str(""), Err(ParseError::IncorrectValue));
    assert_eq!(ModifiedIntegrity::from_str("WRONG"), Err(ParseError::IncorrectValue));
    assert_eq!(ModifiedIntegrity::from_str("ND"), Err(ParseError::IncorrectValue));
    assert_eq!(ModifiedIntegrity::from_str("x"), Err(ParseError::IncorrectValue));
    assert_eq!(ModifiedIntegrity::from_str("X "), Err(ParseError::IncorrectValue));
    assert_eq!(ModifiedIntegrity::from_str(" X"), Err(ParseError::IncorrectValue));
    assert_eq!(ModifiedIntegrity::from_str("XX"), Err(ParseError::IncorrectValue));
}

#[test]
fn v3_modified_integrity_weights() {
    assert_eq!(ModifiedIntegrity::NotDefined.num_value(), 1000);
    assert_eq!(ModifiedIntegrity::Nil.num_value(), 0);
    assert_eq!(ModifiedIntegrity::Low.num_value(), 220);
    assert_eq!(ModifiedIntegrity::High.num_value(), 560);
}

#[test]
fn v3_modified_integrity_undefined() {
    assert!(ModifiedIntegrity::NotDefined.is_undefined());
    assert!(!ModifiedIntegrity::Nil.is_undefined());
    assert!(!ModifiedIntegrity::Low.is_undefined());
    assert!(!ModifiedIntegrity::High.is_undefined());
}

#[test]
fn v3_modified_availability_codes() {
    assert_eq!(ModifiedAvailability::NotDefined.as_str(), "X");
    assert_eq!(ModifiedAvailability::from_str("X"), Ok(ModifiedAvailability::NotDefined));
    assert_eq!(ModifiedAvailability::Nil.as_str(), "N");
    assert_eq!(ModifiedAvailability::from_str("N"), Ok(ModifiedAvailability::Nil));
    assert_eq!(ModifiedAvailability::Low.as_str(), "L");
    assert_eq!(ModifiedAvailability::from_str("L"), Ok(ModifiedAvailability::Low));
    assert_eq!(ModifiedAvailability::High.as_str(), "H");
    assert_eq!(ModifiedAvailability::from_str("H"), Ok(ModifiedAvailability::High));
    assert_eq!(ModifiedAvailability::from_str(""), Err(ParseError::IncorrectValue));
    assert_eq!(ModifiedAvailability::from_str("WRONG"), Err(ParseError::IncorrectValue));
    assert_eq!(ModifiedAvailability::from_str("ND"), Err(ParseError::IncorrectValue));
    assert_eq!(ModifiedAvailability::from_str("x"), Err(ParseError::IncorrectValue));
    assert_eq!(ModifiedAvailability::from_str("X "), Err(ParseError::IncorrectValue));
    assert_eq!(ModifiedAvailability::from_str(" X"), Err(ParseError::IncorrectValue));
    assert_eq!(ModifiedAvailability::from_str("XX"), Err(ParseError::IncorrectValue));
}

#[test]
fn v3_modified_availability_weights() {
    assert_eq!(ModifiedAvailability::NotDefined.num_value(), 1000);
    assert_eq!(ModifiedAvailability::Nil.num_value(), 0);
    assert_eq!(ModifiedAvailability::Low.num_value(), 220);
    assert_eq!(ModifiedAvailability::High.num_value(), 560);
}

#[test]
fn v3_modified_availability_undefined() {
    assert!(ModifiedAvailability::NotDefined.is_undefined());
    assert!(!ModifiedAvailability::Nil.is_undefined());
    assert!(!ModifiedAvailability::Low.is_undefined());
    assert!(!ModifiedAvailability::High.is_undefined());
}
