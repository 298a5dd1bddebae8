use cvssrust::{MinorVersion, ParseError, CVSS};

#[test]
fn parse_takes_v3_first() {
    match CVSS::parse("CVSS:3.1/AV:N/AC:L/PR:N/UI:R/S:U/C:H/I:H/A:N") {
        Ok(CVSS::V3(cvss)) => {
            assert_eq!(cvss.minor_version, MinorVersion::V1);
            assert_eq!(cvss.to_string(), "CVSS:3.1/AV:N/AC:L/PR:N/UI:R/S:U/C:H/I:H/A:N");
        }
        other => panic!("not a v3 vector: {:?}", other),
    }
    match CVSS::parse("CVSS:3.0/AV:N/AC:L/PR:N/UI:R/S:U/C:H/I:H/A:N") {
        Ok(CVSS::V3(cvss)) => assert_eq!(cvss.minor_version, MinorVersion::V0),
        other => panic!("not a v3 vector: {:?}", other),
    }
}

#[test]
fn parse_falls_back_to_v2() {
    match CVSS::parse("AV:N/AC:M/Au:N/C:P/I:P/A:N") {
        Ok(CVSS::V2(cvss)) => assert_eq!(cvss.to_string(), "AV:N/AC:M/Au:N/C:P/I:P/A:N"),
        other => panic!("not a v2 vector: {:?}", other),
    }
    match CVSS::parse("(AV:N/AC:M/Au:N/C:P/I:P/A:N)") {
        Ok(CVSS::V2(cvss)) => assert_eq!(cvss.to_string(), "AV:N/AC:M/Au:N/C:P/I:P/A:N"),
        other => panic!("not a v2 vector: {:?}", other),
    }
}

#[test]
fn parse_gives_the_reason_of_v2() {
    assert_eq!(CVSS::parse("Blablabla"), Err(ParseError::MalformedVector));
    assert_eq!(CVSS::parse(""), Err(ParseError::MalformedVector));
    // A v3 vector without scope: v3 misses S, and v2 then misses Au.
    assert_eq!(
        CVSS::parse("CVSS:3.1/AV:N/AC:L/PR:N/UI:R/C:L/I:L/A:N"),
        Err(ParseError::Missing)
    );
    // v3 refuses the value of PR; to v2 the authentication is missing.
    assert_eq!(
        CVSS::parse("CVSS:3.1/AV:N/AC:L/PR:WRONG/UI:R/S:C/C:L/I:L/A:N"),
        Err(ParseError::Missing)
    );
    // v3 refuses the prefix; v2 finds the access vector twice.
    assert_eq!(
        CVSS::parse("AV:N/AV:L/AC:L/Au:N/C:P/I:P/A:N"),
        Err(ParseError::Duplicated)
    );
    assert_eq!(
        CVSS::parse("AV:N/AC:L/Au:X/C:P/I:P/A:N"),
        Err(ParseError::IncorrectValue)
    );
}

#[test]
fn parse_and_to_string_round_trip() {
    for text in [
        "CVSS:3.1/AV:N/AC:L/PR:N/UI:R/S:C/C:L/I:L/A:N/E:P/RL:W/RC:C",
        "CVSS:3.0/AV:P/AC:H/PR:L/UI:R/S:U/C:L/I:L/A:H/MS:C/MA:N",
        "AV:A/AC:L/Au:S/C:P/I:P/A:C/E:POC/RL:W/RC:UR/CDP:LM/TD:H/CR:M/IR:M/AR:M",
        "AV:L/AC:H/Au:M/C:N/I:N/A:N",
    ] {
        let cvss = CVSS::parse(text).unwrap();
        assert_eq!(cvss.to_string(), text);
        assert_eq!(CVSS::parse(&cvss.to_string()), Ok(cvss));
    }
}
