use ipano::sources::dbip::parse;

const SAMPLE: &str = r#"{"ipAddress":"1.1.1.1","continentCode":"OC","countryName":"Australia","stateProv":"Queensland","city":"Brisbane"}"#;

#[test]
fn dbip_parse_extracts() {
    let d = parse(SAMPLE).unwrap();
    assert_eq!(d.source_id, "dbip");
    assert_eq!(d.country.as_deref(), Some("Australia"));
    assert_eq!(d.city.as_deref(), Some("Brisbane"));
}

#[test]
fn dbip_parse_error() { assert!(parse(r#"{"error":"quota exceeded"}"#).is_err()); }
