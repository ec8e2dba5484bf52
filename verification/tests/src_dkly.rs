use ipano::sources::dkly::parse;

const SAMPLE: &str = r#"{"country":"AU","city":"Brisbane","asn":13335,
"security":{"vpn":false,"proxy":false,"tor":false,"threat":false},
"connection":{"type":"hosting"}}"#;

#[test]
fn parse_extracts_geo_and_security() {
    let d = parse(SAMPLE).unwrap();
    assert_eq!(d.source_id, "dkly");
    assert_eq!(d.country.as_deref(), Some("AU"));
    assert_eq!(d.city.as_deref(), Some("Brisbane"));
    assert_eq!(d.asn, Some(13335));
    assert_eq!(d.is_vpn, Some(false));
    assert_eq!(d.is_proxy, Some(false));
    assert_eq!(d.is_tor, Some(false));
    assert_eq!(d.company_type.as_deref(), Some("hosting"));
}

#[test]
fn parse_threat_sets_abuser() {
    let body = r#"{"security":{"threat":true}}"#;
    let d = parse(body).unwrap();
    assert_eq!(d.is_abuser, Some(true));
}
