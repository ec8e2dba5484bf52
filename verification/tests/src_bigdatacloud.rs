use ipano::sources::bigdatacloud::parse;

const SAMPLE: &str = r#"{"country":{"isoAlpha2":"AU","name":"Australia"},
"location":{"city":"Brisbane"},"network":{"organisation":"Cloudflare, Inc.","registeredCountry":{}},
"hazardReport":{"isKnownAsVpn":false,"isKnownAsTorServer":false,"isKnownAsProxy":false,"hazardScore":12}}"#;

#[test]
fn parse_extracts_hazard() {
    let d = parse(SAMPLE).unwrap();
    assert_eq!(d.source_id, "bdc");
    assert_eq!(d.country.as_deref(), Some("AU"));
    assert_eq!(d.city.as_deref(), Some("Brisbane"));
    assert_eq!(d.as_org.as_deref(), Some("Cloudflare, Inc."));
    assert_eq!(d.is_vpn, Some(false));
    assert_eq!(d.is_tor, Some(false));
    assert_eq!(d.is_proxy, Some(false));
    assert_eq!(d.risk_score, Some(12));
}
