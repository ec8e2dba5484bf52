use ipano::sources::ipsb::parse;

const SAMPLE: &str = r#"{"ip":"1.1.1.1","country":"United States","country_code":"US",
    "asn":13335,"asn_organization":"Cloudflare, Inc.","isp":"Cloudflare",
    "city":"Los Angeles","region":"California","latitude":34.05,"longitude":-118.24,
    "timezone":"America/Los_Angeles"}"#;

#[test]
fn ipsb_parse_extracts_fields() {
    let d = parse(SAMPLE).unwrap();
    assert_eq!(d.source_id, "ipsb");
    assert_eq!(d.asn, Some(13335));
    assert_eq!(d.as_org.as_deref(), Some("Cloudflare, Inc."));
    assert_eq!(d.city.as_deref(), Some("Los Angeles"));
    assert_eq!(d.lat.as_deref(), Some("34.05"));
}
