use ipano::sources::ipwhois::parse;

const SAMPLE: &str = r#"{"success":true,"country":"United States","region":"California","city":"Los Angeles","latitude":34.05,"longitude":-118.24,"connection":{"asn":13335,"isp":"Cloudflare","org":"Cloudflare Inc"},"timezone":{"id":"America/Los_Angeles"}}"#;

#[test]
fn ipwhois_parse_extracts() {
    let d = parse(SAMPLE).unwrap();
    assert_eq!(d.source_id, "ipwhois");
    assert_eq!(d.asn, Some(13335));
    assert_eq!(d.city.as_deref(), Some("Los Angeles"));
    assert_eq!(d.timezone.as_deref(), Some("America/Los_Angeles"));
}

#[test]
fn parse_fail() {
    assert!(parse(r#"{"success":false,"message":"reserved"}"#).is_err());
}
