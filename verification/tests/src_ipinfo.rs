use ipano::sources::ipinfo::parse;

const SAMPLE: &str = r#"{"ip":"1.1.1.1","hostname":"one.one.one.one",
    "city":"Los Angeles","region":"California","country":"US",
    "loc":"34.05,-118.24","org":"AS13335 Cloudflare, Inc.",
    "timezone":"America/Los_Angeles"}"#;

#[test]
fn ipinfo_parse_extracts_fields() {
    let d = parse(SAMPLE).unwrap();
    assert_eq!(d.source_id, "ipinfo");
    assert_eq!(d.asn, Some(13335));
    assert_eq!(d.as_org.as_deref(), Some("Cloudflare, Inc."));
    assert_eq!(d.lat.as_deref(), Some("34.05"));
    assert_eq!(d.lon.as_deref(), Some("-118.24"));
    assert_eq!(d.rdns.as_deref(), Some("one.one.one.one"));
}
