use ipano::sources::ip2location::parse;

const SAMPLE: &str = r#"{"country_name":"Australia","region_name":"Queensland","city_name":"Brisbane","latitude":-27.46,"longitude":153.02,"time_zone":"+10:00","asn":"13335","as":"Cloudflare Inc","is_proxy":false,"usage_type":"DCH"}"#;

#[test]
fn ip2location_parse_extracts() {
    let d = parse(SAMPLE).unwrap();
    assert_eq!(d.source_id, "ip2loc");
    assert_eq!(d.usage_type.as_deref(), Some("DCH"));
    assert_eq!(d.asn, Some(13335));
    assert_eq!(d.is_proxy, Some(false));
}

#[test]
fn ip2location_parse_error() { assert!(parse(r#"{"error":{"error_code":10001}}"#).is_err()); }
