use ipano::sources::virustotal::parse;

const SAMPLE: &str = r#"{"data":{"id":"1.1.1.1","type":"ip_address","attributes":{
"as_owner":"Cloudflare, Inc.","asn":13335,"country":"AU",
"last_analysis_stats":{"harmless":80,"malicious":2,"suspicious":1,"undetected":11,"timeout":0}}}}"#;

#[test]
fn parse_extracts_blacklist_stats() {
    let d = parse(SAMPLE).unwrap();
    assert_eq!(d.source_id, "vt");
    assert_eq!(d.asn, Some(13335));
    assert_eq!(d.as_org.as_deref(), Some("Cloudflare, Inc."));
    assert_eq!(d.country.as_deref(), Some("AU"));
    assert_eq!(d.blacklist_harmless, Some(80));
    assert_eq!(d.blacklist_malicious, Some(2));
    assert_eq!(d.blacklist_suspicious, Some(1));
    assert_eq!(d.blacklist_undetected, Some(11));
    assert_eq!(d.is_abuser, Some(true)); // malicious+suspicious > 0
}
