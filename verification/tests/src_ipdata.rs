use ipano::sources::ipdata::parse;

const SAMPLE: &str = r#"{"ip":"1.1.1.1","country_code":"AU","region":"Queensland","city":"Brisbane",
"asn":{"asn":"AS13335","name":"Cloudflare, Inc."},
"threat":{"is_tor":false,"is_icloud_relay":false,"is_proxy":false,"is_datacenter":true,
"is_anonymous":false,"is_known_attacker":false,"is_known_abuser":false,"is_threat":false,"is_bogon":false,
"blocklists":[]}}"#;

#[test]
fn parse_extracts_threat_flags() {
    let d = parse(SAMPLE).unwrap();
    assert_eq!(d.source_id, "ipdata");
    assert_eq!(d.country.as_deref(), Some("AU"));
    assert_eq!(d.asn, Some(13335));
    assert_eq!(d.is_datacenter, Some(true));
    assert_eq!(d.is_tor, Some(false));
    assert_eq!(d.is_relay, Some(false)); // is_icloud_relay
    assert_eq!(d.is_anonymous, Some(false));
    assert_eq!(d.is_bogon, Some(false));
    assert_eq!(d.is_abuser, Some(false)); // is_known_abuser || is_known_attacker
}
