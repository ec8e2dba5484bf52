use ipano::sources::ipregistry::parse;

const SAMPLE: &str = r#"{"company":{"domain":"apnic.net","name":"Apnic R&D","type":"hosting"},
"connection":{"asn":13335,"domain":"cloudflare.com","organization":"Cloudflare, Inc.","route":"1.1.1.0/24","type":"hosting"},
"ip":"1.1.1.1","location":{"country":{"code":"AU","name":"Australia"},"region":{"code":"AU-QLD","name":"Queensland"},"city":"Brisbane","latitude":-27.46798,"longitude":153.02809},
"security":{"is_abuser":false,"is_attacker":false,"is_bogon":false,"is_cloud_provider":true,"is_proxy":false,"is_relay":false,"is_tor":false,"is_tor_exit":false,"is_vpn":false,"is_anonymous":false,"is_threat":false},
"time_zone":{"id":"Australia/Brisbane"},"type":"IPv4"}"#;

#[test]
fn parse_extracts_security_flags() {
    let d = parse(SAMPLE).unwrap();
    assert_eq!(d.source_id, "ipreg");
    assert_eq!(d.asn, Some(13335));
    assert_eq!(d.country.as_deref(), Some("AU"));
    assert_eq!(d.city.as_deref(), Some("Brisbane"));
    assert_eq!(d.company_type.as_deref(), Some("hosting"));
    assert_eq!(d.is_cloud, Some(true));
    assert_eq!(d.is_relay, Some(false));
    assert_eq!(d.is_anonymous, Some(false));
    assert_eq!(d.is_bogon, Some(false));
    assert_eq!(d.is_proxy, Some(false));
    assert_eq!(d.is_abuser, Some(false));
}
