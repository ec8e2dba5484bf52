use ipano::model::IpType;
use ipano::sources::netcoffee::parse;

const SAMPLE: &str = r#"{"ip":"1.1.1.2","is_datacenter":true,"isResidential":false,
    "is_vpn":false,"is_proxy":false,"is_tor":false,"is_crawler":false,"is_abuser":true,
    "is_mobile":false,"company_type":"hosting","company_name":"APNIC Research and Development",
    "abuser_score":"0.0234 (Elevated)","asn":13335,"asOrganization":"Cloudflare, Inc.",
    "country":"Australia","region":"Queensland","city":"South Brisbane","trust_score":41,
    "rdns":"security.cloudflare-dns.com","rep_threat":29,
    "ai_verdict":{"label":"Suspicious","confidence":60,"reasoning":"Mid-low trust score"}}"#;

#[test]
fn parse_extracts_base_and_risk() {
    let d = parse(SAMPLE).unwrap();
    assert_eq!(d.source_id, "netcoffee");
    assert_eq!(d.asn, Some(13335));
    assert_eq!(d.as_org.as_deref(), Some("Cloudflare, Inc."));
    assert_eq!(d.city.as_deref(), Some("South Brisbane"));
    assert_eq!(d.rdns.as_deref(), Some("security.cloudflare-dns.com"));
    assert_eq!(d.trust_score, Some(41));
    assert_eq!(d.rep_threat, Some(29));
    assert_eq!(d.abuser_score.as_deref(), Some("0.0234 (Elevated)"));
    assert_eq!(d.is_abuser, Some(true));
    assert_eq!(d.is_hosting, Some(true));
    assert_eq!(d.ip_type, Some(IpType::Hosting));
    let v = d.ai_verdict.unwrap();
    assert_eq!(v.label, "Suspicious");
    assert_eq!(v.confidence, 60);
}

#[test]
fn parse_derives_mobile_type() {
    let body = r#"{"is_mobile":true,"is_datacenter":false,"company_type":"isp"}"#;
    let d = parse(body).unwrap();
    assert_eq!(d.ip_type, Some(IpType::Mobile));
    assert_eq!(d.is_mobile, Some(true));
}

#[test]
fn parse_rejects_garbage() {
    assert!(parse("not json").is_err());
}
