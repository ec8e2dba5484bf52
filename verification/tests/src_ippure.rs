use ipano::model::IpType;
use ipano::sources::ippure::{parse, returned_ip};

const SAMPLE: &str = r#"{
    "ip":"154.37.217.75","asn":979,"asOrganization":"NetLab",
    "country":"Hong Kong SAR China","countryCode":"HK","city":"Hong Kong",
    "timezone":"Asia/Hong_Kong","longitude":"114.17469","latitude":"22.27832",
    "postalCode":"999077","fraudScore":39,"isResidential":false,"isBroadcast":true}"#;

#[test]
fn parse_extracts_fraud_and_type() {
    let d = parse(SAMPLE).unwrap();
    assert_eq!(d.source_id, "ippure");
    assert_eq!(d.asn, Some(979));
    assert_eq!(d.as_org.as_deref(), Some("NetLab"));
    assert_eq!(d.fraud_score, Some(39));
    assert_eq!(d.lat.as_deref(), Some("22.27832"));
    assert_eq!(d.lon.as_deref(), Some("114.17469"));
    assert_eq!(d.ip_type, Some(IpType::Broadcast));
    assert_eq!(d.is_residential, Some(false));
}

#[test]
fn parse_residential_type() {
    let body = r#"{"ip":"1.2.3.4","fraudScore":5,"isResidential":true,"isBroadcast":false}"#;
    let d = parse(body).unwrap();
    assert_eq!(d.ip_type, Some(IpType::Residential));
    assert_eq!(d.fraud_score, Some(5));
}

#[test]
fn returned_ip_extracts() {
    assert_eq!(returned_ip(SAMPLE).as_deref(), Some("154.37.217.75"));
    assert_eq!(returned_ip("garbage"), None);
}
