use ipano::model::IpType;
use ipano::sources::ipapi::{parse, split_as};

const SAMPLE: &str = r#"{
    "status":"success","country":"United States","regionName":"California",
    "city":"Los Angeles","lat":34.05,"lon":-118.24,"timezone":"America/Los_Angeles",
    "isp":"Cloudflare","org":"Cloudflare","as":"AS13335 Cloudflare, Inc.",
    "proxy":false,"hosting":true,"mobile":false,"query":"1.1.1.1"}"#;

#[test]
fn ipapi_parse_extracts_fields() {
    let d = parse(SAMPLE).unwrap();
    assert_eq!(d.source_id, "ipapi");
    assert_eq!(d.asn, Some(13335));
    assert_eq!(d.as_org.as_deref(), Some("Cloudflare, Inc."));
    assert_eq!(d.city.as_deref(), Some("Los Angeles"));
    assert_eq!(d.lat.as_deref(), Some("34.05"));
    assert_eq!(d.ip_type, Some(IpType::Hosting));
    assert_eq!(d.is_hosting, Some(true));
    assert_eq!(d.is_proxy, Some(false));
}

#[test]
fn parse_fail_status_is_err() {
    let body = r#"{"status":"fail","message":"reserved range","query":"127.0.0.1"}"#;
    assert!(parse(body).is_err());
}

#[test]
fn split_as_parses_asn_and_org() {
    assert_eq!(split_as("AS13335 Cloudflare, Inc."), (Some(13335), Some("Cloudflare, Inc.".into())));
    assert_eq!(split_as("Cloudflare"), (None, Some("Cloudflare".into())));
}
