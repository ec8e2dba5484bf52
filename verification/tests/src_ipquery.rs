use ipano::sources::ipquery::parse;

const SAMPLE: &str = r#"{"ip":"1.1.1.1","isp":{"asn":"AS13335","org":"Cloudflare, Inc.","isp":"Cloudflare, Inc."},"location":{"country":"Australia","country_code":"AU","city":"Sydney","state":"New South Wales","latitude":-33.88,"longitude":151.19,"timezone":"Australia/Sydney"},"risk":{"is_mobile":false,"is_vpn":false,"is_tor":false,"is_proxy":false,"is_datacenter":true,"risk_score":0}}"#;

#[test]
fn ipquery_parse_extracts() {
    let d = parse(SAMPLE).unwrap();
    assert_eq!(d.source_id, "ipquery");
    assert_eq!(d.asn, Some(13335));
    assert_eq!(d.city.as_deref(), Some("Sydney"));
    assert_eq!(d.is_datacenter, Some(true));
    assert_eq!(d.is_vpn, Some(false));
    assert_eq!(d.risk_score, Some(0));
}
