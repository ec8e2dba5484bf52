use ipano::sources::ipapicom::parse;

const SAMPLE: &str = r#"{"country_name":"Australia","region":"Queensland","city":"Brisbane","latitude":-27.46,"longitude":153.02,"timezone":"Australia/Brisbane","asn":"AS13335","org":"CLOUDFLARENET"}"#;

#[test]
fn ipapicom_parse_extracts() {
    let d = parse(SAMPLE).unwrap();
    assert_eq!(d.source_id, "ipapicom");
    assert_eq!(d.asn, Some(13335));
    assert_eq!(d.city.as_deref(), Some("Brisbane"));
}

#[test]
fn ipapicom_parse_error() { assert!(parse(r#"{"error":true,"reason":"RateLimited"}"#).is_err()); }
