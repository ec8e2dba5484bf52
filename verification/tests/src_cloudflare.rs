use ipano::sources::cloudflare::{build_data, parse_asn, parse_bot};

const SAMPLE_ASN: &str = r#"{"result":{"asn":{"asn":13335,"name":"CLOUDFLARENET"}},"success":true}"#;

#[test]
fn parse_asn_extracts_number() {
    assert_eq!(parse_asn(SAMPLE_ASN).unwrap(), 13335);
}

const SAMPLE_BOT: &str = r#"{"result":{"summary_0":{"bot":"21.5","human":"78.5"}},"success":true}"#;

#[test]
fn parse_bot_pcts() {
    let (h, b) = parse_bot(SAMPLE_BOT).unwrap();
    assert_eq!(h, "78.5");
    assert_eq!(b, "21.5");
}

#[test]
fn build_data_merges_summaries() {
    let d = build_data(Some(("78.5".into(), "21.5".into())), Some("desktop 70.0% mobile 28.0% other 2.0%".into()))
        .unwrap();
    assert_eq!(d.source_id, "cf");
    assert_eq!(d.human_traffic_pct.as_deref(), Some("78.5"));
    assert_eq!(d.bot_traffic_pct.as_deref(), Some("21.5"));
    assert_eq!(d.device_dist.as_deref(), Some("desktop 70.0% mobile 28.0% other 2.0%"));
}

#[test]
fn bot_shares_missing_or_unreadable() {
    let (h, b) = parse_bot(r#"{"result":{"summary_0":{"human":"n/a"}}}"#).unwrap();
    assert_eq!(h, "0");
    assert_eq!(b, "0");
    match parse_bot(r#"{"result":{}}"#) {
        Err(ipano::model::SourceError::Parse(m)) => assert_eq!(m, "CF: bot_class 缺 summary_0"),
        _ => panic!("expected a parse error"),
    }
    assert!(parse_bot(r#"{"result":{"summary_0":{"bot":21.5}}}"#).is_err());
    assert!(parse_bot("not json").is_err());
    assert!(build_data(None, None).is_err());
}
