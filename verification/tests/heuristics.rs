use ipano::aggregate::{merge, MergedReport};
use ipano::heuristics::conclude;
use ipano::i18n::Lang;
use ipano::model::{IpType, SourceData};

#[test]
fn flags_vpn_and_hosting() {
    let mut d = SourceData::new("x");
    d.is_vpn = Some(true);
    d.ip_type = Some(IpType::Hosting);
    let c = conclude(&report_from(d), Lang::Zh);
    assert!(c.iter().any(|s| s.contains("VPN")));
    assert!(c.iter().any(|s| s.contains("机房")));
}

#[test]
fn high_fraud_flagged_en() {
    let mut d = SourceData::new("x");
    d.ipqs_score = Some(90);
    let c = conclude(&report_from(d), Lang::En);
    assert!(c.iter().any(|s| s.contains("High fraud")));
}

#[test]
fn clean_residential() {
    let mut d = SourceData::new("x");
    d.ip_type = Some(IpType::Residential);
    d.trust_score = Some(85);
    let c = conclude(&report_from(d), Lang::Zh);
    assert!(c.iter().any(|s| s.contains("未见明显风险")));
    assert!(c.iter().any(|s| s.contains("住宅")));
}

#[test]
fn empty_report_insufficient() {
    let r = merge("1.1.1.1", vec![]);
    let c = conclude(&r, Lang::En);
    assert!(c.iter().any(|s| s.contains("Insufficient")));
}

fn report_from(d: SourceData) -> MergedReport {
    merge("1.1.1.1", vec![("x".to_string(), Ok(d))])
}
