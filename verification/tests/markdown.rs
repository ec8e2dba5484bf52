use ipano::aggregate::merge;
use ipano::i18n::Lang;
use ipano::model::{IpType, SourceData};
use ipano::render::markdown::to_markdown;

#[test]
fn markdown_has_sections_and_comparison() {
    let ip = "1.1.1.1";
    let mut a = SourceData::new("netcoffee");
    a.is_proxy = Some(false);
    a.trust_score = Some(41);
    a.ip_type = Some(IpType::Hosting);
    let mut b = SourceData::new("ipqs");
    b.is_vpn = Some(true);
    b.ipqs_score = Some(80);
    let r = merge(ip, vec![("netcoffee".into(), Ok(a)), ("ipqs".into(), Ok(b))]);

    let md = to_markdown(&r, Lang::Zh);
    assert!(md.contains("# IP 全景报告"));
    assert!(md.contains("各源关键判定对比"));
    assert!(md.contains("netcoffee"));
    assert!(md.contains("ipqs"));
    assert!(md.contains("ipqs:80"));
    assert!(md.contains("启发式结论"));
}

#[test]
fn markdown_english() {
    let ip = "1.1.1.1";
    let mut a = SourceData::new("netcoffee");
    a.trust_score = Some(85);
    a.ip_type = Some(IpType::Residential);
    let r = merge(ip, vec![("netcoffee".into(), Ok(a))]);
    let md = to_markdown(&r, Lang::En);
    assert!(md.contains("# IP Panorama Report"));
    assert!(md.contains("Per-source verdicts"));
    assert!(md.contains("Heuristic verdict"));
}
