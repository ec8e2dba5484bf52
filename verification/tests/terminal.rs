use ipano::aggregate::merge;
use ipano::i18n::Lang;
use ipano::model::{AiVerdict, SourceData, SourceError};
use ipano::net::Ipv4Addr;
use ipano::probe::route::terminal::render_terminal as route_terminal;
use ipano::probe::route::{Carrier, City, Grade, Hop, LineType, RouteResult};
use ipano::render::terminal::render;

#[test]
fn render_contains_header_and_source_status() {
    let mut d = SourceData::new("ipsb");
    d.city = Some("Los Angeles".into());
    d.asn = Some(13335);
    let report = merge("1.1.1.1", vec![("ipsb".to_string(), Ok(d)), ("ipapi".to_string(), Err(SourceError::Timeout))]);
    let out = render(&report, true, Lang::Zh);
    assert!(out.contains("1.1.1.1"));
    assert!(out.contains("13335"));
    assert!(out.contains("ipsb"));
    assert!(out.contains("ipapi"));
}

#[test]
fn render_shows_blacklist_and_traffic() {
    let mut vt = SourceData::new("vt");
    vt.blacklist_malicious = Some(2);
    vt.blacklist_harmless = Some(80);
    let mut cf = SourceData::new("cf");
    cf.human_traffic_pct = Some("78.5".into());
    cf.bot_traffic_pct = Some("21.5".into());
    let report = merge("1.1.1.1", vec![("vt".into(), Ok(vt)), ("cf".into(), Ok(cf))]);
    let s = render(&report, true, Lang::Zh);
    assert!(s.contains("VT 黑名单"));
    assert!(s.contains("2 恶意"));
    assert!(s.contains("人机流量"));
}

#[test]
fn render_shows_risk_section() {
    let mut d = SourceData::new("netcoffee");
    d.trust_score = Some(41);
    d.rep_threat = Some(29);
    d.is_abuser = Some(true);
    d.ai_verdict =
        Some(AiVerdict { label: "Suspicious".into(), confidence: 60, reasoning: "front possible".into() });
    let report = merge("1.1.1.1", vec![("netcoffee".to_string(), Ok(d))]);
    let out = render(&report, true, Lang::Zh);
    assert!(out.contains("纯净度") || out.contains("可信"));
    assert!(out.contains("41"));
    assert!(out.contains("Suspicious"));
}

#[test]
fn render_shows_dist_and_undetected_and_bogon() {
    let mut cf = SourceData::new("cf");
    cf.browser_dist = Some("Chrome 78% 其他 22%".into());
    cf.os_dist = Some("Windows 93% 其他 7%".into());
    cf.device_dist = Some("桌面 73% 移动 26%".into());
    let mut vt = SourceData::new("vt");
    vt.blacklist_malicious = Some(0);
    vt.blacklist_undetected = Some(91);
    let mut ipreg = SourceData::new("ipreg");
    ipreg.is_bogon = Some(true);
    let report = merge("1.1.1.1", vec![("cf".into(), Ok(cf)), ("vt".into(), Ok(vt)), ("ipreg".into(), Ok(ipreg))]);
    let s = render(&report, true, Lang::Zh);
    assert!(s.contains("浏览器分布"));
    assert!(s.contains("系统分布"));
    assert!(s.contains("设备分布"));
    assert!(s.contains("未检出"));
    assert!(s.contains("Bogon"));
}

#[test]
fn report_exact_lines_and_bold_titles() {
    let mut d = SourceData::new("ipsb");
    d.asn = Some(13335);
    d.as_org = Some("Cloudflare".into());
    let report = merge("1.1.1.1", vec![("ipsb".to_string(), Ok(d)), ("ipapi".to_string(), Err(SourceError::Timeout))]);
    let plain = render(&report, true, Lang::En);
    assert!(plain.starts_with("═══ IP 全景报告  1.1.1.1 ═══\n"));
    assert!(plain.contains("AS13335 Cloudflare"));
    assert!(!plain.contains("风险判定"));
    assert!(plain.contains("Heuristic verdict\n  • "));
    assert!(plain.ends_with("Sources  ✓ipsb ✗ipapi\n"));
    let bold = render(&report, false, Lang::En);
    assert!(bold.starts_with("\x1b[1m═══ IP 全景报告  1.1.1.1 ═══\x1b[0m\n"));
    assert!(bold.contains("\x1b[1mHeuristic verdict\x1b[0m\n"));
}

fn sample_routes() -> Vec<RouteResult> {
    vec![
        RouteResult {
            carrier: Carrier::Telecom,
            city: City::Beijing,
            target_name: "北京电信".into(),
            target: Ipv4Addr::new(219, 141, 136, 12),
            hops: vec![
                Hop { ttl: 1, addr: Some(Ipv4Addr::new(192, 168, 1, 1)), rtt_us: Some(800), asn: None, as_org: None, country: None, city: None },
                Hop { ttl: 2, addr: None, rtt_us: None, asn: None, as_org: None, country: None, city: None },
                Hop {
                    ttl: 3,
                    addr: Some(Ipv4Addr::new(219, 141, 136, 12)),
                    rtt_us: Some(33200),
                    asn: Some(4809),
                    as_org: Some("Chinanet".into()),
                    country: Some("CN".into()),
                    city: Some("Beijing".into()),
                },
            ],
            line: LineType::Cn2,
            grade: LineType::Cn2.grade(),
            entry: LineType::Cn2,
            degraded: None,
        },
        RouteResult {
            carrier: Carrier::Mobile,
            city: City::Shanghai,
            target_name: "上海移动".into(),
            target: Ipv4Addr::new(1, 2, 3, 4),
            hops: vec![],
            line: LineType::Unknown,
            grade: Grade::Unknown,
            entry: LineType::Unknown,
            degraded: Some("need_privilege".into()),
        },
    ]
}

#[test]
fn route_terminal_overview_hint_and_hops() {
    let s = route_terminal(&sample_routes(), Lang::Zh, true);
    assert!(s.starts_with("═══ 三网回程路由(traceroute) ═══\n"));
    assert!(s.contains("北京电信 219.141.136.12"));
    assert!(s.contains("需 root 运行"));
    assert!(!s.contains("need_privilege"));
    assert!(s.contains("sudo setcap"));
    assert!(s.contains("\n电信 北京电信 219.141.136.12\n"));
    assert!(s.contains("33.2ms"));
    assert!(s.contains("AS4809 Chinanet"));
    assert!(s.contains("CN Beijing"));
    assert!(!s.contains("\x1b["));
    let coloured = route_terminal(&sample_routes(), Lang::Zh, false);
    assert!(coloured.contains("\x1b["));
    let none_degraded = route_terminal(&sample_routes()[..1], Lang::En, true);
    assert!(!none_degraded.contains("sudo"));
}
