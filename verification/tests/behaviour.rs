use ipano::aggregate::merge;
use ipano::cli::Args;
use ipano::config::{AlwaysFlags, Config, SpeedtestCfg};
use ipano::egress::majority;
use ipano::i18n::Lang;
use ipano::model::{IpType, SourceData, SourceError};
use ipano::render::terminal::{has_risk, risk_flags};
use ipano::net::Ipv4Addr;
use ipano::probe::route::engine::route_result;
use ipano::probe::route::{classify_line, order_by_carrier, Carrier, City, LineType};
use ipano::probe::speedtest::{catalog, parse_spec, Selection};
use ipano::session::{
    apply_config_always, choose_targets, expand_all, resolve_settings, speedtest_spec, SpeedtestSpecSource,
    TargetError,
};
use ipano::sources::abuseipdb::AbuseIpdb;
use ipano::sources::{nonempty, transport_error};

fn plain_args() -> Args {
    Args {
        ip: None,
        four: false,
        six: false,
        json: false,
        markdown: false,
        raw: false,
        lang: None,
        all: false,
        probe: false,
        mail: false,
        route: false,
        dnsbl: false,
        speedtest: None,
        ping0_token: None,
        no_color: false,
        timeout: None,
        report: false,
    }
}

#[test]
fn all_turns_on_every_check_but_speedtest() {
    let mut a = plain_args();
    a.all = true;
    expand_all(&mut a);
    assert!(a.probe && a.mail && a.route && a.dnsbl);
    assert_eq!(a.speedtest, None);
}

#[test]
fn without_all_nothing_is_turned_on() {
    let mut a = plain_args();
    a.mail = true;
    expand_all(&mut a);
    assert!(a.mail);
    assert!(!a.probe && !a.route && !a.dnsbl);
}

#[test]
fn always_flags_turn_checks_on_never_off() {
    let mut a = plain_args();
    a.probe = true;
    let always = AlwaysFlags { probe: Some(false), mail: Some(true), route: None, dnsbl: Some(false) };
    apply_config_always(&mut a, Some(&always));
    assert!(a.probe);
    assert!(a.mail);
    assert!(!a.route);
    assert!(!a.dnsbl);
    let mut b = plain_args();
    apply_config_always(&mut b, None);
    assert!(!b.probe && !b.mail && !b.route && !b.dnsbl);
}

#[test]
fn settings_default_to_chinese_and_eight_seconds() {
    let s = resolve_settings(&plain_args(), &Config::default());
    assert_eq!(s.lang, Lang::Zh);
    assert_eq!(s.timeout, 8);
    assert!(!s.no_color);
    assert_eq!(s.ping0_token, None);
}

#[test]
fn settings_prefer_command_line_over_configuration() {
    let mut a = plain_args();
    a.lang = Some("EN".into());
    a.timeout = Some(3);
    a.ping0_token = Some("cli".into());
    let mut c = Config::default();
    c.lang = Some("zh".into());
    c.timeout = Some(20);
    c.ping0_token = Some("file".into());
    c.no_color = Some(true);
    let s = resolve_settings(&a, &c);
    assert_eq!(s.lang, Lang::En);
    assert_eq!(s.timeout, 3);
    assert!(s.no_color);
    assert_eq!(s.ping0_token.as_deref(), Some("cli"));
}

#[test]
fn settings_fall_back_to_configuration() {
    let mut c = Config::default();
    c.lang = Some("english".into());
    c.timeout = Some(20);
    c.ping0_token = Some("file".into());
    let s = resolve_settings(&plain_args(), &c);
    assert_eq!(s.lang, Lang::En);
    assert_eq!(s.timeout, 20);
    assert_eq!(s.ping0_token.as_deref(), Some("file"));
}

#[test]
fn language_names() {
    assert_eq!(Lang::parse("en"), Lang::En);
    assert_eq!(Lang::parse("En-US"), Lang::En);
    assert_eq!(Lang::parse("ENGLISH"), Lang::En);
    assert_eq!(Lang::parse("fr"), Lang::Zh);
    assert_eq!(Lang::parse(""), Lang::Zh);
}

#[test]
fn targets_follow_family_flags() {
    assert_eq!(choose_targets(Some(4u8), Some(6u8), false, false).unwrap(), vec![4, 6]);
    assert_eq!(choose_targets(Some(4u8), Some(6u8), true, false).unwrap(), vec![4]);
    assert_eq!(choose_targets(Some(4u8), Some(6u8), false, true).unwrap(), vec![6]);
    assert_eq!(choose_targets(None, Some(6u8), false, false).unwrap(), vec![6]);
    let e = choose_targets(None, Some(6u8), true, false).unwrap_err();
    assert!(matches!(e, TargetError::EgressUnavailable));
    assert_eq!(e.code(), 1);
    assert!(choose_targets::<u8>(None, None, false, false).is_err());
}

#[test]
fn target_errors_codes_and_messages() {
    let e = TargetError::InvalidIp("abc".into());
    assert_eq!(e.code(), 2);
    assert_eq!(e.message(Lang::En), "Invalid IP: abc");
    assert_eq!(e.message(Lang::Zh), "无效 IP: abc");
    assert_eq!(TargetError::EgressUnavailable.message(Lang::En), "Unable to detect local egress IP");
}

#[test]
fn speedtest_selection_sources() {
    let cfg = SpeedtestCfg { spec: Some("cn".into()), custom: None };
    assert_eq!(speedtest_spec(&Some("jp".into()), Some(&cfg), SpeedtestSpecSource::CliOrConfig), Some("jp".into()));
    assert_eq!(speedtest_spec(&None, Some(&cfg), SpeedtestSpecSource::CliOrConfig), Some("cn".into()));
    assert_eq!(speedtest_spec(&None, Some(&cfg), SpeedtestSpecSource::CliOnly), None);
    assert_eq!(speedtest_spec(&None, None, SpeedtestSpecSource::CliOrConfig), None);
}

fn record(id: &str, city: &str, asn: u32) -> SourceData {
    let mut d = SourceData::new(id);
    d.city = Some(city.into());
    d.asn = Some(asn);
    d
}

#[test]
fn failed_source_changes_only_its_status() {
    let without = merge(
        "1.1.1.1",
        vec![("ipsb".into(), Ok(record("ipsb", "A", 1))), ("ipapi".into(), Ok(record("ipapi", "B", 2)))],
    );
    let with = merge(
        "1.1.1.1",
        vec![
            ("ipsb".into(), Ok(record("ipsb", "A", 1))),
            ("ipinfo".into(), Err(SourceError::Timeout)),
            ("ipapi".into(), Ok(record("ipapi", "B", 2))),
        ],
    );
    assert_eq!(with.city, without.city);
    assert_eq!(with.asn, without.asn);
    assert_eq!(with.raw.len(), without.raw.len());
    assert_eq!(with.sources.len(), 3);
    assert!(!with.sources[1].ok);
    assert_eq!(with.sources[1].error.as_deref(), Some("超时"));
}

#[test]
fn merge_of_failures_only_has_no_fields() {
    let m = merge(
        "2.2.2.2",
        vec![("ipsb".into(), Err(SourceError::RateLimited)), ("ipapi".into(), Err(SourceError::Timeout))],
    );
    assert_eq!(m.ip.as_deref(), Some("2.2.2.2"));
    assert_eq!(m.city, None);
    assert_eq!(m.asn, None);
    assert_eq!(m.is_datacenter, None);
    assert!(m.raw.is_empty());
    assert_eq!(m.sources[0].error.as_deref(), Some("触发限流"));
}

#[test]
fn datacenter_vote_tie_is_undecided() {
    let mk = |id: &str, dc: bool| {
        let mut d = SourceData::new(id);
        d.is_datacenter = Some(dc);
        d
    };
    let m = merge("1.1.1.1", vec![("a".into(), Ok(mk("a", true))), ("b".into(), Ok(mk("b", false)))]);
    assert_eq!(m.is_datacenter, None);
}

#[test]
fn egress_majority_tie_gives_a_most_common_answer() {
    let v = vec!["2.2.2.2".to_string(), "1.1.1.1".to_string()];
    let m = majority(&v).unwrap();
    assert!(m == "2.2.2.2" || m == "1.1.1.1");
    let w = vec!["3.3.3.3".to_string(), "1.1.1.1".to_string(), "1.1.1.1".to_string()];
    assert_eq!(majority(&w).as_deref(), Some("1.1.1.1"));
}

#[test]
fn ipv4_text_reading() {
    assert_eq!(Ipv4Addr::parse("1.2.3.4"), Some(Ipv4Addr::new(1, 2, 3, 4)));
    assert_eq!(Ipv4Addr::parse("255.255.255.255"), Some(Ipv4Addr::new(255, 255, 255, 255)));
    assert_eq!(Ipv4Addr::parse("0.0.0.0"), Some(Ipv4Addr::new(0, 0, 0, 0)));
    assert_eq!(Ipv4Addr::parse("256.1.1.1"), None);
    assert_eq!(Ipv4Addr::parse("01.2.3.4"), None);
    assert_eq!(Ipv4Addr::parse("1.2.3"), None);
    assert_eq!(Ipv4Addr::parse("1.2.3.4.5"), None);
    assert_eq!(Ipv4Addr::parse("1..3.4"), None);
    assert_eq!(Ipv4Addr::parse(""), None);
    assert_eq!(Ipv4Addr::parse(" 1.2.3.4"), None);
    assert_eq!(Ipv4Addr::new(10, 0, 0, 1).to_text(), "10.0.0.1");
}

#[test]
fn keyed_source_without_key_is_skipped_not_faked() {
    let s = AbuseIpdb::with_key(Some(String::new()));
    match s.request("1.1.1.1") {
        Err(e) => assert_eq!(e.message(), "需要 key: IPANO_ABUSEIPDB_KEY"),
        Ok(_) => panic!("an empty key must count as none"),
    }
    let s = AbuseIpdb::with_key(Some("k".into()));
    let q = s.request("1.1.1.1").unwrap();
    assert_eq!(q.url, "https://api.abuseipdb.com/api/v2/check?ipAddress=1.1.1.1&maxAgeInDays=90");
    assert_eq!(q.headers[0], ("Key".to_string(), "k".to_string()));
    assert!(matches!(s.interpret(429, "{}"), Err(SourceError::RateLimited)));
    assert!(matches!(s.interpret(200, "not json"), Err(SourceError::Parse(_))));
}

#[test]
fn transport_failures_and_secrets() {
    assert!(matches!(transport_error(true, "x".into()), SourceError::Timeout));
    match transport_error(false, "refused".into()) {
        SourceError::Unavailable(m) => assert_eq!(m, "refused"),
        _ => panic!("expected unavailable"),
    }
    assert_eq!(nonempty(Some(String::new())), None);
    assert_eq!(nonempty(Some("t".into())), Some("t".to_string()));
    assert_eq!(nonempty(None), None);
}

#[test]
fn raw_records_come_in_trust_order() {
    let m = merge(
        "1.1.1.1",
        vec![
            ("ipapi".into(), Ok(record("ipapi", "C", 3))),
            ("ipsb".into(), Ok(record("ipsb", "B", 2))),
            ("ipinfo".into(), Ok(record("ipinfo", "A", 1))),
        ],
    );
    let order: Vec<&str> = m.raw.iter().map(|d| d.source_id.as_str()).collect();
    assert_eq!(order, vec!["ipinfo", "ipsb", "ipapi"]);
    assert_eq!(m.city.as_deref(), Some("A"));
    let order: Vec<&str> = m.sources.iter().map(|s| s.id.as_str()).collect();
    assert_eq!(order, vec!["ipapi", "ipsb", "ipinfo"]);
}

#[test]
fn conclusions_never_empty() {
    let m = merge("9.9.9.9", vec![]);
    assert!(!ipano::heuristics::conclude(&m, Lang::En).is_empty());
    assert!(!ipano::heuristics::conclude(&m, Lang::Zh).is_empty());
}

#[test]
fn ipv4_text_reads_back() {
    for (a, b, c, d) in [(0u8, 0u8, 0u8, 0u8), (1, 2, 3, 4), (10, 100, 200, 255), (255, 255, 255, 255), (9, 99, 100, 109)] {
        let ip = Ipv4Addr::new(a, b, c, d);
        assert_eq!(Ipv4Addr::parse(&ip.to_text()), Some(ip));
    }
}

#[test]
fn routes_shown_telecom_unicom_mobile_keeping_all() {
    let mk = |c: Carrier, name: &str| route_result(c, City::Beijing, name, Ipv4Addr::new(1, 1, 1, 1), Ok(Vec::new()));
    let rs = vec![
        mk(Carrier::Mobile, "m1"),
        mk(Carrier::Telecom, "t1"),
        mk(Carrier::Unicom, "u1"),
        mk(Carrier::Mobile, "m2"),
        mk(Carrier::Telecom, "t2"),
    ];
    let out = order_by_carrier(rs);
    let names: Vec<&str> = out.iter().map(|r| r.target_name.as_str()).collect();
    assert_eq!(names, vec!["t1", "t2", "u1", "m1", "m2"]);
}

#[test]
fn menu_answers_name_each_section_once() {
    match ipano::interactive::parse_input(" 3, 2,3 ,2,7,7 ") {
        ipano::interactive::Action::Run(v) => assert_eq!(
            v,
            vec![
                ipano::interactive::Section::Probe,
                ipano::interactive::Section::Raw,
                ipano::interactive::Section::Speedtest
            ]
        ),
        other => panic!("unexpected {:?}", other),
    }
    match ipano::interactive::parse_input("a\n") {
        ipano::interactive::Action::Run(v) => assert!(!v.contains(&ipano::interactive::Section::Speedtest)),
        other => panic!("unexpected {:?}", other),
    }
}

#[test]
fn risk_marks_line_and_risk_table() {
    let empty = merge("1.1.1.1", vec![]);
    assert!(!has_risk(&empty));
    assert_eq!(risk_flags(&empty), "—");
    let mut d = SourceData::new("ipinfo");
    d.ip_type = Some(IpType::Hosting);
    d.is_proxy = Some(true);
    d.is_tor = Some(false);
    d.is_bogon = Some(true);
    let m = merge("1.1.1.1", vec![("ipinfo".into(), Ok(d))]);
    assert!(has_risk(&m));
    assert_eq!(risk_flags(&m), "机房 代理 Bogon");
    let mut c = SourceData::new("ipinfo");
    c.is_cloud = Some(true);
    let m = merge("1.1.1.1", vec![("ipinfo".into(), Ok(c))]);
    assert!(has_risk(&m));
    assert_eq!(risk_flags(&m), "云");
}

#[test]
fn carrier_line_ignores_order_and_repeats() {
    assert_eq!(classify_line(Carrier::Telecom, &[4134, 4809]), LineType::Cn2);
    assert_eq!(classify_line(Carrier::Telecom, &[4809, 4134, 4809]), LineType::Cn2);
    assert_eq!(classify_line(Carrier::Mobile, &[9808, 58453]), classify_line(Carrier::Mobile, &[58453, 9808, 9808]));
    assert_eq!(classify_line(Carrier::Unicom, &[4837]), LineType::China169);
    assert_eq!(classify_line(Carrier::Unicom, &[4837, 9929]), LineType::Cuii9929);
}

#[test]
fn joined_speedtest_selection_keeps_first_then_new() {
    let cat = catalog();
    let ids = |spec: &str| match parse_spec(spec, &cat).unwrap() {
        Selection::Nodes(v) => v.iter().map(|n| n.id).collect::<Vec<u32>>(),
        Selection::List => panic!("unexpected list"),
    };
    let a = ids("hk,jp");
    let b = ids("jp,sg");
    let mut expected = a.clone();
    for x in b {
        if !expected.contains(&x) {
            expected.push(x);
        }
    }
    assert_eq!(ids("hk,jp,jp,sg"), expected);
}

#[test]
fn joined_speedtest_specs_with_spaces() {
    let cat = catalog();
    let ids = |spec: &str| match parse_spec(spec, &cat).unwrap() {
        Selection::Nodes(v) => v.iter().map(|n| n.id).collect::<Vec<u32>>(),
        Selection::List => panic!("unexpected list"),
    };
    let a = ids("  cu , hk ");
    let b = ids(" HK,sg  ");
    let mut expected = a.clone();
    for x in b {
        if !expected.contains(&x) {
            expected.push(x);
        }
    }
    assert_eq!(ids("  cu , hk , HK,sg  "), expected);
}
