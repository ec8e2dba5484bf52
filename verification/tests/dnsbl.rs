use ipano::i18n::Lang;
use ipano::net::{IpAddr, Ipv4Addr, Ipv6Addr};
use ipano::probe::dnsbl::{is_listed_addr, lists, render_section, render_terminal, reverse_ipv4, DnsblResult};

#[test]
fn reverse_ipv4_standard() {
    let ip: Ipv4Addr = Ipv4Addr::parse("1.2.3.4").unwrap();
    assert_eq!(reverse_ipv4(ip), "4.3.2.1");
}

#[test]
fn reverse_ipv4_all_same() {
    let ip: Ipv4Addr = Ipv4Addr::parse("10.10.10.10").unwrap();
    assert_eq!(reverse_ipv4(ip), "10.10.10.10");
}

#[test]
fn reverse_ipv4_real() {
    // 8.8.8.8 → 8.8.8.8 (对称)
    let ip: Ipv4Addr = Ipv4Addr::parse("8.8.8.8").unwrap();
    assert_eq!(reverse_ipv4(ip), "8.8.8.8");
    // 192.168.1.100 → 100.1.168.192
    let ip2: Ipv4Addr = Ipv4Addr::parse("192.168.1.100").unwrap();
    assert_eq!(reverse_ipv4(ip2), "100.1.168.192");
}

#[test]
fn is_listed_addr_accepts_127() {
    assert!(is_listed_addr(&IpAddr::V4(Ipv4Addr::parse("127.0.0.2").unwrap())));
    assert!(is_listed_addr(&IpAddr::V4(Ipv4Addr::parse("127.0.0.10").unwrap())));
}

#[test]
fn is_listed_addr_rejects_non_127() {
    // ISP NXDOMAIN 劫持常返回门户 IP(非 127 段)→ 不算命中
    assert!(!is_listed_addr(&IpAddr::V4(Ipv4Addr::parse("1.2.3.4").unwrap())));
    assert!(!is_listed_addr(&IpAddr::V4(Ipv4Addr::parse("198.51.100.1").unwrap())));
    // IPv6 一律不算命中
    assert!(!is_listed_addr(&IpAddr::V6(Ipv6Addr { hi: 0, lo: 1 })));
}

#[test]
fn render_section_markdown() {
    let results = vec![
        DnsblResult { list: "zen.spamhaus.org".into(), listed: false },
    ];
    let out = render_section(&results, "8.8.8.8", ipano::i18n::Lang::En);
    assert!(out.contains("8.8.8.8"));
    assert!(out.contains("0/1"));
    assert!(out.contains("zen.spamhaus.org"));
}

#[test]
fn dnsbl_list_is_large_and_unique() {
    assert!(lists().len() >= 200, "DNSBL 列表应 >= 200, got {}", lists().len());
    let mut v: Vec<&str> = lists();
    let n = v.len(); v.sort_unstable(); v.dedup();
    assert_eq!(v.len(), n, "DNSBL 列表不应有重复");
}

#[test]
fn render_terminal_shows_summary() {
    let results = vec![
        DnsblResult { list: "zen.spamhaus.org".into(), listed: false },
        DnsblResult { list: "bl.spamcop.net".into(), listed: true },
    ];
    let out = render_terminal(&results, "1.2.3.4", Lang::Zh, true);
    assert!(out.contains("1/2"));
    assert!(out.contains("zen.spamhaus.org"));
    assert!(out.contains("命中"));
}

#[test]
fn terminal_summary_colours() {
    let clean = vec![DnsblResult { list: "a".into(), listed: false }];
    let out = render_terminal(&clean, "1.2.3.4", Lang::En, false);
    assert!(out.starts_with("═══ DNSBL reputation check 1.2.3.4 ═══\n\x1b[1m\x1b[32mListed in: 0/1\x1b[39m\x1b[0m\n"));
    let hit = vec![DnsblResult { list: "a".into(), listed: true }];
    let out = render_terminal(&hit, "1.2.3.4", Lang::En, false);
    assert!(out.contains("\x1b[1m\x1b[31mListed in: 1/1\x1b[39m\x1b[0m\n"));
    let plain = render_terminal(&hit, "1.2.3.4", Lang::En, true);
    assert!(plain.contains("\nListed in: 1/1\n"));
}
