use ipano::i18n::Lang;
use ipano::net::Ipv4Addr;
use ipano::probe::route::{
    asn_from_prefix, build_echo_request, classify_entry, classify_line, internet_checksum, is_public_v4, parse_icmp,
    refine_cn2, render_section, Carrier, City, Grade, Hop, IcmpKind, LineType, RouteResult,
};

#[test]
fn checksum_zero_for_self_consistent_packet() {
    // 一个含正确校验和的包,整体再算校验和应为 0
    let pkt = build_echo_request(0x1234, 7, 32);
    assert_eq!(internet_checksum(&pkt), 0);
}

#[test]
fn echo_request_has_type_and_seq() {
    let pkt = build_echo_request(0xABCD, 5, 16);
    assert_eq!(pkt.len(), 24);
    assert_eq!(pkt[0], 8); // echo request
    assert_eq!(u16::from_be_bytes([pkt[4], pkt[5]]), 0xABCD);
    assert_eq!(u16::from_be_bytes([pkt[6], pkt[7]]), 5);
}

#[test]
fn parse_echo_reply() {
    // 无 IP 头,直接 ICMP echo reply(type 0),seq=9
    let mut buf = vec![0u8; 8];
    buf[0] = 0;
    buf[6..8].copy_from_slice(&9u16.to_be_bytes());
    let info = parse_icmp(&buf).unwrap();
    assert_eq!(info.kind, IcmpKind::EchoReply);
    assert_eq!(info.seq, 9);
}

#[test]
fn parse_time_exceeded_extracts_inner_seq() {
    // 外层 ICMP type=11 + 内嵌原始 IP 头(20B)+ 原始 echo 前 8B(seq=4)
    let mut outer = vec![0u8; 8];
    outer[0] = 11; // time exceeded
    let mut inner_ip = vec![0u8; 20];
    inner_ip[0] = 0x45; // IPv4, IHL=5
    let mut inner_icmp = vec![0u8; 8];
    inner_icmp[0] = 8; // 原始 echo request
    inner_icmp[6..8].copy_from_slice(&4u16.to_be_bytes());
    let mut buf = outer.clone();
    buf.extend_from_slice(&inner_ip);
    buf.extend_from_slice(&inner_icmp);
    let info = parse_icmp(&buf).unwrap();
    assert_eq!(info.kind, IcmpKind::TimeExceeded);
    assert_eq!(info.seq, 4);
}

#[test]
fn parse_skips_outer_ip_header() {
    // 外层带 IPv4 头(RAW socket 形态)+ echo reply seq=2
    let mut buf = vec![0u8; 20];
    buf[0] = 0x45;
    let mut icmp = vec![0u8; 8];
    icmp[0] = 0;
    icmp[6..8].copy_from_slice(&2u16.to_be_bytes());
    buf.extend_from_slice(&icmp);
    let info = parse_icmp(&buf).unwrap();
    assert_eq!(info.kind, IcmpKind::EchoReply);
    assert_eq!(info.seq, 2);
}

#[test]
fn classify_picks_premium_cn2_over_163() {
    // 路径里既有 163(4134)又有 CN2(4809),应识别为 CN2
    let lt = classify_line(Carrier::Telecom, &[4134, 4809, 4134]);
    assert_eq!(lt, LineType::Cn2);
}

#[test]
fn classify_unicom_9929() {
    assert_eq!(classify_line(Carrier::Unicom, &[4837, 9929]), LineType::Cuii9929);
    assert_eq!(classify_line(Carrier::Unicom, &[4837]), LineType::China169);
}

#[test]
fn classify_mobile_cmi_vs_cmnet() {
    assert_eq!(classify_line(Carrier::Mobile, &[9808, 58453]), LineType::Cmi);
    assert_eq!(classify_line(Carrier::Mobile, &[9808]), LineType::Cmnet);
}

#[test]
fn classify_ignores_other_carrier_asns() {
    // 给电信传联通的 ASN,识别不到电信骨干 → Unknown
    assert_eq!(classify_line(Carrier::Telecom, &[4837, 9929]), LineType::Unknown);
}

#[test]
fn entry_picks_dominant_backbone_any_carrier() {
    // 路径经联通 CUG(10099)+169(4837):入境线取优先级最高者 = CUG,不限运营商
    assert_eq!(classify_entry(&[4837, 10099, 9808]), LineType::Cug);
    // 目标是电信(无电信骨干)→ 该运营商回程线 Unknown,但入境线仍能识别其它家骨干
    assert_eq!(classify_line(Carrier::Telecom, &[10099, 4847]), LineType::Unknown);
    // 4847(CUII 族,prio 8)优先级高于 CUG(prio 7),入境线取 CUII
    assert_eq!(classify_entry(&[10099, 4847]), LineType::Cuii9929);
}

#[test]
fn classify_extended_asn_unicom_mobile() {
    // 补全的联通 169 骨干 4808/17623
    assert_eq!(classify_line(Carrier::Unicom, &[4808]), LineType::China169);
    assert_eq!(classify_line(Carrier::Unicom, &[17623]), LineType::China169);
    // 补全的移动 CMNET 骨干 56048/134774
    assert_eq!(classify_line(Carrier::Mobile, &[56048]), LineType::Cmnet);
    assert_eq!(classify_line(Carrier::Mobile, &[134774]), LineType::Cmnet);
}

#[test]
fn mobile_cmin2_is_premium_and_beats_cmnet() {
    // AS58807 = 移动 CMIN2 精品(prio 9),路径同时有 CMNET(9808)时取 CMIN2
    assert_eq!(classify_line(Carrier::Mobile, &[9808, 58807]), LineType::Cmin2);
    assert_eq!(LineType::Cmin2.grade(), Grade::Boutique);
    // 58807 归属移动(历史误标联通,已纠正):给联通分类应识别不到
    assert_eq!(classify_line(Carrier::Unicom, &[58807]), LineType::Unknown);
}

#[test]
fn line_grade_labels() {
    // 三档:精品(CN2 GIA / 移动 CMIN2)> 优质(CN2 / 联通 9929)> 普通(163/169/CMI/CMNET)
    assert_eq!(LineType::Cn2gia.grade(), Grade::Boutique);
    assert_eq!(LineType::Cmin2.grade(), Grade::Boutique);
    assert_eq!(LineType::Cn2.grade(), Grade::Premium);
    assert_eq!(LineType::Cuii9929.grade(), Grade::Premium);
    assert_eq!(LineType::Chinanet163.grade(), Grade::Standard);
    assert_eq!(LineType::Cmi.grade(), Grade::Standard);
    assert_eq!(LineType::Unknown.grade(), Grade::Unknown);
    // 括号标签
    assert_eq!(Grade::Boutique.label(Lang::Zh), "[精品线路]");
    assert_eq!(Grade::Premium.label(Lang::En), "[Premium]");
}

#[test]
fn cn2_gia_gt_refine() {
    // 含 59.43 且不绕 163 → GIA
    let gia = refine_cn2(LineType::Cn2, &[
        Ipv4Addr::new(59, 43, 130, 1),
        Ipv4Addr::new(202, 96, 209, 133),
    ]);
    assert_eq!(gia, LineType::Cn2gia);
    // 含 59.43 且绕 202.97(163 骨干)→ GT
    let gt = refine_cn2(LineType::Cn2, &[
        Ipv4Addr::new(202, 97, 50, 1),
        Ipv4Addr::new(59, 43, 12, 9),
    ]);
    assert_eq!(gt, LineType::Cn2gt);
    // 无 59.43 → 维持通用 CN2
    assert_eq!(refine_cn2(LineType::Cn2, &[Ipv4Addr::new(202, 97, 1, 1)]), LineType::Cn2);
    // 非 CN2 线路 → 原样返回,不误改
    assert_eq!(refine_cn2(LineType::China169, &[Ipv4Addr::new(59, 43, 1, 1)]), LineType::China169);
}

#[test]
fn asn_prefix_fallback() {
    assert_eq!(asn_from_prefix(Ipv4Addr::new(59, 43, 130, 1)), Some(4809));
    assert_eq!(asn_from_prefix(Ipv4Addr::new(202, 97, 50, 1)), Some(4134));
    assert_eq!(asn_from_prefix(Ipv4Addr::new(218, 105, 0, 1)), Some(9929));
    assert_eq!(asn_from_prefix(Ipv4Addr::new(219, 158, 1, 1)), Some(4837));
    // 223.120.16/17/19 = CMIN2,须先于宽前缀 223.120 → CMI 命中
    assert_eq!(asn_from_prefix(Ipv4Addr::new(223, 120, 19, 5)), Some(58807));
    assert_eq!(asn_from_prefix(Ipv4Addr::new(223, 120, 18, 5)), Some(58453));
    assert_eq!(asn_from_prefix(Ipv4Addr::new(223, 118, 0, 1)), Some(58453));
    // 非骨干前缀 → None
    assert_eq!(asn_from_prefix(Ipv4Addr::new(8, 8, 8, 8)), None);
}

#[test]
fn public_v4_filter() {
    assert!(is_public_v4(Ipv4Addr::new(219, 141, 136, 12)));
    assert!(!is_public_v4(Ipv4Addr::new(192, 168, 1, 1)));
    assert!(!is_public_v4(Ipv4Addr::new(10, 0, 0, 1)));
    assert!(!is_public_v4(Ipv4Addr::new(100, 64, 0, 1))); // CGNAT
    assert!(!is_public_v4(Ipv4Addr::new(127, 0, 0, 1)));
    assert!(!is_public_v4(Ipv4Addr::new(198, 18, 0, 1))); // 198.18/15 基准/Surge TUN
    assert!(!is_public_v4(Ipv4Addr::new(198, 19, 255, 1)));
}

#[test]
fn render_degraded_row() {
    let routes = vec![RouteResult {
        carrier: Carrier::Telecom,
        city: City::Beijing,
        target_name: "北京电信".into(),
        target: Ipv4Addr::new(219, 141, 136, 12),
        hops: vec![],
        line: LineType::Unknown,
        grade: Grade::Unknown,
        entry: LineType::Unknown,
        degraded: Some("需 root 运行".into()),
    }];
    let s = render_section(&routes, Lang::Zh);
    assert!(s.contains("三网回程路由"));
    assert!(s.contains("需 root 运行"));
    assert!(s.contains("北京电信"));
    // 有降级目标时应给出 sudo 重试提示
    assert!(s.contains("sudo"));
}

#[test]
fn render_hops_table() {
    let routes = vec![RouteResult {
        carrier: Carrier::Telecom,
        city: City::Beijing,
        target_name: "北京电信".into(),
        target: Ipv4Addr::new(219, 141, 136, 12),
        hops: vec![
            Hop { ttl: 1, addr: Some(Ipv4Addr::new(192, 168, 1, 1)), rtt_us: Some(800), asn: None, as_org: None, country: None, city: None },
            Hop { ttl: 2, addr: None, rtt_us: None, asn: None, as_org: None, country: None, city: None },
            Hop { ttl: 3, addr: Some(Ipv4Addr::new(219, 141, 136, 12)), rtt_us: Some(33200), asn: Some(4809), as_org: Some("Chinanet".into()), country: Some("CN".into()), city: Some("Beijing".into()) },
        ],
        line: LineType::Cn2,
        grade: LineType::Cn2.grade(),
        entry: LineType::Cn2,
        degraded: None,
    }];
    let s = render_section(&routes, Lang::Zh);
    assert!(s.contains("电信 CN2 (AS4809)"));
    assert!(s.contains("优质"));
    assert!(s.contains("AS4809"));
    assert!(s.contains("*")); // 无应答跳
    assert!(s.contains("33.2ms"));
}
