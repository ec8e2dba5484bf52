use ipano::i18n::Lang;
use ipano::probe::speedtest::{catalog, parse_spec, pick_host_from_json, render_catalog, Carrier, Selection, SpeedNode};

#[test]
fn catalog_is_sane() {
    let c = catalog();
    assert!(c.len() >= 40, "目录至少 40 个节点, got {}", c.len());
    let mut ids: Vec<u32> = c.iter().map(|n| n.id).filter(|&i| i != 0).collect();
    let n = ids.len();
    ids.sort_unstable(); ids.dedup();
    assert_eq!(ids.len(), n, "目录 id 不应重复");
    assert_eq!(c.iter().filter(|n| n.default).count(), 6, "默认集应为 6");
    assert!(c.iter().all(|n| n.host.is_some() || !n.search.is_empty()));
}

#[test]
fn parse_spec_empty_is_default_six() {
    let c = catalog();
    let sel = parse_spec("", &c).unwrap();
    match sel { Selection::Nodes(v) => assert_eq!(v.len(), 6), _ => panic!("应为 Nodes") }
}

#[test]
fn parse_spec_groups() {
    let c = catalog();
    let n = |s: &str| match parse_spec(s, &c).unwrap() { Selection::Nodes(v) => v.len(), _ => 0 };
    assert!(n("all") >= 40);
    let cn = n("cn"); let ct = n("ct"); let cu = n("cu"); let cm = n("cm");
    assert_eq!(cn, ct + cu + cm, "cn 应等于三网之和");
    assert!(n("hk") >= 3);
    assert_eq!(n("intl"), n("us") + n("jp") + n("sg"));
}

#[test]
fn parse_spec_ids_and_mixed_dedup() {
    let c = catalog();
    match parse_spec("5396,24447", &c).unwrap() {
        Selection::Nodes(v) => { assert_eq!(v.len(), 2); assert!(v.iter().any(|n| n.id == 5396)); }
        _ => panic!(),
    }
    match parse_spec("cn,5396", &c).unwrap() {
        Selection::Nodes(v) => {
            let cn = match parse_spec("cn", &c).unwrap() { Selection::Nodes(x) => x.len(), _ => 0 };
            assert_eq!(v.len(), cn);
        }
        _ => panic!(),
    }
}

#[test]
fn parse_spec_list_and_unknown() {
    let c = catalog();
    assert!(matches!(parse_spec("list", &c).unwrap(), Selection::List));
    assert!(parse_spec("mars", &c).is_err(), "未知关键字应报错");
    assert!(parse_spec("99999999", &c).is_err(), "未知 id 应报错");
}

#[test]
fn pick_host_matches_id() {
    let json = r#"[
      {"id":"5396","host":"a.example.net:8080","sponsor":"CT"},
      {"id":"16204","host":"b.example.com:8080","sponsor":"X"}
    ]"#;
    assert_eq!(pick_host_from_json(json, 5396).as_deref(), Some("a.example.net:8080"));
    assert_eq!(pick_host_from_json(json, 16204).as_deref(), Some("b.example.com:8080"));
    assert_eq!(pick_host_from_json(json, 99999), None);
    assert_eq!(pick_host_from_json("not json", 1), None);
}

#[test]
fn default_selection_is_hk_and_five_mainland_nodes() {
    let c = catalog();
    let mut ids: Vec<u32> = c.iter().filter(|n| n.default).map(|n| n.id).collect();
    ids.sort();
    assert_eq!(ids, vec![5396, 24447, 25637, 37639, 43752, 59386]);
    let hk = c.iter().find(|n| n.id == 37639).unwrap();
    assert_eq!(hk.carrier, ipano::probe::speedtest::Carrier::Hk);
}

#[test]
fn catalog_listing_shows_numbered_nodes_only() {
    let mut nodes = vec![catalog()[0].copy()];
    nodes.push(SpeedNode {
        id: 0,
        name: "Configured node".to_string(),
        carrier: Carrier::Telecom,
        search: String::new(),
        host: Some("example.net:8080".to_string()),
        default: false,
    });
    let out = render_catalog(&nodes, Lang::En);
    assert!(out.starts_with(
        "═══ Speedtest node catalog ═══\nSelect via --speedtest=<group/id,comma>, e.g. --speedtest=cn,jp\n"
    ));
    assert!(out.contains(&nodes[0].id.to_string()));
    assert!(out.contains(&nodes[0].name));
    assert!(out.contains("Carrier") && out.contains("Node"));
    assert!(!out.contains("Configured node"));
    assert!(out.ends_with("\n"));
    assert!(!out.contains('\u{1b}'));
}
