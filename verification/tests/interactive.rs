use ipano::cli::Args;
use ipano::i18n::Lang;
use ipano::interactive::{apply_sections, parse_input, render_menu, should_enter_menu, Action, Section};

#[test]
fn parse_input_runs_report_only_for_enter_or_one() {
    assert_eq!(parse_input(""), Action::Run(vec![]));
    assert_eq!(parse_input("1"), Action::Run(vec![]));
}

#[test]
fn parse_input_maps_single_sections() {
    assert_eq!(parse_input("2"), Action::Run(vec![Section::Raw]));
    assert_eq!(parse_input("3"), Action::Run(vec![Section::Probe]));
    assert_eq!(parse_input("4"), Action::Run(vec![Section::Mail]));
    assert_eq!(parse_input("5"), Action::Run(vec![Section::Route]));
    assert_eq!(parse_input("6"), Action::Run(vec![Section::Dnsbl]));
    assert_eq!(parse_input("7"), Action::Run(vec![Section::Speedtest]));
}

#[test]
fn parse_input_all_setip_quit_and_multiselect() {
    assert_eq!(
        parse_input("A"),
        Action::Run(vec![
            Section::Raw,
            Section::Probe,
            Section::Mail,
            Section::Route,
            Section::Dnsbl,
        ])
    );
    assert_eq!(parse_input("a"), parse_input("A"));
    assert_eq!(parse_input("I"), Action::SetIp);
    assert_eq!(parse_input("i"), Action::SetIp);
    assert_eq!(parse_input("Q"), Action::Quit);
    assert_eq!(parse_input("q"), Action::Quit);
    assert_eq!(
        parse_input(" 3 , 6 "),
        Action::Run(vec![Section::Probe, Section::Dnsbl])
    );
    assert_eq!(
        parse_input("1,3,6"),
        Action::Run(vec![Section::Probe, Section::Dnsbl])
    );
}

#[test]
fn parse_input_reprompts_for_invalid_values() {
    assert!(matches!(parse_input("9"), Action::Reprompt(_)));
    assert!(matches!(parse_input("xyz"), Action::Reprompt(_)));
    assert!(matches!(parse_input("3,xyz"), Action::Reprompt(_)));
}

#[test]
fn apply_sections_sets_only_selected_flags() {
    let mut args = base_args();
    args.probe = true;

    apply_sections(
        &mut args,
        &[Section::Raw, Section::Dnsbl, Section::Speedtest],
    );

    assert!(args.raw);
    assert!(!args.probe);
    assert!(!args.mail);
    assert!(!args.route);
    assert!(args.dnsbl);
    assert_eq!(args.speedtest.as_deref(), Some(""));
}

#[test]
fn should_enter_menu_only_for_tty_without_function_flags() {
    let mut args = base_args();
    assert!(should_enter_menu(&args, true));
    assert!(!should_enter_menu(&args, false));

    args.lang = Some("en".to_string());
    args.no_color = true;
    args.timeout = Some(5);
    args.ping0_token = Some("token".to_string());
    args.four = true;
    assert!(should_enter_menu(&args, true));

    args.ip = Some("1.1.1.1".to_string());
    assert!(!should_enter_menu(&args, true));
}

#[test]
fn should_enter_menu_rejects_each_function_flag_and_report() {
    let mut args = base_args();
    args.json = true;
    assert!(!should_enter_menu(&args, true));

    let mut args = base_args();
    args.markdown = true;
    assert!(!should_enter_menu(&args, true));

    let mut args = base_args();
    args.raw = true;
    assert!(!should_enter_menu(&args, true));

    let mut args = base_args();
    args.probe = true;
    assert!(!should_enter_menu(&args, true));

    let mut args = base_args();
    args.mail = true;
    assert!(!should_enter_menu(&args, true));

    let mut args = base_args();
    args.route = true;
    assert!(!should_enter_menu(&args, true));

    let mut args = base_args();
    args.dnsbl = true;
    assert!(!should_enter_menu(&args, true));

    let mut args = base_args();
    args.speedtest = Some(String::new());
    assert!(!should_enter_menu(&args, true));

    let mut args = base_args();
    args.all = true;
    assert!(!should_enter_menu(&args, true));

    let mut args = base_args();
    args.report = true;
    assert!(!should_enter_menu(&args, true));
}

#[test]
fn render_menu_shows_target_and_items_in_zh_and_en() {
    let zh = render_menu(None, Lang::Zh);
    assert!(zh.contains("本机出口"));
    assert!(zh.contains("1."));
    assert!(zh.contains("逐源质量详表"));
    assert!(zh.contains("A."));
    assert!(zh.contains("退出"));

    let en = render_menu(None, Lang::En);
    assert!(en.contains("Local egress"));
    assert!(en.contains("Raw source details"));
    assert!(en.contains("Quit"));

    let ip = "1.1.1.1".to_string();
    let en_with_ip = render_menu(Some(ip.as_str()), Lang::En);
    assert!(en_with_ip.contains("1.1.1.1"));
}

fn base_args() -> Args {
    Args {
        ip: None,
        four: false,
        six: false,
        json: false,
        markdown: false,
        raw: false,
        lang: None,
        all: false,
        probe: false,
        mail: false,
        route: false,
        dnsbl: false,
        speedtest: None,
        ping0_token: None,
        no_color: false,
        timeout: None,
        report: false,
    }
}
