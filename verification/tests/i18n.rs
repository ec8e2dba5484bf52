use ipano::i18n::Lang;

#[test]
fn parse_en_variants() {
    assert_eq!(Lang::parse("en"), Lang::En);
    assert_eq!(Lang::parse("EN-US"), Lang::En);
    assert_eq!(Lang::parse("english"), Lang::En);
}

#[test]
fn parse_defaults_zh() {
    assert_eq!(Lang::parse("zh"), Lang::Zh);
    assert_eq!(Lang::parse("garbage"), Lang::Zh);
}

#[test]
fn pick_selects_language() {
    assert_eq!(Lang::Zh.pick("中", "en"), "中");
    assert_eq!(Lang::En.pick("中", "en"), "en");
}
