use ipano::config::Config;

#[test]
fn config_default_is_all_none() {
    let c = Config::default();
    assert!(c.lang.is_none());
    assert!(c.timeout.is_none());
    assert!(c.always.is_none());
}
