use ipano::probe::unlock_util::{between, extract_cookie, three_to_two};

#[test]
fn three_to_two_maps_common() {
    assert_eq!(three_to_two("USA"), "US");
    assert_eq!(three_to_two("jpn"), "JP");
    assert_eq!(three_to_two("ZZZ"), "ZZZ"); // 未知透传
}

#[test]
fn extract_cookie_picks_value() {
    let c = "foo=bar; steamCountry=US%7Cabc; path=/";
    assert_eq!(extract_cookie(c, "steamCountry").as_deref(), Some("US%7Cabc"));
    assert_eq!(extract_cookie(c, "missing"), None);
}

#[test]
fn between_extracts() {
    assert_eq!(between(r#","region":"jp","#, r#""region":""#, r#"""#), Some("jp"));
    assert_eq!(between("abc", "x", "y"), None);
}
