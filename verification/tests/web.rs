use ipano::probe::ProbeStatus;
use ipano::probe::web::{
    parse_apple, parse_bing, parse_google_search, parse_onetrust, parse_reddit, parse_steam, parse_wikipedia,
};

#[test]
fn bing_region_parse() {
    let r = parse_bing(200, r#"x Region:"US" y"#);
    assert_eq!(r.status, ProbeStatus::Unlocked);
    assert_eq!(r.region.as_deref(), Some("us"));
    assert_eq!(parse_bing(403, "").status, ProbeStatus::Blocked);
}

#[test]
fn bing_cn_detect() {
    let r = parse_bing(200, "redirect to cn.bing.com here");
    assert_eq!(r.region.as_deref(), Some("cn"));
}

#[test]
fn google_search_branches() {
    assert_eq!(parse_google_search(429, "").status, ProbeStatus::Unknown);
    assert_eq!(parse_google_search(429, "").info.as_deref(), Some("Rate Limited"));
    assert_eq!(parse_google_search(200, "results").status, ProbeStatus::Unlocked);
    assert_eq!(parse_google_search(200, "unusual traffic from your network").status, ProbeStatus::Blocked);
    assert_eq!(parse_google_search(403, "").status, ProbeStatus::Blocked);
}

#[test]
fn reddit_branches() {
    assert_eq!(parse_reddit(200, "").status, ProbeStatus::Unlocked);
    assert_eq!(parse_reddit(302, "").status, ProbeStatus::Unlocked);
    assert_eq!(parse_reddit(403, "you have been blocked").status, ProbeStatus::Blocked);
    assert_eq!(parse_reddit(429, "").info.as_deref(), Some("Rate Limited"));
}

#[test]
fn wikipedia_branches() {
    assert_eq!(parse_wikipedia(200).status, ProbeStatus::Unlocked);
    assert_eq!(parse_wikipedia(429).info.as_deref(), Some("Rate Limited"));
    assert_eq!(parse_wikipedia(403).status, ProbeStatus::Blocked);
}

#[test]
fn onetrust_parse() {
    let body = r#"{"country":"US","stateName":"California"}"#;
    let r = parse_onetrust(200, body);
    assert_eq!(r.status, ProbeStatus::Unlocked);
    assert_eq!(r.region.as_deref(), Some("US California"));
    assert_eq!(parse_onetrust(200, "{}").status, ProbeStatus::Blocked);
}

#[test]
fn apple_parse() {
    let r = parse_apple(200, "US\n");
    assert_eq!(r.status, ProbeStatus::Unlocked);
    assert_eq!(r.region.as_deref(), Some("us"));
    assert_eq!(parse_apple(200, "US|extra").status, ProbeStatus::Blocked);
}

#[test]
fn steam_parse() {
    let r = parse_steam("foo=bar; steamCountry=US%7Cabc; path=/");
    assert_eq!(r.status, ProbeStatus::Unlocked);
    assert_eq!(r.region.as_deref(), Some("us"));
    assert_eq!(r.info.as_deref(), Some("Community Available"));
    assert_eq!(parse_steam("nothing=here").status, ProbeStatus::Blocked);
}

#[test]
fn steam_region_takes_two_characters() {
    let r = parse_steam("steamCountry=ÉXtra; path=/");
    assert_eq!(r.status, ProbeStatus::Unlocked);
    assert_eq!(r.region.as_deref(), Some("éx"));
    let r = parse_steam("steamCountry=中国; path=/");
    assert_eq!(r.status, ProbeStatus::Unlocked);
    assert_eq!(r.region.as_deref(), Some("中国"));
    assert_eq!(parse_steam("steamCountry=é").status, ProbeStatus::Blocked);
}
