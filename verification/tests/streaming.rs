use ipano::probe::ProbeStatus;
use ipano::probe::streaming::{
    classify_abema, classify_bbc, classify_bilibili_cn, classify_bilibili_hktw, classify_crunchyroll,
    classify_dazn, classify_discovery, classify_disney, classify_funimation, classify_hbo, classify_hulu,
    classify_netflix, classify_paramount, classify_peacock, classify_prime, classify_spotify, classify_tvb,
    classify_iqiyi, classify_viu, classify_youtube, extract_cc, parse_kocowa, parse_tiktok,
};

#[test]
fn extract_cc_finds_two_letter() {
    assert_eq!(extract_cc(r#"{"countryCode":"JP"}"#, &[r#""countryCode":""#]), Some("JP".into()));
}

#[test]
fn extract_cc_uppercase() {
    assert_eq!(extract_cc(r#""country":"us""#, &[r#""country":""#]), Some("US".into()));
}

#[test]
fn extract_cc_skips_long() {
    // 4-letter sequence should be skipped
    assert_eq!(extract_cc(r#""country":"GLOB""#, &[r#""country":""#]), None);
}

#[test]
fn extract_cc_tries_keys_in_order() {
    let body = r#"{"other":"XX","countryCode":"JP"}"#;
    // second key should find it
    assert_eq!(extract_cc(body, &[r#""missing":""#, r#""countryCode":""#]), Some("JP".into()));
}

#[test]
fn netflix_200_unlocked_with_region() {
    let r = classify_netflix(200, r#"{"requestCountry":"US"}"#);
    assert_eq!(r.status, ProbeStatus::Unlocked);
    assert_eq!(r.region.as_deref(), Some("US"));
}

#[test]
fn netflix_200_unlocked_no_region() {
    let r = classify_netflix(200, "no region here");
    assert_eq!(r.status, ProbeStatus::Unlocked);
    assert_eq!(r.region, None);
}

#[test]
fn netflix_404_restricted() {
    let r = classify_netflix(404, "");
    assert_eq!(r.status, ProbeStatus::Restricted);
}

#[test]
fn netflix_403_blocked() {
    let r = classify_netflix(403, "");
    assert_eq!(r.status, ProbeStatus::Blocked);
}

#[test]
fn netflix_451_blocked() {
    let r = classify_netflix(451, "");
    assert_eq!(r.status, ProbeStatus::Blocked);
}

#[test]
fn youtube_blocked() {
    let r = classify_youtube("...Premium is not available in your country...");
    assert_eq!(r.status, ProbeStatus::Blocked);
}

#[test]
fn youtube_unlocked_with_region() {
    let r = classify_youtube(r#"{"countryCode":"JP"}"#);
    assert_eq!(r.status, ProbeStatus::Unlocked);
    assert_eq!(r.region.as_deref(), Some("JP"));
}

#[test]
fn disney_blocked_by_url() {
    let r = classify_disney(200, "", "https://www.disneyplus.com/not-available");
    assert_eq!(r.status, ProbeStatus::Blocked);
}

#[test]
fn disney_blocked_by_body() {
    let r = classify_disney(200, "Disney+ is not available in your region", "https://www.disneyplus.com/");
    assert_eq!(r.status, ProbeStatus::Blocked);
}

#[test]
fn disney_blocked_403() {
    let r = classify_disney(403, "", "https://www.disneyplus.com/");
    assert_eq!(r.status, ProbeStatus::Blocked);
}

#[test]
fn disney_unlocked_with_region() {
    let r = classify_disney(200, r#"{"countryCode":"US"}"#, "https://www.disneyplus.com/");
    assert_eq!(r.status, ProbeStatus::Unlocked);
    assert_eq!(r.region.as_deref(), Some("US"));
}

#[test]
fn abema_unlocked_jp() {
    let r = classify_abema(r#"{"country":"JP","continent":"AS"}"#);
    assert_eq!(r.status, ProbeStatus::Unlocked);
    assert_eq!(r.region.as_deref(), Some("JP"));
}

#[test]
fn abema_blocked_non_jp() {
    let r = classify_abema(r#"{"country":"US","continent":"NA"}"#);
    assert_eq!(r.status, ProbeStatus::Blocked);
    assert_eq!(r.region.as_deref(), Some("US"));
}

#[test]
fn bbc_unlocked() {
    let r = classify_bbc(200, r#"{"media":[{"connection":[]}]}"#);
    assert_eq!(r.status, ProbeStatus::Unlocked);
    assert_eq!(r.region.as_deref(), Some("GB"));
}

#[test]
fn bbc_blocked_selectionunavailable() {
    let r = classify_bbc(200, r#"{"result":["selectionunavailable"]}"#);
    assert_eq!(r.status, ProbeStatus::Blocked);
}

#[test]
fn bbc_blocked_403() {
    let r = classify_bbc(403, "");
    assert_eq!(r.status, ProbeStatus::Blocked);
}

#[test]
fn bilibili_cn_unlocked() {
    let r = classify_bilibili_cn(r#"{"code":0,"data":{"country_code":"CN"}}"#);
    assert_eq!(r.status, ProbeStatus::Unlocked);
    assert_eq!(r.region.as_deref(), Some("CN"));
}

#[test]
fn bilibili_cn_blocked_hk() {
    let r = classify_bilibili_cn(r#"{"code":0,"data":{"country_code":"HK"}}"#);
    assert_eq!(r.status, ProbeStatus::Blocked);
}

#[test]
fn bilibili_hktw_blocked_mainland() {
    let r = classify_bilibili_hktw(r#"{"code":-10403,"message":"大陆地区不可观看"}"#);
    assert_eq!(r.status, ProbeStatus::Blocked);
}

#[test]
fn bilibili_hktw_unlocked() {
    let r = classify_bilibili_hktw(r#"{"code":0,"result":{"play_url":{"durl":[]}}}"#);
    assert_eq!(r.status, ProbeStatus::Unlocked);
}

#[test]
fn dazn_unlocked() {
    let r = classify_dazn(r#"{"isAllowed":true,"Country":"DE"}"#);
    assert_eq!(r.status, ProbeStatus::Unlocked);
    assert_eq!(r.region.as_deref(), Some("DE"));
}

#[test]
fn dazn_blocked() {
    let r = classify_dazn(r#"{"isAllowed":false,"Country":"CN"}"#);
    assert_eq!(r.status, ProbeStatus::Blocked);
}

#[test]
fn hulu_unlocked_us() {
    let r = classify_hulu(200, "<html>Welcome to Hulu</html>");
    assert_eq!(r.status, ProbeStatus::Unlocked);
    assert_eq!(r.region.as_deref(), Some("US"));
}

#[test]
fn hulu_blocked_body() {
    let r = classify_hulu(200, "Hulu is not available outside the US. not available");
    assert_eq!(r.status, ProbeStatus::Blocked);
}

#[test]
fn hulu_blocked_403() {
    let r = classify_hulu(403, "");
    assert_eq!(r.status, ProbeStatus::Blocked);
}

#[test]
fn paramount_unlocked() {
    let r = classify_paramount(200, "https://www.paramountplus.com/");
    assert_eq!(r.status, ProbeStatus::Unlocked);
}

#[test]
fn paramount_blocked_url() {
    let r = classify_paramount(200, "https://www.paramountplus.com/not-available/");
    assert_eq!(r.status, ProbeStatus::Blocked);
}

#[test]
fn peacock_unlocked() {
    let r = classify_peacock(200, "<html>Peacock streaming</html>");
    assert_eq!(r.status, ProbeStatus::Unlocked);
    assert_eq!(r.region.as_deref(), Some("US"));
}

#[test]
fn peacock_blocked() {
    let r = classify_peacock(200, "Peacock is not available in your region");
    assert_eq!(r.status, ProbeStatus::Blocked);
}

#[test]
fn discovery_unlocked() {
    let r = classify_discovery(200, "https://www.discoveryplus.com/");
    assert_eq!(r.status, ProbeStatus::Unlocked);
}

#[test]
fn discovery_blocked() {
    let r = classify_discovery(200, "https://www.discoveryplus.com/not-available");
    assert_eq!(r.status, ProbeStatus::Blocked);
}

#[test]
fn spotify_unlocked_with_country() {
    let r = classify_spotify(200, r#"{"countryCode":"SE"}"#);
    assert_eq!(r.status, ProbeStatus::Unlocked);
    assert_eq!(r.region.as_deref(), Some("SE"));
}

#[test]
fn spotify_blocked_403() {
    let r = classify_spotify(403, "");
    assert_eq!(r.status, ProbeStatus::Blocked);
}

#[test]
fn tvb_unlocked() {
    assert_eq!(classify_tvb(200).status, ProbeStatus::Unlocked);
}

#[test]
fn tvb_blocked() {
    assert_eq!(classify_tvb(403).status, ProbeStatus::Blocked);
}

#[test]
fn funimation_unlocked() {
    let r = classify_funimation(200, "<html>Watch anime</html>");
    assert_eq!(r.status, ProbeStatus::Unlocked);
}

#[test]
fn funimation_blocked_body() {
    let r = classify_funimation(200, "not available in your region");
    assert_eq!(r.status, ProbeStatus::Blocked);
}

#[test]
fn crunchyroll_unlocked() {
    let r = classify_crunchyroll(200, "<html>Watch anime on Crunchyroll</html>");
    assert_eq!(r.status, ProbeStatus::Unlocked);
}

#[test]
fn crunchyroll_blocked_body() {
    let r = classify_crunchyroll(200, "Crunchyroll is not available in your region");
    assert_eq!(r.status, ProbeStatus::Blocked);
}

#[test]
fn prime_unlocked() {
    let r = classify_prime(200, r#"{"country":"US"}"#);
    assert_eq!(r.status, ProbeStatus::Unlocked);
    assert_eq!(r.region.as_deref(), Some("US"));
}

#[test]
fn prime_blocked_403() {
    let r = classify_prime(403, "");
    assert_eq!(r.status, ProbeStatus::Blocked);
}

#[test]
fn hbo_unlocked_with_country() {
    let r = classify_hbo(200, r#"{"countryCode":"US"}"#);
    assert_eq!(r.status, ProbeStatus::Unlocked);
    assert_eq!(r.region.as_deref(), Some("US"));
}

#[test]
fn hbo_blocked_body() {
    let r = classify_hbo(200, "not available in your country");
    assert_eq!(r.status, ProbeStatus::Blocked);
}

#[test]
fn iqiyi_status_mapping() {
    assert_eq!(classify_iqiyi(200).status, ProbeStatus::Unlocked);
    assert_eq!(classify_iqiyi(403).status, ProbeStatus::Blocked);
    assert_eq!(classify_iqiyi(500).status, ProbeStatus::Unknown);
}

#[test]
fn kocowa_branches() {
    assert_eq!(parse_kocowa(200, "ok").status, ProbeStatus::Unlocked);
    assert_eq!(parse_kocowa(200, "is not available in your region or country").status, ProbeStatus::Blocked);
    assert_eq!(parse_kocowa(403, "").status, ProbeStatus::Blocked);
}

#[test]
fn viu_status_mapping() {
    assert_eq!(classify_viu(200).status, ProbeStatus::Unlocked);
    assert_eq!(classify_viu(451).status, ProbeStatus::Blocked);
}

#[test]
fn tiktok_region_parse() {
    let r = parse_tiktok(200, r#"...,"region":"US",..."#);
    assert_eq!(r.status, ProbeStatus::Unlocked);
    assert_eq!(r.region.as_deref(), Some("us"));
    let hk = parse_tiktok(200, "go to https://www.tiktok.com/hk/notfound page");
    assert_eq!(hk.status, ProbeStatus::Blocked);
    assert_eq!(hk.region.as_deref(), Some("hk"));
    assert_eq!(parse_tiktok(403, "").status, ProbeStatus::Blocked);
}
