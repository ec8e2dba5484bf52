use ipano::probe::ProbeStatus;
use ipano::probe::cdn::{parse_netflix_cdn, parse_youtube_cdn};

#[test]
fn netflix_cdn_parse() {
    let body = r#"{"targets":[{"location":{"city":"LA","country":"US"}}]}"#;
    let r = parse_netflix_cdn(200, body);
    assert_eq!(r.status, ProbeStatus::Unlocked);
    assert_eq!(r.region.as_deref(), Some("us"));
    let b = parse_netflix_cdn(403, "");
    assert_eq!(b.status, ProbeStatus::Blocked);
    assert_eq!(b.info.as_deref(), Some("IP Banned By Netflix"));
    assert_eq!(parse_netflix_cdn(200, "{}").status, ProbeStatus::Unknown);
}

#[test]
fn youtube_cdn_parse() {
    let r = parse_youtube_cdn(200, "router 1.2.3.4 => sault.<...>.googlevideo.com");
    assert_eq!(r.status, ProbeStatus::Unlocked);
    assert!(r.info.is_some());
    assert_eq!(parse_youtube_cdn(403, "").status, ProbeStatus::Blocked);
    assert_eq!(parse_youtube_cdn(200, "").status, ProbeStatus::Unknown);
}
