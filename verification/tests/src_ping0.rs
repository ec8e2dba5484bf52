use ipano::model::{IpType, SourceError};
use ipano::sources::ping0::{is_challenge, parse, risk_after_label};

const CHALLENGE: &str = r#"<html><head>
    <script>window.AliyunCaptchaConfig={region:"cn"};</script></head>
    <body><div id="captcha-element" class="cf-turnstile"
    data-sitekey="0x4AAAAAAB01fdNepRQppzkd"></div></body></html>"#;

const PING0_HTML: &str = r#"<html><body>
    <div class="line"><span class="name">IP 风控值</span>
    <span class="value">41</span></div>
    <div class="line"><span class="name">IP 类型</span>
    <span class="value">原生 IP</span></div>
    </body></html>"#;

#[test]
fn detects_turnstile_challenge() {
    assert!(is_challenge(CHALLENGE));
    assert!(!is_challenge("<html><body>风控值 41</body></html>"));
}

#[test]
fn parse_extracts_risk_and_native() {
    let d = parse(PING0_HTML).unwrap();
    assert_eq!(d.risk_score, Some(41));
    assert_eq!(d.ip_type, Some(IpType::Native));
}

#[test]
fn parse_unrecognized_page_errors() {
    let err = parse("<html><body>欢迎</body></html>").unwrap_err();
    assert!(matches!(err, SourceError::Parse(_)));
}

#[test]
fn risk_label_rejects_out_of_range() {
    assert_eq!(risk_after_label("风控值 250 分", "风控值"), None);
    assert_eq!(risk_after_label("风控值 88 分", "风控值"), Some(88));
}
