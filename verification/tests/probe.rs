use ipano::probe::{classify_native_dns, render_terminal, ProbeResult, ProbeStatus, UnlockType};

#[test]
fn classify_native_dns_match() {
    assert_eq!(classify_native_dns("JP", Some("JP")), UnlockType::Native);
    assert_eq!(classify_native_dns("jp", Some("JP")), UnlockType::Native);
}

#[test]
fn classify_native_dns_mismatch() {
    assert_eq!(classify_native_dns("US", Some("JP")), UnlockType::Dns);
}

#[test]
fn classify_native_dns_no_region() {
    assert_eq!(classify_native_dns("US", None), UnlockType::Unknown);
}

#[test]
fn run_all_with_native_check_sets_type() {
    // Pure structural test — no async needed for native check logic
    let r = ProbeResult::new("Test", ProbeStatus::Unlocked, Some("US".into()));
    assert_eq!(r.unlock_type, UnlockType::Unknown); // default before check
    let ut = classify_native_dns("US", r.region.as_deref());
    assert_eq!(ut, UnlockType::Native);
}

#[test]
fn terminal_table_counts_unlocked() {
    let results = vec![
        ProbeResult::new("Netflix", ProbeStatus::Unlocked, Some("JP".into())),
        ProbeResult::new("Hulu", ProbeStatus::Blocked, None),
    ];
    let out = render_terminal(&results, ipano::i18n::Lang::En, true);
    assert!(out.starts_with("═══ Streaming & AI unlock (1/2) ═══\n"));
    assert!(out.contains("Netflix"));
    assert!(out.contains("JP"));
    assert!(out.contains("—"));
    assert!(!out.contains("\x1b["));
    let coloured = render_terminal(&results, ipano::i18n::Lang::En, false);
    assert!(coloured.contains("\x1b["));
}
