use ipano::probe::ProbeStatus;
use ipano::probe::ai::{classify_anthropic, classify_openai};

#[test]
fn openai_status_mapping() {
    assert_eq!(classify_openai(200), ProbeStatus::Unlocked);
    assert_eq!(classify_openai(403), ProbeStatus::Blocked);
    assert_eq!(classify_openai(500), ProbeStatus::Unknown);
}

#[test]
fn anthropic_status_mapping() {
    assert_eq!(classify_anthropic(200), ProbeStatus::Unlocked);
    assert_eq!(classify_anthropic(403), ProbeStatus::Blocked);
    assert_eq!(classify_anthropic(500), ProbeStatus::Unknown);
}
