use ipano::egress::majority;

#[test]
fn majority_picks_most_common() {
    let v = vec!["1.1.1.1".to_string(), "1.1.1.1".to_string(), "2.2.2.2".to_string()];
    assert_eq!(majority(&v), Some("1.1.1.1".to_string()));
}

#[test]
fn majority_empty_is_none() {
    assert_eq!(majority(&[]), None);
}
