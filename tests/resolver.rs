use dns_sync::resolver::{after_probe, first_step, ip_sources, ResolveStep, ResponseShape};

#[test]
fn json_sources_come_before_the_text_fallback() {
    let s = ip_sources();
    assert_eq!(s.len(), 4);
    assert_eq!(s[0].url, "https://api.ipify.org?format=json");
    assert!(s[..3].iter().all(|x| x.shape == ResponseShape::Json));
    assert_eq!(s[3].url, "https://ipinfo.io/ip");
    assert_eq!(s[3].shape, ResponseShape::PlainText);
}

#[test]
fn failure_moves_to_next_source() {
    let s = ip_sources();
    assert!(matches!(first_step(&s), ResolveStep::Probe(0)));
    assert!(matches!(after_probe(&s, 0, None), ResolveStep::Probe(1)));
    assert!(matches!(after_probe(&s, 2, None), ResolveStep::Probe(3)));
    assert!(matches!(after_probe(&s, 3, None), ResolveStep::Failed));
}

#[test]
fn json_answer_resolves_as_is() {
    let s = ip_sources();
    match after_probe(&s, 1, Some("203.0.113.5".to_string())) {
        ResolveStep::Resolved(ip) => assert_eq!(ip, "203.0.113.5"),
        _ => panic!("expected an address"),
    }
}

#[test]
fn text_answer_is_trimmed() {
    let s = ip_sources();
    match after_probe(&s, 3, Some("  198.51.100.9\n".to_string())) {
        ResolveStep::Resolved(ip) => assert_eq!(ip, "198.51.100.9"),
        _ => panic!("expected an address"),
    }
}

#[test]
fn no_sources_fails_at_once() {
    assert!(matches!(first_step(&vec![]), ResolveStep::Failed));
}
