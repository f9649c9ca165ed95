use dns_sync::cache::DnsCache;
use dns_sync::clock::MILLIS_PER_HOUR;

const NOW: i64 = 1_700_000_000_000;

fn snapshot(checked: i64) -> DnsCache {
    DnsCache::new_at("home.example.com".to_string(), "A".to_string(), "203.0.113.5".to_string(), checked)
}

#[test]
fn expired_only_past_the_window() {
    let c = snapshot(NOW - 24 * MILLIS_PER_HOUR);
    assert!(!c.is_expired_at(NOW, 24));
    assert!(c.is_expired_at(NOW + 1, 24));
    assert!(c.is_expired_at(NOW, 23));
}

#[test]
fn zero_hours_is_always_expired() {
    let c = snapshot(NOW - 1);
    assert!(c.is_expired_at(NOW, 0));
    assert!(c.is_expired_at(NOW, -5));
}

#[test]
fn zero_hours_expires_a_snapshot_stamped_now() {
    let c = snapshot(NOW);
    assert!(c.is_expired_at(NOW, 0));
    assert!(c.is_expired_at(NOW - 1, -1));
    assert!(!c.is_expired_at(NOW, 1));
    assert!(snapshot(i64::MAX).is_expired(0));
}

#[test]
fn very_large_expiry_never_expires() {
    let c = snapshot(NOW - 10_000 * MILLIS_PER_HOUR);
    assert!(!c.is_expired_at(NOW, i64::MAX));
    assert!(!c.is_expired_at(i64::MAX, i64::MAX));
    assert!(!c.is_expired_at(NOW + 999_999 * MILLIS_PER_HOUR, 1_000_000_000));
}

#[test]
fn expired_with_clock_after_stamp() {
    let c = snapshot(0);
    assert!(c.is_expired(1));
    assert!(!c.is_expired(i64::MAX));
}

#[test]
fn matches_config_is_exact_and_case_sensitive() {
    let c = snapshot(NOW);
    assert!(c.matches_config("home.example.com", "A"));
    assert!(!c.matches_config("Home.example.com", "A"));
    assert!(!c.matches_config("home.example.com", "a"));
    assert!(!c.matches_config("home.example.com", "AAAA"));
    assert!(!c.matches_config("", ""));
}

#[test]
fn update_ip_bumps_both_stamps() {
    let mut c = snapshot(NOW);
    c.update_ip_at("198.51.100.9".to_string(), NOW + 7);
    assert_eq!(c.ip_address, "198.51.100.9");
    assert_eq!(c.last_checked, NOW + 7);
    assert_eq!(c.last_updated, NOW + 7);
}

#[test]
fn update_checked_keeps_last_update() {
    let mut c = snapshot(NOW);
    c.update_checked_at(NOW + 9);
    assert_eq!(c.last_checked, NOW + 9);
    assert_eq!(c.last_updated, NOW);
    assert_eq!(c.ip_address, "203.0.113.5");
}

#[test]
fn clock_stamps_are_current() {
    let mut c = DnsCache::new("n".to_string(), "A".to_string(), "1.1.1.1".to_string());
    assert!(c.last_checked > NOW);
    assert_eq!(c.last_checked, c.last_updated);
    c.update_ip("2.2.2.2".to_string());
    assert_eq!(c.ip_address, "2.2.2.2");
    assert!(c.last_updated <= c.last_checked);
    let before = c.last_updated;
    c.update_checked();
    assert!(c.last_checked >= before);
}
