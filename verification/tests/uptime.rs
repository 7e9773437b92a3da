use dioxus_support::uptime::{format_uptime, PrettyUptime};

#[test]
fn uptime_padding() {
    assert_eq!(format_uptime(5, 7), "   5. 7s");
    assert_eq!(format_uptime(0, 0), "   0. 0s");
    assert_eq!(format_uptime(12345, 999), "12345.999s");
    assert_eq!(format_uptime(42, 10), "  42.10s");
}

#[test]
fn uptime_matches_std_formatting() {
    for (secs, millis) in [(0u64, 0u32), (9, 9), (10, 99), (999, 100), (1000, 5), (u64::MAX, 999)] {
        assert_eq!(format_uptime(secs, millis), format!("{:4}.{:2}s", secs, millis));
    }
}

#[test]
fn uptime_since_default_epoch() {
    let uptime = PrettyUptime::default();
    let text = uptime.format_time();
    assert!(text.starts_with("   0."));
    assert!(text.ends_with('s'));
}
