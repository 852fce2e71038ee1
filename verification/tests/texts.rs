use garlock::config::{FontConfig, GeneralConfig, IndicatorConfig};
use garlock::error::GarlockError;
use garlock::overlay::{caps_lock_text, cooldown_text, decimal_string, failed_attempts_text};

#[test]
fn defaults() {
    let g = GeneralConfig::default();
    assert_eq!(g.grace_period, 0);
    assert_eq!(g.pam_service, "garlock");
    assert_eq!(g.max_attempts, 3);
    assert_eq!(g.cooldown_seconds, 5);
    let i = IndicatorConfig::default();
    assert!(i.show_caps_lock);
    assert_eq!(i.caps_lock_text, "Caps Lock");
    assert!(i.show_failed_attempts);
    assert!(!i.show_time);
    assert_eq!(i.time_format, "%H:%M");
    let f = FontConfig::default();
    assert_eq!(f.family, "Sans");
    assert_eq!(f.size, 14);
}

#[test]
fn decimal_matches_display() {
    for n in [0u64, 7, 10, 42, 100, 9999, 123456789, u64::MAX] {
        assert_eq!(decimal_string(n), n.to_string());
    }
}

#[test]
fn caps_lock_warning() {
    let mut c = IndicatorConfig::default();
    assert_eq!(caps_lock_text(&c, true).as_deref(), Some("Caps Lock"));
    assert_eq!(caps_lock_text(&c, false), None);
    c.show_caps_lock = false;
    assert_eq!(caps_lock_text(&c, true), None);
}

#[test]
fn failed_attempts_wording() {
    let mut c = IndicatorConfig::default();
    assert_eq!(failed_attempts_text(&c, 0), None);
    assert_eq!(failed_attempts_text(&c, 1).as_deref(), Some("1 failed attempt"));
    assert_eq!(failed_attempts_text(&c, 2).as_deref(), Some("2 failed attempts"));
    assert_eq!(failed_attempts_text(&c, 13).as_deref(), Some("13 failed attempts"));
    c.show_failed_attempts = false;
    assert_eq!(failed_attempts_text(&c, 5), None);
}

#[test]
fn cooldown_wording() {
    assert_eq!(cooldown_text(0), None);
    assert_eq!(cooldown_text(5).as_deref(), Some("Try again in 5s"));
    assert_eq!(cooldown_text(120).as_deref(), Some("Try again in 120s"));
}

#[test]
fn error_messages() {
    assert_eq!(GarlockError::X11("no display".to_string()).message(), "X11 error: no display");
    assert_eq!(
        GarlockError::GrabFailed("busy".to_string()).message(),
        "Failed to grab input: busy"
    );
    assert_eq!(GarlockError::ConfigError("x".to_string()).message(), "Configuration error: x");
    assert_eq!(GarlockError::RenderError(String::new()).message(), "Rendering error: ");
}
