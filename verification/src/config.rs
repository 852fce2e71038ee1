//! Settings that the locker's logic reads, with their defaults.

use vstd::prelude::*;

verus! {

/// General settings.
#[derive(Debug, Clone)]
pub struct GeneralConfig {
    /// Grace period in seconds before password is required (0 to disable)
    pub grace_period: u32,
    /// PAM service name
    pub pam_service: String,
    /// Maximum failed attempts before cooldown
    pub max_attempts: u32,
    /// Cooldown duration in seconds per attempt over max
    pub cooldown_seconds: u32,
}

impl Default for GeneralConfig {
    fn default() -> (c: Self)
        ensures
            c.grace_period == 0,
            c.pam_service@ == "garlock"@,
            c.max_attempts == 3,
            c.cooldown_seconds == 5,
    {
        GeneralConfig {
            grace_period: 0,
            pam_service: String::from_str("garlock"),
            max_attempts: 3,
            cooldown_seconds: 5,
        }
    }
}

/// Indicator settings.
#[derive(Debug, Clone)]
pub struct IndicatorConfig {
    /// Show Caps Lock warning
    pub show_caps_lock: bool,
    /// Caps Lock warning text
    pub caps_lock_text: String,
    /// Show failed attempt count
    pub show_failed_attempts: bool,
    /// Show time on lock screen
    pub show_time: bool,
    /// Time format (strftime)
    pub time_format: String,
}

impl Default for IndicatorConfig {
    fn default() -> (c: Self)
        ensures
            c.show_caps_lock,
            c.caps_lock_text@ == "Caps Lock"@,
            c.show_failed_attempts,
            !c.show_time,
            c.time_format@ == "%H:%M"@,
    {
        IndicatorConfig {
            show_caps_lock: true,
            caps_lock_text: String::from_str("Caps Lock"),
            show_failed_attempts: true,
            show_time: false,
            time_format: String::from_str("%H:%M"),
        }
    }
}

/// Font settings.
#[derive(Debug, Clone)]
pub struct FontConfig {
    /// Font family
    pub family: String,
    /// Font size
    pub size: u32,
}

impl Default for FontConfig {
    fn default() -> (c: Self)
        ensures
            c.family@ == "Sans"@,
            c.size == 14,
    {
        FontConfig { family: String::from_str("Sans"), size: 14 }
    }
}

} // verus!
