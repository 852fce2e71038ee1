//! The texts shown below the ring: the Caps Lock warning, the failed-attempt
//! count and the cooldown timer.

use vstd::prelude::*;

use crate::config::IndicatorConfig;

verus! {

/// The decimal digit character of `d`.
pub open spec fn digit_char(d: nat) -> char {
    if d == 0 {
        '0'
    } else if d == 1 {
        '1'
    } else if d == 2 {
        '2'
    } else if d == 3 {
        '3'
    } else if d == 4 {
        '4'
    } else if d == 5 {
        '5'
    } else if d == 6 {
        '6'
    } else if d == 7 {
        '7'
    } else if d == 8 {
        '8'
    } else {
        '9'
    }
}

/// The decimal representation of `n`, without leading zeros.
pub open spec fn decimal(n: nat) -> Seq<char>
    decreases n,
{
    if n < 10 {
        seq![digit_char(n)]
    } else {
        decimal(n / 10) + seq![digit_char(n % 10)]
    }
}

/// A one-character string holding the digit `d`.
fn digit_str(d: u64) -> (s: &'static str)
    requires
        d < 10,
    ensures
        s@ == seq![digit_char(d as nat)],
{
    proof {
        reveal_strlit("0");
        reveal_strlit("1");
        reveal_strlit("2");
        reveal_strlit("3");
        reveal_strlit("4");
        reveal_strlit("5");
        reveal_strlit("6");
        reveal_strlit("7");
        reveal_strlit("8");
        reveal_strlit("9");
    }
    if d == 0 {
        "0"
    } else if d == 1 {
        "1"
    } else if d == 2 {
        "2"
    } else if d == 3 {
        "3"
    } else if d == 4 {
        "4"
    } else if d == 5 {
        "5"
    } else if d == 6 {
        "6"
    } else if d == 7 {
        "7"
    } else if d == 8 {
        "8"
    } else {
        "9"
    }
}

/// `n` written in decimal.
pub fn decimal_string(n: u64) -> (s: String)
    ensures
        s@ == decimal(n as nat),
    decreases n,
{
    if n < 10 {
        String::from_str(digit_str(n))
    } else {
        let mut s = decimal_string(n / 10);
        s.append(digit_str(n % 10));
        s
    }
}

/// The Caps Lock warning, when it is enabled and Caps Lock is on.
pub fn caps_lock_text(config: &IndicatorConfig, caps_active: bool) -> (t: Option<String>)
    ensures
        match t {
            Some(s) => config.show_caps_lock && caps_active && s@ == config.caps_lock_text@,
            None => !config.show_caps_lock || !caps_active,
        },
{
    if !config.show_caps_lock || !caps_active {
        return None;
    }
    Some(config.caps_lock_text.clone())
}

/// The failed-attempt count, when it is enabled and there was a failure:
/// "1 failed attempt", "N failed attempts".
pub fn failed_attempts_text(config: &IndicatorConfig, attempts: u32) -> (t: Option<String>)
    ensures
        match t {
            Some(s) => config.show_failed_attempts && attempts > 0 && s@ == if attempts == 1 {
                "1 failed attempt"@
            } else {
                decimal(attempts as nat) + " failed attempts"@
            },
            None => !config.show_failed_attempts || attempts == 0,
        },
{
    if !config.show_failed_attempts || attempts == 0 {
        return None;
    }
    if attempts == 1 {
        Some(String::from_str("1 failed attempt"))
    } else {
        let mut s = decimal_string(attempts as u64);
        s.append(" failed attempts");
        Some(s)
    }
}

/// The cooldown timer, while seconds remain: "Try again in Ns".
pub fn cooldown_text(seconds_remaining: u64) -> (t: Option<String>)
    ensures
        match t {
            Some(s) => seconds_remaining > 0 && s@ == "Try again in "@ + decimal(
                seconds_remaining as nat,
            ) + "s"@,
            None => seconds_remaining == 0,
        },
{
    if seconds_remaining == 0 {
        return None;
    }
    let mut s = String::from_str("Try again in ");
    s.append(decimal_string(seconds_remaining).as_str());
    s.append("s");
    Some(s)
}

} // verus!
