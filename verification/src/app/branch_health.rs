//! Branch Health classification (synced, ahead, behind, diverged, stale,
//! local) and its badge text.
use vstd::prelude::*;

use crate::app::model::BranchHealth;
use crate::text::{decimal, decimal_exec, push_all, push_str, string_of};

verus! {

/// Default stale threshold in days (age of the tip commit).
pub const STALE_DAYS_THRESHOLD: u32 = 30;

/// Seconds in a day.
pub const SECONDS_PER_DAY: i64 = 86_400;

/// Whole days from `timestamp` to `now`; none for a timestamp that is not
/// positive, lies in the future, or is too far back for a `u32`.
pub open spec fn days_since_of(timestamp: i64, now: i64) -> Option<u32> {
    if timestamp <= 0 || now < timestamp {
        None
    } else {
        let days = (now - timestamp) / (SECONDS_PER_DAY as int);
        if days <= u32::MAX {
            Some(days as u32)
        } else {
            None
        }
    }
}

/// Whole days elapsed since `timestamp` (unix seconds) relative to `now`.
pub fn days_since(timestamp: i64, now: i64) -> (r: Option<u32>)
    ensures
        r == days_since_of(timestamp, now),
{
    if timestamp <= 0 || now < timestamp {
        return None;
    }
    let days = (now - timestamp) / SECONDS_PER_DAY;
    if days <= u32::MAX as i64 {
        Some(days as u32)
    } else {
        None
    }
}

/// Stale wins when the tip is at least `threshold` days old; without an
/// upstream a branch is local; else ahead/behind decide.
pub open spec fn classify_health_of(
    ahead: u32,
    behind: u32,
    has_upstream: bool,
    stale_days: Option<u32>,
    threshold: u32,
) -> BranchHealth {
    if stale_days matches Some(d) && d >= threshold {
        BranchHealth::Stale
    } else if !has_upstream {
        BranchHealth::Local
    } else if ahead == 0 && behind == 0 {
        BranchHealth::Synced
    } else if behind == 0 {
        BranchHealth::Ahead
    } else if ahead == 0 {
        BranchHealth::Behind
    } else {
        BranchHealth::Diverged
    }
}

/// Classifies branch health. Stale wins when tip age reaches the threshold.
pub fn classify_health(
    ahead: u32,
    behind: u32,
    has_upstream: bool,
    stale_days: Option<u32>,
    threshold: u32,
) -> (r: BranchHealth)
    ensures
        r == classify_health_of(ahead, behind, has_upstream, stale_days, threshold),
{
    match stale_days {
        Some(d) => {
            if d >= threshold {
                return BranchHealth::Stale;
            }
        },
        None => {},
    }
    if !has_upstream {
        return BranchHealth::Local;
    }
    if ahead == 0 && behind == 0 {
        BranchHealth::Synced
    } else if behind == 0 {
        BranchHealth::Ahead
    } else if ahead == 0 {
        BranchHealth::Behind
    } else {
        BranchHealth::Diverged
    }
}

/// The badge text: `✓`, `↑a`, `↓b`, `↑a↓b`, `◌ Nd` (or `◌`), `local`.
pub open spec fn badge_of(health: BranchHealth, ahead: u32, behind: u32, stale_days: Option<u32>) -> Seq<char> {
    match health {
        BranchHealth::Synced => seq!['✓'],
        BranchHealth::Ahead => seq!['↑'] + decimal(ahead as nat),
        BranchHealth::Behind => seq!['↓'] + decimal(behind as nat),
        BranchHealth::Diverged => seq!['↑'] + decimal(ahead as nat) + seq!['↓'] + decimal(
            behind as nat,
        ),
        BranchHealth::Stale => match stale_days {
            Some(d) => seq!['◌', ' '] + decimal(d as nat) + seq!['d'],
            None => seq!['◌'],
        },
        BranchHealth::Local => seq!['l', 'o', 'c', 'a', 'l'],
    }
}

/// Formats the Branch Health badge text.
pub fn format_badge(health: BranchHealth, ahead: u32, behind: u32, stale_days: Option<u32>) -> (r:
    String)
    ensures
        r@ == badge_of(health, ahead, behind, stale_days),
{
    let mut out: Vec<char> = Vec::new();
    match health {
        BranchHealth::Synced => {
            out.push('✓');
        },
        BranchHealth::Ahead => {
            out.push('↑');
            push_all(&mut out, &decimal_exec(ahead as u64));
        },
        BranchHealth::Behind => {
            out.push('↓');
            push_all(&mut out, &decimal_exec(behind as u64));
        },
        BranchHealth::Diverged => {
            out.push('↑');
            push_all(&mut out, &decimal_exec(ahead as u64));
            out.push('↓');
            push_all(&mut out, &decimal_exec(behind as u64));
        },
        BranchHealth::Stale => {
            out.push('◌');
            match stale_days {
                Some(d) => {
                    out.push(' ');
                    push_all(&mut out, &decimal_exec(d as u64));
                    out.push('d');
                },
                None => {},
            }
        },
        BranchHealth::Local => {
            proof {
                reveal_strlit("local");
            }
            push_str(&mut out, "local");
        },
    }
    assert(out@ =~= badge_of(health, ahead, behind, stale_days));
    string_of(&out)
}

} // verus!
