//! Worker pool sizing.
use vstd::prelude::*;

use crate::text::{chars_of, parse_unsigned, parse_unsigned_exec, slice_of};

verus! {

/// Default worker count when no override is given.
pub const DEFAULT_WORKERS: usize = 4;

/// The fewest and the most workers a pool may have.
pub const MIN_WORKERS: usize = 1;

pub const MAX_WORKERS: usize = 16;

/// `str::parse::<usize>`: an optional `+` and one or more decimal digits,
/// within range.
pub open spec fn parse_count(s: Seq<char>) -> Option<nat> {
    if s.len() > 0 && s[0] == '+' {
        parse_unsigned(s.drop_first(), usize::MAX as nat)
    } else {
        parse_unsigned(s, usize::MAX as nat)
    }
}

/// The pool size for an override text (none when unset): the parsed value,
/// else [`DEFAULT_WORKERS`], clamped to `1..=16`.
pub open spec fn worker_count_of(value: Option<Seq<char>>) -> nat {
    let n = match value {
        Some(s) => match parse_count(s) {
            Some(n) => n,
            None => DEFAULT_WORKERS as nat,
        },
        None => DEFAULT_WORKERS as nat,
    };
    if n < MIN_WORKERS {
        MIN_WORKERS as nat
    } else if n > MAX_WORKERS {
        MAX_WORKERS as nat
    } else {
        n
    }
}

/// Resolves the worker count from the override text, if any.
pub fn worker_count(value: Option<&str>) -> (r: usize)
    ensures
        r == worker_count_of(match value {
            Some(s) => Some(s@),
            None => None,
        }),
        MIN_WORKERS <= r <= MAX_WORKERS,
{
    let n: usize = match value {
        Some(s) => {
            let v = chars_of(s);
            let digits = if v.len() > 0 && v[0] == '+' {
                let d = slice_of(&v, 1, v.len());
                assert(d@ =~= v@.drop_first());
                d
            } else {
                v
            };
            match parse_unsigned_exec(&digits, usize::MAX as u64) {
                Some(x) => x as usize,
                None => DEFAULT_WORKERS,
            }
        },
        None => DEFAULT_WORKERS,
    };
    if n < MIN_WORKERS {
        MIN_WORKERS
    } else if n > MAX_WORKERS {
        MAX_WORKERS
    } else {
        n
    }
}

} // verus!
