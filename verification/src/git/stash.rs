//! Stash references and the reading of `git stash list` output.
use vstd::prelude::*;

use crate::dup::vec_push;
use crate::git::service::{StashEntry, StashEntryV};
use crate::text::{
    chars_of, decimal, decimal_exec, ends_with, lines, lines_exec, parse_unsigned,
    parse_unsigned_exec, push_all, push_str, slice_of, split_once, split_once_exec, starts_with,
    starts_with_str, string_of, views,
};
#[allow(unused_imports)]
use vstd::view::View as _;

verus! {

/// `stash@{<index>}`.
pub open spec fn stash_ref_of(index: usize) -> Seq<char> {
    "stash@{"@ + decimal(index as nat) + "}"@
}

/// The reference of the stash entry at `index`.
pub fn stash_ref(index: usize) -> (r: String)
    ensures
        r@ == stash_ref_of(index),
{
    let mut v: Vec<char> = Vec::new();
    push_str(&mut v, "stash@{");
    push_all(&mut v, &decimal_exec(index as u64));
    push_str(&mut v, "}");
    string_of(&v)
}

/// The index written in a `stash@{<n>}` name.
pub open spec fn stash_index_of(name: Seq<char>) -> Option<usize> {
    if starts_with(name, "stash@{"@) && name.len() >= 8 && name.last() == '}' {
        match parse_unsigned(name.subrange(7, name.len() - 1), usize::MAX as nat) {
            Some(v) => Some(v as usize),
            None => None,
        }
    } else {
        None
    }
}

pub open spec fn stash_upto(ls: Seq<Seq<char>>, k: int) -> Seq<StashEntryV>
    decreases k,
{
    if k <= 0 {
        seq![]
    } else {
        let prev = stash_upto(ls, k - 1);
        let line = ls[k - 1];
        if line.len() == 0 {
            prev
        } else {
            match split_once(line, '\t') {
                None => prev,
                Some((name, message)) => prev.push(
                    StashEntryV {
                        index: match stash_index_of(name) {
                            Some(i) => i,
                            None => prev.len() as usize,
                        },
                        message,
                    },
                ),
            }
        }
    }
}

/// The entries of `git stash list --format=%gd%x09%s` output: one per line
/// holding a tab, indexed by its `stash@{n}` name (else by its position).
pub open spec fn stash_list_of(out: Seq<char>) -> Seq<StashEntryV> {
    let ls = lines(out);
    stash_upto(ls, ls.len() as int)
}

fn stash_index(name: &Vec<char>) -> (r: Option<usize>)
    ensures
        r == stash_index_of(name@),
{
    proof {
        reveal_strlit("stash@{");
    }
    if starts_with_str(name, "stash@{") && name.len() >= 8 && name[name.len() - 1] == '}' {
        let inner = slice_of(name, 7, name.len() - 1);
        match parse_unsigned_exec(&inner, usize::MAX as u64) {
            Some(v) => Some(v as usize),
            None => None,
        }
    } else {
        None
    }
}

/// Reads `git stash list` output into entries.
pub fn parse_stash_list(out: &str) -> (r: Vec<StashEntry>)
    ensures
        r.deep_view() == stash_list_of(out@),
{
    let ls = lines_exec(&chars_of(out));
    let ghost lv = views(ls@);
    let mut entries: Vec<StashEntry> = Vec::new();
    assert(entries.deep_view() =~= stash_upto(lv, 0));
    let mut i: usize = 0;
    while i < ls.len()
        invariant
            i <= ls.len(),
            lv == views(ls@),
            entries.deep_view() == stash_upto(lv, i as int),
        decreases ls.len() - i,
    {
        let line = &ls[i];
        assert(lv[i as int] == line@);
        if line.len() > 0 {
            match split_once_exec(line, '\t') {
                None => {},
                Some((name, message)) => {
                    let index = match stash_index(&name) {
                        Some(k) => k,
                        None => entries.len(),
                    };
                    vec_push(&mut entries, StashEntry { index, message: string_of(&message) });
                },
            }
        }
        i = i + 1;
    }
    entries
}

} // verus!
