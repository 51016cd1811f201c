//! Reading `git log` output with tab-separated fields.
use vstd::prelude::*;

use crate::dup::vec_push;
use crate::git::service::{CommitInfo, CommitInfoV};
use crate::text::{
    chars_of, field, field_exec, lines, lines_exec, parse_i64, parse_signed, splitn, splitn_exec,
    string_of, views,
};
#[allow(unused_imports)]
use vstd::view::View as _;

verus! {

/// The commit of one `oid<TAB>summary<TAB>author<TAB>time[...]` line split
/// into at most `n` fields; a missing field is empty and a time that is not
/// an `i64` is 0.
pub open spec fn log_line_of(line: Seq<char>, n: nat) -> CommitInfoV {
    let parts = splitn(line, n, '\t');
    CommitInfoV {
        oid: field(parts, 0),
        summary: field(parts, 1),
        author: field(parts, 2),
        time: match parse_signed(field(parts, 3), i64::MAX as nat) {
            Some(t) => t as i64,
            None => 0,
        },
    }
}

pub open spec fn log_upto(ls: Seq<Seq<char>>, n: nat, k: int) -> Seq<CommitInfoV>
    decreases k,
{
    if k <= 0 {
        seq![]
    } else if ls[k - 1].len() > 0 {
        log_upto(ls, n, k - 1).push(log_line_of(ls[k - 1], n))
    } else {
        log_upto(ls, n, k - 1)
    }
}

/// The commits of `git log` output, one per non-empty line.
pub open spec fn log_of(out: Seq<char>, n: nat) -> Seq<CommitInfoV> {
    let ls = lines(out);
    log_upto(ls, n, ls.len() as int)
}

/// Reads `git log --format=%H%x09%s%x09%an%x09%at…` output, splitting each
/// line into at most `fields` tab-separated fields.
pub fn parse_log(out: &str, fields: usize) -> (r: Vec<CommitInfo>)
    ensures
        r.deep_view() == log_of(out@, fields as nat),
{
    let ls = lines_exec(&chars_of(out));
    let ghost lv = views(ls@);
    let mut commits: Vec<CommitInfo> = Vec::new();
    assert(commits.deep_view() =~= log_upto(lv, fields as nat, 0));
    let mut i: usize = 0;
    while i < ls.len()
        invariant
            i <= ls.len(),
            lv == views(ls@),
            commits.deep_view() == log_upto(lv, fields as nat, i as int),
        decreases ls.len() - i,
    {
        let line = &ls[i];
        assert(lv[i as int] == line@);
        if line.len() > 0 {
            let parts = splitn_exec(line, fields, '\t');
            let time = match parse_i64(&field_exec(&parts, 3)) {
                Some(t) => t,
                None => 0,
            };
            let c = CommitInfo {
                oid: string_of(&field_exec(&parts, 0)),
                summary: string_of(&field_exec(&parts, 1)),
                author: string_of(&field_exec(&parts, 2)),
                time,
            };
            assert(c.deep_view() == log_line_of(line@, fields as nat));
            vec_push(&mut commits, c);
        }
        i = i + 1;
    }
    commits
}

} // verus!
