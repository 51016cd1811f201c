//! Commit metadata and changed files.
//!
//! The git CLI prints the header (`%H\t%an\t%at\t%s`), the body and the
//! `diff-tree --name-status` listing; [`parse_commit`] turns them into a
//! [`CommitDetail`].
use vstd::prelude::*;

use super::error::{GitError, GitErrorV};
use crate::dup::{result_dv, Dup};
use crate::text::{
    chars_of, field, field_exec, lines, lines_exec, parse_i64, parse_signed, splitn, splitn_exec,
    string_of, trim, trim_exec, views,
};

verus! {

/// Full commit detail for the Context Panel.
#[derive(Debug, Clone, PartialEq, Eq)]
pub struct CommitDetail {
    pub oid: String,
    pub summary: String,
    pub author: String,
    pub timestamp: i64,
    pub body: String,
    pub files: Vec<CommitFileChange>,
}

/// A path changed in a commit.
#[derive(Debug, Clone, PartialEq, Eq)]
pub struct CommitFileChange {
    pub status: char,
    pub path: String,
}

pub struct CommitDetailV {
    pub oid: Seq<char>,
    pub summary: Seq<char>,
    pub author: Seq<char>,
    pub timestamp: i64,
    pub body: Seq<char>,
    pub files: Seq<CommitFileChangeV>,
}

pub struct CommitFileChangeV {
    pub status: char,
    pub path: Seq<char>,
}

impl DeepView for CommitFileChange {
    type V = CommitFileChangeV;

    open spec fn deep_view(&self) -> CommitFileChangeV {
        CommitFileChangeV { status: self.status, path: self.path@ }
    }
}

impl DeepView for CommitDetail {
    type V = CommitDetailV;

    open spec fn deep_view(&self) -> CommitDetailV {
        CommitDetailV {
            oid: self.oid@,
            summary: self.summary@,
            author: self.author@,
            timestamp: self.timestamp,
            body: self.body@,
            files: self.files.deep_view(),
        }
    }
}

impl Dup for CommitFileChange {
    fn dup(&self) -> (r: CommitFileChange) {
        CommitFileChange { status: self.status, path: self.path.clone() }
    }
}

impl Dup for CommitDetail {
    fn dup(&self) -> (r: CommitDetail) {
        CommitDetail {
            oid: self.oid.clone(),
            summary: self.summary.clone(),
            author: self.author.clone(),
            timestamp: self.timestamp,
            body: self.body.clone(),
            files: self.files.dup(),
        }
    }
}

/// A `--name-status` line `S\tpath`: the status letter and the trimmed path.
pub open spec fn name_status_of(line: Seq<char>) -> Option<CommitFileChangeV> {
    let parts = splitn(line, 2, '\t');
    if parts.len() < 2 || parts[0].len() == 0 {
        None
    } else if trim(parts[1]).len() == 0 {
        None
    } else {
        Some(CommitFileChangeV { status: parts[0][0], path: trim(parts[1]) })
    }
}

/// The changed files listed by non-empty lines, in order.
pub open spec fn name_statuses(ls: Seq<Seq<char>>) -> Seq<CommitFileChangeV>
    decreases ls.len(),
{
    if ls.len() == 0 {
        seq![]
    } else {
        let rest = name_statuses(ls.drop_last());
        if ls.last().len() == 0 {
            rest
        } else {
            match name_status_of(ls.last()) {
                Some(f) => rest.push(f),
                None => rest,
            }
        }
    }
}

/// The timestamp field: a decimal `i64`, else `0`.
pub open spec fn timestamp_of(s: Seq<char>) -> i64 {
    match parse_signed(s, i64::MAX as nat) {
        Some(t) => t as i64,
        None => 0,
    }
}

/// Commit detail from the header line, body and name-status listing.
pub open spec fn commit_of(header: Seq<char>, body: Seq<char>, files_out: Seq<char>) -> Result<
    CommitDetailV,
    GitErrorV,
> {
    let ls = lines(header);
    if ls.len() == 0 {
        Err(GitErrorV::Backend("empty commit header"@))
    } else {
        let p = splitn(ls[0], 4, '\t');
        Ok(
            CommitDetailV {
                oid: field(p, 0),
                author: field(p, 1),
                timestamp: timestamp_of(field(p, 2)),
                summary: field(p, 3),
                body,
                files: name_statuses(lines(files_out)),
            },
        )
    }
}

pub fn parse_timestamp(s: &Vec<char>) -> (r: i64)
    ensures
        r == timestamp_of(s@),
{
    match parse_i64(s) {
        Some(t) => t,
        None => 0,
    }
}

/// Parses one `--name-status` line.
pub fn parse_name_status(line: &str) -> (r: Option<CommitFileChange>)
    ensures
        r.deep_view() == name_status_of(line@),
{
    let v = chars_of(line);
    let parts = splitn_exec(&v, 2, '\t');
    if parts.len() < 2 || parts[0].len() == 0 {
        return None;
    }
    assert(views(parts@)[0] == parts@[0]@);
    assert(views(parts@)[1] == parts@[1]@);
    let p = trim_exec(&parts[1]);
    if p.len() == 0 {
        return None;
    }
    Some(CommitFileChange { status: parts[0][0], path: string_of(&p) })
}

/// Parses the CLI outputs of one commit into a [`CommitDetail`].
pub fn parse_commit(header: &str, body: String, files_out: &str) -> (r: Result<
    CommitDetail,
    GitError,
>)
    ensures
        result_dv(r) == commit_of(header@, body@, files_out@),
{
    let hv = chars_of(header);
    let ls = lines_exec(&hv);
    if ls.len() == 0 {
        return Err(GitError::Backend("empty commit header".to_string()));
    }
    assert(views(ls@)[0] == ls@[0]@);
    let p = splitn_exec(&ls[0], 4, '\t');
    let oid = field_exec(&p, 0);
    let author = field_exec(&p, 1);
    let ts = field_exec(&p, 2);
    let summary = field_exec(&p, 3);
    let fv = chars_of(files_out);
    let fl = lines_exec(&fv);
    let mut files: Vec<CommitFileChange> = Vec::new();
    let mut i: usize = 0;
    while i < fl.len()
        invariant
            i <= fl.len(),
            files.deep_view() == name_statuses(views(fl@).subrange(0, i as int)),
        decreases fl.len() - i,
    {
        proof {
            assert(views(fl@).subrange(0, i + 1).drop_last() == views(fl@).subrange(0, i as int));
            assert(views(fl@)[i as int] == fl@[i as int]@);
        }
        if fl[i].len() > 0 {
            let s = string_of(&fl[i]);
            match parse_name_status(s.as_str()) {
                Some(f) => {
                    let ghost before = files.deep_view();
                    files.push(f);
                    assert(files.deep_view() =~= before.push(f.deep_view()));
                },
                None => {},
            }
        }
        i = i + 1;
    }
    assert(views(fl@).subrange(0, fl@.len() as int) == views(fl@));
    Ok(
        CommitDetail {
            oid: string_of(&oid),
            summary: string_of(&summary),
            author: string_of(&author),
            timestamp: parse_timestamp(&ts),
            body,
            files,
        },
    )
}

} // verus!
