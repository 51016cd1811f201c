//! Resolve git remote URLs into browser commit / file / line links.
//!
//! Host detection is local (no API): GitHub, GitLab, Bitbucket, or a generic
//! GitHub-shaped fallback for unknown HTTPS remotes.
use vstd::prelude::*;

use crate::dup::Dup;
use crate::text::{
    before_char, before_char_exec, chars_of, contains, contains_str, decimal, decimal_exec, ends_with,
    ends_with_str, lower_ascii_exec, lower_ascii_seq, push_all, push_str, seq_eq, slice_of,
    split_once, split_once_exec, starts_with, starts_with_str, string_of, trim, trim_end_pat,
    trim_end_pat_exec, trim_exec, trim_start_char, trim_start_char_exec,
};

verus! {

/// Recognized web host family.
#[derive(Debug, Clone, Copy, PartialEq, Eq)]
pub enum WebHostKind {
    GitHub,
    GitLab,
    Bitbucket,
    /// HTTPS remote on an unknown host: GitHub-like path shapes.
    Unknown,
}

/// Parsed remote suitable for building web URLs.
#[derive(Debug, Clone, PartialEq, Eq)]
pub struct RemoteWeb {
    pub kind: WebHostKind,
    /// Origin without `.git`, e.g. `https://github.com/owner/repo`.
    pub web_base: String,
}

pub struct RemoteWebV {
    pub kind: WebHostKind,
    pub web_base: Seq<char>,
}

impl DeepView for RemoteWeb {
    type V = RemoteWebV;

    open spec fn deep_view(&self) -> RemoteWebV {
        RemoteWebV { kind: self.kind, web_base: self.web_base@ }
    }
}

impl Dup for RemoteWeb {
    fn dup(&self) -> (r: RemoteWeb) {
        RemoteWeb { kind: self.kind, web_base: self.web_base.clone() }
    }
}

/// Host family of a host name (compared case-insensitively).
pub open spec fn host_kind(host: Seq<char>) -> WebHostKind {
    let h = lower_ascii_seq(host);
    if h == "github.com"@ || ends_with(h, ".github.com"@) {
        WebHostKind::GitHub
    } else if h == "gitlab.com"@ || contains(h, "gitlab"@) {
        WebHostKind::GitLab
    } else if h == "bitbucket.org"@ || contains(h, "bitbucket"@) {
        WebHostKind::Bitbucket
    } else {
        WebHostKind::Unknown
    }
}

/// A repository path with trailing `/`s and then trailing `.git`s removed.
pub open spec fn repo_path_of(path: Seq<char>) -> Seq<char> {
    trim_end_pat(trim_end_pat(path, "/"@), ".git"@)
}

/// The remote for `scheme://host/path`, unless the cleaned path is empty.
pub open spec fn remote_for(scheme: Seq<char>, host: Seq<char>, path: Seq<char>) -> Option<
    RemoteWebV,
> {
    let p = repo_path_of(path);
    if p.len() == 0 {
        None
    } else {
        Some(
            RemoteWebV { kind: host_kind(host), web_base: scheme + "://"@ + host + "/"@ + p },
        )
    }
}

/// Parsing a git remote URL: scp-like `git@host:path`, `ssh://[git@]host[:port]/path`,
/// or `http[s]://host[:port]/path`. Local paths and `file://` give `None`.
pub open spec fn remote_of(url: Seq<char>) -> Option<RemoteWebV> {
    let u = trim(url);
    if u.len() == 0 || starts_with(u, "/"@) || starts_with(u, "file://"@) {
        None
    } else if starts_with(u, "git@"@) {
        match split_once(u.skip(4), ':') {
            Some((host, path)) => remote_for("https"@, host, path),
            None => None,
        }
    } else if starts_with(u, "ssh://"@) {
        let rest = if starts_with(u, "ssh://git@"@) {
            u.skip(10)
        } else {
            u.skip(6)
        };
        match split_once(trim_start_char(rest, '/'), '/') {
            Some((host, path)) => remote_for("https"@, before_char(host, ':'), path),
            None => None,
        }
    } else if starts_with(u, "https://"@) || starts_with(u, "http://"@) {
        let https = starts_with(u, "https://"@);
        let rest = if https {
            u.skip(8)
        } else {
            u.skip(7)
        };
        let scheme = if https {
            "https"@
        } else {
            "http"@
        };
        match split_once(trim_start_char(rest, '/'), '/') {
            Some((host, path)) => remote_for(scheme, before_char(host, ':'), path),
            None => None,
        }
    } else {
        None
    }
}

fn classify_host(host: &Vec<char>) -> (r: WebHostKind)
    ensures
        r == host_kind(host@),
{
    let h = lower_ascii_exec(host);
    let gh = chars_of("github.com");
    let gl = chars_of("gitlab.com");
    let bb = chars_of("bitbucket.org");
    if seq_eq(&h, &gh) || ends_with_str(&h, ".github.com") {
        WebHostKind::GitHub
    } else if seq_eq(&h, &gl) || contains_str(&h, "gitlab") {
        WebHostKind::GitLab
    } else if seq_eq(&h, &bb) || contains_str(&h, "bitbucket") {
        WebHostKind::Bitbucket
    } else {
        WebHostKind::Unknown
    }
}

fn remote_for_exec(scheme: &str, host: &Vec<char>, path: &Vec<char>) -> (r: Option<RemoteWeb>)
    ensures
        r.deep_view() == remote_for(scheme@, host@, path@),
{
    let slash = chars_of("/");
    let dotgit = chars_of(".git");
    let p1 = trim_end_pat_exec(path, &slash);
    let p = trim_end_pat_exec(&p1, &dotgit);
    if p.len() == 0 {
        return None;
    }
    let mut base: Vec<char> = Vec::new();
    push_str(&mut base, scheme);
    push_str(&mut base, "://");
    push_all(&mut base, host);
    push_str(&mut base, "/");
    push_all(&mut base, &p);
    assert(base@ == scheme@ + "://"@ + host@ + "/"@ + p@);
    Some(RemoteWeb { kind: classify_host(host), web_base: string_of(&base) })
}

/// Parses a git remote URL into a [`RemoteWeb`].
///
/// Returns `None` for local paths, `file://` URLs, or unparseable input.
pub fn parse_remote_url(url: &str) -> (r: Option<RemoteWeb>)
    ensures
        r.deep_view() == remote_of(url@),
{
    let raw = chars_of(url);
    let u = trim_exec(&raw);
    if u.len() == 0 || starts_with_str(&u, "/") || starts_with_str(&u, "file://") {
        return None;
    }
    let n = u.len();
    proof {
        reveal_strlit("git@");
        reveal_strlit("ssh://");
        reveal_strlit("ssh://git@");
        reveal_strlit("https://");
        reveal_strlit("http://");
    }
    if starts_with_str(&u, "git@") {
        let rest = slice_of(&u, 4, n);
        assert(rest@ == u@.skip(4));
        match split_once_exec(&rest, ':') {
            Some((host, path)) => remote_for_exec("https", &host, &path),
            None => None,
        }
    } else if starts_with_str(&u, "ssh://") {
        let rest = if starts_with_str(&u, "ssh://git@") {
            slice_of(&u, 10, n)
        } else {
            slice_of(&u, 6, n)
        };
        let rest = trim_start_char_exec(&rest, '/');
        match split_once_exec(&rest, '/') {
            Some((host, path)) => {
                let h = before_char_exec(&host, ':');
                remote_for_exec("https", &h, &path)
            },
            None => None,
        }
    } else if starts_with_str(&u, "https://") || starts_with_str(&u, "http://") {
        let https = starts_with_str(&u, "https://");
        let rest = if https {
            slice_of(&u, 8, n)
        } else {
            slice_of(&u, 7, n)
        };
        let rest = trim_start_char_exec(&rest, '/');
        match split_once_exec(&rest, '/') {
            Some((host, path)) => {
                let h = before_char_exec(&host, ':');
                if https {
                    remote_for_exec("https", &h, &path)
                } else {
                    remote_for_exec("http", &h, &path)
                }
            },
            None => None,
        }
    } else {
        None
    }
}

/// Commit page URL text.
pub open spec fn commit_url_of(web: RemoteWebV, oid: Seq<char>) -> Seq<char> {
    match web.kind {
        WebHostKind::GitLab => web.web_base + "/-/commit/"@ + oid,
        WebHostKind::Bitbucket => web.web_base + "/commits/"@ + oid,
        _ => web.web_base + "/commit/"@ + oid,
    }
}

/// File-at-revision URL text.
pub open spec fn file_url_of(web: RemoteWebV, rev: Seq<char>, path: Seq<char>) -> Seq<char> {
    let p = trim_start_char(path, '/');
    match web.kind {
        WebHostKind::GitLab => web.web_base + "/-/blob/"@ + rev + "/"@ + p,
        WebHostKind::Bitbucket => web.web_base + "/src/"@ + rev + "/"@ + p,
        _ => web.web_base + "/blob/"@ + rev + "/"@ + p,
    }
}

/// File + line URL text.
pub open spec fn line_url_of(web: RemoteWebV, rev: Seq<char>, path: Seq<char>, line: u32) -> Seq<
    char,
> {
    match web.kind {
        WebHostKind::Bitbucket => file_url_of(web, rev, path) + "#lines-"@ + decimal(line as nat),
        _ => file_url_of(web, rev, path) + "#L"@ + decimal(line as nat),
    }
}

/// Commit page URL for `oid`.
pub fn commit_url(web: &RemoteWeb, oid: &str) -> (r: String)
    ensures
        r@ == commit_url_of(web.deep_view(), oid@),
{
    let mut v = chars_of(web.web_base.as_str());
    match web.kind {
        WebHostKind::GitLab => push_str(&mut v, "/-/commit/"),
        WebHostKind::Bitbucket => push_str(&mut v, "/commits/"),
        _ => push_str(&mut v, "/commit/"),
    }
    push_str(&mut v, oid);
    string_of(&v)
}

/// File-at-revision URL (`rev` may be a branch or oid).
pub fn file_url(web: &RemoteWeb, rev: &str, path: &str) -> (r: String)
    ensures
        r@ == file_url_of(web.deep_view(), rev@, path@),
{
    let pv = chars_of(path);
    let p = trim_start_char_exec(&pv, '/');
    let mut v = chars_of(web.web_base.as_str());
    match web.kind {
        WebHostKind::GitLab => push_str(&mut v, "/-/blob/"),
        WebHostKind::Bitbucket => push_str(&mut v, "/src/"),
        _ => push_str(&mut v, "/blob/"),
    }
    push_str(&mut v, rev);
    push_str(&mut v, "/");
    push_all(&mut v, &p);
    string_of(&v)
}

/// File + line URL.
pub fn line_url(web: &RemoteWeb, rev: &str, path: &str, line: u32) -> (r: String)
    ensures
        r@ == line_url_of(web.deep_view(), rev@, path@, line),
{
    let base = file_url(web, rev, path);
    let mut v = chars_of(base.as_str());
    match web.kind {
        WebHostKind::Bitbucket => push_str(&mut v, "#lines-"),
        _ => push_str(&mut v, "#L"),
    }
    let d = decimal_exec(line as u64);
    push_all(&mut v, &d);
    string_of(&v)
}

} // verus!
