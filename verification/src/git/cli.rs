//! Classifying failures of the `git` command line.
use vstd::prelude::*;

use crate::git::error::{GitError, GitErrorV};
use crate::text::{chars_of, contains, contains_str, lowercase_of, string_of, to_lowercase, trim, trim_exec};
#[allow(unused_imports)]
use vstd::view::View as _;

verus! {

/// The error a failed `git` run's stderr stands for, given the stderr and
/// its lower-cased form: authentication when the lower-cased text mentions a
/// failed login or missing credentials, a conflict when it mentions one,
/// else a backend failure; each carries the trimmed stderr.
pub open spec fn classify_lowered_of(stderr: Seq<char>, lower: Seq<char>) -> GitErrorV {
    if contains(lower, "authentication failed"@) || contains(lower, "could not read username"@)
        || contains(lower, "permission denied (publickey)"@) || contains(
        lower,
        "terminal prompts disabled"@,
    ) {
        GitErrorV::Auth(trim(stderr))
    } else if contains(lower, "conflict"@) {
        GitErrorV::Conflict(trim(stderr))
    } else {
        GitErrorV::Backend(trim(stderr))
    }
}

/// The error a failed `git` run's stderr stands for, matched case-insensitively.
pub open spec fn classify_stderr_of(stderr: Seq<char>) -> GitErrorV {
    classify_lowered_of(stderr, lowercase_of(stderr))
}

/// Classifies `stderr` given its lower-cased form `lower`.
pub fn classify_lowered(stderr: &str, lower: &str) -> (r: GitError)
    ensures
        r.deep_view() == classify_lowered_of(stderr@, lower@),
{
    let lower = chars_of(lower);
    let t = string_of(&trim_exec(&chars_of(stderr)));
    if contains_str(&lower, "authentication failed") || contains_str(&lower, "could not read username")
        || contains_str(&lower, "permission denied (publickey)") || contains_str(
        &lower,
        "terminal prompts disabled",
    ) {
        GitError::Auth(t)
    } else if contains_str(&lower, "conflict") {
        GitError::Conflict(t)
    } else {
        GitError::Backend(t)
    }
}

/// Classifies a git CLI stderr string into a [`GitError`].
pub fn classify_stderr(stderr: &str) -> (r: GitError)
    ensures
        r.deep_view() == classify_stderr_of(stderr@),
{
    let lower = to_lowercase(stderr);
    classify_lowered(stderr, lower.as_str())
}

} // verus!
