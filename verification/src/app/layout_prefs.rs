//! Path display for file lists: a dim parent directory and a bright name.
use vstd::prelude::*;

use crate::git::worktree::{file_name_exec, file_name_of, parent_exec, parent_of, slash};
use crate::text::{chars_of, string_of};

verus! {

/// `(parent, name)` of a path: the parent with a trailing `/` (empty when
/// there is no parent or it is empty), and the last segment (the whole text
/// when it has none).
pub open spec fn split_path_display_of(p: Seq<char>) -> (Seq<char>, Seq<char>) {
    let name = match file_name_of(p) {
        Some(n) => n,
        None => p,
    };
    let parent = match parent_of(p) {
        Some(q) => if q.len() > 0 {
            q + slash()
        } else {
            Seq::empty()
        },
        None => Seq::empty(),
    };
    (parent, name)
}

/// Splits a path into parent (dim) + file name (bright) for list display.
pub fn split_path_display(path: &str) -> (r: (String, String))
    ensures
        (r.0@, r.1@) == split_path_display_of(path@),
{
    let p = chars_of(path);
    let name = match file_name_exec(&p) {
        Some(n) => string_of(&n),
        None => string_of(&p),
    };
    let parent = match parent_exec(&p) {
        Some(q) => {
            if q.len() > 0 {
                let mut out = q;
                out.push('/');
                string_of(&out)
            } else {
                String::new()
            }
        },
        None => String::new(),
    };
    (parent, name)
}

} // verus!
