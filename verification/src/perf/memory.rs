//! Reading a resident-set size out of process status text.
use vstd::prelude::*;

use crate::text::{
    char_is_ws, chars_of, is_ws, lines, lines_exec, parse_unsigned, parse_unsigned_exec, slice_of,
    starts_with, starts_with_exec, trim, trim_exec, trim_start, trim_start_exec, views,
};

verus! {

/// How many leading characters of `t`, from `i` on, are not whitespace.
pub open spec fn word_end(t: Seq<char>, i: nat) -> nat
    decreases t.len() - i,
{
    if i >= t.len() || is_ws(t[i as int]) {
        i
    } else {
        word_end(t, i + 1)
    }
}

/// The first whitespace-separated word of `s` (empty when there is none).
pub open spec fn first_word(s: Seq<char>) -> Seq<char> {
    let t = trim_start(s);
    t.take(word_end(t, 0) as int)
}

/// The kibibytes a status listing gives for `key`: the first word after the
/// key on the first line that starts with it, read as a `u64`.
pub open spec fn kib_in_lines(ls: Seq<Seq<char>>, key: Seq<char>) -> Option<nat>
    decreases ls.len(),
{
    if ls.len() == 0 {
        None
    } else if starts_with(ls[0], key) {
        parse_unsigned(first_word(ls[0].skip(key.len() as int)), u64::MAX as nat)
    } else {
        kib_in_lines(ls.drop_first(), key)
    }
}

/// The kibibytes `/proc/<pid>/status` text gives for `key` (such as `VmRSS:`).
pub open spec fn proc_kib_of(status: Seq<char>, key: Seq<char>) -> Option<nat> {
    kib_in_lines(lines(status), key)
}

/// The kibibytes the output of `ps -o rss=` gives: the trimmed text read as
/// a `u64`.
pub open spec fn ps_kib_of(out: Seq<char>) -> Option<nat> {
    parse_unsigned(trim(out), u64::MAX as nat)
}

fn first_word_exec(s: &Vec<char>) -> (r: Vec<char>)
    ensures
        r@ == first_word(s@),
{
    let t = trim_start_exec(s);
    let mut i: usize = 0;
    while i < t.len() && !char_is_ws(t[i])
        invariant
            i <= t.len(),
            word_end(t@, i as nat) == word_end(t@, 0),
        decreases t.len() - i,
    {
        i = i + 1;
    }
    let r = slice_of(&t, 0, i);
    assert(r@ =~= t@.take(i as int));
    r
}

/// Reads the kibibytes for `key` out of process status text.
pub fn proc_kib(status: &str, key: &str) -> (r: Option<u64>)
    ensures
        r matches Some(v) ==> proc_kib_of(status@, key@) == Some(v as nat),
        r is None ==> proc_kib_of(status@, key@) is None,
{
    let text = chars_of(status);
    let ls = lines_exec(&text);
    let k = chars_of(key);
    let ghost vs = views(ls@);
    assert(vs.skip(0) =~= vs);
    assert(vs == lines(status@));
    let mut i: usize = 0;
    while i < ls.len()
        invariant
            i <= ls.len(),
            vs == views(ls@),
            vs.len() == ls.len(),
            k@ == key@,
            kib_in_lines(vs.skip(i as int), key@) == proc_kib_of(status@, key@),
        decreases ls.len() - i,
    {
        let line = &ls[i];
        assert(vs.skip(i as int)[0] == line@);
        assert(vs.skip(i as int).drop_first() =~= vs.skip(i + 1));
        if starts_with_exec(line, &k) {
            let rest = slice_of(line, k.len(), line.len());
            assert(rest@ =~= line@.skip(k@.len() as int));
            return parse_unsigned_exec(&first_word_exec(&rest), u64::MAX);
        }
        i = i + 1;
    }
    None
}

/// Reads the kibibytes out of `ps -o rss=` output.
pub fn ps_kib(out: &str) -> (r: Option<u64>)
    ensures
        r matches Some(v) ==> ps_kib_of(out@) == Some(v as nat),
        r is None ==> ps_kib_of(out@) is None,
{
    parse_unsigned_exec(&trim_exec(&chars_of(out)), u64::MAX)
}

} // verus!
