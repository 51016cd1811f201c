//! Blame formatting for Smart Blame: a minimal chip and a hover detail.
use vstd::prelude::*;

use crate::app::model::{CommitSummary, CommitSummaryV};
use crate::text::{
    char_is_ws, chars_of, decimal, decimal_exec, is_ws, push_all, push_str, slice_of,
    string_of, trim_start, trim_start_exec,
};

verus! {

/// Bytes of a character in UTF-8.
pub open spec fn utf8_len(c: char) -> nat {
    if (c as u32) < 0x80 {
        1
    } else if (c as u32) < 0x800 {
        2
    } else if (c as u32) < 0x10000 {
        3
    } else {
        4
    }
}

/// Bytes of a text in UTF-8.
pub open spec fn byte_len(s: Seq<char>) -> nat
    decreases s.len(),
{
    if s.len() == 0 {
        0
    } else {
        byte_len(s.drop_last()) + utf8_len(s.last())
    }
}

/// Index of the first whitespace character at or after `i` (the length when
/// there is none).
pub open spec fn ws_from(s: Seq<char>, i: int) -> int
    decreases s.len() - i,
{
    if i >= s.len() {
        s.len() as int
    } else if is_ws(s[i]) {
        i
    } else {
        ws_from(s, i + 1)
    }
}

/// The first whitespace-separated word, or all of `s` when it has none.
pub open spec fn first_word(s: Seq<char>) -> Seq<char> {
    let t = trim_start(s);
    if t.len() == 0 {
        s
    } else {
        t.take(ws_from(t, 0))
    }
}

/// A text longer than `limit` bytes has a character boundary after `n` bytes.
pub open spec fn can_cut(w: Seq<char>, limit: nat, n: nat) -> bool {
    byte_len(w) > limit ==> exists|k: int| 0 <= k <= w.len() && byte_len(#[trigger] w.take(k)) == n
}

/// The characters that make up the first `n` bytes of `w` (at a boundary).
pub open spec fn byte_prefix(w: Seq<char>, n: nat) -> Seq<char> {
    w.take(choose|k: int| 0 <= k <= w.len() && byte_len(#[trigger] w.take(k)) == n)
}

/// A word longer than sixteen bytes can be cut after fifteen bytes.
pub open spec fn cuttable(w: Seq<char>) -> bool {
    can_cut(w, 16, 15)
}

/// The author shown: the first word, cut after fifteen bytes (and marked
/// `…`) when longer than sixteen.
pub open spec fn short_author(author: Seq<char>) -> Seq<char> {
    let w = first_word(author);
    if byte_len(w) > 16 {
        byte_prefix(w, 15) + seq!['…']
    } else {
        w
    }
}

/// Whole days from `timestamp` to `now` (none in the future).
pub open spec fn days_ago(timestamp: i64, now: i64) -> nat {
    if now <= timestamp {
        0
    } else {
        ((now - timestamp) / 86400) as nat
    }
}

/// `today`, `Nd`, `Nw`, `Nmo`, `Ny`.
pub open spec fn relative_short(days: nat) -> Seq<char> {
    if days == 0 {
        "today"@
    } else if days < 7 {
        decimal(days) + seq!['d']
    } else if days < 30 {
        decimal(days / 7) + seq!['w']
    } else if days < 365 {
        decimal(days / 30) + seq!['m', 'o']
    } else {
        decimal(days / 365) + seq!['y']
    }
}

/// `N <unit>` or `N <unit>s` followed by ` ago`.
pub open spec fn ago(n: nat, unit: Seq<char>) -> Seq<char> {
    if n == 1 {
        seq!['1', ' '] + unit + " ago"@
    } else {
        decimal(n) + seq![' '] + unit + seq!['s'] + " ago"@
    }
}

/// `today`, `1 day ago`, `N days ago`, then weeks, months and years.
pub open spec fn relative_long(days: nat) -> Seq<char> {
    if days == 0 {
        "today"@
    } else if days < 7 {
        ago(days, "day"@)
    } else if days < 30 {
        ago(days / 7, "week"@)
    } else if days < 365 {
        ago(days / 30, "month"@)
    } else {
        ago(days / 365, "year"@)
    }
}

/// An object id as shown: its first seven bytes when it is longer.
pub open spec fn short_oid(oid: Seq<char>) -> Seq<char> {
    if byte_len(oid) > 7 {
        byte_prefix(oid, 7)
    } else {
        oid
    }
}

pub open spec fn sep() -> Seq<char> {
    seq![' ', '·', ' ']
}

/// `Akira · 3d`.
pub open spec fn minimal_of(c: CommitSummaryV, now: i64) -> Seq<char> {
    short_author(c.author) + sep() + relative_short(days_ago(c.timestamp, now))
}

/// `Akira · 3 days ago · a182df0 · Optimize repository loading`.
pub open spec fn hover_of(c: CommitSummaryV, now: i64) -> Seq<char> {
    short_author(c.author) + sep() + relative_long(days_ago(c.timestamp, now)) + sep()
        + short_oid(c.oid) + sep() + c.summary
}

/// The commit's inputs stay within the ranges the formatter handles: the
/// age fits an `i64`, a long first author word can be cut at a character
/// boundary after fifteen bytes, and a long object id after seven.
pub open spec fn formattable(c: CommitSummaryV, now: i64) -> bool {
    &&& now <= c.timestamp || now - c.timestamp <= i64::MAX
    &&& cuttable(first_word(c.author))
    &&& can_cut(c.oid, 7, 7)
}

fn first_word_exec(s: &Vec<char>) -> (r: Vec<char>)
    ensures
        r@ == first_word(s@),
{
    let t = trim_start_exec(s);
    if t.len() == 0 {
        return slice_of(s, 0, s.len());
    }
    let mut i: usize = 0;
    while i < t.len() && !char_is_ws(t[i])
        invariant
            i <= t.len(),
            ws_from(t@, 0) == ws_from(t@, i as int),
        decreases t.len() - i,
    {
        i = i + 1;
    }
    slice_of(&t, 0, i)
}

pub(crate) fn utf8_len_exec(c: char) -> (r: u64)
    ensures
        r == utf8_len(c),
{
    if (c as u32) < 0x80 {
        1
    } else if (c as u32) < 0x800 {
        2
    } else if (c as u32) < 0x10000 {
        3
    } else {
        4
    }
}

proof fn lemma_byte_len_take(s: Seq<char>, k: int)
    requires
        0 <= k < s.len(),
    ensures
        byte_len(s.take(k + 1)) == byte_len(s.take(k)) + utf8_len(s[k]),
{
    assert(s.take(k + 1).drop_last() =~= s.take(k));
}

proof fn lemma_byte_len_mono(s: Seq<char>, a: int, b: int)
    requires
        0 <= a <= b <= s.len(),
    ensures
        byte_len(s.take(a)) <= byte_len(s.take(b)),
        a < b ==> byte_len(s.take(a)) < byte_len(s.take(b)),
    decreases b - a,
{
    if a < b {
        lemma_byte_len_take(s, b - 1);
        lemma_byte_len_mono(s, a, b - 1);
    }
}

/// Whether `w` is longer than `limit` bytes, and, when it is, the
/// characters of its first `n` bytes if a character boundary falls there.
pub fn cut_bytes(w: &Vec<char>, limit: u64, n: u64) -> (r: (bool, Option<Vec<char>>))
    requires
        n <= limit <= 16,
    ensures
        r.0 == (byte_len(w@) > limit),
        r.0 ==> (r.1 is Some <==> can_cut(w@, limit as nat, n as nat)),
        r.1 matches Some(p) ==> r.0 && p@ == byte_prefix(w@, n as nat),
        !r.0 ==> r.1 is None,
{
    let mut bytes: u64 = 0;
    let mut i: usize = 0;
    let mut cut: Option<usize> = None;
    assert(w@.take(0) =~= Seq::<char>::empty());
    while i < w.len() && bytes <= limit
        invariant
            n <= limit <= 16,
            i <= w.len(),
            bytes == byte_len(w@.take(i as int)),
            bytes <= limit + 4,
            cut is None ==> forall|k: int| 0 <= k < i ==> byte_len(#[trigger] w@.take(k)) != n,
            cut matches Some(k) ==> k < i && byte_len(w@.take(k as int)) == n,
        decreases w.len() - i,
    {
        proof {
            lemma_byte_len_take(w@, i as int);
        }
        if bytes == n && cut.is_none() {
            cut = Some(i);
        }
        bytes = bytes + utf8_len_exec(w[i]);
        i = i + 1;
    }
    let long = bytes > limit;
    proof {
        assert(w@.take(w.len() as int) =~= w@);
        lemma_byte_len_mono(w@, i as int, w.len() as int);
        if !long {
            assert(i == w.len());
        }
    }
    if !long {
        return (false, None);
    }
    proof {
        if can_cut(w@, limit as nat, n as nat) {
            let c = choose|k: int| 0 <= k <= w@.len() && byte_len(#[trigger] w@.take(k)) == n;
            if c >= i {
                lemma_byte_len_mono(w@, i as int, c);
            }
            assert(c < i);
            if let Some(k) = cut {
                if c < k as int {
                    lemma_byte_len_mono(w@, c, k as int);
                } else if c > k as int {
                    lemma_byte_len_mono(w@, k as int, c);
                }
                assert(c == k);
            }
        }
        if let Some(k) = cut {
            assert(0 <= k <= w@.len() && byte_len(w@.take(k as int)) == n);
        }
    }
    match cut {
        Some(k) => (true, Some(slice_of(w, 0, k))),
        None => (true, None),
    }
}

/// Whether `s` can be cut after `n` bytes whenever it is longer than `limit`.
pub fn byte_cut_ok(s: &str, limit: u64, n: u64) -> (r: bool)
    requires
        n <= limit <= 16,
    ensures
        r == can_cut(s@, limit as nat, n as nat),
{
    let (long, cut) = cut_bytes(&chars_of(s), limit, n);
    !long || cut.is_some()
}

/// `w` cut to its first `n` bytes when longer than `limit` (`None` when it
/// is not longer).
fn short_text(w: &Vec<char>, limit: u64, n: u64) -> (r: Option<Vec<char>>)
    requires
        n <= limit <= 16,
        can_cut(w@, limit as nat, n as nat),
    ensures
        r is Some <==> byte_len(w@) > limit,
        r matches Some(p) ==> p@ == byte_prefix(w@, n as nat),
{
    cut_bytes(w, limit, n).1
}

/// An object id as shown: its first seven bytes when it is longer.
pub fn short_oid_text(oid: &Vec<char>) -> (r: Vec<char>)
    requires
        can_cut(oid@, 7, 7),
    ensures
        r@ == short_oid(oid@),
{
    match short_text(oid, 7, 7) {
        Some(p) => p,
        None => slice_of(oid, 0, oid.len()),
    }
}

fn short_author_exec(author: &str) -> (r: Vec<char>)
    requires
        cuttable(first_word(author@)),
    ensures
        r@ == short_author(author@),
{
    let w = first_word_exec(&chars_of(author));
    match short_text(&w, 16, 15) {
        Some(mut out) => {
            out.push('…');
            out
        },
        None => w,
    }
}

fn days_ago_exec(timestamp: i64, now: i64) -> (r: u64)
    requires
        now <= timestamp || now - timestamp <= i64::MAX,
    ensures
        r == days_ago(timestamp, now),
{
    if now <= timestamp {
        0
    } else {
        ((now - timestamp) / 86400) as u64
    }
}

fn relative_short_exec(days: u64) -> (r: Vec<char>)
    ensures
        r@ == relative_short(days as nat),
{
    proof {
        reveal_strlit("today");
    }
    let mut out: Vec<char>;
    if days == 0 {
        out = chars_of("today");
    } else if days < 7 {
        out = decimal_exec(days);
        out.push('d');
    } else if days < 30 {
        out = decimal_exec(days / 7);
        out.push('w');
    } else if days < 365 {
        out = decimal_exec(days / 30);
        out.push('m');
        out.push('o');
    } else {
        out = decimal_exec(days / 365);
        out.push('y');
    }
    assert(out@ =~= relative_short(days as nat));
    out
}

fn ago_exec(n: u64, unit: &str) -> (r: Vec<char>)
    ensures
        r@ == ago(n as nat, unit@),
{
    proof {
        reveal_strlit(" ago");
    }
    let mut out: Vec<char>;
    if n == 1 {
        out = Vec::new();
        out.push('1');
        out.push(' ');
        push_str(&mut out, unit);
        push_str(&mut out, " ago");
    } else {
        out = decimal_exec(n);
        out.push(' ');
        push_str(&mut out, unit);
        out.push('s');
        push_str(&mut out, " ago");
    }
    assert(out@ =~= ago(n as nat, unit@));
    out
}

fn relative_long_exec(days: u64) -> (r: Vec<char>)
    ensures
        r@ == relative_long(days as nat),
{
    proof {
        reveal_strlit("today");
    }
    if days == 0 {
        chars_of("today")
    } else if days < 7 {
        ago_exec(days, "day")
    } else if days < 30 {
        ago_exec(days / 7, "week")
    } else if days < 365 {
        ago_exec(days / 30, "month")
    } else {
        ago_exec(days / 365, "year")
    }
}

/// Minimal chip: `Akira · 3d`.
pub fn format_minimal(commit: &CommitSummary, now: i64) -> (r: String)
    requires
        formattable(commit.deep_view(), now),
    ensures
        r@ == minimal_of(commit.deep_view(), now),
{
    let mut out = short_author_exec(commit.author.as_str());
    push_str(&mut out, " · ");
    let age = relative_short_exec(days_ago_exec(commit.timestamp, now));
    push_all(&mut out, &age);
    proof {
        reveal_strlit(" · ");
        assert(" · "@ =~= sep());
    }
    string_of(&out)
}

/// Hover detail: `Akira · 3 days ago · a182df0 · Optimize repository
/// loading`.
pub fn format_hover(commit: &CommitSummary, now: i64) -> (r: String)
    requires
        formattable(commit.deep_view(), now),
    ensures
        r@ == hover_of(commit.deep_view(), now),
{
    let mut out = short_author_exec(commit.author.as_str());
    push_str(&mut out, " · ");
    let age = relative_long_exec(days_ago_exec(commit.timestamp, now));
    push_all(&mut out, &age);
    push_str(&mut out, " · ");
    let ov = chars_of(commit.oid.0.as_str());
    let short = short_oid_text(&ov);
    push_all(&mut out, &short);
    push_str(&mut out, " · ");
    push_str(&mut out, commit.summary.as_str());
    proof {
        reveal_strlit(" · ");
        assert(" · "@ =~= sep());
    }
    string_of(&out)
}

} // verus!
