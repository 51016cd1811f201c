//! Partial unified-diff patches for line-level stage and unstage: only the
//! selected added and removed lines are kept, with the context they need and
//! hunk headers recounted.
use vstd::prelude::*;

use crate::dup::{vec_push, Dup};
use crate::git::error::{GitError, GitErrorV};
use crate::text::{
    before_char, before_char_exec, char_is_ws, chars_of, decimal, decimal_exec, find, find_exec,
    is_ws, lines, lines_exec, parse_u32, parse_unsigned, push_all, push_str, slice_of,
    starts_with, starts_with_str, string_of, trim_start_char, trim_start_char_exec, views,
};
#[allow(unused_imports)]
use vstd::view::View as _;

verus! {

/// Classification of a unified-diff body line.
#[derive(Debug, Clone, Copy, PartialEq, Eq, Structural)]
pub enum DiffLineKind {
    HunkHeader,
    Context,
    Addition,
    Deletion,
}

/// One parsed line from a unified diff body (after the `+++` header).
#[derive(Debug, Clone, PartialEq, Eq)]
pub struct ParsedDiffLine {
    /// Absolute index among body lines (hunk headers + content), 0-based.
    pub index: usize,
    pub kind: DiffLineKind,
    pub text: String,
}

pub struct ParsedDiffLineV {
    pub index: usize,
    pub kind: DiffLineKind,
    pub text: Seq<char>,
}

impl DeepView for ParsedDiffLine {
    type V = ParsedDiffLineV;

    open spec fn deep_view(&self) -> ParsedDiffLineV {
        ParsedDiffLineV { index: self.index, kind: self.kind, text: self.text@ }
    }
}

impl Dup for ParsedDiffLine {
    fn dup(&self) -> (r: ParsedDiffLine) {
        ParsedDiffLine { index: self.index, kind: self.kind, text: self.text.clone() }
    }
}

struct Hunk {
    old_start: u32,
    new_start: u32,
    lines: Vec<ParsedDiffLine>,
}

pub struct HunkV {
    pub old_start: u32,
    pub new_start: u32,
    pub lines: Seq<ParsedDiffLineV>,
}

impl DeepView for Hunk {
    type V = HunkV;

    closed spec fn deep_view(&self) -> HunkV {
        HunkV { old_start: self.old_start, new_start: self.new_start, lines: self.lines.deep_view() }
    }
}

// ---------------------------------------------------------------------------
// Messages
// ---------------------------------------------------------------------------
pub open spec fn no_selection_msg() -> Seq<char> {
    "ステージする行が選択されていません"@
}

pub open spec fn bad_format_msg() -> Seq<char> {
    "unified diff の形式が不正です"@
}

pub open spec fn unknown_line_msg(line: Seq<char>) -> Seq<char> {
    "不明な diff 行: "@ + line
}

pub open spec fn no_patch_msg() -> Seq<char> {
    "選択行から適用可能なパッチを作れませんでした"@
}

fn backend(msg: &str) -> (e: GitError)
    ensures
        e.deep_view() == GitErrorV::Backend(msg@),
{
    GitError::Backend(string_of(&chars_of(msg)))
}

// ---------------------------------------------------------------------------
// Preamble and body
// ---------------------------------------------------------------------------
/// The lines, each followed by a line feed, as one text.
pub open spec fn with_newlines(ls: Seq<Seq<char>>) -> Seq<char>
    decreases ls.len(),
{
    if ls.len() == 0 {
        seq![]
    } else {
        with_newlines(ls.drop_last()) + ls.last() + seq!['\n']
    }
}

/// The index of the first line at or after `i` that starts with `+++ `.
pub open spec fn plus_header_from(ls: Seq<Seq<char>>, i: int) -> Option<int>
    decreases ls.len() - i,
{
    if i < 0 || i >= ls.len() {
        None
    } else if starts_with(ls[i], "+++ "@) {
        Some(i)
    } else {
        plus_header_from(ls, i + 1)
    }
}

/// The preamble (every line up to and including the first `+++ ` line) and
/// the body (the lines after it); none without such a line.
pub open spec fn split_preamble_of(diff: Seq<char>) -> Option<(Seq<char>, Seq<char>)> {
    let ls = lines(diff);
    match plus_header_from(ls, 0) {
        Some(k) => Some((with_newlines(ls.take(k + 1)), with_newlines(ls.skip(k + 1)))),
        None => None,
    }
}

/// The kind of a body line; none for a line the parser does not know.
pub open spec fn kind_of(line: Seq<char>) -> Option<DiffLineKind> {
    if starts_with(line, "@@"@) {
        Some(DiffLineKind::HunkHeader)
    } else if line.len() > 0 && line[0] == '+' {
        Some(DiffLineKind::Addition)
    } else if line.len() > 0 && line[0] == '-' {
        Some(DiffLineKind::Deletion)
    } else if line.len() == 0 || line[0] == ' ' || line[0] == '\\' {
        Some(DiffLineKind::Context)
    } else {
        None
    }
}

/// The index of the first line at or after `i` of unknown kind.
pub open spec fn unknown_from(bl: Seq<Seq<char>>, i: int) -> Option<int>
    decreases bl.len() - i,
{
    if i < 0 || i >= bl.len() {
        None
    } else if kind_of(bl[i]) is None {
        Some(i)
    } else {
        unknown_from(bl, i + 1)
    }
}

/// The parsed lines of a body: each line with its index and kind; the
/// first line of unknown kind is the error.
pub open spec fn parse_body_of(body: Seq<char>) -> Result<Seq<ParsedDiffLineV>, Seq<char>> {
    let bl = lines(body);
    match unknown_from(bl, 0) {
        Some(k) => Err(bl[k]),
        None => Ok(
            Seq::new(
                bl.len(),
                |i: int| ParsedDiffLineV { index: i as usize, kind: kind_of(bl[i])->0, text: bl[i] },
            ),
        ),
    }
}

// ---------------------------------------------------------------------------
// Hunk headers
// ---------------------------------------------------------------------------
/// The first non-whitespace index at or after `i`.
pub open spec fn skip_ws(s: Seq<char>, i: int) -> int
    decreases s.len() - i,
{
    if i < 0 || i >= s.len() || !is_ws(s[i]) {
        i
    } else {
        skip_ws(s, i + 1)
    }
}

/// The first whitespace index at or after `i`.
pub open spec fn tok_end(s: Seq<char>, i: int) -> int
    decreases s.len() - i,
{
    if i < 0 || i >= s.len() || is_ws(s[i]) {
        i
    } else {
        tok_end(s, i + 1)
    }
}

/// The old and new starts of `@@ -l,s +l,s @@`: the first two
/// whitespace-separated words before the closing `@@`, without leading `-`
/// (resp. `+`), each read up to its comma.
pub open spec fn hunk_starts_of(header: Seq<char>) -> Option<(u32, u32)> {
    if !starts_with(header, "@@"@) {
        None
    } else {
        let rest = header.skip(2);
        let seg = match find(rest, "@@"@) {
            Some(i) => rest.take(i),
            None => rest,
        };
        let a = skip_ws(seg, 0);
        let b = tok_end(seg, a);
        let c = skip_ws(seg, b);
        let d = tok_end(seg, c);
        if a >= seg.len() || c >= seg.len() {
            None
        } else {
            let old = trim_start_char(seg.subrange(a, b), '-');
            let new = trim_start_char(seg.subrange(c, d), '+');
            match (
                parse_unsigned(before_char(old, ','), u32::MAX as nat),
                parse_unsigned(before_char(new, ','), u32::MAX as nat),
            ) {
                (Some(o), Some(n)) => Some((o as u32, n as u32)),
                _ => None,
            }
        }
    }
}

proof fn lemma_skip_ws(s: Seq<char>, i: int)
    requires
        0 <= i <= s.len(),
    ensures
        i <= skip_ws(s, i) <= s.len(),
    decreases s.len() - i,
{
    if i < s.len() && is_ws(s[i]) {
        lemma_skip_ws(s, i + 1);
    }
}

proof fn lemma_tok_end(s: Seq<char>, i: int)
    requires
        0 <= i <= s.len(),
    ensures
        i <= tok_end(s, i) <= s.len(),
    decreases s.len() - i,
{
    if i < s.len() && !is_ws(s[i]) {
        lemma_tok_end(s, i + 1);
    }
}

pub(crate) fn skip_ws_exec(s: &Vec<char>, i: usize) -> (r: usize)
    requires
        i <= s.len(),
    ensures
        r == skip_ws(s@, i as int),
        i <= r <= s.len(),
{
    let mut j = i;
    while j < s.len() && char_is_ws(s[j])
        invariant
            i <= j <= s.len(),
            skip_ws(s@, i as int) == skip_ws(s@, j as int),
        decreases s.len() - j,
    {
        j = j + 1;
    }
    j
}

pub(crate) fn tok_end_exec(s: &Vec<char>, i: usize) -> (r: usize)
    requires
        i <= s.len(),
    ensures
        r == tok_end(s@, i as int),
        i <= r <= s.len(),
{
    let mut j = i;
    while j < s.len() && !char_is_ws(s[j])
        invariant
            i <= j <= s.len(),
            tok_end(s@, i as int) == tok_end(s@, j as int),
        decreases s.len() - j,
    {
        j = j + 1;
    }
    j
}

#[verifier::spinoff_prover]
fn hunk_starts(header: &Vec<char>) -> (r: Option<(u32, u32)>)
    ensures
        r == hunk_starts_of(header@),
{
    let at = chars_of("@@");
    if !crate::text::starts_with_exec(header, &at) {
        return None;
    }
    proof {
        reveal_strlit("@@");
    }
    let rest = slice_of(header, 2, header.len());
    assert(rest@ == header@.skip(2));
    let seg = match find_exec(&rest, &at) {
        Some(i) => {
            proof {
                crate::text::lemma_find_from_bounds(rest@, at@, 0);
            }
            let s = slice_of(&rest, 0, i);
            assert(s@ == rest@.take(i as int));
            s
        },
        None => rest,
    };
    let a = skip_ws_exec(&seg, 0);
    let b = tok_end_exec(&seg, a);
    let c = skip_ws_exec(&seg, b);
    let d = tok_end_exec(&seg, c);
    if a >= seg.len() || c >= seg.len() {
        return None;
    }
    let old = trim_start_char_exec(&slice_of(&seg, a, b), '-');
    let new = trim_start_char_exec(&slice_of(&seg, c, d), '+');
    let o = parse_u32(&before_char_exec(&old, ','));
    let n = parse_u32(&before_char_exec(&new, ','));
    match (o, n) {
        (Some(o), Some(n)) => Some((o, n)),
        _ => None,
    }
}

// ---------------------------------------------------------------------------
// Hunks
// ---------------------------------------------------------------------------
/// The index of the first hunk header at or after `i` (the length when there
/// is none).
pub open spec fn next_header(pl: Seq<ParsedDiffLineV>, i: int) -> int
    decreases pl.len() - i,
{
    if i < 0 || i >= pl.len() {
        pl.len() as int
    } else if pl[i].kind == DiffLineKind::HunkHeader {
        i
    } else {
        next_header(pl, i + 1)
    }
}

/// The hunks from `i` on: each header with the lines up to the next header;
/// lines before the first header belong to none. A header whose starts do
/// not parse counts as starting at line 1 on both sides.
pub open spec fn hunks_from(pl: Seq<ParsedDiffLineV>, i: int) -> Seq<HunkV>
    decreases pl.len() - i,
{
    let h = next_header(pl, i);
    if i < 0 || h < i || h >= pl.len() {
        seq![]
    } else {
        let e = next_header(pl, h + 1);
        if e <= h || e > pl.len() {
            seq![]
        } else {
            let (o, n) = match hunk_starts_of(pl[h].text) {
                Some(p) => p,
                None => (1u32, 1u32),
            };
            seq![HunkV { old_start: o, new_start: n, lines: pl.subrange(h + 1, e) }] + hunks_from(
                pl,
                e,
            )
        }
    }
}

proof fn lemma_next_header(pl: Seq<ParsedDiffLineV>, i: int)
    requires
        0 <= i <= pl.len(),
    ensures
        i <= next_header(pl, i) <= pl.len(),
        next_header(pl, i) < pl.len() ==> pl[next_header(pl, i)].kind == DiffLineKind::HunkHeader,
    decreases pl.len() - i,
{
    if i < pl.len() && pl[i].kind != DiffLineKind::HunkHeader {
        lemma_next_header(pl, i + 1);
    }
}

fn next_header_exec(pl: &Vec<ParsedDiffLine>, i: usize) -> (r: usize)
    requires
        i <= pl.len(),
    ensures
        r == next_header(pl.deep_view(), i as int),
        i <= r <= pl.len(),
{
    let ghost v = pl.deep_view();
    let mut j = i;
    while j < pl.len() && pl[j].kind != DiffLineKind::HunkHeader
        invariant
            i <= j <= pl.len(),
            v == pl.deep_view(),
            next_header(v, i as int) == next_header(v, j as int),
        decreases pl.len() - j,
    {
        assert(v[j as int].kind == pl[j as int].kind);
        j = j + 1;
    }
    proof {
        if j < pl.len() {
            assert(v[j as int].kind == pl[j as int].kind);
        }
    }
    j
}

#[verifier::spinoff_prover]
fn split_hunks(pl: &Vec<ParsedDiffLine>) -> (r: Vec<Hunk>)
    ensures
        r.deep_view() == hunks_from(pl.deep_view(), 0),
{
    let ghost v = pl.deep_view();
    let mut out: Vec<Hunk> = Vec::new();
    let mut i: usize = 0;
    assert(out.deep_view() =~= Seq::<HunkV>::empty());
    loop
        invariant
            i <= pl.len(),
            v == pl.deep_view(),
            hunks_from(v, 0) == out.deep_view() + hunks_from(v, i as int),
        decreases pl.len() - i,
    {
        let h = next_header_exec(pl, i);
        if h >= pl.len() {
            assert(out.deep_view() + hunks_from(v, i as int) =~= out.deep_view());
            return out;
        }
        let e = next_header_exec(pl, h + 1);
        let (o, n) = match hunk_starts(&chars_of(pl[h].text.as_str())) {
            Some(p) => p,
            None => (1u32, 1u32),
        };
        let suffix = crate::dup::vec_suffix(pl, h + 1);
        assert(suffix.deep_view().len() == suffix@.len());
        assert(pl.deep_view().len() == pl@.len());
        let body = crate::dup::vec_prefix(&suffix, e - (h + 1));
        assert(body.deep_view() =~= v.subrange(h + 1, e as int));
        let ghost before = out.deep_view();
        vec_push(&mut out, Hunk { old_start: o, new_start: n, lines: body });
        assert(out.deep_view() + hunks_from(v, e as int) =~= before + hunks_from(v, i as int));
        i = e;
    }
}

// ---------------------------------------------------------------------------
// Filtering one hunk
// ---------------------------------------------------------------------------
/// What one line adds to a filtered hunk: its text, and how much it counts
/// on the old and new sides. Context stays; a selected addition or removal
/// stays; an unselected addition goes; an unselected removal becomes
/// context.
pub open spec fn line_piece(l: ParsedDiffLineV, sel: Seq<usize>) -> (Seq<char>, nat, nat) {
    match l.kind {
        DiffLineKind::Context => (l.text + seq!['\n'], 1, 1),
        DiffLineKind::Addition => if sel.contains(l.index) {
            (l.text + seq!['\n'], 0, 1)
        } else {
            (seq![], 0, 0)
        },
        DiffLineKind::Deletion => if sel.contains(l.index) {
            (l.text + seq!['\n'], 1, 0)
        } else {
            (
                seq![' '] + (if l.text.len() >= 1 {
                    l.text.skip(1)
                } else {
                    seq![]
                }) + seq!['\n'],
                1,
                1,
            )
        },
        DiffLineKind::HunkHeader => (seq![], 0, 0),
    }
}

/// The filtered body of a hunk's lines with its old and new line counts.
pub open spec fn hunk_body(ls: Seq<ParsedDiffLineV>, sel: Seq<usize>) -> (Seq<char>, nat, nat)
    decreases ls.len(),
{
    if ls.len() == 0 {
        (seq![], 0, 0)
    } else {
        let (b, o, n) = hunk_body(ls.drop_last(), sel);
        let (t, dold, dnew) = line_piece(ls.last(), sel);
        (b + t, o + dold, n + dnew)
    }
}

/// Whether a hunk holds a selected addition or removal.
pub open spec fn has_selected(h: HunkV, sel: Seq<usize>) -> bool {
    exists|k: int|
        0 <= k < h.lines.len() && sel.contains(#[trigger] h.lines[k].index) && (h.lines[k].kind
            == DiffLineKind::Addition || h.lines[k].kind == DiffLineKind::Deletion)
}

/// The block a hunk contributes: none without a selected change or when
/// nothing is left; else a recounted header and the filtered body.
pub open spec fn filter_hunk_of(h: HunkV, sel: Seq<usize>) -> Option<Seq<char>> {
    if !has_selected(h, sel) {
        None
    } else {
        let (b, o, n) = hunk_body(h.lines, sel);
        if o == 0 && n == 0 {
            None
        } else {
            Some(
                "@@ -"@ + decimal(h.old_start as nat) + ","@ + decimal(o) + " +"@ + decimal(
                    h.new_start as nat,
                ) + ","@ + decimal(n) + " @@\n"@ + b,
            )
        }
    }
}

fn contains_index(sel: &[usize], i: usize) -> (r: bool)
    ensures
        r == sel@.contains(i),
{
    let mut k: usize = 0;
    while k < sel.len()
        invariant
            k <= sel.len(),
            forall|j: int| 0 <= j < k ==> sel@[j] != i,
        decreases sel.len() - k,
    {
        if sel[k] == i {
            assert(sel@[k as int] == i);
            return true;
        }
        k = k + 1;
    }
    false
}

#[verifier::spinoff_prover]
fn filter_hunk(h: &Hunk, sel: &[usize]) -> (r: Option<Vec<char>>)
    ensures
        r matches Some(b) ==> filter_hunk_of(h.deep_view(), sel@) == Some(b@),
        r is None ==> filter_hunk_of(h.deep_view(), sel@) is None,
{
    let ghost hv = h.deep_view();
    let ghost ls = h.lines.deep_view();
    let mut found = false;
    let mut k: usize = 0;
    while k < h.lines.len()
        invariant
            k <= h.lines.len(),
            ls == h.lines.deep_view(),
            hv == h.deep_view(),
            found ==> has_selected(hv, sel@),
            !found ==> forall|j: int|
                0 <= j < k ==> !(sel@.contains(#[trigger] ls[j].index) && (ls[j].kind
                    == DiffLineKind::Addition || ls[j].kind == DiffLineKind::Deletion)),
        decreases h.lines.len() - k,
    {
        let l = &h.lines[k];
        if !found && contains_index(sel, l.index) && (l.kind == DiffLineKind::Addition || l.kind
            == DiffLineKind::Deletion) {
            assert(ls[k as int].index == l.index);
            found = true;
        }
        k = k + 1;
    }
    if !found {
        return None;
    }
    let mut body: Vec<char> = Vec::new();
    let mut old_count: u64 = 0;
    let mut new_count: u64 = 0;
    let mut j: usize = 0;
    while j < h.lines.len()
        invariant
            j <= h.lines.len(),
            ls == h.lines.deep_view(),
            old_count <= j,
            new_count <= j,
            hunk_body(ls.take(j as int), sel@) == (body@, old_count as nat, new_count as nat),
        decreases h.lines.len() - j,
    {
        let l = &h.lines[j];
        let t = chars_of(l.text.as_str());
        assert(ls.take(j + 1).drop_last() =~= ls.take(j as int));
        match l.kind {
            DiffLineKind::Context => {
                push_all(&mut body, &t);
                body.push('\n');
                old_count = old_count + 1;
                new_count = new_count + 1;
            },
            DiffLineKind::Addition => {
                if contains_index(sel, l.index) {
                    push_all(&mut body, &t);
                    body.push('\n');
                    new_count = new_count + 1;
                }
            },
            DiffLineKind::Deletion => {
                if contains_index(sel, l.index) {
                    push_all(&mut body, &t);
                    body.push('\n');
                    old_count = old_count + 1;
                } else {
                    body.push(' ');
                    if t.len() >= 1 {
                        let tail = slice_of(&t, 1, t.len());
                        assert(tail@ == t@.skip(1));
                        push_all(&mut body, &tail);
                    }
                    body.push('\n');
                    old_count = old_count + 1;
                    new_count = new_count + 1;
                }
            },
            DiffLineKind::HunkHeader => {},
        }
        j = j + 1;
    }
    assert(ls.take(ls.len() as int) =~= ls);
    if old_count == 0 && new_count == 0 {
        return None;
    }
    let mut block: Vec<char> = Vec::new();
    push_str(&mut block, "@@ -");
    push_all(&mut block, &decimal_exec(h.old_start as u64));
    push_str(&mut block, ",");
    push_all(&mut block, &decimal_exec(old_count));
    push_str(&mut block, " +");
    push_all(&mut block, &decimal_exec(h.new_start as u64));
    push_str(&mut block, ",");
    push_all(&mut block, &decimal_exec(new_count));
    push_str(&mut block, " @@\n");
    push_all(&mut block, &body);
    Some(block)
}

// ---------------------------------------------------------------------------
// The patch
// ---------------------------------------------------------------------------
/// The blocks of the hunks that contribute one, in order.
pub open spec fn blocks_of(hs: Seq<HunkV>, sel: Seq<usize>) -> Seq<char>
    decreases hs.len(),
{
    if hs.len() == 0 {
        seq![]
    } else {
        blocks_of(hs.drop_last(), sel) + match filter_hunk_of(hs.last(), sel) {
            Some(b) => b,
            None => seq![],
        }
    }
}

/// Whether some hunk contributes a block.
pub open spec fn any_block(hs: Seq<HunkV>, sel: Seq<usize>) -> bool {
    exists|k: int| 0 <= k < hs.len() && (#[trigger] filter_hunk_of(hs[k], sel)) is Some
}

/// The partial patch for `selected` body indices of `diff`: the preamble
/// followed by the block of every hunk that keeps a selected change; an
/// error for an empty selection, a diff without `+++ ` header, a body line
/// of unknown kind, or a selection that leaves no block.
pub open spec fn partial_patch_of(diff: Seq<char>, sel: Seq<usize>) -> Result<Seq<char>, GitErrorV> {
    if sel.len() == 0 {
        Err(GitErrorV::Backend(no_selection_msg()))
    } else {
        match split_preamble_of(diff) {
            None => Err(GitErrorV::Backend(bad_format_msg())),
            Some((pre, body)) => match parse_body_of(body) {
                Err(line) => Err(GitErrorV::Backend(unknown_line_msg(line))),
                Ok(pl) => {
                    let hs = hunks_from(pl, 0);
                    let out = if pre.len() > 0 && pre.last() == '\n' {
                        pre
                    } else {
                        pre.push('\n')
                    };
                    if !any_block(hs, sel) {
                        Err(GitErrorV::Backend(no_patch_msg()))
                    } else {
                        Ok(out + blocks_of(hs, sel))
                    }
                },
            },
        }
    }
}

fn join_lines(ls: &Vec<Vec<char>>, a: usize, b: usize) -> (r: Vec<char>)
    requires
        a <= b <= ls.len(),
    ensures
        r@ == with_newlines(views(ls@).subrange(a as int, b as int)),
{
    let ghost lv = views(ls@);
    let mut out: Vec<char> = Vec::new();
    let mut i = a;
    assert(lv.subrange(a as int, a as int) =~= Seq::<Seq<char>>::empty());
    while i < b
        invariant
            a <= i <= b <= ls.len(),
            lv == views(ls@),
            out@ == with_newlines(lv.subrange(a as int, i as int)),
        decreases b - i,
    {
        assert(lv.subrange(a as int, i + 1).drop_last() =~= lv.subrange(a as int, i as int));
        assert(lv[i as int] == ls[i as int]@);
        push_all(&mut out, &ls[i]);
        out.push('\n');
        i = i + 1;
    }
    out
}

#[verifier::spinoff_prover]
fn parse_body(body: &Vec<char>) -> (r: Result<Vec<ParsedDiffLine>, Vec<char>>)
    ensures
        r matches Ok(pl) ==> parse_body_of(body@) == Ok::<Seq<ParsedDiffLineV>, Seq<char>>(
            pl.deep_view(),
        ),
        r matches Err(l) ==> parse_body_of(body@) == Err::<Seq<ParsedDiffLineV>, Seq<char>>(l@),
{
    let bl = lines_exec(body);
    let ghost bv = views(bl@);
    let mut out: Vec<ParsedDiffLine> = Vec::new();
    let mut i: usize = 0;
    while i < bl.len()
        invariant
            i <= bl.len(),
            bv == views(bl@),
            bv == lines(body@),
            unknown_from(bv, 0) == unknown_from(bv, i as int),
            out.deep_view().len() == i,
            forall|k: int|
                0 <= k < i ==> #[trigger] out.deep_view()[k] == (ParsedDiffLineV {
                    index: k as usize,
                    kind: kind_of(bv[k])->0,
                    text: bv[k],
                }),
            forall|k: int| 0 <= k < i ==> (#[trigger] kind_of(bv[k])) is Some,
        decreases bl.len() - i,
    {
        let line = &bl[i];
        assert(bv[i as int] == line@);
        let kind = if starts_with_str(line, "@@") {
            DiffLineKind::HunkHeader
        } else if line.len() > 0 && line[0] == '+' {
            DiffLineKind::Addition
        } else if line.len() > 0 && line[0] == '-' {
            DiffLineKind::Deletion
        } else if line.len() == 0 || line[0] == ' ' || line[0] == '\\' {
            DiffLineKind::Context
        } else {
            return Err(crate::text::copy_chars(line));
        };
        assert(kind_of(bv[i as int]) == Some(kind));
        let ghost before = out.deep_view();
        vec_push(&mut out, ParsedDiffLine { index: i, kind, text: string_of(line) });
        assert(out.deep_view() == before.push(ParsedDiffLineV { index: i, kind, text: bv[i as int] }));
        i = i + 1;
    }
    assert(out.deep_view() =~= Seq::new(
        bv.len(),
        |k: int| ParsedDiffLineV { index: k as usize, kind: kind_of(bv[k])->0, text: bv[k] },
    ));
    Ok(out)
}

/// Builds a minimal unified patch that includes only the selected addition /
/// deletion lines (plus required context and adjusted hunk headers).
///
/// `selected` are 0-based indices into the body of `unified_diff` (every
/// line after the `+++` header), as [`ParsedDiffLine::index`] counts them.
#[verifier::spinoff_prover]
pub fn build_partial_patch(unified_diff: &str, selected: &[usize]) -> (r: Result<String, GitError>)
    ensures
        crate::dup::result_dv(r) == partial_patch_of(unified_diff@, selected@),
{
    if selected.len() == 0 {
        return Err(backend("ステージする行が選択されていません"));
    }
    let d = chars_of(unified_diff);
    let ls = lines_exec(&d);
    let ghost lv = views(ls@);
    let mut k: usize = 0;
    while k < ls.len() && !starts_with_str(&ls[k], "+++ ")
        invariant
            k <= ls.len(),
            lv == views(ls@),
            plus_header_from(lv, 0) == plus_header_from(lv, k as int),
        decreases ls.len() - k,
    {
        assert(lv[k as int] == ls[k as int]@);
        k = k + 1;
    }
    if k >= ls.len() {
        return Err(backend("unified diff の形式が不正です"));
    }
    assert(lv[k as int] == ls[k as int]@);
    let pre = join_lines(&ls, 0, k + 1);
    let body = join_lines(&ls, k + 1, ls.len());
    assert(lv.subrange(0, k + 1) =~= lv.take(k + 1));
    assert(lv.subrange(k + 1, lv.len() as int) =~= lv.skip(k + 1));
    let pl = match parse_body(&body) {
        Ok(pl) => pl,
        Err(line) => {
            let mut msg: Vec<char> = Vec::new();
            push_str(&mut msg, "不明な diff 行: ");
            push_all(&mut msg, &line);
            return Err(GitError::Backend(string_of(&msg)));
        },
    };
    let hunks = split_hunks(&pl);
    let ghost hv = hunks.deep_view();
    let mut out = pre;
    if !(out.len() > 0 && out[out.len() - 1] == '\n') {
        out.push('\n');
    }
    let ghost out0 = out@;
    let mut wrote = false;
    let mut i: usize = 0;
    while i < hunks.len()
        invariant
            i <= hunks.len(),
            hv == hunks.deep_view(),
            out@ == out0 + blocks_of(hv.take(i as int), selected@),
            wrote == any_block(hv.take(i as int), selected@),
        decreases hunks.len() - i,
    {
        assert(hv.take(i + 1).drop_last() =~= hv.take(i as int));
        match filter_hunk(&hunks[i], selected) {
            Some(block) => {
                push_all(&mut out, &block);
                wrote = true;
                assert(hv.take(i + 1)[i as int] == hv[i as int]);
            },
            None => {
                assert(out@ =~= out0 + blocks_of(hv.take(i + 1), selected@));
                assert forall|m: int|
                    0 <= m < i + 1 implies !((#[trigger] filter_hunk_of(
                    hv.take(i + 1)[m],
                    selected@,
                )) is Some) || wrote by {
                    if m < i {
                        assert(hv.take(i + 1)[m] == hv.take(i as int)[m]);
                    }
                }
            },
        }
        i = i + 1;
    }
    assert(hv.take(hv.len() as int) =~= hv);
    if !wrote {
        return Err(backend("選択行から適用可能なパッチを作れませんでした"));
    }
    Ok(string_of(&out))
}


/// The patch that stages (or, from the index, unstages) the selected lines
/// of a file's diff: an error for an empty diff, else the partial patch.
pub open spec fn stage_lines_patch_of(diff: Seq<char>, sel: Seq<usize>) -> Result<Seq<char>, GitErrorV> {
    if crate::text::trim(diff).len() == 0 {
        Err(GitErrorV::Backend("差分がありません"@))
    } else {
        partial_patch_of(diff, sel)
    }
}

/// Builds the patch for a line-level stage or unstage.
pub fn stage_lines_patch(diff: &str, selected: &[usize]) -> (r: Result<String, GitError>)
    ensures
        crate::dup::result_dv(r) == stage_lines_patch_of(diff@, selected@),
{
    if crate::text::trim_exec(&chars_of(diff)).len() == 0 {
        return Err(backend("差分がありません"));
    }
    build_partial_patch(diff, selected)
}


/// The blocks of the hunks hold the block of every hunk that keeps a
/// selected change, as a contiguous piece.
proof fn lemma_block_in_blocks(hs: Seq<HunkV>, sel: Seq<usize>, k: int)
    requires
        0 <= k < hs.len(),
        filter_hunk_of(hs[k], sel) is Some,
    ensures
        exists|p: int|
            0 <= p && p + filter_hunk_of(hs[k], sel)->Some_0.len() <= blocks_of(hs, sel).len()
                && #[trigger] blocks_of(hs, sel).subrange(p, p + filter_hunk_of(hs[k], sel)->Some_0.len())
                == filter_hunk_of(hs[k], sel)->Some_0,
    decreases hs.len(),
{
    let b = filter_hunk_of(hs[k], sel)->Some_0;
    let init = hs.drop_last();
    let all = blocks_of(hs, sel);
    let front = blocks_of(init, sel);
    if k == hs.len() - 1 {
        let p = front.len() as int;
        assert(all == front + b);
        assert(all.subrange(p, p + b.len()) =~= b);
    } else {
        assert(init[k] == hs[k]);
        lemma_block_in_blocks(init, sel, k);
        let p = choose|p: int|
            0 <= p && p + b.len() <= front.len() && #[trigger] front.subrange(p, p + b.len()) == b;
        assert(all.subrange(0, front.len() as int) =~= front);
        assert(all.subrange(p, p + b.len()) =~= front.subrange(p, p + b.len()));
    }
}

/// A partial patch stages every selected change: for each hunk of the diff
/// that holds a selected addition or removal (and keeps some line), the
/// patch is produced and the hunk's recounted block occurs in it.
pub proof fn lemma_patch_holds_every_selected_hunk(
    diff: Seq<char>,
    sel: Seq<usize>,
    pre: Seq<char>,
    body: Seq<char>,
    pl: Seq<ParsedDiffLineV>,
    k: int,
)
    requires
        sel.len() > 0,
        split_preamble_of(diff) == Some((pre, body)),
        parse_body_of(body) == Ok::<Seq<ParsedDiffLineV>, Seq<char>>(pl),
        0 <= k < hunks_from(pl, 0).len(),
        filter_hunk_of(hunks_from(pl, 0)[k], sel) is Some,
    ensures
        partial_patch_of(diff, sel) is Ok,
        exists|p: int|
            0 <= p && p + filter_hunk_of(hunks_from(pl, 0)[k], sel)->Some_0.len()
                <= partial_patch_of(diff, sel)->Ok_0.len()
                && #[trigger] partial_patch_of(diff, sel)->Ok_0.subrange(
                p,
                p + filter_hunk_of(hunks_from(pl, 0)[k], sel)->Some_0.len(),
            ) == filter_hunk_of(hunks_from(pl, 0)[k], sel)->Some_0,
{
    let hs = hunks_from(pl, 0);
    let b = filter_hunk_of(hs[k], sel)->Some_0;
    assert(any_block(hs, sel));
    lemma_block_in_blocks(hs, sel, k);
    let blocks = blocks_of(hs, sel);
    let p = choose|p: int| 0 <= p && p + b.len() <= blocks.len() && #[trigger] blocks.subrange(p, p + b.len()) == b;
    let out = partial_patch_of(diff, sel)->Ok_0;
    let head = if pre.len() > 0 && pre.last() == '\n' {
        pre
    } else {
        pre.push('\n')
    };
    assert(out == head + blocks);
    let q = head.len() + p;
    assert(out.subrange(q, q + b.len()) =~= blocks.subrange(p, p + b.len()));
}

} // verus!
