//! Conventional Commits helpers for commit message completion.
use vstd::prelude::*;

use crate::dup::vec_push;
use crate::text::{
    before_char, before_char_exec, chars_of, contains, contains_str, push_all, push_str,
    seq_eq, slice_of, split_once, split_once_exec, starts_with, starts_with_exec, string_of,
    trim, trim_exec, trim_start, trim_start_exec,
};

verus! {

/// The standard Conventional Commit types, in suggestion order.
pub open spec fn type_names() -> Seq<Seq<char>> {
    seq![
        "feat"@,
        "fix"@,
        "docs"@,
        "style"@,
        "refactor"@,
        "perf"@,
        "test"@,
        "build"@,
        "ci"@,
        "chore"@,
        "revert"@,
    ]
}

/// The standard Conventional Commit types.
pub fn types() -> (r: Vec<&'static str>)
    ensures
        r@.len() == type_names().len(),
        forall|i: int| 0 <= i < r@.len() ==> #[trigger] r@[i]@ == type_names()[i],
{
    let mut v: Vec<&'static str> = Vec::new();
    v.push("feat");
    v.push("fix");
    v.push("docs");
    v.push("style");
    v.push("refactor");
    v.push("perf");
    v.push("test");
    v.push("build");
    v.push("ci");
    v.push("chore");
    v.push("revert");
    v
}

/// Characters that end the leading token of a message.
pub open spec fn is_token_end(c: char) -> bool {
    c == '(' || c == ':' || c == ' ' || c == '\n'
}

/// The leading token: what comes before the first `(`, `:`, space or newline.
pub open spec fn head_token(m: Seq<char>) -> Seq<char>
    decreases m.len(),
{
    if m.len() == 0 || is_token_end(m[0]) {
        Seq::empty()
    } else {
        seq![m[0]] + head_token(m.drop_first())
    }
}

/// The types that strictly extend `head`.
pub open spec fn extends_token(head: Seq<char>) -> spec_fn(Seq<char>) -> bool {
    |t: Seq<char>| starts_with(t, head) && t != head
}

/// The type suggestions for `message`: all types for an empty leading token,
/// none once a `:` was typed, else the types that extend the leading token.
pub open spec fn suggest_types_of(message: Seq<char>) -> Seq<Seq<char>> {
    let head = head_token(message);
    if head.len() == 0 {
        type_names()
    } else if contains(message, seq![':']) {
        Seq::empty()
    } else {
        type_names().filter(extends_token(head))
    }
}

fn head_token_exec(m: &Vec<char>) -> (r: Vec<char>)
    ensures
        r@ == head_token(m@),
{
    let mut i: usize = 0;
    assert(m@.take(0) =~= Seq::<char>::empty());
    assert(m@.skip(0) =~= m@);
    while i < m.len() && !(m[i] == '(' || m[i] == ':' || m[i] == ' ' || m[i] == '\n')
        invariant
            i <= m.len(),
            head_token(m@) == m@.take(i as int) + head_token(m@.skip(i as int)),
        decreases m.len() - i,
    {
        assert(m@.skip(i as int).drop_first() =~= m@.skip(i + 1));
        assert(m@.take(i as int) + seq![m@[i as int]] =~= m@.take(i + 1));
        i = i + 1;
    }
    assert(head_token(m@.skip(i as int)) == Seq::<char>::empty());
    assert(m@.take(i as int) + Seq::<char>::empty() =~= m@.take(i as int));
    slice_of(m, 0, i)
}

/// Returns type suggestions matching the leading token of `message`.
pub fn suggest_types(message: &str) -> (r: Vec<&'static str>)
    ensures
        r@.len() == suggest_types_of(message@).len(),
        forall|i: int| 0 <= i < r@.len() ==> #[trigger] r@[i]@ == suggest_types_of(message@)[i],
{
    let all = types();
    let mv = chars_of(message);
    let head = head_token_exec(&mv);
    if head.len() == 0 {
        return all;
    }
    if contains_str(&mv, ":") {
        proof {
            reveal_strlit(":");
            assert(":"@ =~= seq![':']);
        }
        let r: Vec<&'static str> = Vec::new();
        return r;
    }
    proof {
        reveal_strlit(":");
        assert(":"@ =~= seq![':']);
    }
    let ghost pred = extends_token(head@);
    let ghost names = type_names();
    let mut out: Vec<&'static str> = Vec::new();
    let mut i: usize = 0;
    while i < all.len()
        invariant
            i <= all.len(),
            all@.len() == names.len(),
            names == type_names(),
            forall|k: int| 0 <= k < all@.len() ==> #[trigger] all@[k]@ == names[k],
            pred == extends_token(head@),
            out@.len() == names.take(i as int).filter(pred).len(),
            forall|k: int|
                0 <= k < out@.len() ==> #[trigger] out@[k]@ == names.take(i as int).filter(
                    pred,
                )[k],
        decreases all.len() - i,
    {
        let t = all[i];
        let tv = chars_of(t);
        proof {
            assert(names.take(i + 1) =~= names.take(i as int).push(names[i as int]));
            names.take(i as int).lemma_filter_push(names[i as int], pred);
        }
        if starts_with_exec(&tv, &head) && !seq_eq(&tv, &head) {
            out.push(t);
        }
        i = i + 1;
    }
    assert(names.take(names.len() as int) =~= names);
    assert(head@ == head_token(message@));
    assert(head@.len() != 0);
    assert(!contains(message@, seq![':']));
    assert(suggest_types_of(message@) == names.filter(pred));
    out
}

/// The type named before a `:` (and before any `(`), with surrounding
/// whitespace trimmed.
pub open spec fn has_type_prefix_of(message: Seq<char>) -> bool {
    match split_once(message, ':') {
        Some((head, _)) => type_names().contains(trim(before_char(head, '('))),
        None => false,
    }
}

fn is_type_name(t: &Vec<char>) -> (r: bool)
    ensures
        r == type_names().contains(t@),
{
    let all = types();
    let mut i: usize = 0;
    while i < all.len()
        invariant
            i <= all.len(),
            all@.len() == type_names().len(),
            forall|k: int| 0 <= k < all@.len() ==> #[trigger] all@[k]@ == type_names()[k],
            forall|k: int| 0 <= k < i ==> type_names()[k] != t@,
        decreases all.len() - i,
    {
        let tv = chars_of(all[i]);
        if seq_eq(&tv, t) {
            assert(type_names()[i as int] == t@);
            return true;
        }
        i = i + 1;
    }
    false
}

/// Whether the message already has `type:` or `type(scope):`.
pub fn has_type_prefix(message: &str) -> (r: bool)
    ensures
        r == has_type_prefix_of(message@),
{
    let mv = chars_of(message);
    match split_once_exec(&mv, ':') {
        Some((head, _)) => {
            let ty = before_char_exec(&head, '(');
            let t = trim_exec(&ty);
            is_type_name(&t)
        },
        None => false,
    }
}

/// The `Normal` segments of a `/`-separated path.
pub open spec fn is_normal_segment(s: Seq<char>) -> bool {
    s.len() > 0 && s != seq!['.'] && s != seq!['.', '.']
}

/// The scope a path suggests: the directory under `src/`, else its first
/// segment.
pub open spec fn scope_of_segments(segs: Seq<Seq<char>>) -> Option<Seq<char>> {
    if segs.len() >= 2 && segs[0] == seq!['s', 'r', 'c'] {
        Some(segs[1])
    } else if segs.len() >= 1 {
        Some(segs[0])
    } else {
        None
    }
}

pub open spec fn normal_pred() -> spec_fn(Seq<char>) -> bool {
    |s: Seq<char>| is_normal_segment(s)
}

pub open spec fn scope_of_path(p: Seq<char>) -> Option<Seq<char>> {
    scope_of_segments(crate::text::split_all(p, '/').filter(normal_pred()))
}

/// The scopes collected from the first `n` paths: first occurrences only,
/// at most eight.
pub open spec fn scopes_upto(paths: Seq<Seq<char>>, n: int) -> Seq<Seq<char>>
    decreases n,
{
    if n <= 0 {
        Seq::empty()
    } else {
        let prev = scopes_upto(paths, n - 1);
        if prev.len() >= 8 {
            prev
        } else {
            match scope_of_path(paths[n - 1]) {
                Some(s) => if prev.contains(s) {
                    prev
                } else {
                    prev.push(s)
                },
                None => prev,
            }
        }
    }
}

/// Scope suggestions: offered only when the message is a bare type or has an
/// unclosed `(`.
pub open spec fn suggest_scopes_of(message: Seq<char>, paths: Seq<Seq<char>>) -> Seq<Seq<char>> {
    let t = trim(message);
    let type_only = type_names().contains(t);
    let open_paren = contains(t, seq!['(']) && !contains(t, seq![')']);
    if !type_only && !open_paren {
        Seq::empty()
    } else {
        scopes_upto(paths, paths.len() as int)
    }
}

/// The normal segments of a path, in order.
fn normal_segments(p: &Vec<char>) -> (r: Vec<Vec<char>>)
    ensures
        crate::text::views(r@) == crate::text::split_all(p@, '/').filter(normal_pred()),
{
    let parts = crate::text::split_all_exec(p, '/');
    let ghost pred = normal_pred();
    let ghost pv = crate::text::views(parts@);
    let mut out: Vec<Vec<char>> = Vec::new();
    let mut i: usize = 0;
    while i < parts.len()
        invariant
            i <= parts.len(),
            pv == crate::text::views(parts@),
            pv.len() == parts@.len(),
            pred == normal_pred(),
            crate::text::views(out@) == pv.take(i as int).filter(pred),
        decreases parts.len() - i,
    {
        proof {
            assert(pv.take(i + 1) =~= pv.take(i as int).push(pv[i as int]));
            pv.take(i as int).lemma_filter_push(pv[i as int], pred);
        }
        let s = &parts[i];
        let normal = s.len() > 0 && !(s.len() == 1 && s[0] == '.') && !(s.len() == 2 && s[0]
            == '.' && s[1] == '.');
        proof {
            if s@ == seq!['.'] {
                assert(s.len() == 1 && s[0] == '.');
            }
            if s@ == seq!['.', '.'] {
                assert(s.len() == 2 && s[0] == '.' && s[1] == '.');
            }
            if s.len() == 1 && s[0] == '.' {
                assert(s@ =~= seq!['.']);
            }
            if s.len() == 2 && s[0] == '.' && s[1] == '.' {
                assert(s@ =~= seq!['.', '.']);
            }
            assert(normal == pred(pv[i as int]));
        }
        if normal {
            let c = slice_of(s, 0, s.len());
            assert(s@.subrange(0, s.len() as int) =~= s@);
            out.push(c);
            assert(crate::text::views(out@) =~= pv.take(i as int).filter(pred).push(pv[i as int]));
        }
        i = i + 1;
    }
    assert(pv.take(pv.len() as int) =~= pv);
    out
}

fn contains_text(v: &Vec<String>, s: &Vec<char>) -> (r: bool)
    ensures
        r == v.deep_view().contains(s@),
{
    let mut i: usize = 0;
    while i < v.len()
        invariant
            i <= v.len(),
            forall|k: int| 0 <= k < i ==> v.deep_view()[k] != s@,
        decreases v.len() - i,
    {
        let c = chars_of(v[i].as_str());
        if seq_eq(&c, s) {
            assert(v.deep_view()[i as int] == s@);
            return true;
        }
        i = i + 1;
    }
    false
}

/// Suggest scopes from changed file paths (the directory under `src/`, else
/// the first segment).
pub fn suggest_scopes(message: &str, paths: &Vec<String>) -> (r: Vec<String>)
    ensures
        r.deep_view() == suggest_scopes_of(message@, paths.deep_view()),
{
    let mv = chars_of(message);
    let t = trim_exec(&mv);
    let type_only = is_type_name(&t);
    let open_paren = contains_str(&t, "(") && !contains_str(&t, ")");
    proof {
        reveal_strlit("(");
        reveal_strlit(")");
        assert("("@ =~= seq!['(']);
        assert(")"@ =~= seq![')']);
    }
    if !type_only && !open_paren {
        let r: Vec<String> = Vec::new();
        assert(t@ == trim(message@));
        assert(!type_names().contains(t@));
        assert(!(contains(t@, seq!['(']) && !contains(t@, seq![')'])));
        assert(r.deep_view() =~= Seq::<Seq<char>>::empty());
        return r;
    }
    let ghost pd = paths.deep_view();
    let mut scopes: Vec<String> = Vec::new();
    let mut i: usize = 0;
    while i < paths.len()
        invariant
            i <= paths.len(),
            pd == paths.deep_view(),
            suggest_scopes_of(message@, pd) == scopes_upto(pd, pd.len() as int),
            scopes.deep_view() == scopes_upto(pd, i as int),
        decreases paths.len() - i,
    {
        if scopes.len() >= 8 {
            proof {
                lemma_scopes_stay(pd, i as int, pd.len() as int);
            }
            return scopes;
        }
        let pv = chars_of(paths[i].as_str());
        let segs = normal_segments(&pv);
        let scope: Option<Vec<char>> = if segs.len() >= 2 && segs[0].len() == 3 && segs[0][0]
            == 's' && segs[0][1] == 'r' && segs[0][2] == 'c' {
            assert(segs@[0]@ =~= seq!['s', 'r', 'c']);
            Some(slice_of(&segs[1], 0, segs[1].len()))
        } else if segs.len() >= 1 {
            proof {
                if segs.len() >= 2 && segs@[0]@ == seq!['s', 'r', 'c'] {
                    assert(segs[0][0] == 's');
                }
            }
            Some(slice_of(&segs[0], 0, segs[0].len()))
        } else {
            None
        };
        proof {
            if segs.len() >= 1 {
                assert(segs@[0]@.subrange(0, segs@[0]@.len() as int) =~= segs@[0]@);
            }
            if segs.len() >= 2 {
                assert(segs@[1]@.subrange(0, segs@[1]@.len() as int) =~= segs@[1]@);
            }
            assert(pd[i as int] == pv@);
        }
        match scope {
            Some(s) => {
                if !contains_text(&scopes, &s) {
                    vec_push(&mut scopes, string_of(&s));
                }
            },
            None => {},
        }
        i = i + 1;
    }
    scopes
}

proof fn lemma_scopes_stay(paths: Seq<Seq<char>>, i: int, n: int)
    requires
        0 <= i <= n,
        scopes_upto(paths, i).len() >= 8,
    ensures
        scopes_upto(paths, n) == scopes_upto(paths, i),
    decreases n - i,
{
    if i < n {
        lemma_scopes_stay(paths, i, n - 1);
    }
}

/// The message with its type replaced or inserted, keeping any subject after
/// `:` or any partial `(scope`.
pub open spec fn apply_type_of(message: Seq<char>, ty: Seq<char>) -> Seq<char> {
    match split_once(message, ':') {
        Some((_, rest)) => {
            let rest = trim_start(rest);
            if rest.len() == 0 {
                ty + seq![':', ' ']
            } else {
                ty + seq![':', ' '] + rest
            }
        },
        None => match split_once(message, '(') {
            Some((_, after)) => ty + seq!['('] + after,
            None => ty + seq![':', ' '],
        },
    }
}

/// Inserts or replaces the type prefix, preserving any subject after `:`.
pub fn apply_type(message: &str, ty: &str) -> (r: String)
    ensures
        r@ == apply_type_of(message@, ty@),
{
    let mv = chars_of(message);
    let mut out = chars_of(ty);
    proof {
        reveal_strlit(": ");
        reveal_strlit("(");
    }
    match split_once_exec(&mv, ':') {
        Some((_, rest)) => {
            let rest = trim_start_exec(&rest);
            push_str(&mut out, ": ");
            if rest.len() > 0 {
                push_all(&mut out, &rest);
            }
        },
        None => match split_once_exec(&mv, '(') {
            Some((_, after)) => {
                push_str(&mut out, "(");
                push_all(&mut out, &after);
            },
            None => {
                push_str(&mut out, ": ");
            },
        },
    }
    string_of(&out)
}

/// The first type the message starts with, else `feat`.
pub open spec fn prefix_of(message: Seq<char>) -> spec_fn(Seq<char>) -> bool {
    |t: Seq<char>| starts_with(message, t)
}

pub open spec fn leading_type(message: Seq<char>) -> Seq<char> {
    let hits = type_names().filter(prefix_of(message));
    if hits.len() > 0 {
        hits[0]
    } else {
        "feat"@
    }
}

/// `type(scope): subject` with the message's type (else `feat`) and the
/// subject after its `:`.
pub open spec fn apply_scope_of(message: Seq<char>, scope: Seq<char>) -> Seq<char> {
    let subject = match split_once(message, ':') {
        Some((_, r)) => trim_start(r),
        None => Seq::empty(),
    };
    leading_type(message) + seq!['('] + scope + seq![')', ':', ' '] + subject
}

/// Applies a scope into `type(scope): subject` form.
pub fn apply_scope(message: &str, scope: &str) -> (r: String)
    ensures
        r@ == apply_scope_of(message@, scope@),
{
    let mv = chars_of(message);
    let all = types();
    let ghost pred = prefix_of(mv@);
    let ghost names = type_names();
    let mut i: usize = 0;
    let mut found: Option<usize> = None;
    while i < all.len()
        invariant
            i <= all.len(),
            all@.len() == names.len(),
            names == type_names(),
            forall|k: int| 0 <= k < all@.len() ==> #[trigger] all@[k]@ == names[k],
            pred == prefix_of(mv@),
            found is None ==> names.take(i as int).filter(pred).len() == 0,
            found matches Some(k) ==> k < all.len() && names.take(i as int).filter(pred).len()
                > 0 && names.take(i as int).filter(pred)[0] == names[k as int],
        decreases all.len() - i,
    {
        proof {
            assert(names.take(i + 1) =~= names.take(i as int).push(names[i as int]));
            names.take(i as int).lemma_filter_push(names[i as int], pred);
        }
        if found.is_none() {
            let tv = chars_of(all[i]);
            if starts_with_exec(&mv, &tv) {
                found = Some(i);
            }
        }
        i = i + 1;
    }
    assert(names.take(names.len() as int) =~= names);
    let mut out: Vec<char> = match found {
        Some(k) => chars_of(all[k]),
        None => chars_of("feat"),
    };
    proof {
        reveal_strlit("feat");
        reveal_strlit("(");
        reveal_strlit("): ");
    }
    push_str(&mut out, "(");
    push_str(&mut out, scope);
    push_str(&mut out, "): ");
    match split_once_exec(&mv, ':') {
        Some((_, rest)) => {
            let rest = trim_start_exec(&rest);
            push_all(&mut out, &rest);
        },
        None => {},
    }
    proof {
        if split_once(mv@, ':') is None {
            assert(out@ + Seq::<char>::empty() =~= out@);
        }
    }
    string_of(&out)
}

} // verus!
