//! Paths compared the way `Path` compares them: by their components.
use vstd::prelude::*;

use crate::text::{chars_of, seq_eq, split_all, split_all_exec, starts_with, views};

verus! {

/// The component a path starts with: the root for an absolute path, `.`
/// for a relative path that starts with `./` or is `.`, none otherwise.
pub open spec fn leading_part(p: Seq<char>) -> Seq<Seq<char>> {
    if p.len() > 0 && p[0] == '/' {
        seq![seq!['/']]
    } else if p == seq!['.'] || starts_with(p, seq!['.', '/']) {
        seq![seq!['.']]
    } else {
        Seq::empty()
    }
}

/// Whether a piece between separators names a component: neither empty
/// (repeated or trailing separators) nor `.`.
pub open spec fn is_part(s: Seq<char>) -> bool {
    s.len() > 0 && s != seq!['.']
}

/// The components of a path: its leading root or `.`, then its names and
/// `..`s, skipping empty pieces and `.`.
pub open spec fn path_parts(p: Seq<char>) -> Seq<Seq<char>> {
    leading_part(p) + split_all(p, '/').filter(|s: Seq<char>| is_part(s))
}

/// Whether two paths have the same components.
pub open spec fn same_path(a: Seq<char>, b: Seq<char>) -> bool {
    path_parts(a) == path_parts(b)
}

fn is_part_exec(s: &Vec<char>) -> (r: bool)
    ensures
        r == is_part(s@),
{
    let dot = s.len() == 1 && s[0] == '.';
    proof {
        if dot {
            assert(s@ =~= seq!['.']);
        }
        if s@ == seq!['.'] {
            assert(s[0] == '.');
        }
    }
    s.len() > 0 && !dot
}

/// The components of a path.
pub fn path_parts_exec(p: &Vec<char>) -> (r: Vec<Vec<char>>)
    ensures
        views(r@) == path_parts(p@),
{
    let mut out: Vec<Vec<char>> = Vec::new();
    proof {
        if starts_with(p@, seq!['.', '/']) {
            assert(p@.subrange(0, 2) == seq!['.', '/']);
            assert(p@.subrange(0, 2)[0] == p@[0] && p@.subrange(0, 2)[1] == p@[1]);
        }
        if p@ == seq!['.'] {
            assert(p@[0] == '.');
        }
    }
    if p.len() > 0 && p[0] == '/' {
        let root = vec!['/'];
        assert(root@ =~= seq!['/']);
        out.push(root);
        assert(views(out@) =~= seq![seq!['/']]);
    } else if p.len() == 1 && p[0] == '.' {
        let cur = vec!['.'];
        assert(cur@ =~= seq!['.']);
        out.push(cur);
        assert(p@ =~= seq!['.']);
        assert(views(out@) =~= seq![seq!['.']]);
    } else if p.len() >= 2 && p[0] == '.' && p[1] == '/' {
        let cur = vec!['.'];
        assert(cur@ =~= seq!['.']);
        out.push(cur);
        assert(p@.subrange(0, 2) =~= seq!['.', '/']);
        assert(views(out@) =~= seq![seq!['.']]);
    } else {
        assert(views(out@) =~= Seq::<Seq<char>>::empty());
    }
    let ghost head = views(out@);
    assert(head =~= leading_part(p@));
    let pieces = split_all_exec(p, '/');
    let ghost pv = views(pieces@);
    let ghost pred = |s: Seq<char>| is_part(s);
    assert(pv.take(0).filter(pred) =~= Seq::<Seq<char>>::empty());
    assert(views(out@) =~= head + pv.take(0).filter(pred));
    let mut i: usize = 0;
    while i < pieces.len()
        invariant
            i <= pieces.len(),
            pv == views(pieces@),
            pv.len() == pieces.len(),
            head == leading_part(p@),
            pred == (|s: Seq<char>| is_part(s)),
            views(out@) == head + pv.take(i as int).filter(pred),
        decreases pieces.len() - i,
    {
        proof {
            assert(pv.take(i + 1) =~= pv.take(i as int).push(pv[i as int]));
            pv.take(i as int).lemma_filter_push(pv[i as int], pred);
            assert(pv[i as int] == pieces@[i as int]@);
        }
        if is_part_exec(&pieces[i]) {
            let piece = crate::text::copy_chars(&pieces[i]);
            let ghost before = out@;
            out.push(piece);
            assert(views(out@) =~= views(before).push(piece@));
        }
        i = i + 1;
    }
    assert(pv.take(pv.len() as int) =~= pv);
    assert(pv == split_all(p@, '/'));
    out
}

/// Whether two paths have the same components.
pub fn same_path_exec(a: &str, b: &str) -> (r: bool)
    ensures
        r == same_path(a@, b@),
{
    let x = path_parts_exec(&chars_of(a));
    let y = path_parts_exec(&chars_of(b));
    if x.len() != y.len() {
        proof {
            if path_parts(a@) == path_parts(b@) {
                assert(views(x@).len() == views(y@).len());
            }
        }
        return false;
    }
    let mut i: usize = 0;
    while i < x.len()
        invariant
            i <= x.len(),
            x.len() == y.len(),
            views(x@) == path_parts(a@),
            views(y@) == path_parts(b@),
            forall|j: int| 0 <= j < i ==> x@[j]@ == y@[j]@,
        decreases x.len() - i,
    {
        if !seq_eq(&x[i], &y[i]) {
            proof {
                assert(views(x@)[i as int] == x@[i as int]@);
                assert(views(y@)[i as int] == y@[i as int]@);
                assert(views(x@)[i as int] != views(y@)[i as int]);
            }
            return false;
        }
        i = i + 1;
    }
    assert(views(x@) =~= views(y@));
    true
}

} // verus!
