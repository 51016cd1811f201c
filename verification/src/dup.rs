//! Copying values while keeping their mathematical model.
//!
//! `derive(Clone)` gives Verus no knowledge of the copy, so verified code
//! copies model values through [`Dup::dup`], whose result has the same deep
//! view as the original.
use vstd::prelude::*;

verus! {

/// The model of a `Result` of modelled values.
pub open spec fn result_dv<T: DeepView, E: DeepView>(r: Result<T, E>) -> Result<T::V, E::V> {
    match r {
        Ok(t) => Ok(t.deep_view()),
        Err(e) => Err(e.deep_view()),
    }
}

/// A value that can be copied with its deep view preserved.
pub trait Dup: DeepView + Sized {
    fn dup(&self) -> (r: Self)
        ensures
            r.deep_view() == self.deep_view(),
    ;
}

impl Dup for String {
    fn dup(&self) -> (r: String) {
        self.clone()
    }
}

impl Dup for bool {
    fn dup(&self) -> (r: bool) {
        *self
    }
}

impl Dup for char {
    fn dup(&self) -> (r: char) {
        *self
    }
}

impl Dup for u32 {
    fn dup(&self) -> (r: u32) {
        *self
    }
}

impl Dup for u64 {
    fn dup(&self) -> (r: u64) {
        *self
    }
}

impl Dup for usize {
    fn dup(&self) -> (r: usize) {
        *self
    }
}

impl Dup for i64 {
    fn dup(&self) -> (r: i64) {
        *self
    }
}

impl<T: Dup> Dup for Option<T> {
    fn dup(&self) -> (r: Option<T>) {
        match self {
            Some(x) => Some(x.dup()),
            None => None,
        }
    }
}

impl<T: Dup> Dup for Vec<T> {
    fn dup(&self) -> (r: Vec<T>) {
        let mut out: Vec<T> = Vec::new();
        let mut i: usize = 0;
        while i < self.len()
            invariant
                i <= self.len(),
                out@.len() == i,
                forall|k: int| 0 <= k < i ==> #[trigger] out@[k].deep_view() == self@[k].deep_view(),
            decreases self.len() - i,
        {
            out.push(self[i].dup());
            i = i + 1;
        }
        assert(out.deep_view() =~= self.deep_view());
        out
    }
}


/// Appends `x`, keeping the deep view in step.
pub fn vec_push<T: DeepView>(v: &mut Vec<T>, x: T)
    ensures
        final(v).deep_view() == old(v).deep_view().push(x.deep_view()),
{
    v.push(x);
    assert(v.deep_view() =~= old(v).deep_view().push(x.deep_view()));
}

/// Removes the element at `i`, keeping the deep view in step.
pub fn vec_remove<T: DeepView>(v: &mut Vec<T>, i: usize) -> (r: T)
    requires
        i < old(v).len(),
    ensures
        r.deep_view() == old(v).deep_view()[i as int],
        final(v).deep_view() == old(v).deep_view().remove(i as int),
{
    let r = v.remove(i);
    assert(v.deep_view() =~= old(v).deep_view().remove(i as int));
    r
}

/// Empties `v`.
pub fn vec_clear<T: DeepView>(v: &mut Vec<T>)
    ensures
        final(v).deep_view() == Seq::<T::V>::empty(),
{
    v.clear();
    assert(v.deep_view() =~= Seq::<T::V>::empty());
}

/// Moves the contents of `v` out, leaving it empty.
pub fn vec_take<T: DeepView>(v: &mut Vec<T>) -> (r: Vec<T>)
    ensures
        r.deep_view() == old(v).deep_view(),
        final(v).deep_view() == Seq::<T::V>::empty(),
{
    let mut r: Vec<T> = Vec::new();
    std::mem::swap(&mut r, v);
    assert(v.deep_view() =~= Seq::<T::V>::empty());
    r
}

/// Removes and returns the last element.
pub fn vec_pop<T: DeepView>(v: &mut Vec<T>) -> (r: Option<T>)
    ensures
        old(v).len() == 0 ==> r is None && final(v).deep_view() == old(v).deep_view(),
        old(v).len() > 0 ==> r is Some && r->0.deep_view() == old(v).deep_view().last()
            && final(v).deep_view() == old(v).deep_view().drop_last(),
{
    let r = v.pop();
    assert(old(v).len() == 0 ==> v.deep_view() =~= old(v).deep_view());
    assert(old(v).len() > 0 ==> v.deep_view() =~= old(v).deep_view().drop_last());
    r
}

/// Appends every element of `other` to `v`.
pub fn vec_extend<T: DeepView>(v: &mut Vec<T>, other: Vec<T>)
    ensures
        final(v).deep_view() == old(v).deep_view() + other.deep_view(),
{
    let mut o = other;
    v.append(&mut o);
    assert(v.deep_view() =~= old(v).deep_view() + other.deep_view());
}

/// The copy of the first `n` elements of `v`.
pub fn vec_prefix<T: Dup>(v: &Vec<T>, n: usize) -> (r: Vec<T>)
    requires
        n <= v.len(),
    ensures
        r.deep_view() == v.deep_view().take(n as int),
{
    let mut out: Vec<T> = Vec::new();
    let mut i: usize = 0;
    while i < n
        invariant
            i <= n <= v.len(),
            out.deep_view() == v.deep_view().take(i as int),
        decreases n - i,
    {
        vec_push(&mut out, v[i].dup());
        assert(v.deep_view().take(i as int).push(v.deep_view()[i as int]) =~= v.deep_view().take(i + 1));
        i = i + 1;
    }
    out
}

/// The copy of the elements of `v` from index `n` on.
pub fn vec_suffix<T: Dup>(v: &Vec<T>, n: usize) -> (r: Vec<T>)
    requires
        n <= v.len(),
    ensures
        r.deep_view() == v.deep_view().skip(n as int),
{
    let mut out: Vec<T> = Vec::new();
    let mut i: usize = n;
    while i < v.len()
        invariant
            n <= i <= v.len(),
            out.deep_view() == v.deep_view().subrange(n as int, i as int),
        decreases v.len() - i,
    {
        vec_push(&mut out, v[i].dup());
        assert(v.deep_view().subrange(n as int, i as int).push(v.deep_view()[i as int]) =~= v.deep_view().subrange(n as int, i + 1));
        i = i + 1;
    }
    assert(v.deep_view().subrange(n as int, v.len() as int) =~= v.deep_view().skip(n as int));
    out
}

} // verus!
