//! Character-level text helpers shared by the parsers and formatters.
//!
//! Text is handled as sequences of `char`s: `&str` / `String` values are read
//! into `Vec<char>`, inspected with the helpers below, and turned back into
//! `String`s. Each helper is specified over `Seq<char>`.
use vstd::prelude::*;

verus! {

// ---------------------------------------------------------------------------
// Character classes
// ---------------------------------------------------------------------------
/// `char::is_whitespace`: the Unicode `White_Space` property.
pub open spec fn is_ws(c: char) -> bool {
    ||| ('\u{9}' <= c && c <= '\u{d}')
    ||| c == ' '
    ||| c == '\u{85}'
    ||| c == '\u{a0}'
    ||| c == '\u{1680}'
    ||| ('\u{2000}' <= c && c <= '\u{200a}')
    ||| c == '\u{2028}'
    ||| c == '\u{2029}'
    ||| c == '\u{202f}'
    ||| c == '\u{205f}'
    ||| c == '\u{3000}'
}

pub open spec fn is_digit(c: char) -> bool {
    '0' <= c && c <= '9'
}

pub open spec fn is_hex(c: char) -> bool {
    is_digit(c) || ('a' <= c && c <= 'f') || ('A' <= c && c <= 'F')
}

pub open spec fn is_alnum(c: char) -> bool {
    is_digit(c) || ('a' <= c && c <= 'z') || ('A' <= c && c <= 'Z')
}

pub open spec fn lower_ascii(c: char) -> char {
    if 'A' <= c && c <= 'Z' {
        ((c as u32) + 32) as char
    } else {
        c
    }
}

pub open spec fn lower_ascii_seq(s: Seq<char>) -> Seq<char> {
    s.map_values(|c: char| lower_ascii(c))
}

pub fn char_is_ws(c: char) -> (r: bool)
    ensures
        r == is_ws(c),
{
    ('\u{9}' <= c && c <= '\u{d}') || c == ' ' || c == '\u{85}' || c == '\u{a0}' || c
        == '\u{1680}' || ('\u{2000}' <= c && c <= '\u{200a}') || c == '\u{2028}' || c
        == '\u{2029}' || c == '\u{202f}' || c == '\u{205f}' || c == '\u{3000}'
}

pub fn char_is_digit(c: char) -> (r: bool)
    ensures
        r == is_digit(c),
{
    '0' <= c && c <= '9'
}

pub fn char_is_hex(c: char) -> (r: bool)
    ensures
        r == is_hex(c),
{
    ('0' <= c && c <= '9') || ('a' <= c && c <= 'f') || ('A' <= c && c <= 'F')
}

pub fn char_is_alnum(c: char) -> (r: bool)
    ensures
        r == is_alnum(c),
{
    ('0' <= c && c <= '9') || ('a' <= c && c <= 'z') || ('A' <= c && c <= 'Z')
}

pub fn char_lower_ascii(c: char) -> (r: char)
    ensures
        r == lower_ascii(c),
{
    if 'A' <= c && c <= 'Z' {
        let u: u8 = (c as u32 + 32) as u8;
        u as char
    } else {
        c
    }
}

// ---------------------------------------------------------------------------
// String <-> Vec<char>
// ---------------------------------------------------------------------------
/// `String::push`, which vstd gives no specification: appends one `char`.
#[verifier::external_body]
fn push_char(s: &mut String, c: char)
    ensures
        final(s)@ == old(s)@.push(c),
{
    s.push(c);
}

/// What `str::to_lowercase` returns for a text (full Unicode case mapping).
pub uninterp spec fn lowercase_of(s: Seq<char>) -> Seq<char>;

/// `str::to_lowercase`: its result is named by [`lowercase_of`].
#[verifier::external_body]
pub fn to_lowercase(s: &str) -> (r: String)
    ensures
        r@ == lowercase_of(s@),
{
    s.to_lowercase()
}

/// The characters of `s`, in order.
pub fn chars_of(s: &str) -> (r: Vec<char>)
    ensures
        r@ == s@,
{
    let mut v: Vec<char> = Vec::new();
    for c in it: s.chars()
        invariant
            v@ == it.seq().take(it.index() as int),
    {
        v.push(c);
    }
    v
}

/// Whether `s` has no characters.
pub fn is_empty_str(s: &str) -> (r: bool)
    ensures
        r == (s@.len() == 0),
{
    chars_of(s).len() == 0
}

/// A `String` made of the characters of `v`.
pub fn string_of(v: &Vec<char>) -> (s: String)
    ensures
        s@ == v@,
{
    let mut s = String::new();
    let mut i: usize = 0;
    while i < v.len()
        invariant
            i <= v.len(),
            s@ == v@.subrange(0, i as int),
        decreases v.len() - i,
    {
        push_char(&mut s, v[i]);
        i = i + 1;
    }
    s
}

/// Appends the characters of `src` to `dst`.
pub fn push_all(dst: &mut Vec<char>, src: &Vec<char>)
    ensures
        final(dst)@ == old(dst)@ + src@,
{
    let ghost d0 = dst@;
    let mut i: usize = 0;
    while i < src.len()
        invariant
            i <= src.len(),
            dst@ == d0 + src@.subrange(0, i as int),
        decreases src.len() - i,
    {
        dst.push(src[i]);
        i = i + 1;
    }
}

/// Appends the characters of `src` to `dst`.
pub fn push_str(dst: &mut Vec<char>, src: &str)
    ensures
        final(dst)@ == old(dst)@ + src@,
{
    let v = chars_of(src);
    push_all(dst, &v);
}

/// `s[a..b]` as a new vector.
pub fn slice_of(s: &Vec<char>, a: usize, b: usize) -> (r: Vec<char>)
    requires
        a <= b <= s.len(),
    ensures
        r@ == s@.subrange(a as int, b as int),
{
    let mut r: Vec<char> = Vec::new();
    let mut i = a;
    while i < b
        invariant
            a <= i <= b <= s.len(),
            r@ == s@.subrange(a as int, i as int),
        decreases b - i,
    {
        r.push(s[i]);
        i = i + 1;
    }
    r
}

/// A copy of `s`.
pub fn copy_chars(s: &Vec<char>) -> (r: Vec<char>)
    ensures
        r@ == s@,
{
    let r = slice_of(s, 0, s.len());
    assert(s@.subrange(0, s.len() as int) == s@);
    r
}

/// Equality of two character sequences.
pub fn seq_eq(a: &Vec<char>, b: &Vec<char>) -> (r: bool)
    ensures
        r == (a@ == b@),
{
    if a.len() != b.len() {
        return false;
    }
    let mut i: usize = 0;
    while i < a.len()
        invariant
            a.len() == b.len(),
            i <= a.len(),
            a@.subrange(0, i as int) == b@.subrange(0, i as int),
        decreases a.len() - i,
    {
        if a[i] != b[i] {
            assert(a@[i as int] != b@[i as int]);
            return false;
        }
        assert(a@.subrange(0, i + 1) == a@.subrange(0, i as int).push(a@[i as int]));
        assert(b@.subrange(0, i + 1) == b@.subrange(0, i as int).push(b@[i as int]));
        i = i + 1;
    }
    assert(a@ == a@.subrange(0, a.len() as int));
    assert(b@ == b@.subrange(0, b.len() as int));
    true
}

/// Equality of two strings by their characters.
pub fn str_eq(a: &str, b: &str) -> (r: bool)
    ensures
        r == (a@ == b@),
{
    let x = chars_of(a);
    let y = chars_of(b);
    seq_eq(&x, &y)
}

// ---------------------------------------------------------------------------
// Matching
// ---------------------------------------------------------------------------
pub open spec fn match_at(s: Seq<char>, p: Seq<char>, i: int) -> bool {
    0 <= i && i + p.len() <= s.len() && s.subrange(i, i + p.len()) == p
}

pub open spec fn starts_with(s: Seq<char>, p: Seq<char>) -> bool {
    match_at(s, p, 0)
}

pub open spec fn ends_with(s: Seq<char>, p: Seq<char>) -> bool {
    match_at(s, p, s.len() - p.len())
}

/// First index `>= i` at which `p` occurs in `s`.
pub open spec fn find_from(s: Seq<char>, p: Seq<char>, i: int) -> Option<int>
    decreases s.len() + 1 - i,
{
    if i < 0 || i + p.len() > s.len() {
        None
    } else if match_at(s, p, i) {
        Some(i)
    } else {
        find_from(s, p, i + 1)
    }
}

pub open spec fn find(s: Seq<char>, p: Seq<char>) -> Option<int> {
    find_from(s, p, 0)
}

pub open spec fn contains(s: Seq<char>, p: Seq<char>) -> bool {
    find(s, p) is Some
}

/// Last index `<= j` at which `p` occurs in `s`.
pub open spec fn rfind_upto(s: Seq<char>, p: Seq<char>, j: int) -> Option<int>
    decreases j + 1,
{
    if j < 0 {
        None
    } else if match_at(s, p, j) {
        Some(j)
    } else {
        rfind_upto(s, p, j - 1)
    }
}

pub open spec fn rfind(s: Seq<char>, p: Seq<char>) -> Option<int> {
    rfind_upto(s, p, s.len() - p.len())
}

pub proof fn lemma_find_from_bounds(s: Seq<char>, p: Seq<char>, i: int)
    requires
        i >= 0,
    ensures
        find_from(s, p, i) matches Some(k) ==> i <= k && match_at(s, p, k) && (forall|m: int|
            i <= m < k ==> !match_at(s, p, m)),
        find_from(s, p, i) is None ==> (forall|m: int| i <= m ==> !match_at(s, p, m)),
    decreases s.len() + 1 - i,
{
    if i + p.len() > s.len() {
    } else if match_at(s, p, i) {
    } else {
        lemma_find_from_bounds(s, p, i + 1);
    }
}

/// Where `rfind` answers an index, `p` occurs there.
pub proof fn lemma_rfind_bounds(s: Seq<char>, p: Seq<char>)
    ensures
        rfind(s, p) matches Some(k) ==> match_at(s, p, k),
{
    lemma_rfind_upto_bounds(s, p, s.len() - p.len());
}

proof fn lemma_rfind_upto_bounds(s: Seq<char>, p: Seq<char>, j: int)
    ensures
        rfind_upto(s, p, j) matches Some(k) ==> match_at(s, p, k) && k <= j,
    decreases j + 1,
{
    if j >= 0 && !match_at(s, p, j) {
        lemma_rfind_upto_bounds(s, p, j - 1);
    }
}

pub fn match_at_exec(s: &Vec<char>, p: &Vec<char>, i: usize) -> (r: bool)
    ensures
        r == match_at(s@, p@, i as int),
{
    if i > s.len() || p.len() > s.len() - i {
        return false;
    }
    let mut k: usize = 0;
    while k < p.len()
        invariant
            i + p.len() <= s.len(),
            k <= p.len(),
            s@.subrange(i as int, i + k) == p@.subrange(0, k as int),
        decreases p.len() - k,
    {
        if s[i + k] != p[k] {
            assert(s@.subrange(i as int, i + p.len())[k as int] != p@[k as int]);
            return false;
        }
        assert(s@.subrange(i as int, i + k + 1) == s@.subrange(i as int, i + k as int).push(
            s@[i + k],
        ));
        assert(p@.subrange(0, k + 1) == p@.subrange(0, k as int).push(p@[k as int]));
        k = k + 1;
    }
    assert(p@ == p@.subrange(0, p.len() as int));
    true
}

pub fn starts_with_exec(s: &Vec<char>, p: &Vec<char>) -> (r: bool)
    ensures
        r == starts_with(s@, p@),
{
    match_at_exec(s, p, 0)
}

pub fn starts_with_str(s: &Vec<char>, p: &str) -> (r: bool)
    ensures
        r == starts_with(s@, p@),
{
    let pv = chars_of(p);
    match_at_exec(s, &pv, 0)
}

pub fn ends_with_str(s: &Vec<char>, p: &str) -> (r: bool)
    ensures
        r == ends_with(s@, p@),
{
    let pv = chars_of(p);
    if pv.len() > s.len() {
        return false;
    }
    match_at_exec(s, &pv, s.len() - pv.len())
}

pub fn find_from_exec(s: &Vec<char>, p: &Vec<char>, i: usize) -> (r: Option<usize>)
    ensures
        r matches Some(k) ==> find_from(s@, p@, i as int) == Some(k as int),
        r is None ==> find_from(s@, p@, i as int) is None,
{
    if i > s.len() || p.len() > s.len() - i {
        return None;
    }
    let mut j = i;
    loop
        invariant
            i <= j <= s.len(),
            j + p.len() <= s.len(),
            find_from(s@, p@, i as int) == find_from(s@, p@, j as int),
        decreases s.len() - j,
    {
        if match_at_exec(s, p, j) {
            return Some(j);
        }
        if j == s.len() || p.len() > s.len() - (j + 1) {
            assert(find_from(s@, p@, j as int + 1) is None);
            return None;
        }
        j = j + 1;
    }
}

pub fn find_exec(s: &Vec<char>, p: &Vec<char>) -> (r: Option<usize>)
    ensures
        r matches Some(k) ==> find(s@, p@) == Some(k as int),
        r is None ==> find(s@, p@) is None,
{
    find_from_exec(s, p, 0)
}

pub fn find_str(s: &Vec<char>, p: &str) -> (r: Option<usize>)
    ensures
        r matches Some(k) ==> find(s@, p@) == Some(k as int),
        r is None ==> find(s@, p@) is None,
{
    let pv = chars_of(p);
    find_from_exec(s, &pv, 0)
}

pub fn contains_str(s: &Vec<char>, p: &str) -> (r: bool)
    ensures
        r == contains(s@, p@),
{
    let pv = chars_of(p);
    find_from_exec(s, &pv, 0).is_some()
}

pub fn contains_exec(s: &Vec<char>, p: &Vec<char>) -> (r: bool)
    ensures
        r == contains(s@, p@),
{
    find_from_exec(s, p, 0).is_some()
}

pub fn rfind_exec(s: &Vec<char>, p: &Vec<char>) -> (r: Option<usize>)
    ensures
        r matches Some(k) ==> rfind(s@, p@) == Some(k as int),
        r is None ==> rfind(s@, p@) is None,
{
    if p.len() > s.len() {
        return None;
    }
    let mut j: usize = s.len() - p.len();
    loop
        invariant
            j + p.len() <= s.len(),
            rfind(s@, p@) == rfind_upto(s@, p@, j as int),
        decreases j,
    {
        if match_at_exec(s, p, j) {
            return Some(j);
        }
        if j == 0 {
            assert(rfind_upto(s@, p@, -1) is None);
            return None;
        }
        j = j - 1;
    }
}

// ---------------------------------------------------------------------------
// Trimming
// ---------------------------------------------------------------------------
pub open spec fn trim_start(s: Seq<char>) -> Seq<char>
    decreases s.len(),
{
    if s.len() > 0 && is_ws(s[0]) {
        trim_start(s.drop_first())
    } else {
        s
    }
}

pub open spec fn trim_end(s: Seq<char>) -> Seq<char>
    decreases s.len(),
{
    if s.len() > 0 && is_ws(s.last()) {
        trim_end(s.drop_last())
    } else {
        s
    }
}

/// `str::trim`: leading and trailing whitespace removed.
pub open spec fn trim(s: Seq<char>) -> Seq<char> {
    trim_end(trim_start(s))
}

pub fn trim_start_exec(s: &Vec<char>) -> (r: Vec<char>)
    ensures
        r@ == trim_start(s@),
{
    let mut i: usize = 0;
    assert(s@.subrange(0, s.len() as int) == s@);
    while i < s.len() && char_is_ws(s[i])
        invariant
            i <= s.len(),
            trim_start(s@) == trim_start(s@.subrange(i as int, s.len() as int)),
        decreases s.len() - i,
    {
        assert(s@.subrange(i as int, s.len() as int).drop_first() == s@.subrange(
            i + 1,
            s.len() as int,
        ));
        i = i + 1;
    }
    let r = slice_of(s, i, s.len());
    r
}

pub fn trim_end_exec(s: &Vec<char>) -> (r: Vec<char>)
    ensures
        r@ == trim_end(s@),
{
    let mut j: usize = s.len();
    assert(s@.subrange(0, s.len() as int) == s@);
    while j > 0 && char_is_ws(s[j - 1])
        invariant
            j <= s.len(),
            trim_end(s@) == trim_end(s@.subrange(0, j as int)),
        decreases j,
    {
        assert(s@.subrange(0, j as int).drop_last() == s@.subrange(0, j - 1));
        j = j - 1;
    }
    assert(s@.subrange(0, s.len() as int) == s@);
    let r = slice_of(s, 0, j);
    r
}

pub fn trim_exec(s: &Vec<char>) -> (r: Vec<char>)
    ensures
        r@ == trim(s@),
{
    let a = trim_start_exec(s);
    trim_end_exec(&a)
}

/// `str::trim` on a string.
pub fn trim_str(s: &str) -> (r: String)
    ensures
        r@ == trim(s@),
{
    let v = chars_of(s);
    let t = trim_exec(&v);
    string_of(&t)
}

// ---------------------------------------------------------------------------
// Decimal numbers
// ---------------------------------------------------------------------------
pub open spec fn digit_char(d: nat) -> char {
    ((d % 10) + 48) as char
}

/// Decimal digits of `n` (no sign, no leading zeros; `0` is `"0"`).
pub open spec fn decimal(n: nat) -> Seq<char>
    decreases n,
{
    if n < 10 {
        seq![digit_char(n)]
    } else {
        decimal(n / 10).push(digit_char(n % 10))
    }
}

/// Decimal text of a signed number.
pub open spec fn decimal_signed(n: int) -> Seq<char> {
    if n < 0 {
        seq!['-'] + decimal((-n) as nat)
    } else {
        decimal(n as nat)
    }
}

pub fn digit_exec(d: u64) -> (c: char)
    requires
        d < 10,
    ensures
        c == digit_char(d as nat),
{
    let u: u8 = (d as u8) + 48;
    u as char
}

/// The decimal text of `n`.
pub fn decimal_exec(n: u64) -> (r: Vec<char>)
    ensures
        r@ == decimal(n as nat),
    decreases n,
{
    if n < 10 {
        let c = digit_exec(n);
        let mut v: Vec<char> = Vec::new();
        v.push(c);
        v
    } else {
        let mut v = decimal_exec(n / 10);
        let c = digit_exec(n % 10);
        v.push(c);
        v
    }
}

/// The decimal text of a signed `n`.
pub fn decimal_signed_exec(n: i64) -> (r: Vec<char>)
    ensures
        r@ == decimal_signed(n as int),
{
    if n < 0 {
        let m: u64 = if n == i64::MIN {
            9223372036854775808u64
        } else {
            (-n) as u64
        };
        let mut v: Vec<char> = Vec::new();
        v.push('-');
        let d = decimal_exec(m);
        push_all(&mut v, &d);
        v
    } else {
        decimal_exec(n as u64)
    }
}

/// The value of a sequence of ASCII digits.
pub open spec fn digits_value(s: Seq<char>) -> nat
    decreases s.len(),
{
    if s.len() == 0 {
        0
    } else {
        digits_value(s.drop_last()) * 10 + ((s.last() as u32) - 48) as nat
    }
}

pub open spec fn all_digits(s: Seq<char>) -> bool {
    forall|i: int| 0 <= i < s.len() ==> is_digit(#[trigger] s[i])
}

/// Rust's `FromStr` for unsigned integers bounded by `max`: an optional `+`,
/// then one or more ASCII digits whose value is at most `max`.
pub open spec fn parse_unsigned(s: Seq<char>, max: nat) -> Option<nat> {
    let body = if s.len() > 0 && s[0] == '+' {
        s.drop_first()
    } else {
        s
    };
    if body.len() > 0 && all_digits(body) && digits_value(body) <= max {
        Some(digits_value(body))
    } else {
        None
    }
}

/// Rust's `FromStr` for signed integers in `[-max - 1, max]`.
pub open spec fn parse_signed(s: Seq<char>, max: nat) -> Option<int> {
    if s.len() > 0 && s[0] == '-' {
        let body = s.drop_first();
        if body.len() > 0 && all_digits(body) && digits_value(body) <= max + 1 {
            Some(-(digits_value(body) as int))
        } else {
            None
        }
    } else {
        match parse_unsigned(s, max) {
            Some(v) => Some(v as int),
            None => None,
        }
    }
}

proof fn lemma_digits_value_push(s: Seq<char>, c: char)
    ensures
        digits_value(s.push(c)) == digits_value(s) * 10 + ((c as u32) - 48) as nat,
{
    assert(s.push(c).drop_last() == s);
}

proof fn lemma_digits_value_mono(s: Seq<char>, i: int)
    requires
        0 <= i <= s.len(),
        all_digits(s),
    ensures
        digits_value(s.subrange(0, i)) <= digits_value(s),
    decreases s.len() - i,
{
    if i < s.len() {
        lemma_digits_value_mono(s, i + 1);
        let t = s.subrange(0, i + 1);
        assert(t.drop_last() == s.subrange(0, i));
        assert(is_digit(s[i]));
        assert(digits_value(t) >= digits_value(s.subrange(0, i)) * 10) by (nonlinear_arith)
            requires
                digits_value(t) == digits_value(s.subrange(0, i)) * 10 + ((t.last() as u32)
                    - 48) as nat,
        ;
    } else {
        assert(s.subrange(0, i) == s);
    }
}

/// Value of the all-digit sequence `s`, or `None` above `max`.
fn digits_bounded(s: &Vec<char>, start: usize, max: u64) -> (r: Option<u64>)
    requires
        start <= s.len(),
        max >= 9,
    ensures
        r matches Some(v) ==> all_digits(s@.subrange(start as int, s.len() as int))
            && digits_value(s@.subrange(start as int, s.len() as int)) == v && v <= max,
        r is None ==> !(all_digits(s@.subrange(start as int, s.len() as int)) && digits_value(
            s@.subrange(start as int, s.len() as int),
        ) <= max),
{
    let ghost body = s@.subrange(start as int, s.len() as int);
    let mut acc: u64 = 0;
    let mut i = start;
    while i < s.len()
        invariant
            start <= i <= s.len(),
            body == s@.subrange(start as int, s.len() as int),
            all_digits(s@.subrange(start as int, i as int)),
            acc == digits_value(s@.subrange(start as int, i as int)),
            acc <= max,
            max >= 9,
        decreases s.len() - i,
    {
        let c = s[i];
        if !char_is_digit(c) {
            assert(body[i - start] == c);
            return None;
        }
        let d: u64 = (c as u32 - 48) as u64;
        proof {
            assert(s@.subrange(start as int, i + 1) == s@.subrange(start as int, i as int).push(
                c,
            ));
            lemma_digits_value_push(s@.subrange(start as int, i as int), c);
        }
        if acc > (max - d) / 10 {
            proof {
                let t = s@.subrange(start as int, i + 1);
                assert(digits_value(t) == acc * 10 + d);
                assert(acc * 10 + d > max) by (nonlinear_arith)
                    requires
                        acc > (max - d) / 10,
                        d <= 9,
                        d <= max,
                ;
                if all_digits(body) {
                    assert(body.subrange(0, i + 1 - start) == t);
                    lemma_digits_value_mono(body, i + 1 - start);
                }
            }
            return None;
        }
        proof {
            assert(acc * 10 + d <= max) by (nonlinear_arith)
                requires
                    acc <= (max - d) / 10,
                    d <= 9,
            ;
        }
        acc = acc * 10 + d;
        i = i + 1;
    }
    Some(acc)
}

/// `str::parse::<uN>()` where `max` is the type's largest value.
pub fn parse_unsigned_exec(s: &Vec<char>, max: u64) -> (r: Option<u64>)
    requires
        max >= 9,
    ensures
        r matches Some(v) ==> parse_unsigned(s@, max as nat) == Some(v as nat),
        r is None ==> parse_unsigned(s@, max as nat) is None,
{
    let start: usize = if s.len() > 0 && s[0] == '+' {
        1
    } else {
        0
    };
    proof {
        if start == 1 {
            assert(s@.drop_first() == s@.subrange(1, s.len() as int));
        } else {
            assert(s@ == s@.subrange(0, s.len() as int));
        }
    }
    if start == s.len() {
        return None;
    }
    digits_bounded(s, start, max)
}

/// `str::parse::<u32>()`.
pub fn parse_u32(s: &Vec<char>) -> (r: Option<u32>)
    ensures
        r matches Some(v) ==> parse_unsigned(s@, u32::MAX as nat) == Some(v as nat),
        r is None ==> parse_unsigned(s@, u32::MAX as nat) is None,
{
    match parse_unsigned_exec(s, u32::MAX as u64) {
        Some(v) => Some(v as u32),
        None => None,
    }
}

/// `str::parse::<i64>()`.
pub fn parse_i64(s: &Vec<char>) -> (r: Option<i64>)
    ensures
        r matches Some(v) ==> parse_signed(s@, i64::MAX as nat) == Some(v as int),
        r is None ==> parse_signed(s@, i64::MAX as nat) is None,
{
    if s.len() > 0 && s[0] == '-' {
        assert(s@.drop_first() == s@.subrange(1, s.len() as int));
        if s.len() == 1 {
            return None;
        }
        match digits_bounded(s, 1, 9223372036854775808u64) {
            Some(v) => {
                if v == 9223372036854775808u64 {
                    Some(i64::MIN)
                } else {
                    Some(-(v as i64))
                }
            },
            None => None,
        }
    } else {
        match parse_unsigned_exec(s, i64::MAX as u64) {
            Some(v) => Some(v as i64),
            None => None,
        }
    }
}


// ---------------------------------------------------------------------------
// Pattern trimming and splitting
// ---------------------------------------------------------------------------
/// `str::trim_start_matches(c)` for a single character.
pub open spec fn trim_start_char(s: Seq<char>, c: char) -> Seq<char>
    decreases s.len(),
{
    if s.len() > 0 && s[0] == c {
        trim_start_char(s.drop_first(), c)
    } else {
        s
    }
}

/// `str::trim_end_matches(p)`: every trailing copy of a non-empty `p` removed.
pub open spec fn trim_end_pat(s: Seq<char>, p: Seq<char>) -> Seq<char>
    decreases s.len(),
{
    if p.len() > 0 && ends_with(s, p) {
        trim_end_pat(s.subrange(0, s.len() - p.len()), p)
    } else {
        s
    }
}

/// `str::split_once(c)`: the text before and after the first `c`.
pub open spec fn split_once(s: Seq<char>, c: char) -> Option<(Seq<char>, Seq<char>)> {
    match find(s, seq![c]) {
        Some(i) => Some((s.subrange(0, i), s.subrange(i + 1, s.len() as int))),
        None => None,
    }
}

/// `str::split_once(p)` for a text pattern.
pub open spec fn split_once_pat(s: Seq<char>, p: Seq<char>) -> Option<(Seq<char>, Seq<char>)> {
    match find(s, p) {
        Some(i) => Some((s.subrange(0, i), s.subrange(i + p.len(), s.len() as int))),
        None => None,
    }
}

/// The text before the first `c` (all of `s` when there is none): what
/// `s.split(c).next()` yields.
pub open spec fn before_char(s: Seq<char>, c: char) -> Seq<char> {
    match split_once(s, c) {
        Some((a, _)) => a,
        None => s,
    }
}

pub fn trim_start_char_exec(s: &Vec<char>, c: char) -> (r: Vec<char>)
    ensures
        r@ == trim_start_char(s@, c),
{
    let mut i: usize = 0;
    assert(s@.subrange(0, s.len() as int) == s@);
    while i < s.len() && s[i] == c
        invariant
            i <= s.len(),
            trim_start_char(s@, c) == trim_start_char(s@.subrange(i as int, s.len() as int), c),
        decreases s.len() - i,
    {
        assert(s@.subrange(i as int, s.len() as int).drop_first() == s@.subrange(
            i + 1,
            s.len() as int,
        ));
        i = i + 1;
    }
    slice_of(s, i, s.len())
}

pub fn trim_end_pat_exec(s: &Vec<char>, p: &Vec<char>) -> (r: Vec<char>)
    ensures
        r@ == trim_end_pat(s@, p@),
{
    if p.len() == 0 {
        return slice_of(s, 0, s.len());
    }
    let mut j: usize = s.len();
    assert(s@.subrange(0, s.len() as int) == s@);
    loop
        invariant
            j <= s.len(),
            p.len() > 0,
            trim_end_pat(s@, p@) == trim_end_pat(s@.subrange(0, j as int), p@),
        decreases j,
    {
        if p.len() <= j && match_at_exec(s, p, j - p.len()) {
            proof {
                let t = s@.subrange(0, j as int);
                assert(t.subrange(j - p.len(), j as int) == s@.subrange(j - p.len(), j as int));
                assert(ends_with(t, p@));
                assert(t.subrange(0, t.len() - p.len()) == s@.subrange(0, j - p.len()));
            }
            j = j - p.len();
        } else {
            proof {
                let t = s@.subrange(0, j as int);
                if p.len() <= j {
                    assert(t.subrange(j - p.len(), j as int) == s@.subrange(
                        j - p.len(),
                        j as int,
                    ));
                }
                assert(!ends_with(t, p@));
            }
            return slice_of(s, 0, j);
        }
    }
}

pub fn split_once_exec(s: &Vec<char>, c: char) -> (r: Option<(Vec<char>, Vec<char>)>)
    ensures
        r matches Some((a, b)) ==> split_once(s@, c) == Some((a@, b@)),
        r is None ==> split_once(s@, c) is None,
{
    let n = s.len();
    let mut pv: Vec<char> = Vec::new();
    pv.push(c);
    assert(pv@ == seq![c]);
    match find_from_exec(s, &pv, 0) {
        Some(i) => {
            proof {
                lemma_find_from_bounds(s@, pv@, 0);
                assert(match_at(s@, pv@, i as int));
                assert(pv@.len() == 1);
                assert(i + 1 <= s@.len());
            }
            let a = slice_of(s, 0, i);
            let b = slice_of(s, i + 1, n);
            Some((a, b))
        },
        None => None,
    }
}

pub fn split_once_pat_exec(s: &Vec<char>, p: &str) -> (r: Option<(Vec<char>, Vec<char>)>)
    ensures
        r matches Some((a, b)) ==> split_once_pat(s@, p@) == Some((a@, b@)),
        r is None ==> split_once_pat(s@, p@) is None,
{
    let n = s.len();
    let pv = chars_of(p);
    match find_from_exec(s, &pv, 0) {
        Some(i) => {
            proof {
                lemma_find_from_bounds(s@, pv@, 0);
                assert(match_at(s@, pv@, i as int));
            }
            let a = slice_of(s, 0, i);
            let b = slice_of(s, i + pv.len(), n);
            Some((a, b))
        },
        None => None,
    }
}

pub fn before_char_exec(s: &Vec<char>, c: char) -> (r: Vec<char>)
    ensures
        r@ == before_char(s@, c),
{
    match split_once_exec(s, c) {
        Some((a, _)) => a,
        None => slice_of(s, 0, s.len()),
    }
}

pub fn lower_ascii_exec(s: &Vec<char>) -> (r: Vec<char>)
    ensures
        r@ == lower_ascii_seq(s@),
{
    let mut r: Vec<char> = Vec::new();
    let mut i: usize = 0;
    while i < s.len()
        invariant
            i <= s.len(),
            r@ == lower_ascii_seq(s@.subrange(0, i as int)),
        decreases s.len() - i,
    {
        let c = char_lower_ascii(s[i]);
        proof {
            assert(s@.subrange(0, i + 1) == s@.subrange(0, i as int).push(s@[i as int]));
        }
        r.push(c);
        proof {
            assert(r@ =~= lower_ascii_seq(s@.subrange(0, i + 1)));
        }
        i = i + 1;
    }
    assert(s@.subrange(0, s.len() as int) == s@);
    r
}


// ---------------------------------------------------------------------------
// Lines and fields
// ---------------------------------------------------------------------------
/// A line without the `\r` of a `\r\n` ending.
pub open spec fn strip_cr(l: Seq<char>) -> Seq<char> {
    if l.len() > 0 && l.last() == '\r' {
        l.drop_last()
    } else {
        l
    }
}

/// `str::lines`: pieces ended by `\n` (a `\r` before it dropped); the final
/// line ending is optional.
pub open spec fn lines(s: Seq<char>) -> Seq<Seq<char>>
    decreases s.len(),
{
    if s.len() == 0 {
        seq![]
    } else {
        match find(s, seq!['\n']) {
            Some(i) => {
                if 0 <= i < s.len() {
                    seq![strip_cr(s.subrange(0, i))] + lines(s.subrange(i + 1, s.len() as int))
                } else {
                    seq![s]
                }
            },
            None => seq![s],
        }
    }
}

/// `str::splitn(n, c)` for `n >= 1`: at most `n` pieces, the last one holding
/// the rest of the text.
pub open spec fn splitn(s: Seq<char>, n: nat, c: char) -> Seq<Seq<char>>
    decreases n,
{
    if n <= 1 {
        seq![s]
    } else {
        match split_once(s, c) {
            Some((a, b)) => seq![a] + splitn(b, (n - 1) as nat, c),
            None => seq![s],
        }
    }
}

/// `str::split(c)`: every piece between occurrences of `c`.
pub open spec fn split_all(s: Seq<char>, c: char) -> Seq<Seq<char>>
    decreases s.len(),
{
    match split_once(s, c) {
        Some((a, b)) => {
            if b.len() < s.len() {
                seq![a] + split_all(b, c)
            } else {
                seq![s]
            }
        },
        None => seq![s],
    }
}

/// The `k`-th piece, or the empty text when there are fewer pieces
/// (`parts.next().unwrap_or("")`).
pub open spec fn field(parts: Seq<Seq<char>>, k: int) -> Seq<char> {
    if 0 <= k < parts.len() {
        parts[k]
    } else {
        seq![]
    }
}

/// The texts of a list of character vectors.
pub open spec fn views(v: Seq<Vec<char>>) -> Seq<Seq<char>> {
    v.map_values(|x: Vec<char>| x@)
}

proof fn lemma_split_once_lens(s: Seq<char>, c: char)
    ensures
        split_once(s, c) matches Some((a, b)) ==> a.len() + b.len() + 1 == s.len(),
{
    lemma_find_from_bounds(s, seq![c], 0);
}

/// Every piece of `s` between occurrences of `c`.
pub fn split_all_exec(s: &Vec<char>, c: char) -> (r: Vec<Vec<char>>)
    ensures
        views(r@) == split_all(s@, c),
    decreases s.len(),
{
    proof {
        lemma_split_once_lens(s@, c);
    }
    match split_once_exec(s, c) {
        Some((a, b)) => {
            let rest = split_all_exec(&b, c);
            let mut r: Vec<Vec<char>> = Vec::new();
            r.push(a);
            let mut rest = rest;
            r.append(&mut rest);
            assert(views(r@) =~= seq![a@] + split_all(b@, c));
            r
        },
        None => {
            let mut r: Vec<Vec<char>> = Vec::new();
            r.push(copy_chars(s));
            assert(views(r@) =~= seq![s@]);
            r
        },
    }
}

pub fn lines_exec(s: &Vec<char>) -> (r: Vec<Vec<char>>)
    ensures
        views(r@) == lines(s@),
    decreases s.len(),
{
    let n = s.len();
    if n == 0 {
        let r: Vec<Vec<char>> = Vec::new();
        assert(views(r@) =~= lines(s@));
        return r;
    }
    let mut nl: Vec<char> = Vec::new();
    nl.push('\n');
    assert(nl@ == seq!['\n']);
    match find_from_exec(s, &nl, 0) {
        Some(i) => {
            proof {
                lemma_find_from_bounds(s@, nl@, 0);
                assert(match_at(s@, nl@, i as int));
            }
            let mut line = slice_of(s, 0, i);
            if line.len() > 0 && line[line.len() - 1] == '\r' {
                line.pop();
            }
            let rest = slice_of(s, i + 1, n);
            let mut tail = lines_exec(&rest);
            let mut out: Vec<Vec<char>> = Vec::new();
            out.push(line);
            let ghost o0 = out@;
            let ghost t0 = tail@;
            out.append(&mut tail);
            assert(views(out@) =~= views(o0) + views(t0));
            out
        },
        None => {
            let mut r: Vec<Vec<char>> = Vec::new();
            r.push(copy_chars(s));
            assert(views(r@) =~= seq![s@]);
            r
        },
    }
}

pub fn splitn_exec(s: &Vec<char>, n: usize, c: char) -> (r: Vec<Vec<char>>)
    ensures
        views(r@) == splitn(s@, n as nat, c),
    decreases n,
{
    if n <= 1 {
        let mut r: Vec<Vec<char>> = Vec::new();
        r.push(copy_chars(s));
        assert(views(r@) =~= seq![s@]);
        return r;
    }
    match split_once_exec(s, c) {
        Some((a, b)) => {
            let mut tail = splitn_exec(&b, n - 1, c);
            let mut out: Vec<Vec<char>> = Vec::new();
            out.push(a);
            let ghost o0 = out@;
            let ghost t0 = tail@;
            out.append(&mut tail);
            assert(views(out@) =~= views(o0) + views(t0));
            out
        },
        None => {
            let mut r: Vec<Vec<char>> = Vec::new();
            r.push(copy_chars(s));
            assert(views(r@) =~= seq![s@]);
            r
        },
    }
}

/// The `k`-th piece or an empty text.
pub fn field_exec(parts: &Vec<Vec<char>>, k: usize) -> (r: Vec<char>)
    ensures
        r@ == field(views(parts@), k as int),
{
    if k < parts.len() {
        copy_chars(&parts[k])
    } else {
        Vec::new()
    }
}

} // verus!
