//! Character sequences: whitespace, trimming, splitting and conversion
//! between strings and vectors of characters.

use vstd::prelude::*;

verus! {

/// Whether `c` is whitespace as Unicode defines it (`White_Space`).
pub open spec fn is_space(c: char) -> bool {
    let n = c as u32;
    ||| 0x09 <= n <= 0x0D
    ||| n == 0x20
    ||| n == 0x85
    ||| n == 0xA0
    ||| n == 0x1680
    ||| 0x2000 <= n <= 0x200A
    ||| n == 0x2028
    ||| n == 0x2029
    ||| n == 0x202F
    ||| n == 0x205F
    ||| n == 0x3000
}

/// Tells whether `c` is a whitespace character.
pub fn is_whitespace(c: char) -> (r: bool)
    ensures
        r == is_space(c),
{
    let n: u32 = c as u32;
    (0x09 <= n && n <= 0x0D) || n == 0x20 || n == 0x85 || n == 0xA0 || n == 0x1680 || (0x2000 <= n
        && n <= 0x200A) || n == 0x2028 || n == 0x2029 || n == 0x202F || n == 0x205F || n == 0x3000
}

/// `String::push` appends one character to the end of the string.
pub assume_specification[ String::push ](s: &mut String, c: char)
    ensures
        final(s)@ == old(s)@.push(c),
;

/// The characters of `s`, in order.
pub fn chars_of(s: &str) -> (v: Vec<char>)
    ensures
        v@ == s@,
{
    let mut v: Vec<char> = Vec::new();
    for c in it: s.chars()
        invariant
            v@ == it.seq().take(it.index() as int),
            it.seq() == s@,
    {
        v.push(c);
    }
    v
}

/// The string made of the characters `v[from..to]`.
pub fn string_of(v: &Vec<char>, from: usize, to: usize) -> (s: String)
    requires
        from <= to <= v.len(),
    ensures
        s@ == v@.subrange(from as int, to as int),
{
    let mut s = String::new();
    let mut i: usize = from;
    while i < to
        invariant
            from <= i <= to <= v.len(),
            s@ == v@.subrange(from as int, i as int),
        decreases to - i,
    {
        s.push(v[i]);
        i += 1;
    }
    s
}

/// `s` without its leading whitespace.
pub open spec fn trim_start(s: Seq<char>) -> Seq<char>
    decreases s.len(),
{
    if s.len() > 0 && is_space(s.first()) {
        trim_start(s.drop_first())
    } else {
        s
    }
}

/// `s` without its trailing whitespace.
pub open spec fn trim_end(s: Seq<char>) -> Seq<char>
    decreases s.len(),
{
    if s.len() > 0 && is_space(s.last()) {
        trim_end(s.drop_last())
    } else {
        s
    }
}

/// `s` without its leading and trailing whitespace.
pub open spec fn trim(s: Seq<char>) -> Seq<char> {
    trim_end(trim_start(s))
}

/// `s` without its line feeds.
pub open spec fn strip_newlines(s: Seq<char>) -> Seq<char> {
    s.filter(|c: char| c != '\n')
}

/// Whether `sep` stands in `s` at index `i`.
pub open spec fn occurs_at(s: Seq<char>, sep: Seq<char>, i: int) -> bool {
    0 <= i && i + sep.len() <= s.len() && s.subrange(i, i + sep.len()) == sep
}

/// The least index at or after `from` where `sep` stands in `s`; the length
/// of `s` where it stands nowhere from there on.
pub open spec fn find_from(s: Seq<char>, sep: Seq<char>, from: int) -> int
    decreases s.len() - from,
{
    if from < 0 || from >= s.len() || from + sep.len() > s.len() {
        s.len() as int
    } else if occurs_at(s, sep, from) {
        from
    } else {
        find_from(s, sep, from + 1)
    }
}

/// The pieces of `s` between the occurrences of `sep`, found from the left
/// and not overlapping. An empty `sep` splits nothing.
pub open spec fn split(s: Seq<char>, sep: Seq<char>) -> Seq<Seq<char>>
    decreases s.len(),
{
    let at = find_from(s, sep, 0);
    if sep.len() == 0 || at < 0 || at + sep.len() > s.len() {
        seq![s]
    } else {
        seq![s.take(at)] + split(s.skip(at + sep.len()), sep)
    }
}

/// Whether `a` comes before `b` in the order of strings: character by
/// character, the lesser code point first, and a proper prefix before what
/// it is a prefix of.
pub open spec fn precedes(a: Seq<char>, b: Seq<char>) -> bool
    decreases a.len(),
{
    if b.len() == 0 {
        false
    } else if a.len() == 0 {
        true
    } else if a.first() != b.first() {
        (a.first() as u32) < (b.first() as u32)
    } else {
        precedes(a.drop_first(), b.drop_first())
    }
}

/// What comes before something that comes before a third comes before the
/// third.
pub proof fn lemma_precedes_is_transitive(a: Seq<char>, b: Seq<char>, c: Seq<char>)
    requires
        precedes(a, b),
        precedes(b, c),
    ensures
        precedes(a, c),
    decreases a.len(),
{
    if a.len() > 0 && a.first() == b.first() && b.first() == c.first() {
        lemma_precedes_is_transitive(a.drop_first(), b.drop_first(), c.drop_first());
    }
}

/// Bounds of `v[from..to]` without its leading and trailing whitespace.
pub fn trim_bounds(v: &Vec<char>, from: usize, to: usize) -> (r: (usize, usize))
    requires
        from <= to <= v.len(),
    ensures
        from <= r.0 <= r.1 <= to,
        v@.subrange(r.0 as int, r.1 as int) == trim(v@.subrange(from as int, to as int)),
{
    let mut a: usize = from;
    while a < to && is_whitespace(v[a])
        invariant
            from <= a <= to <= v.len(),
            trim_start(v@.subrange(from as int, to as int)) == trim_start(
                v@.subrange(a as int, to as int),
            ),
        decreases to - a,
    {
        assert(v@.subrange(a as int, to as int).drop_first() == v@.subrange(a + 1, to as int));
        a += 1;
    }
    let mut b: usize = to;
    while a < b && is_whitespace(v[b - 1])
        invariant
            a <= b <= to <= v.len(),
            trim_end(v@.subrange(a as int, to as int)) == trim_end(v@.subrange(a as int, b as int)),
        decreases b - a,
    {
        assert(v@.subrange(a as int, b as int).drop_last() == v@.subrange(a as int, b - 1));
        b -= 1;
    }
    (a, b)
}

/// `s` without its leading and trailing whitespace.
pub fn trimmed(s: &str) -> (r: String)
    ensures
        r@ == trim(s@),
{
    let v = chars_of(s);
    let (a, b) = trim_bounds(&v, 0, v.len());
    assert(v@.subrange(0, v.len() as int) == v@);
    string_of(&v, a, b)
}

/// `s` without its line feeds.
pub fn without_newlines(s: &str) -> (r: String)
    ensures
        r@ == strip_newlines(s@),
{
    let v = chars_of(s);
    let mut r = String::new();
    let mut i: usize = 0;
    proof {
        reveal(Seq::filter);
    }
    while i < v.len()
        invariant
            i <= v.len(),
            r@ == strip_newlines(v@.take(i as int)),
        decreases v.len() - i,
    {
        proof {
            assert(v@.take(i + 1) == v@.take(i as int).push(v@[i as int]));
            v@.take(i as int).lemma_filter_push(v@[i as int], |c: char| c != '\n');
        }
        if v[i] != '\n' {
            r.push(v[i]);
        }
        i += 1;
    }
    assert(v@.take(v.len() as int) == v@);
    r
}

/// Tells whether `sep` stands in `v` at index `i`.
pub fn matches_at(v: &Vec<char>, sep: &Vec<char>, i: usize) -> (r: bool)
    ensures
        r == occurs_at(v@, sep@, i as int),
{
    if i > v.len() || v.len() - i < sep.len() {
        return false;
    }
    let mut k: usize = 0;
    while k < sep.len()
        invariant
            k <= sep.len(),
            i + sep.len() <= v.len(),
            v@.subrange(i as int, i + k) == sep@.take(k as int),
        decreases sep.len() - k,
    {
        if v[i + k] != sep[k] {
            assert(v@.subrange(i as int, i + sep.len())[k as int] != sep@[k as int]);
            return false;
        }
        assert(v@.subrange(i as int, i + k + 1) == v@.subrange(i as int, i + k).push(v@[i + k]));
        assert(sep@.take(k + 1) == sep@.take(k as int).push(sep@[k as int]));
        k += 1;
    }
    assert(sep@.take(sep.len() as int) == sep@);
    true
}

/// Tells whether `s` begins with `prefix`.
pub fn starts_with(s: &str, prefix: &str) -> (r: bool)
    ensures
        r == prefix@.is_prefix_of(s@),
{
    let v = chars_of(s);
    let p = chars_of(prefix);
    matches_at(&v, &p, 0)
}

/// Tells whether `a` and `b` hold the same characters.
pub fn same_text(a: &str, b: &str) -> (r: bool)
    ensures
        r == (a@ == b@),
{
    let v = chars_of(a);
    let w = chars_of(b);
    if v.len() != w.len() {
        return false;
    }
    let r = matches_at(&v, &w, 0);
    assert(v@.subrange(0, v.len() as int) == v@);
    r
}

/// Tells whether `a` comes before `b` in the order of strings.
pub fn comes_before(a: &str, b: &str) -> (r: bool)
    ensures
        r == precedes(a@, b@),
{
    let v = chars_of(a);
    let w = chars_of(b);
    let mut i: usize = 0;
    assert(v@.skip(0) == v@ && w@.skip(0) == w@);
    while i < v.len() && i < w.len()
        invariant
            i <= v.len(),
            i <= w.len(),
            v@ == a@,
            w@ == b@,
            precedes(v@, w@) == precedes(v@.skip(i as int), w@.skip(i as int)),
        decreases v.len() - i,
    {
        let x: char = v[i];
        let y: char = w[i];
        assert(v@.skip(i as int).first() == x);
        assert(w@.skip(i as int).first() == y);
        if x != y {
            let m: u32 = x as u32;
            let n: u32 = y as u32;
            return m < n;
        }
        assert(v@.skip(i as int).drop_first() == v@.skip(i + 1));
        assert(w@.skip(i as int).drop_first() == w@.skip(i + 1));
        i += 1;
    }
    i < w.len()
}

/// The pieces of `s` between the occurrences of `sep`.
pub fn split_text(s: &str, sep: &str) -> (pieces: Vec<String>)
    ensures
        pieces.deep_view() == split(s@, sep@),
{
    let v = chars_of(s);
    let p = chars_of(sep);
    let mut pieces: Vec<String> = Vec::new();
    let mut start: usize = 0;
    let mut i: usize = 0;
    assert(v@.skip(0) == v@);
    while p.len() > 0 && i < v.len()
        invariant
            start <= i <= v.len(),
            split(v@, p@) == pieces.deep_view() + split(v@.skip(start as int), p@),
            find_from(v@.skip(start as int), p@, 0) == find_from(
                v@.skip(start as int),
                p@,
                i - start,
            ),
        decreases v.len() - i,
    {
        let ghost rest = v@.skip(start as int);
        let ghost done = pieces.deep_view();
        assert(occurs_at(rest, p@, i - start) == occurs_at(v@, p@, i as int)) by {
            if i + p.len() <= v.len() {
                assert(rest.subrange(i - start, i - start + p.len()) == v@.subrange(
                    i as int,
                    i + p.len(),
                ));
            }
        }
        if matches_at(&v, &p, i) {
            let piece = string_of(&v, start, i);
            pieces.push(piece);
            proof {
                assert(rest.take(i - start) == v@.subrange(start as int, i as int));
                assert(rest.skip(i - start + p.len()) == v@.skip(i + p.len()));
                assert(pieces.deep_view() == done.push(piece@));
                assert(done + (seq![piece@] + split(v@.skip(i + p.len()), p@)) == done.push(
                    piece@,
                ) + split(v@.skip(i + p.len()), p@));
            }
            i += p.len();
            start = i;
        } else {
            i += 1;
        }
    }
    let last = string_of(&v, start, v.len());
    proof {
        let rest = v@.skip(start as int);
        let done = pieces.deep_view();
        assert(rest == v@.subrange(start as int, v.len() as int));
        assert(split(rest, p@) == seq![rest]);
        assert(done + seq![rest] == done.push(last@));
    }
    let ghost done = pieces.deep_view();
    pieces.push(last);
    assert(pieces.deep_view() == done.push(last@));
    pieces
}

} // verus!
