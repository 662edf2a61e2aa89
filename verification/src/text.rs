//! Text primitives with their meaning stated over `Seq<char>`: whitespace,
//! trimming, line and token splitting, searching, decimal numbers.
use vstd::prelude::*;

verus! {

// ------------------------------------------------------------------ chars

/// The Unicode `White_Space` property, which `char::is_whitespace` tests.
pub open spec fn is_ws(c: char) -> bool {
    let u = c as u32;
    ||| 0x09 <= u && u <= 0x0D
    ||| u == 0x20
    ||| u == 0x85
    ||| u == 0xA0
    ||| u == 0x1680
    ||| 0x2000 <= u && u <= 0x200A
    ||| u == 0x2028
    ||| u == 0x2029
    ||| u == 0x202F
    ||| u == 0x205F
    ||| u == 0x3000
}

pub fn char_is_ws(c: char) -> (r: bool)
    ensures
        r == is_ws(c),
{
    let u = c as u32;
    (0x09 <= u && u <= 0x0D) || u == 0x20 || u == 0x85 || u == 0xA0 || u == 0x1680 || (0x2000
        <= u && u <= 0x200A) || u == 0x2028 || u == 0x2029 || u == 0x202F || u == 0x205F || u
        == 0x3000
}

/// Every char of `s` is whitespace (so `s.trim()` is empty).
pub open spec fn all_ws(s: Seq<char>) -> bool {
    forall|i: int| 0 <= i < s.len() ==> is_ws(#[trigger] s[i])
}

// ------------------------------------------------------- string <-> chars

/// `String::push`: appends one char at the end.
#[verifier::external_body]
pub(crate) fn string_push(s: &mut String, c: char)
    ensures
        final(s)@ == old(s)@.push(c),
{
    s.push(c);
}

pub fn to_chars(s: &str) -> (v: Vec<char>)
    ensures
        v@ == s@,
{
    let n = s.unicode_len();
    let mut v: Vec<char> = Vec::new();
    let mut i: usize = 0;
    while i < n
        invariant
            n == s@.len(),
            i <= n,
            v@ == s@.subrange(0, i as int),
        decreases n - i,
    {
        let c = s.get_char(i);
        v.push(c);
        i = i + 1;
        assert(v@ =~= s@.subrange(0, i as int));
    }
    assert(v@ =~= s@);
    v
}

/// Appends the chars `v[lo..hi]` to `out`.
pub fn push_chars(out: &mut String, v: &Vec<char>, lo: usize, hi: usize)
    requires
        lo <= hi <= v@.len(),
    ensures
        final(out)@ == old(out)@ + v@.subrange(lo as int, hi as int),
{
    let mut i = lo;
    while i < hi
        invariant
            lo <= i <= hi <= v@.len(),
            out@ == old(out)@ + v@.subrange(lo as int, i as int),
        decreases hi - i,
    {
        string_push(out, v[i]);
        i = i + 1;
        assert(out@ =~= old(out)@ + v@.subrange(lo as int, i as int));
    }
}

pub fn from_chars(v: &Vec<char>, lo: usize, hi: usize) -> (s: String)
    requires
        lo <= hi <= v@.len(),
    ensures
        s@ == v@.subrange(lo as int, hi as int),
{
    let mut s = String::new();
    push_chars(&mut s, v, lo, hi);
    assert(s@ =~= v@.subrange(lo as int, hi as int));
    s
}

/// A new `String` holding the text of `s`.
pub fn owned(s: &str) -> (r: String)
    ensures
        r@ == s@,
{
    let v = to_chars(s);
    from_chars(&v, 0, v.len())
}

/// `a + b` as a new `String`.
pub fn cat(a: &str, b: &str) -> (r: String)
    ensures
        r@ == a@ + b@,
{
    let mut r = owned(a);
    r.append(b);
    r
}

/// `a + b + c` as a new `String`.
pub fn cat3(a: &str, b: &str, c: &str) -> (r: String)
    ensures
        r@ == a@ + b@ + c@,
{
    let mut r = owned(a);
    r.append(b);
    r.append(c);
    r
}

pub fn str_eq(a: &str, b: &str) -> (r: bool)
    ensures
        r == (a@ == b@),
{
    let va = to_chars(a);
    let vb = to_chars(b);
    str_eq_chars(&va, &vb)
}

pub fn str_eq_chars(va: &Vec<char>, vb: &Vec<char>) -> (r: bool)
    ensures
        r == (va@ == vb@),
{
    if va.len() != vb.len() {
        return false;
    }
    let mut i: usize = 0;
    while i < va.len()
        invariant
            va@.len() == vb@.len(),
            i <= va@.len(),
            forall|j: int| 0 <= j < i ==> va@[j] == vb@[j],
        decreases va.len() - i,
    {
        if va[i] != vb[i] {
            return false;
        }
        i = i + 1;
    }
    assert(va@ =~= vb@);
    true
}

// ------------------------------------------------------------- blank, trim

pub fn is_blank(s: &str) -> (r: bool)
    ensures
        r == all_ws(s@),
{
    let v = to_chars(s);
    let mut i: usize = 0;
    while i < v.len()
        invariant
            v@ == s@,
            i <= v@.len(),
            forall|j: int| 0 <= j < i ==> is_ws(#[trigger] v@[j]),
        decreases v.len() - i,
    {
        if !char_is_ws(v[i]) {
            return false;
        }
        i = i + 1;
    }
    true
}

/// `str::trim_start`: leading whitespace removed.
pub open spec fn trim_start(s: Seq<char>) -> Seq<char>
    decreases s.len(),
{
    if s.len() > 0 && is_ws(s[0]) {
        trim_start(s.drop_first())
    } else {
        s
    }
}

/// `str::trim_end`: trailing whitespace removed.
pub open spec fn trim_end(s: Seq<char>) -> Seq<char>
    decreases s.len(),
{
    if s.len() > 0 && is_ws(s.last()) {
        trim_end(s.drop_last())
    } else {
        s
    }
}

/// `str::trim`: leading and trailing whitespace removed.
pub open spec fn trim(s: Seq<char>) -> Seq<char> {
    trim_end(trim_start(s))
}

/// Bounds `lo..hi` of the trimmed part of `v`.
pub fn trim_bounds(v: &Vec<char>) -> (r: (usize, usize))
    ensures
        r.0 <= r.1 <= v@.len(),
        v@.subrange(r.0 as int, r.1 as int) == trim(v@),
{
    let n = v.len();
    let mut lo: usize = 0;
    assert(v@.subrange(0, n as int) =~= v@);
    while lo < n && char_is_ws(v[lo])
        invariant
            n == v@.len(),
            lo <= n,
            trim_start(v@) == trim_start(v@.subrange(lo as int, n as int)),
        decreases n - lo,
    {
        assert(v@.subrange(lo as int, n as int).drop_first() =~= v@.subrange(lo + 1, n as int));
        lo = lo + 1;
    }
    let ghost t = v@.subrange(lo as int, n as int);
    assert(trim_start(v@) == t);
    let mut hi: usize = n;
    assert(t.subrange(0, (hi - lo) as int) =~= t);
    while hi > lo && char_is_ws(v[hi - 1])
        invariant
            lo <= hi <= n,
            n == v@.len(),
            t == v@.subrange(lo as int, n as int),
            trim_end(t) == trim_end(v@.subrange(lo as int, hi as int)),
        decreases hi,
    {
        assert(v@.subrange(lo as int, hi as int).drop_last() =~= v@.subrange(
            lo as int,
            hi - 1,
        ));
        hi = hi - 1;
    }
    (lo, hi)
}

pub fn trim_str(s: &str) -> (r: String)
    ensures
        r@ == trim(s@),
{
    let v = to_chars(s);
    let (lo, hi) = trim_bounds(&v);
    from_chars(&v, lo, hi)
}

// ------------------------------------------------------------------- lines

/// Drops one trailing `'\r'`.
pub open spec fn strip_cr(s: Seq<char>) -> Seq<char> {
    if s.len() > 0 && s.last() == '\r' {
        s.drop_last()
    } else {
        s
    }
}

/// Lines of `rest`, the first of which begins with `cur`.
pub open spec fn lines_from(cur: Seq<char>, rest: Seq<char>) -> Seq<Seq<char>>
    decreases rest.len(),
{
    if rest.len() == 0 {
        if cur.len() == 0 {
            seq![]
        } else {
            seq![cur]
        }
    } else if rest[0] == '\n' {
        seq![strip_cr(cur)] + lines_from(seq![], rest.drop_first())
    } else {
        lines_from(cur.push(rest[0]), rest.drop_first())
    }
}

/// `str::lines`: split at `'\n'`, a `'\r'` before the `'\n'` dropped, no
/// final empty line after a trailing `'\n'`.
pub open spec fn lines(s: Seq<char>) -> Seq<Seq<char>> {
    lines_from(seq![], s)
}

/// Lines split at a line break stay apart: what follows a text ending in
/// `'\n'` starts a new line.
pub proof fn lemma_lines_append(cur: Seq<char>, a: Seq<char>, b: Seq<char>)
    requires
        a.len() > 0,
        a.last() == '\n',
    ensures
        lines_from(cur, a + b) == lines_from(cur, a) + lines_from(seq![], b),
    decreases a.len(),
{
    assert((a + b)[0] == a[0]);
    assert((a + b).drop_first() =~= a.drop_first() + b);
    if a[0] == '\n' {
        if a.len() == 1 {
            assert(a.drop_first() =~= seq![]);
            assert(a.drop_first() + b =~= b);
            assert(lines_from(seq![], a.drop_first()) =~= seq![]);
            assert(seq![strip_cr(cur)] + lines_from(seq![], b) =~= seq![strip_cr(cur)] + seq![] + lines_from(seq![], b));
        } else {
            lemma_lines_append(seq![], a.drop_first(), b);
            assert(seq![strip_cr(cur)] + (lines_from(seq![], a.drop_first()) + lines_from(seq![], b))
                =~= seq![strip_cr(cur)] + lines_from(seq![], a.drop_first()) + lines_from(seq![], b));
        }
    } else {
        lemma_lines_append(cur.push(a[0]), a.drop_first(), b);
    }
}

/// A text without line breaks followed by one is one line.
pub proof fn lemma_one_line(cur: Seq<char>, p: Seq<char>)
    requires
        forall|i: int| 0 <= i < p.len() ==> p[i] != '\n',
    ensures
        lines_from(cur, p + seq!['\n']) == seq![strip_cr(cur + p)],
    decreases p.len(),
{
    let t = p + seq!['\n'];
    if p.len() == 0 {
        assert(t =~= seq!['\n']);
        assert(t.drop_first() =~= seq![]);
        assert(cur + p =~= cur);
        assert(lines_from(seq![], t.drop_first()) =~= seq![]);
        assert(lines_from(cur, t) == seq![strip_cr(cur)] + lines_from(seq![], t.drop_first()));
        assert(seq![strip_cr(cur)] + Seq::<Seq<char>>::empty() =~= seq![strip_cr(cur)]);
    } else {
        assert(t[0] == p[0]);
        assert(t.drop_first() =~= p.drop_first() + seq!['\n']);
        lemma_one_line(cur.push(p[0]), p.drop_first());
        assert(cur.push(p[0]) + p.drop_first() =~= cur + p);
        assert(lines_from(cur, t) == lines_from(cur.push(t[0]), t.drop_first()));
    }
}

pub open spec fn views(v: Seq<String>) -> Seq<Seq<char>> {
    v.map_values(|x: String| x@)
}

pub fn split_lines(s: &str) -> (r: Vec<String>)
    ensures
        views(r@) == lines(s@),
{
    let v = to_chars(s);
    let n = v.len();
    let mut out: Vec<String> = Vec::new();
    let mut start: usize = 0;
    let mut i: usize = 0;
    assert(v@.subrange(0, 0) =~= seq![]);
    assert(v@.subrange(0, n as int) =~= v@);
    while i < n
        invariant
            n == v@.len(),
            start <= i <= n,
            v@ == s@,
            views(out@) + lines_from(v@.subrange(start as int, i as int), v@.subrange(
                i as int,
                n as int,
            )) == lines(s@),
        decreases n - i,
    {
        let ghost cur = v@.subrange(start as int, i as int);
        let ghost rest = v@.subrange(i as int, n as int);
        assert(rest.drop_first() =~= v@.subrange(i + 1, n as int));
        if v[i] == '\n' {
            let mut hi = i;
            if hi > start && v[hi - 1] == '\r' {
                hi = hi - 1;
            }
            let line = from_chars(&v, start, hi);
            assert(line@ =~= strip_cr(cur));
            let ghost old_out = out@;
            out.push(line);
            assert(views(out@) =~= views(old_out) + seq![strip_cr(cur)]);
            start = i + 1;
            i = i + 1;
            assert(v@.subrange(start as int, i as int) =~= seq![]);
            assert(views(out@) + lines_from(seq![], v@.subrange(i as int, n as int))
                =~= views(old_out) + (seq![strip_cr(cur)] + lines_from(seq![], rest.drop_first())));
        } else {
            assert(cur.push(v@[i as int]) =~= v@.subrange(start as int, i + 1));
            i = i + 1;
        }
    }
    let ghost cur = v@.subrange(start as int, n as int);
    assert(v@.subrange(n as int, n as int) =~= seq![]);
    if start < n {
        let line = from_chars(&v, start, n);
        let ghost old_out = out@;
        out.push(line);
        assert(views(out@) =~= views(old_out) + seq![cur]);
    } else {
        assert(views(out@) + seq![] =~= views(out@));
    }
    out
}

// ------------------------------------------------------------------ tokens

/// How a token splitter recognises separators.
#[derive(Clone, Copy)]
pub enum Sep {
    /// Any char with the `White_Space` property (`str::split_whitespace`).
    Whitespace,
    /// One given char.
    Char(char),
}

pub open spec fn is_sep(sep: Sep, c: char) -> bool {
    match sep {
        Sep::Whitespace => is_ws(c),
        Sep::Char(d) => c == d,
    }
}

pub open spec fn tokens_from(sep: Sep, cur: Seq<char>, rest: Seq<char>) -> Seq<Seq<char>>
    decreases rest.len(),
{
    if rest.len() == 0 {
        if cur.len() == 0 {
            seq![]
        } else {
            seq![cur]
        }
    } else if is_sep(sep, rest[0]) {
        (if cur.len() == 0 {
            seq![]
        } else {
            seq![cur]
        }) + tokens_from(sep, seq![], rest.drop_first())
    } else {
        tokens_from(sep, cur.push(rest[0]), rest.drop_first())
    }
}

/// The non-empty pieces of `s` between separators, in order: what
/// `split_whitespace()` gives, and what `split(c)` gives once the empty
/// pieces are filtered out.
pub open spec fn tokens(sep: Sep, s: Seq<char>) -> Seq<Seq<char>> {
    tokens_from(sep, seq![], s)
}

/// Chars that are not separators join the token being read.
pub proof fn lemma_tokens_skip(sep: Sep, cur: Seq<char>, a: Seq<char>, rest: Seq<char>)
    requires
        forall|i: int| 0 <= i < a.len() ==> !is_sep(sep, #[trigger] a[i]),
    ensures
        tokens_from(sep, cur, a + rest) == tokens_from(sep, cur + a, rest),
    decreases a.len(),
{
    if a.len() == 0 {
        assert(a + rest =~= rest);
        assert(cur + a =~= cur);
    } else {
        assert((a + rest)[0] == a[0]);
        assert((a + rest).drop_first() =~= a.drop_first() + rest);
        assert(!is_sep(sep, a[0]));
        lemma_tokens_skip(sep, cur.push(a[0]), a.drop_first(), rest);
        assert(cur.push(a[0]) + a.drop_first() =~= cur + a);
    }
}

/// Two runs of non-separators with one separator between them are two
/// tokens.
pub proof fn lemma_tokens_two(sep: Sep, a: Seq<char>, c: char, b: Seq<char>)
    requires
        a.len() > 0,
        b.len() > 0,
        forall|i: int| 0 <= i < a.len() ==> !is_sep(sep, #[trigger] a[i]),
        forall|i: int| 0 <= i < b.len() ==> !is_sep(sep, #[trigger] b[i]),
        is_sep(sep, c),
    ensures
        tokens(sep, a + seq![c] + b) == seq![a, b],
{
    let rest = seq![c] + b;
    assert(a + seq![c] + b =~= a + rest);
    lemma_tokens_skip(sep, seq![], a, rest);
    assert(Seq::<char>::empty() + a =~= a);
    assert(rest[0] == c);
    assert(rest.drop_first() =~= b);
    lemma_tokens_skip(sep, seq![], b, seq![]);
    assert(b + Seq::<char>::empty() =~= b);
    assert(Seq::<char>::empty() + b =~= b);
    assert(tokens_from(sep, b, seq![]) == seq![b]);
    assert(tokens_from(sep, a, rest) == seq![a] + tokens_from(sep, seq![], b));
    assert(seq![a] + seq![b] =~= seq![a, b]);
}

fn sep_matches(sep: Sep, c: char) -> (r: bool)
    ensures
        r == is_sep(sep, c),
{
    match sep {
        Sep::Whitespace => char_is_ws(c),
        Sep::Char(d) => c == d,
    }
}

pub fn split_tokens(s: &str, sep: Sep) -> (r: Vec<String>)
    ensures
        views(r@) == tokens(sep, s@),
{
    let v = to_chars(s);
    let n = v.len();
    let mut out: Vec<String> = Vec::new();
    let mut start: usize = 0;
    let mut i: usize = 0;
    assert(v@.subrange(0, 0) =~= seq![]);
    assert(v@.subrange(0, n as int) =~= v@);
    while i < n
        invariant
            n == v@.len(),
            start <= i <= n,
            v@ == s@,
            views(out@) + tokens_from(sep, v@.subrange(start as int, i as int), v@.subrange(
                i as int,
                n as int,
            )) == tokens(sep, s@),
        decreases n - i,
    {
        let ghost cur = v@.subrange(start as int, i as int);
        let ghost rest = v@.subrange(i as int, n as int);
        assert(rest.drop_first() =~= v@.subrange(i + 1, n as int));
        if sep_matches(sep, v[i]) {
            let ghost old_out = out@;
            if start < i {
                let tok = from_chars(&v, start, i);
                out.push(tok);
                assert(views(out@) =~= views(old_out) + seq![cur]);
            } else {
                assert(cur =~= seq![]);
                assert(views(out@) =~= views(old_out) + seq![]);
            }
            start = i + 1;
            i = i + 1;
            assert(v@.subrange(start as int, i as int) =~= seq![]);
            assert(views(out@) + tokens_from(sep, seq![], v@.subrange(i as int, n as int))
                =~= views(old_out) + ((if cur.len() == 0 {
                seq![]
            } else {
                seq![cur]
            }) + tokens_from(sep, seq![], rest.drop_first())));
        } else {
            assert(cur.push(v@[i as int]) =~= v@.subrange(start as int, i + 1));
            i = i + 1;
        }
    }
    let ghost cur = v@.subrange(start as int, n as int);
    assert(v@.subrange(n as int, n as int) =~= seq![]);
    if start < n {
        let tok = from_chars(&v, start, n);
        let ghost old_out = out@;
        out.push(tok);
        assert(views(out@) =~= views(old_out) + seq![cur]);
    } else {
        assert(views(out@) + seq![] =~= views(out@));
    }
    out
}

// ------------------------------------------------------------------ search

/// Index of the first `c` in `s`.
pub open spec fn find_char(s: Seq<char>, c: char) -> Option<int>
    decreases s.len(),
{
    if s.len() == 0 {
        None
    } else if s[0] == c {
        Some(0)
    } else {
        match find_char(s.drop_first(), c) {
            Some(i) => Some(i + 1),
            None => None,
        }
    }
}

pub proof fn lemma_find_char(s: Seq<char>, c: char)
    ensures
        find_char(s, c) matches Some(i) ==> 0 <= i < s.len() && s[i] == c && forall|j: int|
            0 <= j < i ==> s[j] != c,
        find_char(s, c) is None ==> forall|j: int| 0 <= j < s.len() ==> s[j] != c,
    decreases s.len(),
{
    if s.len() > 0 {
        lemma_find_char(s.drop_first(), c);
        if s[0] != c {
            assert forall|j: int| 1 <= j < s.len() implies s[j] == s.drop_first()[j - 1] by {}
        }
    }
}

pub proof fn lemma_find_char_first(s: Seq<char>, c: char, i: int)
    requires
        0 <= i < s.len(),
        s[i] == c,
        forall|j: int| 0 <= j < i ==> s[j] != c,
    ensures
        find_char(s, c) == Some(i),
    decreases s.len(),
{
    if i > 0 {
        lemma_find_char_first(s.drop_first(), c, i - 1);
    }
}

pub proof fn lemma_find_char_none(s: Seq<char>, c: char)
    requires
        forall|j: int| 0 <= j < s.len() ==> s[j] != c,
    ensures
        find_char(s, c) is None,
    decreases s.len(),
{
    if s.len() > 0 {
        lemma_find_char_none(s.drop_first(), c);
    }
}

/// `s.splitn(2, c)` when it gives two pieces: the text before the first `c`
/// and the text after it.
pub open spec fn split_once(s: Seq<char>, c: char) -> Option<(Seq<char>, Seq<char>)> {
    match find_char(s, c) {
        Some(i) => Some((s.subrange(0, i), s.subrange(i + 1, s.len() as int))),
        None => None,
    }
}

pub fn split_once_str(s: &str, c: char) -> (r: Option<(String, String)>)
    ensures
        match r {
            Some((a, b)) => split_once(s@, c) == Some((a@, b@)),
            None => split_once(s@, c) is None,
        },
{
    let v = to_chars(s);
    let n = v.len();
    let mut i: usize = 0;
    while i < n
        invariant
            n == v@.len(),
            v@ == s@,
            i <= n,
            forall|j: int| 0 <= j < i ==> v@[j] != c,
        decreases n - i,
    {
        if v[i] == c {
            proof {
                lemma_find_char_first(v@, c, i as int);
            }
            let a = from_chars(&v, 0, i);
            let b = from_chars(&v, i + 1, n);
            return Some((a, b));
        }
        i = i + 1;
    }
    proof {
        lemma_find_char_none(v@, c);
    }
    None
}

/// `needle` occurs in `hay` starting at index `i`.
pub open spec fn occurs_at(hay: Seq<char>, needle: Seq<char>, i: int) -> bool {
    0 <= i && i + needle.len() <= hay.len() && hay.subrange(i, i + needle.len()) == needle
}

/// `str::contains` with a string pattern.
pub open spec fn contains(hay: Seq<char>, needle: Seq<char>) -> bool {
    exists|i: int| occurs_at(hay, needle, i)
}

fn matches_at(hay: &Vec<char>, needle: &Vec<char>, i: usize) -> (r: bool)
    requires
        i + needle@.len() <= hay@.len(),
    ensures
        r == occurs_at(hay@, needle@, i as int),
{
    let mut k: usize = 0;
    let hl = hay.len();
    while k < needle.len()
        invariant
            hl == hay@.len(),
            i + needle@.len() <= hay@.len(),
            k <= needle@.len(),
            forall|j: int| 0 <= j < k ==> hay@[i + j] == needle@[j],
        decreases needle.len() - k,
    {
        assert(i + k < hl);
        if hay[i + k] != needle[k] {
            assert(hay@.subrange(i as int, i + needle@.len())[k as int] != needle@[k as int]);
            return false;
        }
        k = k + 1;
    }
    assert(hay@.subrange(i as int, i + needle@.len()) =~= needle@);
    true
}

pub fn contains_str(hay: &str, needle: &str) -> (r: bool)
    ensures
        r == contains(hay@, needle@),
{
    let h = to_chars(hay);
    let nd = to_chars(needle);
    if nd.len() > h.len() {
        assert forall|i: int| !occurs_at(hay@, needle@, i) by {}
        return false;
    }
    let last = h.len() - nd.len();
    let mut i: usize = 0;
    while i <= last
        invariant
            h@ == hay@,
            nd@ == needle@,
            last + nd@.len() == h@.len(),
            forall|j: int| 0 <= j < i ==> !occurs_at(hay@, needle@, j),
        decreases last + 1 - i,
    {
        if matches_at(&h, &nd, i) {
            return true;
        }
        if i == last {
            assert forall|j: int| !occurs_at(hay@, needle@, j) by {
                if 0 <= j && j <= i {
                }
            }
            return false;
        }
        i = i + 1;
    }
    false
}

/// `str::starts_with` with a string pattern.
pub open spec fn starts_with(s: Seq<char>, p: Seq<char>) -> bool {
    p.len() <= s.len() && s.subrange(0, p.len() as int) == p
}

pub fn starts_with_str(s: &str, p: &str) -> (r: bool)
    ensures
        r == starts_with(s@, p@),
{
    let v = to_chars(s);
    let pv = to_chars(p);
    if pv.len() > v.len() {
        return false;
    }
    matches_at(&v, &pv, 0)
}

/// `str::ends_with` with a char pattern.
pub open spec fn ends_with_char(s: Seq<char>, c: char) -> bool {
    s.len() > 0 && s.last() == c
}

// ----------------------------------------------------------------- numbers

pub open spec fn is_digit(c: char) -> bool {
    48 <= (c as u32) && (c as u32) <= 57
}

pub open spec fn digit_val(c: char) -> nat {
    ((c as u32) - 48) as nat
}

pub open spec fn digit_char(d: nat) -> char {
    if d == 0 {
        '0'
    } else if d == 1 {
        '1'
    } else if d == 2 {
        '2'
    } else if d == 3 {
        '3'
    } else if d == 4 {
        '4'
    } else if d == 5 {
        '5'
    } else if d == 6 {
        '6'
    } else if d == 7 {
        '7'
    } else if d == 8 {
        '8'
    } else {
        '9'
    }
}

/// Value of a string of decimal digits.
pub open spec fn digits_value(s: Seq<char>) -> nat
    decreases s.len(),
{
    if s.len() == 0 {
        0
    } else {
        digits_value(s.drop_last()) * 10 + digit_val(s.last())
    }
}

pub open spec fn all_digits(s: Seq<char>) -> bool {
    s.len() > 0 && forall|i: int| 0 <= i < s.len() ==> is_digit(#[trigger] s[i])
}

/// The digits of an unsigned number: the text after an optional leading `'+'`.
pub open spec fn unsigned_digits(s: Seq<char>) -> Seq<char> {
    if s.len() > 0 && s[0] == '+' {
        s.drop_first()
    } else {
        s
    }
}

/// `<uN as FromStr>::from_str` for a type whose largest value is `max`: an
/// optional `'+'` and then one or more ASCII digits, of value at most `max`.
pub open spec fn parse_unsigned(s: Seq<char>, max: nat) -> Option<nat> {
    let d = unsigned_digits(s);
    if all_digits(d) && digits_value(d) <= max {
        Some(digits_value(d))
    } else {
        None
    }
}

/// Decimal text of `n`, as `Display` writes it for unsigned integers.
pub open spec fn dec(n: nat) -> Seq<char>
    decreases n,
{
    if n < 10 {
        seq![digit_char(n)]
    } else {
        dec(n / 10).push(digit_char(n % 10))
    }
}

proof fn lemma_digit_roundtrip(d: nat)
    requires
        d < 10,
    ensures
        is_digit(digit_char(d)),
        digit_val(digit_char(d)) == d,
{
}

/// Decimal text read back gives the number written.
pub proof fn lemma_dec_parses(n: nat)
    ensures
        all_digits(dec(n)),
        digits_value(dec(n)) == n,
        dec(n)[0] != '+',
    decreases n,
{
    if n < 10 {
        lemma_digit_roundtrip(n);
        assert(dec(n).drop_last() =~= seq![]);
        assert(digits_value(seq![]) == 0);
        assert(digits_value(dec(n)) == digits_value(dec(n).drop_last()) * 10 + digit_val(dec(n).last()));
    } else {
        lemma_dec_parses(n / 10);
        assert((n / 10) * 10 + n % 10 == n) by (nonlinear_arith);
        lemma_digit_roundtrip(n % 10);
        let s = dec(n);
        assert(s.drop_last() =~= dec(n / 10));
        assert(digits_value(s) == digits_value(s.drop_last()) * 10 + digit_val(s.last()));
        assert forall|i: int| 0 <= i < s.len() implies is_digit(#[trigger] s[i]) by {
            if i < s.len() - 1 {
                assert(s[i] == dec(n / 10)[i]);
            }
        }
        assert(s[0] == dec(n / 10)[0]);
    }
}

/// Reading back the decimal text of a value that fits gives the value.
pub proof fn lemma_parse_dec(n: nat, max: nat)
    requires
        n <= max,
    ensures
        parse_unsigned(dec(n), max) == Some(n),
{
    lemma_dec_parses(n);
}

/// Decimal text has nothing to trim.
pub proof fn lemma_trim_dec(n: nat)
    ensures
        trim(dec(n)) == dec(n),
        forall|i: int| 0 <= i < dec(n).len() ==> !is_ws(#[trigger] dec(n)[i]),
{
    lemma_dec_parses(n);
    let d = dec(n);
    assert forall|i: int| 0 <= i < d.len() implies !is_ws(#[trigger] d[i]) by {
        assert(is_digit(d[i]));
    }
    assert(!is_ws(d[0]));
    assert(!is_ws(d[d.len() - 1]));
    assert(trim_start(d) == d);
    assert(trim_end(d) == d);
}

proof fn lemma_digits_value_grows(s: Seq<char>, c: char)
    requires
        is_digit(c),
    ensures
        digits_value(s.push(c)) >= digits_value(s),
        digits_value(s.push(c)) == digits_value(s) * 10 + digit_val(c),
{
    assert(s.push(c).drop_last() =~= s);
    let v = digits_value(s);
    assert(v * 10 >= v) by (nonlinear_arith);
}

fn digit_of(c: char) -> (r: Option<u64>)
    ensures
        match r {
            Some(d) => is_digit(c) && d == digit_val(c),
            None => !is_digit(c),
        },
{
    let u = c as u32;
    if 48 <= u && u <= 57 {
        Some((u - 48) as u64)
    } else {
        None
    }
}

/// `s.parse::<u64>().ok()`.
pub fn parse_u64(s: &str) -> (r: Option<u64>)
    ensures
        match r {
            Some(n) => parse_unsigned(s@, u64::MAX as nat) == Some(n as nat),
            None => parse_unsigned(s@, u64::MAX as nat) is None,
        },
{
    let v = to_chars(s);
    let n = v.len();
    let start: usize = if n > 0 && v[0] == '+' {
        1
    } else {
        0
    };
    let ghost d = unsigned_digits(s@);
    assert(d =~= v@.subrange(start as int, n as int));
    if start == n {
        return None;
    }
    let mut acc: u64 = 0;
    let mut over = false;
    let mut i = start;
    assert(v@.subrange(start as int, start as int) =~= seq![]);
    while i < n
        invariant
            n == v@.len(),
            v@ == s@,
            start <= i <= n,
            d == unsigned_digits(s@),
            d == v@.subrange(start as int, n as int),
            forall|j: int| start <= j < i ==> is_digit(#[trigger] v@[j]),
            !over ==> acc == digits_value(v@.subrange(start as int, i as int)),
            over ==> digits_value(v@.subrange(start as int, i as int)) > u64::MAX,
        decreases n - i,
    {
        let ghost pre = v@.subrange(start as int, i as int);
        assert(v@.subrange(start as int, i + 1) =~= pre.push(v@[i as int]));
        match digit_of(v[i]) {
            None => {
                assert(d[i - start] == v@[i as int]);
                assert(!is_digit(d[i - start]));
                return None;
            },
            Some(dv) => {
                proof {
                    lemma_digits_value_grows(pre, v@[i as int]);
                }
                if !over {
                    if acc > (u64::MAX - dv) / 10 {
                        assert(acc * 10 + dv > u64::MAX) by (nonlinear_arith)
                            requires
                                acc > (u64::MAX - dv) / 10,
                                dv < 10,
                        ;
                        over = true;
                    } else {
                        assert(acc * 10 + dv <= u64::MAX) by (nonlinear_arith)
                            requires
                                acc <= (u64::MAX - dv) / 10,
                                dv < 10,
                        ;
                        acc = acc * 10 + dv;
                    }
                }
            },
        }
        i = i + 1;
    }
    assert(v@.subrange(start as int, n as int) == d);
    assert forall|j: int| 0 <= j < d.len() implies is_digit(#[trigger] d[j]) by {
        assert(d[j] == v@[start + j]);
    }
    if over {
        None
    } else {
        Some(acc)
    }
}

/// `s.parse::<u32>().ok()`.
pub fn parse_u32(s: &str) -> (r: Option<u32>)
    ensures
        match r {
            Some(n) => parse_unsigned(s@, u32::MAX as nat) == Some(n as nat),
            None => parse_unsigned(s@, u32::MAX as nat) is None,
        },
{
    match parse_u64(s) {
        Some(n) => {
            if n <= u32::MAX as u64 {
                Some(n as u32)
            } else {
                None
            }
        },
        None => None,
    }
}

/// `s.parse::<usize>().ok()`.
pub fn parse_usize(s: &str) -> (r: Option<usize>)
    ensures
        match r {
            Some(n) => parse_unsigned(s@, usize::MAX as nat) == Some(n as nat),
            None => parse_unsigned(s@, usize::MAX as nat) is None,
        },
{
    match parse_u64(s) {
        Some(n) => {
            if n as u128 <= usize::MAX as u128 {
                Some(n as usize)
            } else {
                None
            }
        },
        None => {
            assert(usize::MAX <= u64::MAX);
            None
        },
    }
}

fn digit_to_char(d: u64) -> (c: char)
    requires
        d < 10,
    ensures
        c == digit_char(d as nat),
{
    if d == 0 {
        '0'
    } else if d == 1 {
        '1'
    } else if d == 2 {
        '2'
    } else if d == 3 {
        '3'
    } else if d == 4 {
        '4'
    } else if d == 5 {
        '5'
    } else if d == 6 {
        '6'
    } else if d == 7 {
        '7'
    } else if d == 8 {
        '8'
    } else {
        '9'
    }
}

/// Appends the decimal text of `n` to `out`.
pub fn push_dec(out: &mut String, n: u64)
    ensures
        final(out)@ == old(out)@ + dec(n as nat),
    decreases n,
{
    if n < 10 {
        string_push(out, digit_to_char(n));
        assert(out@ =~= old(out)@ + dec(n as nat));
    } else {
        push_dec(out, n / 10);
        string_push(out, digit_to_char(n % 10));
        assert(out@ =~= old(out)@ + dec(n as nat));
    }
}

/// `n.to_string()`.
pub fn dec_string(n: u64) -> (r: String)
    ensures
        r@ == dec(n as nat),
{
    let mut s = String::new();
    push_dec(&mut s, n);
    assert(s@ =~= dec(n as nat));
    s
}

// -------------------------------------------------------------------- join

/// `parts.join(sep)`.
pub open spec fn join(parts: Seq<Seq<char>>, sep: Seq<char>) -> Seq<char>
    decreases parts.len(),
{
    if parts.len() == 0 {
        seq![]
    } else if parts.len() == 1 {
        parts[0]
    } else {
        join(parts.drop_last(), sep) + sep + parts.last()
    }
}

pub fn join_strings(parts: &Vec<String>, sep: &str) -> (r: String)
    ensures
        r@ == join(views(parts@), sep@),
{
    let mut r = String::new();
    let mut i: usize = 0;
    assert(views(parts@).take(0) =~= seq![]);
    while i < parts.len()
        invariant
            i <= parts@.len(),
            r@ == join(views(parts@).take(i as int), sep@),
        decreases parts.len() - i,
    {
        let ghost pv = views(parts@);
        assert(pv.take(i + 1).drop_last() =~= pv.take(i as int));
        if i > 0 {
            r.append(sep);
        } else {
            assert(pv.take(1) =~= seq![pv[0]]);
            assert(r@ + parts@[0]@ =~= parts@[0]@);
        }
        r.append(parts[i].as_str());
        i = i + 1;
    }
    assert(views(parts@).take(parts@.len() as int) =~= views(parts@));
    r
}

/// `s` repeated `n` times (`str::repeat`).
pub open spec fn repeat(s: Seq<char>, n: nat) -> Seq<char>
    decreases n,
{
    if n == 0 {
        seq![]
    } else {
        repeat(s, (n - 1) as nat) + s
    }
}

pub fn repeat_str(s: &str, n: usize) -> (r: String)
    ensures
        r@ == repeat(s@, n as nat),
{
    let mut r = String::new();
    let mut i: usize = 0;
    while i < n
        invariant
            i <= n,
            r@ == repeat(s@, i as nat),
        decreases n - i,
    {
        r.append(s);
        i = i + 1;
    }
    r
}

// ----------------------------------------------------------- string vectors

pub fn strings1(a: &str) -> (r: Vec<String>)
    ensures
        views(r@) == seq![a@],
{
    let mut v = Vec::new();
    v.push(owned(a));
    assert(views(v@) =~= seq![a@]);
    v
}

pub fn strings2(a: &str, b: &str) -> (r: Vec<String>)
    ensures
        views(r@) == seq![a@, b@],
{
    let mut v = Vec::new();
    v.push(owned(a));
    v.push(owned(b));
    assert(views(v@) =~= seq![a@, b@]);
    v
}

pub fn strings3(a: &str, b: &str, c: &str) -> (r: Vec<String>)
    ensures
        views(r@) == seq![a@, b@, c@],
{
    let mut v = Vec::new();
    v.push(owned(a));
    v.push(owned(b));
    v.push(owned(c));
    assert(views(v@) =~= seq![a@, b@, c@]);
    v
}

pub fn strings4(a: &str, b: &str, c: &str, d: &str) -> (r: Vec<String>)
    ensures
        views(r@) == seq![a@, b@, c@, d@],
{
    let mut v = Vec::new();
    v.push(owned(a));
    v.push(owned(b));
    v.push(owned(c));
    v.push(owned(d));
    assert(views(v@) =~= seq![a@, b@, c@, d@]);
    v
}

pub fn strings5(a: &str, b: &str, c: &str, d: &str, e: &str) -> (r: Vec<String>)
    ensures
        views(r@) == seq![a@, b@, c@, d@, e@],
{
    let mut v = Vec::new();
    v.push(owned(a));
    v.push(owned(b));
    v.push(owned(c));
    v.push(owned(d));
    v.push(owned(e));
    assert(views(v@) =~= seq![a@, b@, c@, d@, e@]);
    v
}

pub fn strings6(a: &str, b: &str, c: &str, d: &str, e: &str, f: &str) -> (r: Vec<String>)
    ensures
        views(r@) == seq![a@, b@, c@, d@, e@, f@],
{
    let mut v = Vec::new();
    v.push(owned(a));
    v.push(owned(b));
    v.push(owned(c));
    v.push(owned(d));
    v.push(owned(e));
    v.push(owned(f));
    assert(views(v@) =~= seq![a@, b@, c@, d@, e@, f@]);
    v
}

/// A copy of a vector of strings.
pub fn clone_strings(v: &Vec<String>) -> (r: Vec<String>)
    ensures
        views(r@) == views(v@),
{
    let mut r: Vec<String> = Vec::new();
    let mut i: usize = 0;
    while i < v.len()
        invariant
            i <= v@.len(),
            views(r@) == views(v@).take(i as int),
        decreases v.len() - i,
    {
        let c = v[i].clone();
        assert(c@ == v@[i as int]@);
        let ghost old_r = r@;
        r.push(c);
        assert(views(r@) =~= views(old_r).push(v@[i as int]@));
        assert(views(v@).take(i + 1) =~= views(v@).take(i as int).push(v@[i as int]@));
        i = i + 1;
    }
    assert(views(v@).take(v@.len() as int) =~= views(v@));
    r
}

// ---------------------------------------------------------- signed numbers

/// Decimal text of a signed number, with a leading '-' when negative.
pub open spec fn sdec(n: int) -> Seq<char> {
    if n < 0 {
        "-"@ + dec((-n) as nat)
    } else {
        dec(n as nat)
    }
}

/// `n.to_string()` for an `i64`.
pub fn i64_string(n: i64) -> (r: String)
    ensures
        r@ == sdec(n as int),
{
    if n < 0 {
        let m: i128 = -(n as i128);
        let mut s = owned("-");
        push_dec(&mut s, m as u64);
        s
    } else {
        dec_string(n as u64)
    }
}

/// `/` characters at the end of `s` removed (`trim_end_matches('/')`).
pub open spec fn trim_end_slashes(s: Seq<char>) -> Seq<char>
    decreases s.len(),
{
    if s.len() > 0 && s.last() == '/' {
        trim_end_slashes(s.drop_last())
    } else {
        s
    }
}

pub fn trim_end_slashes_str(s: &str) -> (r: String)
    ensures
        r@ == trim_end_slashes(s@),
{
    let v = to_chars(s);
    let mut hi = v.len();
    assert(v@.subrange(0, hi as int) =~= v@);
    while hi > 0 && v[hi - 1] == '/'
        invariant
            hi <= v@.len(),
            trim_end_slashes(s@) == trim_end_slashes(v@.subrange(0, hi as int)),
            v@ == s@,
        decreases hi,
    {
        assert(v@.subrange(0, hi as int).drop_last() =~= v@.subrange(0, hi - 1));
        hi = hi - 1;
    }
    from_chars(&v, 0, hi)
}

} // verus!
