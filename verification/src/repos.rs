//! The list of repositories to sync: the paths the walk found, in the order
//! of their components (the order of `Path`), each path once.
use vstd::prelude::*;
use crate::text::{Sep, split_tokens, str_eq, str_eq_chars, to_chars, tokens, views};

verus! {

/// A component of a path, as `Path::components` gives it on a unix.
pub enum Comp {
    Root,
    Cur,
    Parent,
    Normal(Seq<char>),
}

/// The component a piece between separators stands for.
pub open spec fn comp_of(t: Seq<char>) -> Comp {
    if t == ".."@ {
        Comp::Parent
    } else {
        Comp::Normal(t)
    }
}

/// The components of the pieces between separators: `.` is left out, `..`
/// is the parent folder.
pub open spec fn body_comps(ts: Seq<Seq<char>>) -> Seq<Comp>
    decreases ts.len(),
{
    if ts.len() == 0 {
        seq![]
    } else {
        body_comps(ts.drop_last()) + (if ts.last() == "."@ {
            seq![]
        } else {
            seq![comp_of(ts.last())]
        })
    }
}

/// `Path::components` on a unix: a root when the path begins with `/`, a
/// `.` kept only at the very beginning, repeated and trailing separators and
/// the other `.` pieces dropped.
#[verifier::opaque]
pub open spec fn components(p: Seq<char>) -> Seq<Comp> {
    let body = body_comps(tokens(Sep::Char('/'), p));
    if p.len() > 0 && p[0] == '/' {
        seq![Comp::Root] + body
    } else if p.len() > 0 && p[0] == '.' && (p.len() == 1 || p[1] == '/') {
        seq![Comp::Cur] + body
    } else {
        body
    }
}

/// Text order: by the first char that differs, a prefix first (the order of
/// the UTF-8 bytes).
pub open spec fn chars_lt(a: Seq<char>, b: Seq<char>) -> bool
    decreases a.len(),
{
    if a.len() == 0 {
        b.len() > 0
    } else if b.len() == 0 {
        false
    } else if a[0] == b[0] {
        chars_lt(a.drop_first(), b.drop_first())
    } else {
        (a[0] as int) < (b[0] as int)
    }
}

pub open spec fn comp_kind(c: Comp) -> int {
    match c {
        Comp::Root => 0,
        Comp::Cur => 1,
        Comp::Parent => 2,
        Comp::Normal(_) => 3,
    }
}

/// Component order: the root, then `.`, then `..`, then names in text order.
pub open spec fn comp_lt(a: Comp, b: Comp) -> bool {
    match (a, b) {
        (Comp::Normal(x), Comp::Normal(y)) => chars_lt(x, y),
        _ => comp_kind(a) < comp_kind(b),
    }
}

/// Path order: by the first component that differs, a prefix first.
pub open spec fn comps_lt(a: Seq<Comp>, b: Seq<Comp>) -> bool
    decreases a.len(),
{
    if a.len() == 0 {
        b.len() > 0
    } else if b.len() == 0 {
        false
    } else if a[0] == b[0] {
        comps_lt(a.drop_first(), b.drop_first())
    } else {
        comp_lt(a[0], b[0])
    }
}

pub open spec fn path_lt(a: Seq<char>, b: Seq<char>) -> bool {
    comps_lt(components(a), components(b))
}

// ------------------------------------------------------ order properties

proof fn lemma_chars_irreflexive(a: Seq<char>)
    ensures
        !chars_lt(a, a),
    decreases a.len(),
{
    if a.len() > 0 {
        lemma_chars_irreflexive(a.drop_first());
    }
}

proof fn lemma_chars_transitive(a: Seq<char>, b: Seq<char>, c: Seq<char>)
    requires
        chars_lt(a, b),
        chars_lt(b, c),
    ensures
        chars_lt(a, c),
    decreases a.len(),
{
    if a.len() > 0 && b.len() > 0 && c.len() > 0 {
        if a[0] == b[0] && b[0] == c[0] {
            lemma_chars_transitive(a.drop_first(), b.drop_first(), c.drop_first());
        }
    }
}

proof fn lemma_chars_total(a: Seq<char>, b: Seq<char>)
    ensures
        a == b || chars_lt(a, b) || chars_lt(b, a),
    decreases a.len(),
{
    if a.len() > 0 && b.len() > 0 {
        if a[0] == b[0] {
            lemma_chars_total(a.drop_first(), b.drop_first());
            if a.drop_first() == b.drop_first() {
                assert(a =~= seq![a[0]] + a.drop_first());
                assert(b =~= seq![b[0]] + b.drop_first());
            }
        }
    } else if a.len() == 0 && b.len() == 0 {
        assert(a =~= b);
    }
}

proof fn lemma_comp_irreflexive(a: Comp)
    ensures
        !comp_lt(a, a),
{
    if let Comp::Normal(x) = a {
        lemma_chars_irreflexive(x);
    }
}

proof fn lemma_comp_transitive(a: Comp, b: Comp, c: Comp)
    requires
        comp_lt(a, b),
        comp_lt(b, c),
    ensures
        comp_lt(a, c),
{
    if let (Comp::Normal(x), Comp::Normal(y), Comp::Normal(z)) = (a, b, c) {
        lemma_chars_transitive(x, y, z);
    }
}

proof fn lemma_comp_total(a: Comp, b: Comp)
    ensures
        a == b || comp_lt(a, b) || comp_lt(b, a),
{
    if let (Comp::Normal(x), Comp::Normal(y)) = (a, b) {
        lemma_chars_total(x, y);
    }
}

proof fn lemma_comp_asym(a: Comp, b: Comp)
    requires
        comp_lt(a, b),
    ensures
        !comp_lt(b, a),
{
    if comp_lt(b, a) {
        lemma_comp_transitive(a, b, a);
        lemma_comp_irreflexive(a);
    }
}

pub proof fn lemma_comps_irreflexive(a: Seq<Comp>)
    ensures
        !comps_lt(a, a),
    decreases a.len(),
{
    if a.len() > 0 {
        lemma_comps_irreflexive(a.drop_first());
    }
}

pub proof fn lemma_comps_transitive(a: Seq<Comp>, b: Seq<Comp>, c: Seq<Comp>)
    requires
        comps_lt(a, b),
        comps_lt(b, c),
    ensures
        comps_lt(a, c),
    decreases a.len(),
{
    if a.len() > 0 && b.len() > 0 && c.len() > 0 {
        if a[0] == b[0] && b[0] == c[0] {
            lemma_comps_transitive(a.drop_first(), b.drop_first(), c.drop_first());
        } else if a[0] == b[0] {
        } else if b[0] == c[0] {
        } else {
            lemma_comp_transitive(a[0], b[0], c[0]);
            if a[0] == c[0] {
                lemma_comp_asym(a[0], b[0]);
            }
        }
    }
}

pub proof fn lemma_comps_total(a: Seq<Comp>, b: Seq<Comp>)
    ensures
        a == b || comps_lt(a, b) || comps_lt(b, a),
    decreases a.len(),
{
    if a.len() > 0 && b.len() > 0 {
        if a[0] == b[0] {
            lemma_comps_total(a.drop_first(), b.drop_first());
            if a.drop_first() == b.drop_first() {
                assert(a =~= seq![a[0]] + a.drop_first());
                assert(b =~= seq![b[0]] + b.drop_first());
            }
        } else {
            lemma_comp_total(a[0], b[0]);
        }
    } else if a.len() == 0 && b.len() == 0 {
        assert(a =~= b);
    }
}

// --------------------------------------------------------------- comparing

proof fn lemma_char_code(c: char)
    ensures
        0 <= c as int <= 0x10FFFF,
{
}

fn chars_less(a: &Vec<char>, b: &Vec<char>) -> (r: bool)
    ensures
        r == chars_lt(a@, b@),
{
    let mut k: usize = 0;
    assert(a@.skip(0) =~= a@);
    assert(b@.skip(0) =~= b@);
    while k < a.len() && k < b.len() && a[k] == b[k]
        invariant
            k <= a@.len(),
            k <= b@.len(),
            chars_lt(a@, b@) == chars_lt(a@.skip(k as int), b@.skip(k as int)),
        decreases a.len() - k,
    {
        assert(a@.skip(k as int).drop_first() =~= a@.skip(k + 1));
        assert(b@.skip(k as int).drop_first() =~= b@.skip(k + 1));
        k = k + 1;
    }
    if k == a.len() {
        assert(a@.skip(k as int).len() == 0);
        k < b.len()
    } else if k == b.len() {
        assert(b@.skip(k as int).len() == 0);
        false
    } else {
        assert(a@.skip(k as int)[0] == a@[k as int]);
        assert(b@.skip(k as int)[0] == b@[k as int]);
        let c1: char = a[k];
        let c2: char = b[k];
        proof {
            lemma_char_code(c1);
            lemma_char_code(c2);
        }
        let ca: u32 = c1 as u32;
        let cb: u32 = c2 as u32;
        ca < cb
    }
}

/// A path's component, as the walk's paths are compared.
enum PathPart {
    Root,
    Cur,
    Parent,
    Normal(Vec<char>),
}

impl View for PathPart {
    type V = Comp;

    closed spec fn view(&self) -> Comp {
        match self {
            PathPart::Root => Comp::Root,
            PathPart::Cur => Comp::Cur,
            PathPart::Parent => Comp::Parent,
            PathPart::Normal(v) => Comp::Normal(v@),
        }
    }
}

spec fn part_views(v: Seq<PathPart>) -> Seq<Comp> {
    v.map_values(|x: PathPart| x@)
}

fn kind_of(p: &PathPart) -> (k: u8)
    ensures
        k as int == comp_kind(p@),
{
    match p {
        PathPart::Root => 0,
        PathPart::Cur => 1,
        PathPart::Parent => 2,
        PathPart::Normal(_) => 3,
    }
}

fn part_less(a: &PathPart, b: &PathPart) -> (r: bool)
    ensures
        r == comp_lt(a@, b@),
{
    match (a, b) {
        (PathPart::Normal(x), PathPart::Normal(y)) => chars_less(x, y),
        _ => kind_of(a) < kind_of(b),
    }
}

fn part_eq(a: &PathPart, b: &PathPart) -> (r: bool)
    ensures
        r == (a@ == b@),
{
    match (a, b) {
        (PathPart::Normal(x), PathPart::Normal(y)) => str_eq_chars(x, y),
        _ => kind_of(a) == kind_of(b),
    }
}

fn parts_less(a: &Vec<PathPart>, b: &Vec<PathPart>) -> (r: bool)
    ensures
        r == comps_lt(part_views(a@), part_views(b@)),
{
    let ghost av = part_views(a@);
    let ghost bv = part_views(b@);
    let mut k: usize = 0;
    assert(av.skip(0) =~= av);
    assert(bv.skip(0) =~= bv);
    while k < a.len() && k < b.len() && part_eq(&a[k], &b[k])
        invariant
            av == part_views(a@),
            bv == part_views(b@),
            k <= a@.len(),
            k <= b@.len(),
            comps_lt(av, bv) == comps_lt(av.skip(k as int), bv.skip(k as int)),
        decreases a.len() - k,
    {
        assert(av.skip(k as int).drop_first() =~= av.skip(k + 1));
        assert(bv.skip(k as int).drop_first() =~= bv.skip(k + 1));
        assert(av.skip(k as int)[0] == a@[k as int]@);
        assert(bv.skip(k as int)[0] == b@[k as int]@);
        k = k + 1;
    }
    if k == a.len() {
        assert(av.skip(k as int).len() == 0);
        k < b.len()
    } else if k == b.len() {
        assert(bv.skip(k as int).len() == 0);
        false
    } else {
        assert(av.skip(k as int)[0] == a@[k as int]@);
        assert(bv.skip(k as int)[0] == b@[k as int]@);
        part_less(&a[k], &b[k])
    }
}

fn parts_equal(a: &Vec<PathPart>, b: &Vec<PathPart>) -> (r: bool)
    ensures
        r == (part_views(a@) == part_views(b@)),
{
    if a.len() != b.len() {
        assert(part_views(a@).len() != part_views(b@).len());
        return false;
    }
    let mut k: usize = 0;
    while k < a.len()
        invariant
            a@.len() == b@.len(),
            k <= a@.len(),
            forall|j: int| 0 <= j < k ==> a@[j]@ == b@[j]@,
        decreases a.len() - k,
    {
        if !part_eq(&a[k], &b[k]) {
            assert(part_views(a@)[k as int] != part_views(b@)[k as int]);
            return false;
        }
        k = k + 1;
    }
    assert(part_views(a@) =~= part_views(b@));
    true
}

fn push_part(v: &mut Vec<PathPart>, p: PathPart)
    ensures
        part_views(final(v)@) == part_views(old(v)@).push(p@),
{
    let ghost before = v@;
    v.push(p);
    assert(part_views(v@) =~= part_views(before).push(p@));
}

/// The components of a path.
fn parts_of(p: &str) -> (r: Vec<PathPart>)
    ensures
        part_views(r@) == components(p@),
{
    let v = to_chars(p);
    let toks = split_tokens(p, Sep::Char('/'));
    let ghost ts = views(toks@);
    let mut r: Vec<PathPart> = Vec::new();
    assert(part_views(r@) =~= seq![]);
    if v.len() > 0 && v[0] == '/' {
        push_part(&mut r, PathPart::Root);
    } else if v.len() > 0 && v[0] == '.' && (v.len() == 1 || v[1] == '/') {
        push_part(&mut r, PathPart::Cur);
    }
    let ghost head = part_views(r@);
    let mut i: usize = 0;
    assert(ts.take(0) =~= seq![]);
    while i < toks.len()
        invariant
            ts == views(toks@),
            i <= toks@.len(),
            part_views(r@) == head + body_comps(ts.take(i as int)),
        decreases toks.len() - i,
    {
        let t = &toks[i];
        assert(ts.take(i + 1).drop_last() =~= ts.take(i as int));
        assert(ts.take(i + 1).last() == t@);
        if str_eq(t.as_str(), ".") {
            assert(head + body_comps(ts.take(i + 1)) =~= head + body_comps(ts.take(i as int)));
        } else if str_eq(t.as_str(), "..") {
            push_part(&mut r, PathPart::Parent);
            assert(head + body_comps(ts.take(i + 1)) =~= head + body_comps(ts.take(i as int)) + seq![Comp::Parent]);
        } else {
            push_part(&mut r, PathPart::Normal(to_chars(t.as_str())));
            assert(head + body_comps(ts.take(i + 1)) =~= head + body_comps(ts.take(i as int)) + seq![Comp::Normal(t@)]);
        }
        i = i + 1;
    }
    assert(ts.take(toks@.len() as int) =~= ts);
    reveal(components);
    proof {
        if v@.len() > 0 && v@[0] == '/' {
            assert(head == seq![Comp::Root]);
        } else if v@.len() > 0 && v@[0] == '.' && (v@.len() == 1 || v@[1] == '/') {
            assert(head == seq![Comp::Cur]);
        } else {
            assert(head =~= seq![]);
        }
    }
    r
}

// ----------------------------------------------------------- the listing

/// Strictly increasing in path order (so no two have the same components).
pub open spec fn sorted_unique(v: Seq<Seq<char>>) -> bool {
    forall|i: int, j: int| 0 <= i < j < v.len() ==> path_lt(#[trigger] v[i], #[trigger] v[j])
}

/// `input[i]` is the first path of the input with its components.
pub open spec fn first_of_kind(input: Seq<Seq<char>>, i: int) -> bool {
    0 <= i < input.len() && forall|j: int| 0 <= j < i ==> components(#[trigger] input[j]) != components(input[i])
}

/// `p` is a path of the input that no earlier path shares its components
/// with.
pub open spec fn comes_first(input: Seq<Seq<char>>, p: Seq<char>) -> bool {
    exists|i: int| #[trigger] first_of_kind(input, i) && p == input[i]
}

/// Some path of `out` has the components of `p`.
pub open spec fn has_kind(out: Seq<Seq<char>>, p: Seq<char>) -> bool {
    exists|k: int| 0 <= k < out.len() && #[trigger] components(out[k]) == components(p)
}

/// The listing of the paths found: in path order, each path once, keeping
/// of paths with the same components (equal `Path`s) the one found first.
pub open spec fn is_listing(input: Seq<Seq<char>>, out: Seq<Seq<char>>) -> bool {
    &&& sorted_unique(out)
    &&& forall|k: int| 0 <= k < out.len() ==> #[trigger] comes_first(input, out[k])
    &&& forall|i: int| 0 <= i < input.len() ==> #[trigger] has_kind(out, input[i])
}

proof fn lemma_first_kept(pre: Seq<Seq<char>>, x: Seq<char>, i: int)
    requires
        first_of_kind(pre, i),
    ensures
        first_of_kind(pre.push(x), i),
        pre.push(x)[i] == pre[i],
{
    let nxt = pre.push(x);
    assert forall|jj: int| 0 <= jj < i implies components(#[trigger] nxt[jj]) != components(nxt[i]) by {
        assert(nxt[jj] == pre[jj]);
    }
}

proof fn lemma_comes_first_kept(pre: Seq<Seq<char>>, x: Seq<char>, p: Seq<char>)
    requires
        comes_first(pre, p),
    ensures
        comes_first(pre.push(x), p),
{
    let i = choose|i: int| #[trigger] first_of_kind(pre, i) && p == pre[i];
    lemma_first_kept(pre, x, i);
}

proof fn lemma_listing_keep(pre: Seq<Seq<char>>, x: Seq<char>, ov: Seq<Seq<char>>, j: int)
    requires
        is_listing(pre, ov),
        0 <= j < ov.len(),
        components(ov[j]) == components(x),
    ensures
        is_listing(pre.push(x), ov),
{
    let nxt = pre.push(x);
    assert forall|k: int| 0 <= k < ov.len() implies #[trigger] comes_first(nxt, ov[k]) by {
        assert(comes_first(pre, ov[k]));
        lemma_comes_first_kept(pre, x, ov[k]);
    }
    assert forall|i: int| 0 <= i < nxt.len() implies #[trigger] has_kind(ov, nxt[i]) by {
        if i < pre.len() {
            assert(nxt[i] == pre[i]);
            assert(has_kind(ov, pre[i]));
        } else {
            assert(nxt[i] == x);
            assert(components(ov[j]) == components(x));
        }
    }
}

proof fn lemma_sorted_insert(ov: Seq<Seq<char>>, x: Seq<char>, j: int)
    requires
        sorted_unique(ov),
        0 <= j <= ov.len(),
        forall|k: int| 0 <= k < j ==> path_lt(#[trigger] ov[k], x),
        j < ov.len() ==> path_lt(x, ov[j]),
    ensures
        sorted_unique(ov.insert(j, x)),
{
    let nv = ov.insert(j, x);
    assert forall|a: int, b: int| 0 <= a < b < nv.len() implies path_lt(#[trigger] nv[a], #[trigger] nv[b]) by {
        if b < j {
            assert(nv[a] == ov[a] && nv[b] == ov[b]);
        } else if b == j {
            assert(nv[a] == ov[a]);
        } else if a < j {
            assert(nv[a] == ov[a] && nv[b] == ov[b - 1]);
            if b - 1 > j {
                assert(path_lt(ov[j], ov[b - 1]));
                lemma_comps_transitive(components(x), components(ov[j]), components(ov[b - 1]));
            }
            lemma_comps_transitive(components(nv[a]), components(x), components(nv[b]));
        } else if a == j {
            assert(nv[b] == ov[b - 1]);
            if b - 1 > j {
                assert(path_lt(ov[j], ov[b - 1]));
                lemma_comps_transitive(components(x), components(ov[j]), components(ov[b - 1]));
            }
        } else {
            assert(nv[a] == ov[a - 1] && nv[b] == ov[b - 1]);
        }
    }
}

proof fn lemma_new_kind(pre: Seq<Seq<char>>, x: Seq<char>, ov: Seq<Seq<char>>, j: int)
    requires
        is_listing(pre, ov),
        0 <= j <= ov.len(),
        forall|k: int| 0 <= k < j ==> path_lt(#[trigger] ov[k], x),
        j < ov.len() ==> path_lt(x, ov[j]),
    ensures
        first_of_kind(pre.push(x), pre.len() as int),
{
    let nxt = pre.push(x);
    let n = pre.len() as int;
    assert forall|jj: int| 0 <= jj < n implies components(#[trigger] nxt[jj]) != components(nxt[n]) by {
        assert(nxt[jj] == pre[jj]);
        assert(has_kind(ov, pre[jj]));
        let k = choose|k: int| 0 <= k < ov.len() && #[trigger] components(ov[k]) == components(pre[jj]);
        if components(pre[jj]) == components(x) {
            if k < j {
                assert(path_lt(ov[k], x));
            } else if k > j {
                assert(path_lt(ov[j], ov[k]));
                lemma_comps_transitive(components(x), components(ov[j]), components(ov[k]));
            }
            lemma_comps_irreflexive(components(x));
        }
    }
}

proof fn lemma_listing_insert(pre: Seq<Seq<char>>, x: Seq<char>, ov: Seq<Seq<char>>, j: int)
    requires
        is_listing(pre, ov),
        0 <= j <= ov.len(),
        forall|k: int| 0 <= k < j ==> path_lt(#[trigger] ov[k], x),
        j < ov.len() ==> path_lt(x, ov[j]),
    ensures
        is_listing(pre.push(x), ov.insert(j, x)),
{
    let nxt = pre.push(x);
    let nv = ov.insert(j, x);
    let n = pre.len() as int;
    lemma_sorted_insert(ov, x, j);
    lemma_new_kind(pre, x, ov, j);
    assert forall|k: int| 0 <= k < nv.len() implies #[trigger] comes_first(nxt, nv[k]) by {
        if k == j {
            assert(nv[k] == nxt[n]);
            assert(first_of_kind(nxt, n));
        } else {
            let kk = if k < j { k } else { k - 1 };
            assert(nv[k] == ov[kk]);
            assert(comes_first(pre, ov[kk]));
            lemma_comes_first_kept(pre, x, ov[kk]);
        }
    }
    assert forall|i: int| 0 <= i < nxt.len() implies #[trigger] has_kind(nv, nxt[i]) by {
        if i < n {
            assert(nxt[i] == pre[i]);
            assert(has_kind(ov, pre[i]));
            let k = choose|k: int| 0 <= k < ov.len() && #[trigger] components(ov[k]) == components(pre[i]);
            if k < j {
                assert(nv[k] == ov[k]);
                assert(components(nv[k]) == components(nxt[i]));
            } else {
                assert(nv[k + 1] == ov[k]);
                assert(components(nv[k + 1]) == components(nxt[i]));
            }
        } else {
            assert(nv[j] == nxt[i]);
            assert(components(nv[j]) == components(nxt[i]));
        }
    }
}

proof fn lemma_lt_distinct(a: Seq<char>, b: Seq<char>)
    requires
        path_lt(a, b),
    ensures
        a != b,
        !path_lt(b, a),
{
    lemma_comps_irreflexive(components(a));
    if path_lt(b, a) {
        lemma_comps_transitive(components(a), components(b), components(a));
    }
}

/// Two sequences strictly increasing in path order with the same paths are
/// the same sequence.
proof fn lemma_sorted_same(a: Seq<Seq<char>>, b: Seq<Seq<char>>)
    requires
        sorted_unique(a),
        sorted_unique(b),
        forall|k: int| 0 <= k < b.len() ==> a.contains(#[trigger] b[k]),
        forall|k: int| 0 <= k < a.len() ==> b.contains(#[trigger] a[k]),
    ensures
        a == b,
    decreases a.len() + b.len(),
{
    if a.len() == 0 || b.len() == 0 {
        if a.len() > 0 {
            assert(b.contains(a[0]));
        }
        if b.len() > 0 {
            assert(a.contains(b[0]));
        }
        assert(a =~= b);
    } else {
        assert(b.contains(a[0]));
        assert(a.contains(b[0]));
        let j = choose|j: int| 0 <= j < b.len() && b[j] == a[0];
        let i = choose|i: int| 0 <= i < a.len() && a[i] == b[0];
        if j > 0 {
            assert(path_lt(b[0], b[j]));
            if i > 0 {
                assert(path_lt(a[0], a[i]));
                lemma_lt_distinct(b[0], b[j]);
            } else {
                lemma_lt_distinct(b[0], b[j]);
            }
        }
        assert(a[0] == b[0]);
        let a2 = a.drop_first();
        let b2 = b.drop_first();
        assert forall|k: int| 0 <= k < b2.len() implies a2.contains(#[trigger] b2[k]) by {
            assert(b2[k] == b[k + 1]);
            assert(a.contains(b[k + 1]));
            let ii = choose|ii: int| 0 <= ii < a.len() && a[ii] == b[k + 1];
            assert(path_lt(b[0], b[k + 1]));
            lemma_lt_distinct(b[0], b[k + 1]);
            assert(ii != 0);
            assert(a2[ii - 1] == a[ii]);
        }
        assert forall|k: int| 0 <= k < a2.len() implies b2.contains(#[trigger] a2[k]) by {
            assert(a2[k] == a[k + 1]);
            assert(b.contains(a[k + 1]));
            let jj = choose|jj: int| 0 <= jj < b.len() && b[jj] == a[k + 1];
            assert(path_lt(a[0], a[k + 1]));
            lemma_lt_distinct(a[0], a[k + 1]);
            assert(jj != 0);
            assert(b2[jj - 1] == b[jj]);
        }
        lemma_sorted_same(a2, b2);
        assert(a =~= seq![a[0]] + a2);
        assert(b =~= seq![b[0]] + b2);
    }
}

/// A path of the listing, found first among the paths with its components,
/// is in every listing of the same paths.
proof fn lemma_first_in_listing(input: Seq<Seq<char>>, x: Seq<char>, other: Seq<Seq<char>>)
    requires
        comes_first(input, x),
        is_listing(input, other),
    ensures
        other.contains(x),
{
    let i = choose|i: int| #[trigger] first_of_kind(input, i) && x == input[i];
    assert(has_kind(other, input[i]));
    let k = choose|k: int| 0 <= k < other.len() && #[trigger] components(other[k]) == components(input[i]);
    assert(comes_first(input, other[k]));
    let j = choose|j: int| #[trigger] first_of_kind(input, j) && other[k] == input[j];
    if i < j {
        assert(components(input[i]) != components(input[j]));
    } else if j < i {
        assert(components(input[j]) != components(input[i]));
    }
    assert(other[k] == x);
}

/// The listing is determined by the paths found: any two listings of the
/// same paths are equal.
pub proof fn lemma_listing_unique(input: Seq<Seq<char>>, a: Seq<Seq<char>>, b: Seq<Seq<char>>)
    requires
        is_listing(input, a),
        is_listing(input, b),
    ensures
        a == b,
{
    assert forall|k: int| 0 <= k < b.len() implies a.contains(#[trigger] b[k]) by {
        assert(comes_first(input, b[k]));
        lemma_first_in_listing(input, b[k], a);
    }
    assert forall|k: int| 0 <= k < a.len() implies b.contains(#[trigger] a[k]) by {
        assert(comes_first(input, a[k]));
        lemma_first_in_listing(input, a[k], b);
    }
    lemma_sorted_same(a, b);
}

/// Listing a listing gives it back: its paths are already in order, each
/// once.
pub proof fn lemma_listing_of_listing(input: Seq<Seq<char>>, out: Seq<Seq<char>>)
    requires
        is_listing(input, out),
    ensures
        is_listing(out, out),
{
    assert forall|k: int| 0 <= k < out.len() implies #[trigger] comes_first(out, out[k]) by {
        assert forall|j: int| 0 <= j < k implies components(#[trigger] out[j]) != components(out[k]) by {
            assert(path_lt(out[j], out[k]));
            lemma_comps_irreflexive(components(out[k]));
        }
        assert(first_of_kind(out, k));
    }
    assert forall|i: int| 0 <= i < out.len() implies #[trigger] has_kind(out, out[i]) by {
        assert(components(out[i]) == components(out[i]));
    }
}

/// Listing again changes nothing: the listing of a listing's paths is that
/// listing.
pub proof fn lemma_listing_again(input: Seq<Seq<char>>, out: Seq<Seq<char>>, again: Seq<Seq<char>>)
    requires
        is_listing(input, out),
        is_listing(out, again),
    ensures
        again == out,
{
    lemma_listing_of_listing(input, out);
    lemma_listing_unique(out, again, out);
}

/// The repositories to sync from the paths the walk found: sorted by path
/// and without repeats.
pub fn discover_repos(found: Vec<String>) -> (r: Vec<String>)
    ensures
        is_listing(views(found@), views(r@)),
{
    let ghost input = views(found@);
    let mut out: Vec<String> = Vec::new();
    let mut out_parts: Vec<Vec<PathPart>> = Vec::new();
    let mut n: usize = 0;
    while n < found.len()
        invariant
            input == views(found@),
            n <= found@.len(),
            out_parts@.len() == out@.len(),
            forall|k: int| 0 <= k < out@.len() ==> #[trigger] part_views(out_parts@[k]@) == components(out@[k]@),
            is_listing(input.take(n as int), views(out@)),
        decreases found.len() - n,
    {
        let ghost pre = input.take(n as int);
        assert(input.take(n + 1) =~= pre.push(input[n as int]));
        let x = &found[n];
        let xp = parts_of(x.as_str());
        let mut j: usize = 0;
        while j < out.len() && parts_less(&out_parts[j], &xp)
            invariant
                j <= out@.len(),
                out_parts@.len() == out@.len(),
                part_views(xp@) == components(x@),
                forall|k: int| 0 <= k < out@.len() ==> #[trigger] part_views(out_parts@[k]@) == components(out@[k]@),
                forall|k: int| 0 <= k < j ==> path_lt(#[trigger] out@[k]@, x@),
            decreases out.len() - j,
        {
            assert(part_views(out_parts@[j as int]@) == components(out@[j as int]@));
            j = j + 1;
        }
        let ghost ov = views(out@);
        proof {
            assert forall|k: int| 0 <= k < j implies path_lt(#[trigger] ov[k], x@) by {
                assert(ov[k] == out@[k]@);
            }
            if j < ov.len() {
                assert(ov[j as int] == out@[j as int]@);
                assert(part_views(out_parts@[j as int]@) == components(out@[j as int]@));
            }
        }
        let dup = j < out.len() && parts_equal(&out_parts[j], &xp);
        if dup {
            proof {
                lemma_listing_keep(pre, x@, ov, j as int);
            }
        } else {
            proof {
                if j < ov.len() {
                    lemma_comps_total(components(ov[j as int]), components(x@));
                }
                lemma_listing_insert(pre, x@, ov, j as int);
            }
            let ghost old_out = out@;
            out.insert(j, x.clone());
            out_parts.insert(j, xp);
            proof {
                assert(views(out@) =~= ov.insert(j as int, x@));
                assert forall|k: int| 0 <= k < out@.len() implies #[trigger] part_views(out_parts@[k]@) == components(out@[k]@) by {
                    if k < j {
                        assert(out@[k] == old_out[k]);
                    } else if k > j {
                        assert(out@[k] == old_out[k - 1]);
                    }
                }
            }
        }
        n = n + 1;
    }
    assert(input.take(found@.len() as int) =~= input);
    out
}

} // verus!
