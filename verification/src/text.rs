//! Character-level string helpers shared by the parsers.
//!
//! Strings are modelled by their `Seq<char>` views; every search and split
//! below works on characters, which for the ASCII delimiters used by the
//! library gives the same answers as working on UTF-8 bytes.

use vstd::prelude::*;

verus! {

/// Appends one character to a `String` (`String::push`).
#[verifier::external_body]
pub(crate) fn string_push(s: &mut String, c: char)
    ensures
        final(s)@ == old(s)@.push(c),
{
    s.push(c);
}

/// The characters of `s`, in order.
pub fn chars_of(s: &str) -> (res: Vec<char>)
    ensures
        res@ == s@,
{
    let mut res: Vec<char> = Vec::new();
    for c in it: s.chars()
        invariant
            res@ == it.seq().take(it.index() as int),
    {
        res.push(c);
    }
    res
}

/// A `String` holding exactly the characters of `v`.
pub fn string_from(v: &[char]) -> (res: String)
    ensures
        res@ == v@,
{
    let mut res = String::new();
    let mut i: usize = 0;
    while i < v.len()
        invariant
            i <= v@.len(),
            res@ == v@.take(i as int),
        decreases v@.len() - i,
    {
        string_push(&mut res, v[i]);
        assert(v@.take(i + 1) == v@.take(i as int).push(v@[i as int]));
        i += 1;
    }
    assert(v@.take(v@.len() as int) == v@);
    res
}

/// Appends the characters of `v` to `s`.
pub fn push_chars(s: &mut String, v: &[char])
    ensures
        final(s)@ == old(s)@ + v@,
{
    let mut i: usize = 0;
    while i < v.len()
        invariant
            i <= v@.len(),
            s@ == old(s)@ + v@.take(i as int),
        decreases v@.len() - i,
    {
        string_push(s, v[i]);
        assert(v@.take(i + 1) == v@.take(i as int).push(v@[i as int]));
        i += 1;
    }
    assert(v@.take(v@.len() as int) == v@);
}

/// Appends the characters of `t` to `s`.
pub fn push_str(s: &mut String, t: &str)
    ensures
        final(s)@ == old(s)@ + t@,
{
    let v = chars_of(t);
    push_chars(s, v.as_slice());
}

/// A `String` holding `s`.
pub fn literal(s: &str) -> (res: String)
    ensures
        res@ == s@,
{
    let mut r = String::new();
    push_str(&mut r, s);
    r
}

// ---------------------------------------------------------------------------
// Searching
// ---------------------------------------------------------------------------

/// `p` occurs in `s` at position `i`.
pub open spec fn matches_at(s: Seq<char>, p: Seq<char>, i: int) -> bool {
    0 <= i && i + p.len() <= s.len() && s.subrange(i, i + p.len()) == p
}

/// The first position at or after `i` at which `p` occurs in `s`.
pub open spec fn find_from(s: Seq<char>, p: Seq<char>, i: int) -> Option<int>
    decreases s.len() + 1 - i,
{
    if i < 0 || i + p.len() > s.len() {
        None
    } else if matches_at(s, p, i) {
        Some(i)
    } else {
        find_from(s, p, i + 1)
    }
}

/// The first position at which `p` occurs in `s` (`str::find`).
pub open spec fn find(s: Seq<char>, p: Seq<char>) -> Option<int> {
    find_from(s, p, 0)
}

/// `s` contains `p` (`str::contains`).
pub open spec fn contains(s: Seq<char>, p: Seq<char>) -> bool {
    find(s, p) is Some
}

/// `s` starts with `p` (`str::starts_with`).
pub open spec fn starts_with(s: Seq<char>, p: Seq<char>) -> bool {
    p.len() <= s.len() && s.take(p.len() as int) == p
}

/// `s` ends with `p` (`str::ends_with`).
pub open spec fn ends_with(s: Seq<char>, p: Seq<char>) -> bool {
    p.len() <= s.len() && s.skip(s.len() - p.len()) == p
}

/// An `Option<usize>` read as an `Option<int>`.
pub open spec fn opt_int(o: Option<usize>) -> Option<int> {
    match o {
        Some(k) => Some(k as int),
        None => None,
    }
}

/// A found position lies inside `s` and really is an occurrence of `p`.
pub proof fn lemma_find_from_found(s: Seq<char>, p: Seq<char>, i: int)
    ensures
        find_from(s, p, i) matches Some(k) ==> i <= k && matches_at(s, p, k),
    decreases s.len() + 1 - i,
{
    if !(i < 0 || i + p.len() > s.len()) && !matches_at(s, p, i) {
        lemma_find_from_found(s, p, i + 1);
    }
}

/// When `p` occurs at `j`, a search from `i <= j` finds an occurrence at
/// or before `j`.
pub proof fn lemma_find_from_matches(s: Seq<char>, p: Seq<char>, i: int, j: int)
    requires
        0 <= i <= j,
        matches_at(s, p, j),
    ensures
        find_from(s, p, i) matches Some(k) && i <= k <= j,
    decreases j - i,
{
    if !matches_at(s, p, i) {
        lemma_find_from_matches(s, p, i + 1, j);
    }
}

/// When no occurrence of `p` starts before `j` and one starts at `j`, the
/// search from `i` finds `j`.
pub proof fn lemma_find_from_exact(s: Seq<char>, p: Seq<char>, i: int, j: int)
    requires
        0 <= i <= j,
        matches_at(s, p, j),
        forall|k: int| i <= k < j ==> !matches_at(s, p, k),
    ensures
        find_from(s, p, i) == Some(j),
    decreases j - i,
{
    if i < j {
        lemma_find_from_exact(s, p, i + 1, j);
    }
}

/// Whether `p` occurs in `s` at position `i`.
pub fn matches_at_exec(s: &[char], p: &[char], i: usize) -> (b: bool)
    ensures
        b == matches_at(s@, p@, i as int),
{
    if i > s.len() || p.len() > s.len() - i {
        return false;
    }
    let mut j: usize = 0;
    while j < p.len()
        invariant
            i + p@.len() <= s.len(),
            j <= p@.len(),
            forall|k: int| 0 <= k < j ==> s@[i + k] == p@[k],
        decreases p@.len() - j,
    {
        if s[i + j] != p[j] {
            assert(s@.subrange(i as int, i + p@.len())[j as int] != p@[j as int]);
            return false;
        }
        j += 1;
    }
    assert(s@.subrange(i as int, i + p@.len()) =~= p@);
    true
}

/// The first position at or after `from` at which `p` occurs in `s`.
pub fn find_at(s: &[char], p: &[char], from: usize) -> (r: Option<usize>)
    ensures
        opt_int(r) == find_from(s@, p@, from as int),
{
    let mut i = from;
    while i <= s.len() && p.len() <= s.len() - i
        invariant
            from <= i,
            find_from(s@, p@, from as int) == find_from(s@, p@, i as int),
        decreases s@.len() + 1 - i,
    {
        if matches_at_exec(s, p, i) {
            return Some(i);
        }
        if i == s.len() {
            assert(find_from(s@, p@, i + 1) is None);
            return None;
        }
        i += 1;
    }
    None
}

/// Whether `s` starts with `p`.
pub fn starts_with_exec(s: &[char], p: &[char]) -> (b: bool)
    ensures
        b == starts_with(s@, p@),
{
    let b = matches_at_exec(s, p, 0);
    assert(s@.subrange(0, p@.len() as int) == s@.take(p@.len() as int));
    b
}

/// Whether `s` ends with `p`.
pub fn ends_with_exec(s: &[char], p: &[char]) -> (b: bool)
    ensures
        b == ends_with(s@, p@),
{
    if p.len() > s.len() {
        return false;
    }
    let b = matches_at_exec(s, p, s.len() - p.len());
    assert(s@.subrange(s@.len() - p@.len(), s@.len() as int) == s@.skip(s@.len() - p@.len()));
    b
}

/// The characters `s[lo..hi]` as a new vector.
pub fn slice_to_vec(s: &[char], lo: usize, hi: usize) -> (res: Vec<char>)
    requires
        lo <= hi <= s@.len(),
    ensures
        res@ == s@.subrange(lo as int, hi as int),
{
    let mut res: Vec<char> = Vec::new();
    let mut i = lo;
    while i < hi
        invariant
            lo <= i <= hi <= s@.len(),
            res@ == s@.subrange(lo as int, i as int),
        decreases hi - i,
    {
        res.push(s[i]);
        assert(s@.subrange(lo as int, i + 1) == s@.subrange(lo as int, i as int).push(s@[i as int]));
        i += 1;
    }
    res
}

/// `s[lo..hi]` as a `String`.
pub fn substring(s: &[char], lo: usize, hi: usize) -> (res: String)
    requires
        lo <= hi <= s@.len(),
    ensures
        res@ == s@.subrange(lo as int, hi as int),
{
    let v = slice_to_vec(s, lo, hi);
    string_from(v.as_slice())
}


/// The number of leading characters of `s` for which `stop` does not hold.
pub open spec fn first_index(s: Seq<char>, stop: spec_fn(char) -> bool) -> nat
    decreases s.len(),
{
    if s.len() == 0 || stop(s[0]) {
        0
    } else {
        1 + first_index(s.drop_first(), stop)
    }
}

/// A prefix free of stop characters is counted whole.
pub proof fn lemma_first_index_concat(a: Seq<char>, b: Seq<char>, stop: spec_fn(char) -> bool)
    requires
        forall|k: int| 0 <= k < a.len() ==> !stop(a[k]),
        b.len() == 0 || stop(b[0]),
    ensures
        first_index(a + b, stop) == a.len(),
    decreases a.len(),
{
    if a.len() > 0 {
        assert((a + b).drop_first() == a.drop_first() + b);
        lemma_first_index_concat(a.drop_first(), b, stop);
    } else {
        assert(a + b == b);
    }
}

/// Whether `a` and `b` hold the same characters.
pub fn eq_chars(a: &[char], b: &[char]) -> (r: bool)
    ensures
        r == (a@ == b@),
{
    if a.len() != b.len() {
        return false;
    }
    let mut i: usize = 0;
    while i < a.len()
        invariant
            a@.len() == b@.len(),
            i <= a@.len(),
            forall|k: int| 0 <= k < i ==> a@[k] == b@[k],
        decreases a@.len() - i,
    {
        if a[i] != b[i] {
            return false;
        }
        i += 1;
    }
    assert(a@ =~= b@);
    true
}

/// Whether the text `a` equals the text `b`.
pub fn eq_str(a: &[char], b: &str) -> (r: bool)
    ensures
        r == (a@ == b@),
{
    let bv = chars_of(b);
    eq_chars(a, bv.as_slice())
}

/// Whether `s` contains the character `c`.
pub fn contains_char(s: &[char], c: char) -> (r: bool)
    ensures
        r == contains(s@, seq![c]),
{
    let mut p: Vec<char> = Vec::new();
    p.push(c);
    let f = find_at(s, p.as_slice(), 0);
    f.is_some()
}

// ---------------------------------------------------------------------------
// Whitespace, trimming and splitting
// ---------------------------------------------------------------------------

/// Unicode `White_Space`, the set that `char::is_whitespace` tests for.
pub open spec fn is_ws(c: char) -> bool {
    let v = c as u32;
    ||| 0x09 <= v <= 0x0d
    ||| v == 0x20
    ||| v == 0x85
    ||| v == 0xa0
    ||| v == 0x1680
    ||| 0x2000 <= v <= 0x200a
    ||| v == 0x2028
    ||| v == 0x2029
    ||| v == 0x202f
    ||| v == 0x205f
    ||| v == 0x3000
}

/// Whether `c` is whitespace.
pub fn is_ws_exec(c: char) -> (b: bool)
    ensures
        b == is_ws(c),
{
    let v = c as u32;
    (0x09 <= v && v <= 0x0d) || v == 0x20 || v == 0x85 || v == 0xa0 || v == 0x1680 || (0x2000
        <= v && v <= 0x200a) || v == 0x2028 || v == 0x2029 || v == 0x202f || v == 0x205f || v
        == 0x3000
}

/// `s` without its leading whitespace (`str::trim_start`).
pub open spec fn trim_start(s: Seq<char>) -> Seq<char>
    decreases s.len(),
{
    if s.len() > 0 && is_ws(s[0]) {
        trim_start(s.drop_first())
    } else {
        s
    }
}

/// `s` without its trailing whitespace (`str::trim_end`).
pub open spec fn trim_end(s: Seq<char>) -> Seq<char>
    decreases s.len(),
{
    if s.len() > 0 && is_ws(s.last()) {
        trim_end(s.drop_last())
    } else {
        s
    }
}

/// Trimming the start drops a prefix, and leaves no whitespace in front.
pub proof fn lemma_trim_start(s: Seq<char>) -> (k: int)
    ensures
        0 <= k <= s.len(),
        trim_start(s) == s.skip(k),
        trim_start(s).len() > 0 ==> !is_ws(trim_start(s)[0]),
    decreases s.len(),
{
    if s.len() > 0 && is_ws(s[0]) {
        let k0 = lemma_trim_start(s.drop_first());
        assert(s.drop_first().skip(k0) == s.skip(k0 + 1));
        k0 + 1
    } else {
        assert(s.skip(0) == s);
        0
    }
}

/// Trimming the end keeps a prefix, and leaves no whitespace at the end.
pub proof fn lemma_trim_end(s: Seq<char>) -> (k: int)
    ensures
        0 <= k <= s.len(),
        trim_end(s) == s.take(k),
        trim_end(s).len() > 0 ==> !is_ws(trim_end(s).last()),
    decreases s.len(),
{
    if s.len() > 0 && is_ws(s.last()) {
        let k0 = lemma_trim_end(s.drop_last());
        assert(s.drop_last().take(k0) == s.take(k0));
        k0
    } else {
        assert(s.take(s.len() as int) == s);
        s.len() as int
    }
}

/// Trimmed text is a piece of the text with no whitespace at either end.
pub proof fn lemma_trim(s: Seq<char>) -> (r: (int, int))
    ensures
        0 <= r.0 <= r.1 <= s.len(),
        trim(s) == s.subrange(r.0, r.1),
        trim(s).len() > 0 ==> !is_ws(trim(s)[0]) && !is_ws(trim(s).last()),
{
    let a = lemma_trim_start(s);
    let t = trim_start(s);
    let b = lemma_trim_end(t);
    assert(t.take(b) == s.subrange(a, a + b));
    if trim(s).len() > 0 {
        assert(trim(s)[0] == t[0]);
    }
    (a, a + b)
}

/// `s` without leading and trailing whitespace (`str::trim`).
pub open spec fn trim(s: Seq<char>) -> Seq<char> {
    trim_end(trim_start(s))
}

/// `s` without leading and trailing whitespace.
pub fn trim_exec(s: &[char]) -> (res: Vec<char>)
    ensures
        res@ == trim(s@),
{
    let mut lo: usize = 0;
    assert(s@.skip(0) == s@);
    while lo < s.len() && is_ws_exec(s[lo])
        invariant
            lo <= s@.len(),
            trim_start(s@) == trim_start(s@.skip(lo as int)),
        decreases s@.len() - lo,
    {
        assert(s@.skip(lo as int).drop_first() == s@.skip(lo + 1));
        lo += 1;
    }
    let t = slice_to_vec(s, lo, s.len());
    assert(t@ == s@.skip(lo as int));
    let mut hi: usize = t.len();
    assert(t@.take(t@.len() as int) == t@);
    while hi > 0 && is_ws_exec(t[hi - 1])
        invariant
            hi <= t@.len(),
            trim_end(t@) == trim_end(t@.take(hi as int)),
        decreases hi,
    {
        assert(t@.take(hi as int).drop_last() == t@.take(hi - 1));
        hi -= 1;
    }
    assert(t@.take(hi as int) == t@.subrange(0, hi as int));
    slice_to_vec(t.as_slice(), 0, hi)
}

/// The pieces of `s` between the characters for which `sep` holds
/// (`str::split` with a character predicate): `n` separators give `n + 1`
/// pieces, empty ones included.
pub open spec fn split_by(s: Seq<char>, sep: spec_fn(char) -> bool) -> Seq<Seq<char>>
    decreases s.len(),
{
    if s.len() == 0 {
        seq![Seq::empty()]
    } else {
        let prev = split_by(s.drop_last(), sep);
        if sep(s.last()) {
            prev.push(Seq::empty())
        } else {
            prev.drop_last().push(prev.last().push(s.last()))
        }
    }
}

/// A split always has at least one piece.
pub proof fn lemma_split_by_nonempty(s: Seq<char>, sep: spec_fn(char) -> bool)
    ensures
        split_by(s, sep).len() >= 1,
    decreases s.len(),
{
    if s.len() > 0 {
        lemma_split_by_nonempty(s.drop_last(), sep);
    }
}

/// Text without separators is one piece.
pub proof fn lemma_split_by_single(s: Seq<char>, sep: spec_fn(char) -> bool)
    requires
        forall|k: int| 0 <= k < s.len() ==> !sep(s[k]),
    ensures
        split_by(s, sep) == seq![s],
    decreases s.len(),
{
    if s.len() > 0 {
        lemma_split_by_single(s.drop_last(), sep);
        assert(!sep(s[s.len() - 1]));
        assert(s.drop_last().push(s.last()) == s);
        let prev = seq![s.drop_last()];
        assert(prev.drop_last().push(prev.last().push(s.last())) == seq![s]);
    } else {
        assert(s == Seq::<char>::empty());
    }
}

/// Splitting around a separator: the pieces of the text before it, then
/// those of the text after it.
pub proof fn lemma_split_by_concat(x: Seq<char>, c: char, y: Seq<char>, sep: spec_fn(char) -> bool)
    requires
        sep(c),
    ensures
        split_by(x + seq![c] + y, sep) == split_by(x, sep) + split_by(y, sep),
    decreases y.len(),
{
    let s = x + seq![c] + y;
    if y.len() == 0 {
        assert(s == x.push(c));
        assert(s.drop_last() == x);
        assert(split_by(y, sep) == seq![Seq::<char>::empty()]);
        assert(split_by(x, sep).push(Seq::empty()) == split_by(x, sep) + seq![Seq::<char>::empty()]);
    } else {
        let y2 = y.drop_last();
        let d = y.last();
        assert(s.drop_last() == x + seq![c] + y2);
        assert(s.last() == d);
        lemma_split_by_concat(x, c, y2, sep);
        lemma_split_by_nonempty(y2, sep);
        let a = split_by(x, sep);
        let b = split_by(y2, sep);
        if sep(d) {
            assert((a + b).push(Seq::empty()) == a + b.push(Seq::empty()));
        } else {
            assert((a + b).drop_last() == a + b.drop_last());
            assert((a + b).last() == b.last());
            assert((a + b).drop_last().push((a + b).last().push(d)) == a + b.drop_last().push(
                b.last().push(d),
            ));
        }
    }
}

/// No piece of a split holds a separator.
pub proof fn lemma_split_by_pieces_free(s: Seq<char>, sep: spec_fn(char) -> bool)
    ensures
        forall|i: int, k: int|
            0 <= i < split_by(s, sep).len() && 0 <= k < split_by(s, sep)[i].len() ==> !sep(
                #[trigger] split_by(s, sep)[i][k],
            ),
    decreases s.len(),
{
    if s.len() > 0 {
        lemma_split_by_pieces_free(s.drop_last(), sep);
        lemma_split_by_nonempty(s.drop_last(), sep);
        let prev = split_by(s.drop_last(), sep);
        let cur = split_by(s, sep);
        assert forall|i: int, k: int| 0 <= i < cur.len() && 0 <= k < cur[i].len() implies !sep(
            #[trigger] cur[i][k],
        ) by {
            if sep(s.last()) {
                if i < prev.len() {
                    assert(cur[i] == prev[i]);
                }
            } else {
                if i < prev.len() - 1 {
                    assert(cur[i] == prev[i]);
                } else {
                    assert(cur[i] == prev.last().push(s.last()));
                    if k < prev.last().len() {
                        assert(cur[i][k] == prev[prev.len() - 1][k]);
                    }
                }
            }
        }
    }
}

/// What separates the pieces of a split.
pub enum Sep {
    /// One given character.
    Char(char),
    /// Any whitespace character.
    Whitespace,
}

/// The predicate that a separator stands for.
pub open spec fn sep_pred(sep: Sep) -> spec_fn(char) -> bool {
    match sep {
        Sep::Char(c) => |x: char| x == c,
        Sep::Whitespace => |x: char| is_ws(x),
    }
}

/// The views of a sequence of character vectors.
pub open spec fn views(v: Seq<Vec<char>>) -> Seq<Seq<char>> {
    v.map_values(|x: Vec<char>| x@)
}

/// Whether `c` is a separator.
fn is_sep(sep: &Sep, c: char) -> (b: bool)
    ensures
        b == (sep_pred(*sep))(c),
{
    match sep {
        Sep::Char(d) => c == *d,
        Sep::Whitespace => is_ws_exec(c),
    }
}

/// The pieces of `s` between separators.
pub fn split_exec(s: &[char], sep: Sep) -> (res: Vec<Vec<char>>)
    ensures
        views(res@) == split_by(s@, sep_pred(sep)),
{
    let mut done: Vec<Vec<char>> = Vec::new();
    let mut cur: Vec<char> = Vec::new();
    let mut i: usize = 0;
    assert(s@.take(0) == Seq::<char>::empty());
    assert(views(done@).push(cur@) == split_by(s@.take(0), sep_pred(sep)));
    while i < s.len()
        invariant
            i <= s@.len(),
            views(done@).push(cur@) == split_by(s@.take(i as int), sep_pred(sep)),
        decreases s@.len() - i,
    {
        let c = s[i];
        let ghost before = views(done@).push(cur@);
        assert(s@.take(i + 1).drop_last() == s@.take(i as int));
        assert(s@.take(i + 1).last() == c);
        if is_sep(&sep, c) {
            done.push(cur);
            cur = Vec::new();
            assert(views(done@).push(cur@) == before.push(Seq::empty()));
        } else {
            cur.push(c);
            assert(views(done@).push(cur@) == before.drop_last().push(before.last().push(c)));
        }
        i += 1;
    }
    assert(s@.take(s@.len() as int) == s@);
    done.push(cur);
    done
}

/// The non-empty members of `ss`, in order.
pub open spec fn nonempty(ss: Seq<Seq<char>>) -> Seq<Seq<char>>
    decreases ss.len(),
{
    if ss.len() == 0 {
        seq![]
    } else {
        let r = nonempty(ss.drop_last());
        if ss.last().len() > 0 {
            r.push(ss.last())
        } else {
            r
        }
    }
}

/// The members kept are non-empty, and keep any property that all members
/// of `ss` have.
pub proof fn lemma_nonempty_keeps(ss: Seq<Seq<char>>, p: spec_fn(Seq<char>) -> bool)
    requires
        forall|i: int| 0 <= i < ss.len() ==> p(#[trigger] ss[i]),
    ensures
        forall|i: int|
            0 <= i < nonempty(ss).len() ==> #[trigger] nonempty(ss)[i].len() > 0 && p(
                nonempty(ss)[i],
            ),
    decreases ss.len(),
{
    if ss.len() > 0 {
        assert forall|i: int| 0 <= i < ss.drop_last().len() implies p(#[trigger] ss.drop_last()[i]) by {
            assert(ss.drop_last()[i] == ss[i]);
        }
        lemma_nonempty_keeps(ss.drop_last(), p);
        assert(p(ss[ss.len() - 1]));
        let r = nonempty(ss.drop_last());
        let n = nonempty(ss);
        assert forall|i: int| 0 <= i < n.len() implies #[trigger] n[i].len() > 0 && p(n[i]) by {
            if i < r.len() {
                assert(n[i] == r[i]);
            } else {
                assert(n[i] == ss.last());
            }
        }
    }
}

/// The whitespace-separated words of `s` (`str::split_whitespace`).
pub open spec fn tokens(s: Seq<char>) -> Seq<Seq<char>> {
    nonempty(split_by(s, sep_pred(Sep::Whitespace)))
}

/// The non-empty members of `v`.
pub fn keep_nonempty(v: Vec<Vec<char>>) -> (res: Vec<Vec<char>>)
    ensures
        views(res@) == nonempty(views(v@)),
{
    let mut res: Vec<Vec<char>> = Vec::new();
    let mut i: usize = 0;
    assert(views(v@).take(0) == Seq::<Seq<char>>::empty());
    while i < v.len()
        invariant
            i <= v@.len(),
            views(res@) == nonempty(views(v@).take(i as int)),
        decreases v@.len() - i,
    {
        assert(views(v@).take(i + 1).drop_last() == views(v@).take(i as int));
        assert(views(v@).take(i + 1).last() == v@[i as int]@);
        if v[i].len() > 0 {
            let piece = v[i].clone();
            res.push(piece);
            assert(views(res@) == nonempty(views(v@).take(i as int)).push(v@[i as int]@));
        }
        i += 1;
    }
    assert(views(v@).take(v@.len() as int) == views(v@));
    res
}

/// The whitespace-separated words of `s`.
pub fn tokens_exec(s: &[char]) -> (res: Vec<Vec<char>>)
    ensures
        views(res@) == tokens(s@),
{
    let pieces = split_exec(s, Sep::Whitespace);
    keep_nonempty(pieces)
}

// ---------------------------------------------------------------------------
// Decimal numbers
// ---------------------------------------------------------------------------

/// The character of a decimal digit.
pub open spec fn digit_char(d: nat) -> char {
    ((48 + d) as u8) as char
}

/// The decimal notation of `n`, without sign or leading zeros.
pub open spec fn decimal(n: nat) -> Seq<char>
    decreases n,
{
    if n < 10 {
        seq![digit_char(n)]
    } else {
        decimal(n / 10).push(digit_char(n % 10))
    }
}

/// The decimal notation of `n`.
pub fn decimal_exec(n: u64) -> (res: Vec<char>)
    ensures
        res@ == decimal(n as nat),
    decreases n,
{
    let d: u8 = (n % 10) as u8;
    let c = (48u8 + d) as char;
    if n < 10 {
        let mut v: Vec<char> = Vec::new();
        v.push(c);
        v
    } else {
        let mut v = decimal_exec(n / 10);
        v.push(c);
        v
    }
}

/// Every character of a decimal notation is a digit, never `c` when `c`
/// is not one.
pub proof fn lemma_decimal_digits(n: nat, c: char)
    requires
        (c as int) < 48 || (c as int) > 57,
    ensures
        forall|k: int| 0 <= k < decimal(n).len() ==> decimal(n)[k] != c,
    decreases n,
{
    let d = (n % 10) as nat;
    assert(d < 10);
    assert(((48 + d) as u8) as int == 48 + d);
    assert(digit_char(d) as int == 48 + d);
    assert(digit_char(d) != c);
    if n >= 10 {
        lemma_decimal_digits(n / 10, c);
        let p = decimal(n / 10);
        assert(decimal(n) == p.push(digit_char(d)));
        assert forall|k: int| 0 <= k < decimal(n).len() implies decimal(n)[k] != c by {
            if k < p.len() {
                assert(decimal(n)[k] == p[k]);
            }
        }
    } else {
        assert(d == n);
        assert(decimal(n) == seq![digit_char(d)]);
    }
}

/// The position of the last `c` in `s`, if any.
pub open spec fn last_index_of(s: Seq<char>, c: char) -> Option<int>
    decreases s.len(),
{
    if s.len() == 0 {
        None
    } else if s.last() == c {
        Some(s.len() - 1)
    } else {
        last_index_of(s.drop_last(), c)
    }
}

/// Text without `c` after `x` leaves the last `c` of `x` where it was.
pub proof fn lemma_last_index_of_concat(x: Seq<char>, y: Seq<char>, c: char)
    requires
        forall|k: int| 0 <= k < y.len() ==> y[k] != c,
    ensures
        last_index_of(x + y, c) == last_index_of(x, c),
    decreases y.len(),
{
    if y.len() > 0 {
        assert((x + y).drop_last() == x + y.drop_last());
        assert((x + y).last() == y[y.len() - 1]);
        lemma_last_index_of_concat(x, y.drop_last(), c);
    } else {
        assert(x + y == x);
    }
}

/// The position of the last `c` in `s`.
pub fn last_index_exec(s: &[char], c: char) -> (res: Option<usize>)
    ensures
        opt_int(res) == last_index_of(s@, c),
        res matches Some(k) ==> k < s@.len(),
{
    let mut m = s.len();
    assert(s@.take(m as int) == s@);
    while m > 0
        invariant
            m <= s@.len(),
            last_index_of(s@, c) == last_index_of(s@.take(m as int), c),
        decreases m,
    {
        assert(s@.take(m as int).last() == s@[m - 1]);
        if s[m - 1] == c {
            return Some(m - 1);
        }
        assert(s@.take(m as int).drop_last() == s@.take(m - 1));
        m -= 1;
    }
    None
}

} // verus!
