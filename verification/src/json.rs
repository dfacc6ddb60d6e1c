//! Field extraction from flat JSON text, without a JSON parser.
//!
//! The request bodies and batch manifests are read by searching for the
//! text `"key":` and taking what follows it; these are the exact rules.

use vstd::prelude::*;
use crate::text::{
    chars_of, find, push_str, string_push, find_at, find_from, first_index, lemma_find_from_found, matches_at,
    slice_to_vec, string_from, views,
};

verus! {

/// The text `"key":` that introduces a field.
pub open spec fn key_pattern(key: Seq<char>) -> Seq<char> {
    seq!['"'] + key + seq!['"', ':']
}

/// A double quote ends a string value.
pub open spec fn is_quote(c: char) -> bool {
    c == '"'
}

/// A comma, a closing brace or a space ends a bare value.
pub open spec fn ends_bare_value(c: char) -> bool {
    c == ',' || c == '}' || c == ' '
}

/// The value that starts at the beginning of `rest`: nothing when `rest` is
/// empty; the text up to the next double quote (or the end) when it starts
/// with one; else the text up to the first comma, closing brace or space.
pub open spec fn value_at(rest: Seq<char>) -> Option<Seq<char>> {
    if rest.len() == 0 {
        None
    } else if rest[0] == '"' {
        let r = rest.drop_first();
        Some(r.take(first_index(r, |c: char| is_quote(c)) as int))
    } else {
        Some(rest.take(first_index(rest, |c: char| ends_bare_value(c)) as int))
    }
}

/// JSON whitespace: space, tab, line feed, carriage return.
pub open spec fn is_json_ws(c: char) -> bool {
    c == ' ' || c == '\t' || c == '\n' || c == '\r'
}

/// `s` without its leading JSON whitespace.
pub open spec fn skip_json_ws(s: Seq<char>) -> Seq<char> {
    s.skip(first_index(s, |c: char| !is_json_ws(c)) as int)
}

/// The value of field `key` in `body`: the value after the first `"key":`
/// and the whitespace that follows it.
pub open spec fn json_field(body: Seq<char>, key: Seq<char>) -> Option<Seq<char>> {
    match find(body, key_pattern(key)) {
        None => None,
        Some(i) => value_at(skip_json_ws(body.skip(i + key_pattern(key).len()))),
    }
}

/// The position of the first character at or after `from` that is not
/// JSON whitespace, or the end.
fn skip_ws_from(s: &[char], from: usize) -> (k: usize)
    requires
        from <= s@.len(),
    ensures
        from <= k <= s@.len(),
        s@.skip(k as int) == skip_json_ws(s@.skip(from as int)),
{
    let ghost stop = |c: char| !is_json_ws(c);
    let mut i = from;
    while i < s.len() && (s[i] == ' ' || s[i] == '\t' || s[i] == '\n' || s[i] == '\r')
        invariant
            from <= i <= s@.len(),
            stop == (|c: char| !is_json_ws(c)),
            first_index(s@.skip(from as int), stop) == (i - from) + first_index(
                s@.skip(i as int),
                stop,
            ),
        decreases s@.len() - i,
    {
        assert(s@.skip(i as int).drop_first() == s@.skip(i + 1));
        assert(s@.skip(i as int)[0] == s@[i as int]);
        i += 1;
    }
    if i < s.len() {
        assert(s@.skip(i as int)[0] == s@[i as int]);
    }
    assert(s@.skip(from as int).skip((i - from) as int) == s@.skip(i as int));
    i
}

/// `o`, or empty text when there is none (`unwrap_or_default`).
pub open spec fn or_empty(o: Option<Seq<char>>) -> Seq<char> {
    match o {
        Some(v) => v,
        None => Seq::empty(),
    }
}

/// An optional `String` read as optional text.
pub open spec fn opt_view(o: Option<String>) -> Option<Seq<char>> {
    match o {
        Some(s) => Some(s@),
        None => None,
    }
}

/// An optional character vector read as optional text.
pub open spec fn opt_vview(o: Option<Vec<char>>) -> Option<Seq<char>> {
    match o {
        Some(s) => Some(s@),
        None => None,
    }
}

/// Whether `c` ends a quoted (`quote`) or a bare value.
fn stops(quote: bool, c: char) -> (b: bool)
    ensures
        b == (if quote { is_quote(c) } else { ends_bare_value(c) }),
{
    if quote {
        c == '"'
    } else {
        c == ',' || c == '}' || c == ' '
    }
}

/// The position of the first character at or after `from` that ends a
/// quoted (`quote`) or a bare value, or the end of `s`.
fn scan_until(s: &[char], from: usize, quote: bool) -> (end: usize)
    requires
        from <= s@.len(),
    ensures
        from <= end <= s@.len(),
        end - from == first_index(
            s@.skip(from as int),
            if quote { |c: char| is_quote(c) } else { |c: char| ends_bare_value(c) },
        ),
{
    let ghost stop = if quote { |c: char| is_quote(c) } else { |c: char| ends_bare_value(c) };
    let mut i = from;
    while i < s.len() && !stops(quote, s[i])
        invariant
            from <= i <= s@.len(),
            stop == (if quote { |c: char| is_quote(c) } else { |c: char| ends_bare_value(c) }),
            first_index(s@.skip(from as int), stop) == (i - from) + first_index(s@.skip(i as int), stop),
        decreases s@.len() - i,
    {
        assert(s@.skip(i as int).drop_first() == s@.skip(i + 1));
        assert(s@.skip(i as int)[0] == s@[i as int]);
        i += 1;
    }
    if i < s.len() {
        assert(s@.skip(i as int)[0] == s@[i as int]);
    }
    i
}

/// The value of field `key` in `body`, as characters.
pub fn json_field_chars(body: &[char], key: &str) -> (res: Option<Vec<char>>)
    ensures
        opt_vview(res) == json_field(body@, key@),
{
    let pat = key_pattern_exec(key);
    let found = find_at(body, pat.as_slice(), 0);
    match found {
        None => None,
        Some(i) => {
            proof {
                lemma_find_from_found(body@, pat@, 0);
                assert(find_from(body@, pat@, 0) == Some(i as int));
                assert(matches_at(body@, pat@, i as int));
            }
            let blen = body.len();
            assert(i + pat@.len() <= blen);
            let after = i + pat.len();
            let start = skip_ws_from(body, after);
            let ghost rest = body@.skip(start as int);
            assert(rest == skip_json_ws(body@.skip(after as int)));
            if start >= body.len() {
                assert(rest.len() == 0);
                None
            } else if body[start] == '"' {
                assert(rest[0] == '"');
                let end = scan_until(body, start + 1, true);
                assert(rest.drop_first() == body@.skip(start + 1));
                let v = slice_to_vec(body, start + 1, end);
                assert(v@ == rest.drop_first().take((end - (start + 1)) as int));
                Some(v)
            } else {
                assert(rest[0] != '"');
                let end = scan_until(body, start, false);
                let v = slice_to_vec(body, start, end);
                assert(v@ == rest.take((end - start) as int));
                Some(v)
            }
        },
    }
}

/// The value of field `key`, or empty text.
pub fn field_or_empty(body: &[char], key: &str) -> (res: String)
    ensures
        res@ == or_empty(json_field(body@, key@)),
{
    match json_field_chars(body, key) {
        Some(v) => string_from(v.as_slice()),
        None => String::new(),
    }
}

/// The value of field `key` in `body`: the text after the first `"key":`
/// and the whitespace after it, up to the closing quote when it is quoted,
/// else up to the first comma, closing brace or space; nothing when
/// `"key":` does not occur or nothing follows it.
pub fn extract_json_str(body: &str, key: &str) -> (res: Option<String>)
    ensures
        opt_view(res) == json_field(body@, key@),
{
    let b = chars_of(body);
    match json_field_chars(b.as_slice(), key) {
        None => None,
        Some(v) => Some(string_from(v.as_slice())),
    }
}


/// Scanning `s` from position `i` with `depth` open brackets: the position
/// of the `]` that brings the depth back to zero, if there is one.
pub open spec fn bracket_close(s: Seq<char>, i: int, depth: int) -> Option<int>
    decreases s.len() - i,
{
    if i < 0 || i >= s.len() {
        None
    } else if s[i] == '[' {
        bracket_close(s, i + 1, depth + 1)
    } else if s[i] == ']' {
        if depth - 1 == 0 {
            Some(i)
        } else {
            bracket_close(s, i + 1, depth - 1)
        }
    } else {
        bracket_close(s, i + 1, depth)
    }
}

/// Where the array of field `key` stands in `body`: from the first `[`
/// after the first `"key":` up to just past the `]` that closes it,
/// brackets nested; nothing when the key, the `[` or the closing `]` is
/// missing.
pub open spec fn json_array_span(body: Seq<char>, key: Seq<char>) -> Option<(int, int)> {
    match find(body, key_pattern(key)) {
        None => None,
        Some(i) => match find_from(body, seq!['['], i + key_pattern(key).len()) {
            None => None,
            Some(a) => match bracket_close(body, a, 0) {
                None => None,
                Some(e) => Some((a, e + 1)),
            },
        },
    }
}

/// The array text of field `key` in `body`: the text at
/// [`json_array_span`].
pub open spec fn json_array(body: Seq<char>, key: Seq<char>) -> Option<Seq<char>> {
    match json_array_span(body, key) {
        None => None,
        Some((a, b)) => Some(body.subrange(a, b)),
    }
}

/// Where the array of field `key` stands in `body`.
pub fn json_array_range(body: &[char], key: &str) -> (res: Option<(usize, usize)>)
    ensures
        match res {
            None => json_array_span(body@, key@) is None,
            Some((a, b)) => json_array_span(body@, key@) == Some((a as int, b as int)) && a < b
                <= body@.len(),
        },
{
    let pat = key_pattern_exec(key);
    let n = body.len();
    match find_at(body, pat.as_slice(), 0) {
        None => None,
        Some(i) => {
            proof {
                lemma_find_from_found(body@, pat@, 0);
                assert(find_from(body@, pat@, 0) == Some(i as int));
            }
            assert(i + pat@.len() <= n);
            let start = i + pat.len();
            let mut open: Vec<char> = Vec::new();
            open.push('[');
            assert(open@ == seq!['[']);
            match find_at(body, open.as_slice(), start) {
                None => None,
                Some(a) => {
                    proof {
                        lemma_find_from_found(body@, open@, start as int);
                        assert(find_from(body@, open@, start as int) == Some(a as int));
                        assert(body@.subrange(a as int, a + 1)[0] == body@[a as int]);
                    }
                    let mut depth: usize = 0;
                    let mut k = a;
                    while k < n
                        invariant
                            find(body@, key_pattern(key@)) == Some(i as int),
                            find_from(body@, seq!['['], i + key_pattern(key@).len()) == Some(a as int),
                            n == body@.len(),
                            a <= k <= n,
                            a < n,
                            body@[a as int] == '[',
                            depth <= k - a,
                            k > a ==> depth >= 1,
                            bracket_close(body@, a as int, 0) == bracket_close(
                                body@,
                                k as int,
                                depth as int,
                            ),
                        decreases n - k,
                    {
                        let c = body[k];
                        let ghost d0 = depth as int;
                        if c == '[' {
                            depth += 1;
                        } else if c == ']' {
                            depth -= 1;
                            if depth == 0 {
                                assert(bracket_close(body@, k as int, d0) == Some(k as int));
                                assert(bracket_close(body@, a as int, 0) == Some(k as int));
                                return Some((a, k + 1));
                            }
                        }
                        k += 1;
                    }
                    None
                },
            }
        },
    }
}

/// The array text of field `key` in `body`, as characters.
pub fn json_array_chars(body: &[char], key: &str) -> (res: Option<Vec<char>>)
    ensures
        opt_vview(res) == json_array(body@, key@),
{
    match json_array_range(body, key) {
        None => None,
        Some((a, b)) => Some(slice_to_vec(body, a, b)),
    }
}

/// The characters of `"key":`.
fn key_pattern_exec(key: &str) -> (pat: Vec<char>)
    ensures
        pat@ == key_pattern(key@),
{
    let mut pat: Vec<char> = Vec::new();
    pat.push('"');
    let k = chars_of(key);
    let mut j: usize = 0;
    while j < k.len()
        invariant
            j <= k@.len(),
            pat@ == seq!['"'] + k@.take(j as int),
        decreases k@.len() - j,
    {
        pat.push(k[j]);
        assert(k@.take(j + 1) == k@.take(j as int).push(k@[j as int]));
        j += 1;
    }
    pat.push('"');
    pat.push(':');
    assert(k@.take(k@.len() as int) == k@);
    pat
}

/// The array text of field `key` in `body`: from the first `[` after the
/// first `"key":` through its matching `]`.
pub fn extract_json_array(body: &str, key: &str) -> (res: Option<String>)
    ensures
        opt_view(res) == json_array(body@, key@),
{
    let b = chars_of(body);
    match json_array_chars(b.as_slice(), key) {
        None => None,
        Some(v) => Some(string_from(v.as_slice())),
    }
}

/// The position of the last `{` in `s`, or 0 when there is none.
pub open spec fn last_open(s: Seq<char>) -> int
    decreases s.len(),
{
    if s.len() == 0 {
        0
    } else if s.last() == '{' {
        s.len() - 1
    } else {
        last_open(s.drop_last())
    }
}

/// The objects of an array's text as the batch reader cuts them: at every
/// `}`, the text from the last `{` before it (or from the start, when there
/// is none) through that `}`.
pub open spec fn object_pieces(s: Seq<char>) -> Seq<Seq<char>>
    decreases s.len(),
{
    if s.len() == 0 {
        seq![]
    } else {
        let prev = object_pieces(s.drop_last());
        if s.last() == '}' {
            prev.push(s.subrange(last_open(s.drop_last()), s.len() as int))
        } else {
            prev
        }
    }
}

/// Cuts the text of an operations array into object texts.
///
/// The depth counter only rises at a `{` met inside an object, and a `{`
/// at depth zero resets the start instead, so it stays zero: every `}`
/// closes the text that began at the latest `{`.
pub fn split_objects(block: &[char]) -> (res: Vec<Vec<char>>)
    ensures
        views(res@) == object_pieces(block@),
{
    let mut res: Vec<Vec<char>> = Vec::new();
    let mut depth: usize = 0;
    let mut start: usize = 0;
    let mut i: usize = 0;
    assert(block@.take(0) == Seq::<char>::empty());
    while i < block.len()
        invariant
            i <= block@.len(),
            depth == 0,
            start as int == last_open(block@.take(i as int)),
            start <= i,
            (start < i || i == 0) || start == 0,
            views(res@) == object_pieces(block@.take(i as int)),
        decreases block@.len() - i,
    {
        let c = block[i];
        let ghost pre = block@.take(i as int);
        assert(block@.take(i + 1).drop_last() == pre);
        assert(block@.take(i + 1).last() == c);
        if c == '{' && depth == 0 {
            start = i;
        } else if c == '{' {
            depth += 1;
        } else if c == '}' && depth > 0 {
            depth -= 1;
        } else if c == '}' {
            let piece = slice_to_vec(block, start, i + 1);
            assert(piece@ == block@.take(i + 1).subrange(start as int, i + 1));
            res.push(piece);
        }
        i += 1;
    }
    assert(block@.take(block@.len() as int) == block@);
    res
}

/// The hexadecimal digit of `d` (below 16), in lower case.
pub open spec fn hex_char(d: nat) -> char {
    if d < 10 {
        ((48 + d) as u8) as char
    } else {
        ((87 + d) as u8) as char
    }
}

/// How `c` is written inside a JSON string: a quote and a backslash after
/// a backslash, a control character as `\u00XX`, any other character as
/// itself.
pub open spec fn escape_char(c: char) -> Seq<char> {
    if c == '"' {
        seq!['\\', '"']
    } else if c == '\\' {
        seq!['\\', '\\']
    } else if (c as u32) < 32 {
        seq!['\\', 'u', '0', '0', hex_char(((c as u32) / 16) as nat), hex_char(((c as u32) % 16) as nat)]
    } else {
        seq![c]
    }
}

/// `s` written inside a JSON string.
pub open spec fn json_escape(s: Seq<char>) -> Seq<char>
    decreases s.len(),
{
    if s.len() == 0 {
        Seq::empty()
    } else {
        json_escape(s.drop_last()) + escape_char(s.last())
    }
}

/// The hexadecimal digit of `d`.
fn hex_char_exec(d: u32) -> (c: char)
    requires
        d < 16,
    ensures
        c == hex_char(d as nat),
{
    if d < 10 {
        let b: u8 = 48u8 + (d as u8);
        b as char
    } else {
        let b: u8 = 87u8 + (d as u8);
        b as char
    }
}

/// Appends `t` written inside a JSON string.
pub fn push_json_escaped(s: &mut String, t: &str)
    ensures
        final(s)@ == old(s)@ + json_escape(t@),
{
    let v = chars_of(t);
    let mut i: usize = 0;
    assert(v@.take(0) == Seq::<char>::empty());
    while i < v.len()
        invariant
            i <= v@.len(),
            v@ == t@,
            s@ == old(s)@ + json_escape(v@.take(i as int)),
        decreases v@.len() - i,
    {
        let c = v[i];
        assert(v@.take(i + 1).drop_last() == v@.take(i as int));
        assert(v@.take(i + 1).last() == c);
        let ghost before = s@;
        let n = c as u32;
        if c == '"' {
            push_str(s, "\\\"");
            proof { reveal_strlit("\\\""); }
            assert(s@ == before + escape_char(c));
        } else if c == '\\' {
            push_str(s, "\\\\");
            proof { reveal_strlit("\\\\"); }
            assert(s@ == before + escape_char(c));
        } else if n < 32 {
            push_str(s, "\\u00");
            proof { reveal_strlit("\\u00"); }
            let h = hex_char_exec(n / 16);
            string_push(s, h);
            let l = hex_char_exec(n % 16);
            string_push(s, l);
            assert(s@ == before + escape_char(c));
        } else {
            string_push(s, c);
            assert(s@ == before + escape_char(c));
        }
        assert(s@ == before + escape_char(c));
        i += 1;
    }
    assert(v@.take(v@.len() as int) == v@);
}

} // verus!
