//! OAuth login for the public server: the authorization URL, the state
//! token, and the code in the browser's callback request.

use vstd::prelude::*;
use crate::rendezvous::result_view;
use crate::text::literal;
use crate::text::{
    chars_of, push_str, sep_pred, split_by, split_exec, starts_with, starts_with_exec,
    string_from, views, Sep,
};

verus! {

/// A random `usize` (`rand::random::<usize>()`); any value may come back.
#[verifier::external_body]
fn random_usize() -> usize {
    rand::random::<usize>()
}

/// The characters a state token is made of.
pub open spec fn state_alphabet() -> Seq<char> {
    "abcdefghijklmnopqrstuvwxyz0123456789"@
}

/// The state character that a random number picks: the number modulo 36
/// indexes the alphabet.
pub fn state_char(idx: usize) -> (c: char)
    ensures
        state_alphabet().len() == 36,
        c == state_alphabet()[(idx % 36) as int],
{
    proof {
        reveal_strlit("abcdefghijklmnopqrstuvwxyz0123456789");
    }
    let a = chars_of("abcdefghijklmnopqrstuvwxyz0123456789");
    a[idx % 36]
}

/// The state token that random draws give: one alphabet character per
/// draw, the draw modulo 36 indexing the alphabet.
pub open spec fn state_spec(draws: Seq<usize>) -> Seq<char> {
    draws.map_values(|d: usize| state_alphabet()[(d % 36) as int])
}

/// The state token that random draws give.
pub fn state_from_draws(draws: &Vec<usize>) -> (s: String)
    ensures
        s@ == state_spec(draws@),
{
    let mut v: Vec<char> = Vec::new();
    let mut i: usize = 0;
    while i < draws.len()
        invariant
            i <= draws@.len(),
            v@ == state_spec(draws@.take(i as int)),
        decreases draws@.len() - i,
    {
        let c = state_char(draws[i]);
        v.push(c);
        assert(state_spec(draws@.take(i + 1)) == state_spec(draws@.take(i as int)).push(c));
        i += 1;
    }
    assert(draws@.take(draws@.len() as int) == draws@);
    string_from(v.as_slice())
}

/// A fresh state token for the OAuth request: the token of 16 random
/// draws, so 16 characters of the alphabet.
pub fn generate_state() -> (s: String)
    ensures
        exists|draws: Seq<usize>| draws.len() == 16 && s@ == state_spec(draws),
        s@.len() == 16,
        forall|i: int| 0 <= i < 16 ==> state_alphabet().contains(#[trigger] s@[i]),
{
    let mut draws: Vec<usize> = Vec::new();
    let mut i: usize = 0;
    while i < 16
        invariant
            i <= 16,
            draws@.len() == i,
        decreases 16 - i,
    {
        draws.push(random_usize());
        i += 1;
    }
    let s = state_from_draws(&draws);
    proof {
        reveal_strlit("abcdefghijklmnopqrstuvwxyz0123456789");
        assert forall|i: int| 0 <= i < 16 implies state_alphabet().contains(#[trigger] s@[i]) by {
            let k = (draws@[i] % 36) as int;
            assert(s@[i] == state_alphabet()[k]);
        }
    }
    s
}

/// The authorization URL for a state token.
pub open spec fn authorize_url_spec(state: Seq<char>) -> Seq<char> {
    "https://api.rustdesk.com/oauth/authorize"@ + "?response_type=code&state="@ + state
}

/// The URL that the browser is sent to.
pub fn authorize_url(state: &str) -> (res: String)
    ensures
        res@ == authorize_url_spec(state@),
{
    let mut s = literal("https://api.rustdesk.com/oauth/authorize");
    push_str(&mut s, "?response_type=code&state=");
    push_str(&mut s, state);
    s
}

/// A stored token is used when it is not empty.
pub fn usable_token(stored: String) -> (res: Option<String>)
    ensures
        match res {
            Some(t) => t@ == stored@ && stored@.len() != 0,
            None => stored@.len() == 0,
        },
{
    if stored.as_str().is_empty() {
        None
    } else {
        Some(stored)
    }
}

/// The code that a query parameter carries: what follows `/?code=` or
/// `?code=` at its start.
pub open spec fn param_code(p: Seq<char>) -> Option<Seq<char>> {
    if starts_with(p, "/?code="@) {
        Some(p.skip("/?code="@.len() as int))
    } else if starts_with(p, "?code="@) {
        Some(p.skip("?code="@.len() as int))
    } else {
        None
    }
}

/// The code of the first parameter that carries one.
pub open spec fn first_code(params: Seq<Seq<char>>) -> Option<Seq<char>>
    decreases params.len(),
{
    if params.len() == 0 {
        None
    } else {
        match param_code(params[0]) {
            Some(c) => Some(c),
            None => first_code(params.drop_first()),
        }
    }
}

/// The error when the callback carries no code.
pub open spec fn no_code_error() -> Seq<char> {
    "No authorization code in callback URL"@
}

/// The authorization code of a callback request: in the request's second
/// space-separated piece (its target), the first `&`-separated parameter
/// that starts with `/?code=` or `?code=` gives what follows; an error
/// when there is none.
pub open spec fn callback_code_spec(request: Seq<char>) -> Result<Seq<char>, Seq<char>> {
    let pieces = split_by(request, sep_pred(Sep::Char(' ')));
    if pieces.len() >= 2 {
        match first_code(split_by(pieces[1], sep_pred(Sep::Char('&')))) {
            Some(c) => Ok(c),
            None => Err(no_code_error()),
        }
    } else {
        Err(no_code_error())
    }
}

/// The code a parameter carries, if any.
fn param_code_exec(p: &[char]) -> (res: Option<Vec<char>>)
    ensures
        match res {
            Some(c) => param_code(p@) == Some(c@),
            None => param_code(p@) is None,
        },
{
    let long = chars_of("/?code=");
    let short = chars_of("?code=");
    if starts_with_exec(p, long.as_slice()) {
        Some(crate::text::slice_to_vec(p, long.len(), p.len()))
    } else if starts_with_exec(p, short.as_slice()) {
        Some(crate::text::slice_to_vec(p, short.len(), p.len()))
    } else {
        None
    }
}

/// The authorization code that the browser's callback request carries.
pub fn parse_code_from_request(request: &str) -> (res: Result<String, String>)
    ensures
        result_view(res) == callback_code_spec(request@),
{
    let r = chars_of(request);
    let pieces = split_exec(r.as_slice(), Sep::Char(' '));
    if pieces.len() >= 2 {
        assert(views(pieces@)[1] == pieces@[1]@);
        let params = split_exec(pieces[1].as_slice(), Sep::Char('&'));
        let ghost ps = views(params@);
        let mut i: usize = 0;
        assert(ps.skip(0) == ps);
        while i < params.len()
            invariant
                i <= params@.len(),
                ps == views(params@),
                r@ == request@,
                views(pieces@) == split_by(request@, sep_pred(Sep::Char(' '))),
                pieces@.len() >= 2,
                ps == split_by(pieces@[1]@, sep_pred(Sep::Char('&'))),
                first_code(ps) == first_code(ps.skip(i as int)),
            decreases params@.len() - i,
        {
            assert(ps.skip(i as int)[0] == params@[i as int]@);
            match param_code_exec(params[i].as_slice()) {
                Some(c) => {
                    return Ok(string_from(c.as_slice()));
                },
                None => {},
            }
            assert(ps.skip(i as int).drop_first() == ps.skip(i + 1));
            i += 1;
        }
        assert(ps.skip(i as int).len() == 0);
    }
    Err(literal("No authorization code in callback URL"))
}

} // verus!
