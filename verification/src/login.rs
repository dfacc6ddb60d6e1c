//! Logging in to a peer: the password proof and the order of attempts.

use sha2::Digest;
use vstd::prelude::*;
use vstd::utf8::encode_utf8;
use crate::text::push_str;

verus! {

/// The SHA-256 digest of `data`, as `sha2::Sha256` computes it.
pub uninterp spec fn sha256_spec(data: Seq<u8>) -> Seq<u8>;

/// `sha2::Sha256::digest`: the SHA-256 digest of `data`, 32 bytes long.
/// What the digest is, beyond its length, is left to the name
/// `sha256_spec`.
#[verifier::external_body]
fn sha256(data: &[u8]) -> (res: Vec<u8>)
    ensures
        res@ == sha256_spec(data@),
        res@.len() == 32,
{
    sha2::Sha256::digest(data).to_vec()
}

/// The password proof for a challenge: SHA256(SHA256(password + salt) +
/// challenge), all texts taken as their UTF-8 bytes.
pub open spec fn hashed_password_spec(password: Seq<char>, salt: Seq<char>, challenge: Seq<char>) -> Seq<u8> {
    sha256_spec(sha256_spec(encode_utf8(password) + encode_utf8(salt)) + encode_utf8(challenge))
}

/// The password proof that the peer checks: SHA256(SHA256(password +
/// salt) + challenge).
pub fn hashed_password(password: &str, salt: &str, challenge: &str) -> (res: Vec<u8>)
    ensures
        res@ == hashed_password_spec(password@, salt@, challenge@),
        res@.len() == 32,
{
    let mut first: Vec<u8> = Vec::new();
    first.extend_from_slice(password.as_bytes());
    first.extend_from_slice(salt.as_bytes());
    assert(first@ == encode_utf8(password@) + encode_utf8(salt@));
    let h1 = sha256(first.as_slice());
    let mut second: Vec<u8> = Vec::new();
    second.extend_from_slice(h1.as_slice());
    second.extend_from_slice(challenge.as_bytes());
    assert(second@ == h1@ + encode_utf8(challenge@));
    sha256(second.as_slice())
}

/// The views of a sequence of byte vectors.
pub open spec fn byte_views(v: Seq<Vec<u8>>) -> Seq<Seq<u8>> {
    v.map_values(|x: Vec<u8>| x@)
}

/// The passwords to try, in order: the hashed proof and then the raw
/// password when the peer sent a challenge, else the raw password alone.
pub open spec fn login_attempts_spec(password: Seq<char>, salt: Seq<char>, challenge: Seq<char>) -> Seq<Seq<u8>> {
    if challenge.len() != 0 {
        seq![hashed_password_spec(password, salt, challenge), encode_utf8(password)]
    } else {
        seq![encode_utf8(password)]
    }
}

/// The passwords to try, in order: hashed first, raw second.
pub fn login_attempts(password: &str, salt: &str, challenge: &str) -> (res: Vec<Vec<u8>>)
    ensures
        byte_views(res@) == login_attempts_spec(password@, salt@, challenge@),
        1 <= res@.len() <= 2,
{
    let mut raw: Vec<u8> = Vec::new();
    raw.extend_from_slice(password.as_bytes());
    assert(raw@ == encode_utf8(password@));
    let mut res: Vec<Vec<u8>> = Vec::new();
    if !challenge.is_empty() {
        res.push(hashed_password(password, salt, challenge));
    }
    res.push(raw);
    assert(byte_views(res@) == login_attempts_spec(password@, salt@, challenge@));
    res
}

/// What was read while waiting for the answer to a login attempt.
pub enum LoginEvent {
    /// A login response; its error text, empty when the login was accepted.
    Response(String),
    /// Bytes that are not a message.
    Unparsable,
    /// Another message.
    Other,
    /// Nothing within the wait.
    NoMessage,
    /// The connection failed; the error.
    RecvError(String),
}

/// What to do next in a login.
pub enum LoginAction {
    /// Send the login request with password number `n` (from 0).
    Send(usize),
    /// Read the next message.
    Await,
    /// The peer accepted the login.
    Accepted,
    /// The login failed; the error.
    Failed(String),
}

/// The state of a login, as numbers.
pub struct LoginState {
    /// The password being tried, from 0.
    pub attempt: nat,
    /// Messages read for this password so far.
    pub reads: nat,
    /// The number of passwords to try.
    pub total: nat,
    /// The login has been accepted or has failed.
    pub finished: bool,
}

/// A login in progress: each password is sent in turn, and up to three
/// messages are read for it; a login response with an empty error accepts
/// the login, one with an error rejects the last password and is counted
/// as a read before that.
pub struct LoginSession {
    attempt: usize,
    reads: usize,
    total: usize,
    finished: bool,
}

/// A message read while draining the peer's greeting before the login.
pub enum DrainMessage {
    /// A hash challenge: its salt and challenge.
    Hash { salt: String, challenge: String },
    /// Any other message, or bytes that are not one.
    Other,
}

/// The salt and challenge to log in with: those of the last hash
/// challenge among the drained messages, or empty texts when none came.
pub open spec fn drained_hash_spec(ms: Seq<DrainMessage>) -> (Seq<char>, Seq<char>)
    decreases ms.len(),
{
    if ms.len() == 0 {
        (Seq::empty(), Seq::empty())
    } else {
        match ms.last() {
            DrainMessage::Hash { salt, challenge } => (salt@, challenge@),
            DrainMessage::Other => drained_hash_spec(ms.drop_last()),
        }
    }
}

/// The salt and challenge to log in with, from the drained messages.
pub fn drained_hash(messages: &Vec<DrainMessage>) -> (res: (String, String))
    ensures
        (res.0@, res.1@) == drained_hash_spec(messages@),
{
    let mut salt = String::new();
    let mut challenge = String::new();
    let mut i: usize = 0;
    assert(messages@.take(0) == Seq::<DrainMessage>::empty());
    while i < messages.len()
        invariant
            i <= messages@.len(),
            (salt@, challenge@) == drained_hash_spec(messages@.take(i as int)),
        decreases messages@.len() - i,
    {
        assert(messages@.take(i + 1).drop_last() == messages@.take(i as int));
        assert(messages@.take(i + 1).last() == messages@[i as int]);
        match &messages[i] {
            DrainMessage::Hash { salt: s, challenge: c } => {
                salt = s.clone();
                challenge = c.clone();
            },
            DrainMessage::Other => {},
        }
        i += 1;
    }
    assert(messages@.take(messages@.len() as int) == messages@);
    (salt, challenge)
}

/// The messages read for one password at most.
pub open spec fn reads_per_attempt() -> nat {
    3
}

/// The state after giving up on the current password, and what to do.
pub open spec fn next_password(s: LoginState) -> (LoginState, Option<nat>) {
    if s.attempt + 1 < s.total {
        (LoginState { attempt: s.attempt + 1, reads: 0, ..s }, Some(s.attempt + 1))
    } else {
        (LoginState { attempt: s.attempt + 1, reads: 0, finished: true, ..s }, None)
    }
}

/// The error when no password was accepted.
pub open spec fn all_failed() -> Seq<char> {
    "login: failed after all attempts"@
}

/// A message was counted for the current password: read on, or move to
/// the next password after the third.
pub open spec fn counted_ok(s: LoginState, new: LoginState, a: LoginAction) -> bool {
    if s.reads + 1 < reads_per_attempt() {
        new == LoginState { reads: s.reads + 1, ..s } && a is Await
    } else {
        new == next_password(s).0 && match next_password(s).1 {
            Some(n) => a == LoginAction::Send(n as usize),
            None => a is Failed && a->Failed_0@ == all_failed(),
        }
    }
}

/// One step of a login from state `s` on event `ev`.
pub open spec fn login_step_ok(s: LoginState, ev: LoginEvent, new: LoginState, a: LoginAction) -> bool {
    match ev {
        LoginEvent::RecvError(e) => {
            &&& new == LoginState { finished: true, ..s }
            &&& a is Failed && a->Failed_0@ == "login recv: "@ + e@
        },
        LoginEvent::NoMessage => {
            &&& new == next_password(s).0
            &&& match next_password(s).1 {
                Some(n) => a == LoginAction::Send(n as usize),
                None => a is Failed && a->Failed_0@ == all_failed(),
            }
        },
        LoginEvent::Response(err) => if err@.len() == 0 {
            new == LoginState { finished: true, ..s } && a is Accepted
        } else if s.attempt + 1 < s.total {
            counted_ok(s, new, a)
        } else {
            &&& new == LoginState { finished: true, ..s }
            &&& a is Failed && a->Failed_0@ == "login failed: "@ + err@
        },
        _ => counted_ok(s, new, a),
    }
}

impl LoginSession {
    /// The state of the login.
    pub closed spec fn state(&self) -> LoginState {
        LoginState {
            attempt: self.attempt as nat,
            reads: self.reads as nat,
            total: self.total as nat,
            finished: self.finished,
        }
    }

    /// A login that is not over tries an existing password and has read
    /// fewer than three messages for it.
    pub open spec fn wf(&self) -> bool {
        let s = self.state();
        !s.finished ==> s.attempt < s.total && s.reads < reads_per_attempt()
    }

    /// Progress: messages read so far, counting three for each password
    /// given up; it grows on every step that does not end the login.
    pub open spec fn progress(s: LoginState) -> int {
        (s.attempt * 3 + s.reads) as int
    }

    /// A login that tries `total` passwords; the first action is
    /// `LoginAction::Send(0)`.
    pub fn new(total: usize) -> (s: LoginSession)
        requires
            total >= 1,
        ensures
            s.wf(),
            s.state() == (LoginState { attempt: 0, reads: 0, total: total as nat, finished: false }),
    {
        LoginSession { attempt: 0, reads: 0, total, finished: false }
    }

    /// Whether the login is over.
    pub fn is_finished(&self) -> (b: bool)
        ensures
            b == self.state().finished,
    {
        self.finished
    }

    /// Gives up on the current password.
    fn give_up(&mut self) -> (a: LoginAction)
        requires
            old(self).wf(),
            !old(self).state().finished,
        ensures
            final(self).state() == next_password(old(self).state()).0,
            match next_password(old(self).state()).1 {
                Some(n) => a == LoginAction::Send(n as usize),
                None => a is Failed && a->Failed_0@ == all_failed(),
            },
    {
        self.attempt = self.attempt + 1;
        self.reads = 0;
        if self.attempt < self.total {
            LoginAction::Send(self.attempt)
        } else {
            self.finished = true;
            let mut e = String::new();
            push_str(&mut e, "login: failed after all attempts");
            LoginAction::Failed(e)
        }
    }

    /// Counts a message for the current password.
    fn count_read(&mut self) -> (a: LoginAction)
        requires
            old(self).wf(),
            !old(self).state().finished,
        ensures
            counted_ok(old(self).state(), final(self).state(), a),
    {
        if self.reads + 1 < 3 {
            self.reads = self.reads + 1;
            LoginAction::Await
        } else {
            self.give_up()
        }
    }

    /// Takes what was read and says what to do next.
    pub fn step(&mut self, ev: LoginEvent) -> (a: LoginAction)
        requires
            old(self).wf(),
            !old(self).state().finished,
        ensures
            final(self).wf(),
            login_step_ok(old(self).state(), ev, final(self).state(), a),
            final(self).state().total == old(self).state().total,
            final(self).state().total <= usize::MAX,
            a matches LoginAction::Send(n) ==> n < final(self).state().total,
            final(self).state().finished || Self::progress(final(self).state()) > Self::progress(
                old(self).state(),
            ),
    {
        match ev {
            LoginEvent::RecvError(e) => {
                self.finished = true;
                let mut m = String::new();
                push_str(&mut m, "login recv: ");
                push_str(&mut m, e.as_str());
                LoginAction::Failed(m)
            },
            LoginEvent::NoMessage => self.give_up(),
            LoginEvent::Response(err) => {
                if err.as_str().is_empty() {
                    self.finished = true;
                    LoginAction::Accepted
                } else if self.attempt + 1 < self.total {
                    self.count_read()
                } else {
                    self.finished = true;
                    let mut m = String::new();
                    push_str(&mut m, "login failed: ");
                    push_str(&mut m, err.as_str());
                    LoginAction::Failed(m)
                }
            },
            _ => self.count_read(),
        }
    }
}

} // verus!
