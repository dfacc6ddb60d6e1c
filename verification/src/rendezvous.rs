//! Decisions taken on the answers of the rendezvous server.
//!
//! The server's protobuf messages are read by the caller into the plain
//! types below; every decision about them is made here.

use vstd::prelude::*;
use crate::text::{chars_of, contains, contains_char, eq_str, literal, push_str, string_from};

verus! {

/// Why the rendezvous server could not pair us with a peer.
pub enum PunchFailure {
    /// The peer ID is not registered.
    IdNotExist,
    /// The peer is registered but not connected.
    Offline,
    /// The licence key does not match the server's.
    LicenseMismatch,
    /// The licence key is used by too many clients.
    LicenseOveruse,
    /// A failure code that the protocol version we speak does not name.
    Unrecognized(i32),
}

/// The fields of a punch-hole response that the client reads.
pub struct PunchReply {
    /// Why pairing failed, when neither address is set.
    pub failure: PunchFailure,
    /// The relay server to use, empty when none was assigned.
    pub relay_server: String,
    /// The peer's mangled socket address, empty when no direct route exists.
    pub socket_addr: Vec<u8>,
    /// A free-text failure reason, empty when there is none.
    pub other_failure: String,
}

/// The fields of a relay response that the client reads.
pub struct RelayReply {
    /// The relay server that holds the session.
    pub relay_server: String,
    /// The session's identifier on the relay.
    pub uuid: String,
}

/// The first message that the rendezvous server sends back, by kind.
pub enum RendezvousReply {
    /// A punch-hole response.
    PunchHole(PunchReply),
    /// A relay response.
    Relay(RelayReply),
    /// Any other message.
    Other,
}

/// The address of a relay server: `addr` itself when it names a port,
/// else `addr` with port 21117.
pub open spec fn relay_target_spec(addr: Seq<char>) -> Seq<char> {
    if contains(addr, seq![':']) {
        addr
    } else {
        addr + ":21117"@
    }
}

/// The address to dial for a relay server name.
pub fn relay_target(addr: &str) -> (res: String)
    ensures
        res@ == relay_target_spec(addr@),
{
    let a = chars_of(addr);
    if contains_char(a.as_slice(), ':') {
        string_from(a.as_slice())
    } else {
        let mut s = string_from(a.as_slice());
        push_str(&mut s, ":21117");
        s
    }
}

/// The rendezvous address dialled by default.
pub open spec fn default_rendezvous() -> Seq<char> {
    "209.250.254.15:21116"@
}

/// The rendezvous address: the custom server when one is set, else the
/// configured one; the public server (or none) is replaced by its fixed
/// address, a name without a port gets port 21116.
pub open spec fn rendezvous_addr_spec(server: Seq<char>, custom: Seq<char>) -> Seq<char> {
    let target = if custom.len() != 0 {
        custom
    } else {
        server
    };
    if target == "rs-ny.rustdesk.com"@ || target.len() == 0 {
        default_rendezvous()
    } else if contains(target, seq![':']) {
        target
    } else {
        target + ":21116"@
    }
}

/// The rendezvous address to dial, from the configured server and the
/// custom server option.
pub fn rendezvous_addr(server: &str, custom: &str) -> (res: String)
    ensures
        res@ == rendezvous_addr_spec(server@, custom@),
{
    let c = chars_of(custom);
    let t = if c.len() != 0 {
        c
    } else {
        chars_of(server)
    };
    if eq_str(t.as_slice(), "rs-ny.rustdesk.com") || t.len() == 0 {
        let mut s = String::new();
        push_str(&mut s, "209.250.254.15:21116");
        s
    } else if contains_char(t.as_slice(), ':') {
        string_from(t.as_slice())
    } else {
        let mut s = string_from(t.as_slice());
        push_str(&mut s, ":21116");
        s
    }
}

/// How long to wait for the answer to punch attempt `attempt` (counted
/// from 1): 30 s for the first, three seconds per attempt number after.
pub open spec fn punch_timeout_spec(attempt: u64) -> int {
    if attempt == 1 {
        30
    } else {
        attempt * 3
    }
}

/// Seconds to wait for the answer to punch attempt `attempt`.
pub fn punch_timeout_secs(attempt: u64) -> (secs: u64)
    requires
        1 <= attempt <= 3,
    ensures
        secs == punch_timeout_spec(attempt),
{
    if attempt == 1 {
        30
    } else {
        attempt * 3
    }
}


/// What to do after the answer to one punch attempt.
pub enum PunchStep {
    /// Dial the relay at `target` and ask it for a session with the peer.
    Relay { target: String },
    /// Dial the peer directly at its mangled socket address.
    Direct { socket_addr: Vec<u8> },
    /// Dial the relay at `target` and join the session `uuid`.
    JoinRelay { target: String, uuid: String },
    /// Give up with this error.
    Fail(String),
    /// Send the request again and wait `timeout_secs` for the answer.
    Retry { timeout_secs: u64 },
}

/// The error when every punch attempt went unanswered.
pub open spec fn all_attempts_failed() -> Seq<char> {
    "all punch attempts failed — peer may be behind NAT. Ensure hbbr is running on 21117."@
}

/// The error for a failure code that ends the attempts, if it does.
pub open spec fn failure_error(f: PunchFailure) -> Option<Seq<char>> {
    match f {
        PunchFailure::IdNotExist => Some("ID does not exist"@),
        PunchFailure::Offline => Some("Remote desktop is offline"@),
        PunchFailure::LicenseMismatch => Some("License key mismatch"@),
        PunchFailure::LicenseOveruse => Some("License key overuse"@),
        PunchFailure::Unrecognized(_) => None,
    }
}

/// A punch-hole answer leads to the relay when it names one, else to the
/// peer when it gives its address, else to the free-text failure, else to
/// the named failure; an unnamed failure code, another message or no
/// answer at all leads to a retry, until the third attempt, after which
/// the connection fails.
pub open spec fn punch_step_ok(attempt: u64, reply: Option<RendezvousReply>, step: PunchStep) -> bool {
    let retry = if attempt < 3 {
        step is Retry && step->timeout_secs == punch_timeout_spec((attempt + 1) as u64)
    } else {
        step is Fail && step->Fail_0@ == all_attempts_failed()
    };
    match reply {
        Some(RendezvousReply::PunchHole(p)) => if p.relay_server@.len() != 0 {
            step is Relay && step->Relay_target@ == relay_target_spec(p.relay_server@)
        } else if p.socket_addr@.len() != 0 {
            step is Direct && step->socket_addr@ == p.socket_addr@
        } else if p.other_failure@.len() != 0 {
            step is Fail && step->Fail_0@ == p.other_failure@
        } else {
            match failure_error(p.failure) {
                Some(e) => step is Fail && step->Fail_0@ == e,
                None => retry,
            }
        },
        Some(RendezvousReply::Relay(r)) => {
            &&& step is JoinRelay
            &&& step->JoinRelay_target@ == relay_target_spec(r.relay_server@)
            &&& step->uuid@ == r.uuid@
        },
        _ => retry,
    }
}

/// The attempts at getting a route to a peer from the rendezvous server:
/// at most three, the first waited on for 30 s, the others for three
/// seconds per attempt number.
pub struct PunchSession {
    attempt: u64,
}

impl PunchSession {
    /// The number of the current attempt, from 1.
    pub closed spec fn attempt_spec(&self) -> u64 {
        self.attempt
    }

    /// The session is between its first and its third attempt.
    pub closed spec fn wf(&self) -> bool {
        1 <= self.attempt <= 3
    }

    /// The client makes at most three punch attempts: a session in use is
    /// always at its first, second or third.
    pub proof fn law_punch_attempts_bounded(&self)
        requires
            self.wf(),
        ensures
            1 <= self.attempt_spec() <= 3,
    {
    }

    /// A session at its first attempt.
    pub fn new() -> (s: PunchSession)
        ensures
            s.wf(),
            s.attempt_spec() == 1,
    {
        PunchSession { attempt: 1 }
    }

    /// The number of the current attempt.
    pub fn attempt(&self) -> (a: u64)
        ensures
            a == self.attempt_spec(),
    {
        self.attempt
    }

    /// Seconds to wait for the answer to the current attempt.
    pub fn timeout_secs(&self) -> (secs: u64)
        requires
            self.wf(),
        ensures
            secs == punch_timeout_spec(self.attempt_spec()),
    {
        punch_timeout_secs(self.attempt)
    }

    /// Takes the answer to the current attempt (`None`: no answer in time)
    /// and says what to do; a retry moves to the next attempt.
    pub fn on_reply(&mut self, reply: Option<RendezvousReply>) -> (step: PunchStep)
        requires
            old(self).wf(),
        ensures
            final(self).wf(),
            punch_step_ok(old(self).attempt_spec(), reply, step),
            step is Retry ==> final(self).attempt_spec() == old(self).attempt_spec() + 1,
            !(step is Retry) ==> final(self).attempt_spec() == old(self).attempt_spec(),
    {
        match reply {
            Some(RendezvousReply::PunchHole(p)) => {
                if p.relay_server.as_str().is_empty() == false {
                    return PunchStep::Relay { target: relay_target(p.relay_server.as_str()) };
                }
                if p.socket_addr.len() != 0 {
                    return PunchStep::Direct { socket_addr: p.socket_addr };
                }
                if p.other_failure.as_str().is_empty() == false {
                    return PunchStep::Fail(p.other_failure);
                }
                match p.failure {
                    PunchFailure::IdNotExist => {
                        return PunchStep::Fail(literal("ID does not exist"));
                    },
                    PunchFailure::Offline => {
                        return PunchStep::Fail(literal("Remote desktop is offline"));
                    },
                    PunchFailure::LicenseMismatch => {
                        return PunchStep::Fail(literal("License key mismatch"));
                    },
                    PunchFailure::LicenseOveruse => {
                        return PunchStep::Fail(literal("License key overuse"));
                    },
                    PunchFailure::Unrecognized(_) => {},
                }
            },
            Some(RendezvousReply::Relay(r)) => {
                return PunchStep::JoinRelay {
                    target: relay_target(r.relay_server.as_str()),
                    uuid: r.uuid,
                };
            },
            _ => {},
        }
        if self.attempt < 3 {
            self.attempt = self.attempt + 1;
            PunchStep::Retry { timeout_secs: punch_timeout_secs(self.attempt) }
        } else {
            PunchStep::Fail(
                literal(
                    "all punch attempts failed — peer may be behind NAT. Ensure hbbr is running on 21117.",
                ),
            )
        }
    }
}



/// A result of two texts read as a result of two character sequences.
pub open spec fn result_view(r: Result<String, String>) -> Result<Seq<char>, Seq<char>> {
    match r {
        Ok(s) => Ok(s@),
        Err(e) => Err(e@),
    }
}

/// The status line for a named failure code; unnamed codes read as an
/// unknown ID.
pub open spec fn failure_status(f: PunchFailure) -> Seq<char> {
    match f {
        PunchFailure::Offline => ": offline"@,
        PunchFailure::LicenseMismatch => ": key mismatch"@,
        PunchFailure::LicenseOveruse => ": key overuse"@,
        _ => ": not found"@,
    }
}

/// What the peer probe reports for the rendezvous server's first answer.
pub open spec fn peer_info_spec(id: Seq<char>, reply: Option<RendezvousReply>) -> Result<
    Seq<char>,
    Seq<char>,
> {
    match reply {
        Some(RendezvousReply::PunchHole(p)) => if p.relay_server@.len() != 0 {
            Ok(id + ": online via relay"@)
        } else if p.socket_addr@.len() != 0 {
            Ok(id + ": online via direct"@)
        } else if p.other_failure@.len() != 0 {
            Ok(id + ": "@ + p.other_failure@)
        } else {
            Ok(id + failure_status(p.failure))
        },
        Some(RendezvousReply::Relay(_)) => Ok(id + ": online (relay ready)"@),
        _ => Err("peer_info: no response from server"@),
    }
}

/// The report of the peer probe: online (by relay or directly), or why
/// not; an error when the server sent no usable answer.
pub fn peer_info_message(peer_id: &str, reply: Option<RendezvousReply>) -> (res: Result<
    String,
    String,
>)
    ensures
        result_view(res) == peer_info_spec(peer_id@, reply),
{
    let mut s = literal(peer_id);
    match reply {
        Some(RendezvousReply::PunchHole(p)) => {
            if !p.relay_server.as_str().is_empty() {
                push_str(&mut s, ": online via relay");
            } else if p.socket_addr.len() != 0 {
                push_str(&mut s, ": online via direct");
            } else if !p.other_failure.as_str().is_empty() {
                push_str(&mut s, ": ");
                push_str(&mut s, p.other_failure.as_str());
            } else {
                match p.failure {
                    PunchFailure::Offline => push_str(&mut s, ": offline"),
                    PunchFailure::LicenseMismatch => push_str(&mut s, ": key mismatch"),
                    PunchFailure::LicenseOveruse => push_str(&mut s, ": key overuse"),
                    _ => push_str(&mut s, ": not found"),
                }
            }
            Ok(s)
        },
        Some(RendezvousReply::Relay(_)) => {
            push_str(&mut s, ": online (relay ready)");
            Ok(s)
        },
        _ => Err(literal("peer_info: no response from server")),
    }
}

/// A message read from the relay right after asking it for a session.
pub enum PairingMessage {
    /// The peer's signed ID: the peer waits for our public key.
    SignedId,
    /// A hash challenge or a delay probe: the peer's session has started.
    HashOrTestDelay,
    /// A key exchange between rendezvous peers, not meant for us.
    KeyExchange,
    /// Anything else.
    Other,
}

/// What to do with a message read while pairing through the relay.
pub enum PairingAction {
    /// Answer with an empty public key (no encryption), then go on.
    SendEmptyKey,
    /// Go on to the login.
    Proceed,
    /// Read the next message.
    Skip,
}

/// A signed ID is answered with an empty public key, a key exchange is
/// skipped, and anything else ends the pairing.
pub fn pairing_action(msg: PairingMessage) -> (a: PairingAction)
    ensures
        msg is SignedId <==> a is SendEmptyKey,
        msg is KeyExchange <==> a is Skip,
        (msg is HashOrTestDelay || msg is Other) <==> a is Proceed,
{
    match msg {
        PairingMessage::SignedId => PairingAction::SendEmptyKey,
        PairingMessage::KeyExchange => PairingAction::Skip,
        _ => PairingAction::Proceed,
    }
}

} // verus!
