use rustdesk_pp::http::peer_status_body;
use rustdesk_pp::http::PeerProbe;
use rustdesk_pp::login::drained_hash;
use rustdesk_pp::login::hashed_password;
use rustdesk_pp::login::DrainMessage;
use rustdesk_pp::login::login_attempts;
use rustdesk_pp::login::LoginAction;
use rustdesk_pp::login::LoginEvent;
use rustdesk_pp::login::LoginSession;
use rustdesk_pp::rendezvous::pairing_action;
use rustdesk_pp::rendezvous::peer_info_message;
use rustdesk_pp::rendezvous::punch_timeout_secs;
use rustdesk_pp::rendezvous::relay_target;
use rustdesk_pp::rendezvous::rendezvous_addr;
use rustdesk_pp::rendezvous::PairingAction;
use rustdesk_pp::rendezvous::PairingMessage;
use rustdesk_pp::rendezvous::PunchFailure;
use rustdesk_pp::rendezvous::PunchReply;
use rustdesk_pp::rendezvous::PunchSession;
use rustdesk_pp::rendezvous::PunchStep;
use rustdesk_pp::rendezvous::RelayReply;
use rustdesk_pp::rendezvous::RendezvousReply;

fn punch(failure: PunchFailure, relay: &str, addr: &[u8], other: &str) -> RendezvousReply {
    RendezvousReply::PunchHole(PunchReply {
        failure,
        relay_server: relay.to_string(),
        socket_addr: addr.to_vec(),
        other_failure: other.to_string(),
    })
}

const EXPECTED_PROOF: [u8; 32] = [
    151, 12, 11, 153, 157, 97, 123, 28, 10, 189, 51, 191, 34, 68, 189, 105, 76, 180, 239, 197, 81,
    235, 192, 17, 164, 77, 154, 217, 239, 225, 113, 207,
];

#[test]
fn password_proof_is_double_sha256() {
    assert_eq!(hashed_password("secret", "salt1", "chal"), EXPECTED_PROOF.to_vec());
}

#[test]
fn attempts_hashed_then_raw() {
    let a = login_attempts("secret", "salt1", "chal");
    assert_eq!(a.len(), 2);
    assert_eq!(a[0], EXPECTED_PROOF.to_vec());
    assert_eq!(a[1], b"secret".to_vec());
    let a = login_attempts("secret", "salt1", "");
    assert_eq!(a, vec![b"secret".to_vec()]);
}

#[test]
fn login_accepted_on_empty_error() {
    let mut s = LoginSession::new(2);
    assert!(matches!(s.step(LoginEvent::Other), LoginAction::Await));
    assert!(matches!(s.step(LoginEvent::Response(String::new())), LoginAction::Accepted));
    assert!(s.is_finished());
}

#[test]
fn login_rejected_hash_then_raw_accepted() {
    let mut s = LoginSession::new(2);
    // A rejection of the hashed proof counts as a read; two more reads move on.
    assert!(matches!(s.step(LoginEvent::Response("Wrong Password".into())), LoginAction::Await));
    assert!(matches!(s.step(LoginEvent::Unparsable), LoginAction::Await));
    assert!(matches!(s.step(LoginEvent::Other), LoginAction::Send(1)));
    assert!(matches!(s.step(LoginEvent::Response(String::new())), LoginAction::Accepted));
}

#[test]
fn login_last_rejection_fails() {
    let mut s = LoginSession::new(1);
    match s.step(LoginEvent::Response("Wrong Password".into())) {
        LoginAction::Failed(e) => assert_eq!(e, "login failed: Wrong Password"),
        _ => panic!(),
    }
}

#[test]
fn login_silence_moves_on_then_fails() {
    let mut s = LoginSession::new(2);
    assert!(matches!(s.step(LoginEvent::NoMessage), LoginAction::Send(1)));
    match s.step(LoginEvent::NoMessage) {
        LoginAction::Failed(e) => assert_eq!(e, "login: failed after all attempts"),
        _ => panic!(),
    }
    let mut s = LoginSession::new(1);
    match s.step(LoginEvent::RecvError("reset".into())) {
        LoginAction::Failed(e) => assert_eq!(e, "login recv: reset"),
        _ => panic!(),
    }
}

#[test]
fn login_three_reads_per_password() {
    let mut s = LoginSession::new(1);
    assert!(matches!(s.step(LoginEvent::Other), LoginAction::Await));
    assert!(matches!(s.step(LoginEvent::Other), LoginAction::Await));
    assert!(matches!(s.step(LoginEvent::Other), LoginAction::Failed(_)));
}

#[test]
fn relay_targets() {
    assert_eq!(relay_target("relay.example"), "relay.example:21117");
    assert_eq!(relay_target("10.0.0.1:9000"), "10.0.0.1:9000");
    assert_eq!(relay_target(&relay_target("relay.example")), "relay.example:21117");
}

#[test]
fn rendezvous_addresses() {
    assert_eq!(rendezvous_addr("rs-ny.rustdesk.com", ""), "209.250.254.15:21116");
    assert_eq!(rendezvous_addr("", ""), "209.250.254.15:21116");
    assert_eq!(rendezvous_addr("my.host", ""), "my.host:21116");
    assert_eq!(rendezvous_addr("my.host", "10.1.1.1:5000"), "10.1.1.1:5000");
    assert_eq!(rendezvous_addr("a:1", "rs-ny.rustdesk.com"), "209.250.254.15:21116");
}

#[test]
fn punch_timeouts() {
    assert_eq!(punch_timeout_secs(1), 30);
    assert_eq!(punch_timeout_secs(2), 6);
    assert_eq!(punch_timeout_secs(3), 9);
}

#[test]
fn punch_silence_retries_twice_then_fails() {
    let mut s = PunchSession::new();
    assert_eq!(s.timeout_secs(), 30);
    assert!(matches!(s.on_reply(None), PunchStep::Retry { timeout_secs: 6 }));
    assert!(matches!(s.on_reply(Some(RendezvousReply::Other)), PunchStep::Retry { timeout_secs: 9 }));
    assert_eq!(s.attempt(), 3);
    match s.on_reply(Some(punch(PunchFailure::Unrecognized(7), "", &[], ""))) {
        PunchStep::Fail(e) => assert!(e.starts_with("all punch attempts failed")),
        _ => panic!(),
    }
}

#[test]
fn punch_answers() {
    let mut s = PunchSession::new();
    assert!(matches!(s.on_reply(Some(punch(PunchFailure::Offline, "relay.x", &[1], "o"))), PunchStep::Relay { ref target } if target == "relay.x:21117"));
    let mut s = PunchSession::new();
    assert!(matches!(s.on_reply(Some(punch(PunchFailure::Offline, "", &[1, 2], "o"))), PunchStep::Direct { ref socket_addr } if socket_addr == &vec![1u8, 2]));
    let mut s = PunchSession::new();
    assert!(matches!(s.on_reply(Some(punch(PunchFailure::Offline, "", &[], "banned"))), PunchStep::Fail(ref e) if e == "banned"));
    let cases = [
        (PunchFailure::IdNotExist, "ID does not exist"),
        (PunchFailure::Offline, "Remote desktop is offline"),
        (PunchFailure::LicenseMismatch, "License key mismatch"),
        (PunchFailure::LicenseOveruse, "License key overuse"),
    ];
    for (f, msg) in cases {
        let mut s = PunchSession::new();
        match s.on_reply(Some(punch(f, "", &[], ""))) {
            PunchStep::Fail(e) => assert_eq!(e, msg),
            _ => panic!(),
        }
    }
    let mut s = PunchSession::new();
    match s.on_reply(Some(RendezvousReply::Relay(RelayReply { relay_server: "r:1".into(), uuid: "u-1".into() }))) {
        PunchStep::JoinRelay { target, uuid } => assert_eq!((target.as_str(), uuid.as_str()), ("r:1", "u-1")),
        _ => panic!(),
    }
}

#[test]
fn peer_info_messages() {
    let m = |r| peer_info_message("5", r);
    assert_eq!(m(Some(punch(PunchFailure::Offline, "r", &[], ""))), Ok("5: online via relay".to_string()));
    assert_eq!(m(Some(punch(PunchFailure::Offline, "", &[1], ""))), Ok("5: online via direct".to_string()));
    assert_eq!(m(Some(punch(PunchFailure::Offline, "", &[], "why"))), Ok("5: why".to_string()));
    assert_eq!(m(Some(punch(PunchFailure::Offline, "", &[], ""))), Ok("5: offline".to_string()));
    assert_eq!(m(Some(punch(PunchFailure::IdNotExist, "", &[], ""))), Ok("5: not found".to_string()));
    assert_eq!(m(Some(punch(PunchFailure::Unrecognized(1), "", &[], ""))), Ok("5: not found".to_string()));
    assert_eq!(m(Some(punch(PunchFailure::LicenseMismatch, "", &[], ""))), Ok("5: key mismatch".to_string()));
    assert_eq!(m(Some(punch(PunchFailure::LicenseOveruse, "", &[], ""))), Ok("5: key overuse".to_string()));
    assert_eq!(
        m(Some(RendezvousReply::Relay(RelayReply { relay_server: String::new(), uuid: String::new() }))),
        Ok("5: online (relay ready)".to_string())
    );
    assert_eq!(m(None), Err("peer_info: no response from server".to_string()));
    assert_eq!(m(Some(RendezvousReply::Other)), Err("peer_info: no response from server".to_string()));
}

#[test]
fn pairing_actions() {
    assert!(matches!(pairing_action(PairingMessage::SignedId), PairingAction::SendEmptyKey));
    assert!(matches!(pairing_action(PairingMessage::KeyExchange), PairingAction::Skip));
    assert!(matches!(pairing_action(PairingMessage::HashOrTestDelay), PairingAction::Proceed));
    assert!(matches!(pairing_action(PairingMessage::Other), PairingAction::Proceed));
}

#[test]
fn drained_hash_takes_the_last_challenge() {
    let h = |s: &str, c: &str| DrainMessage::Hash { salt: s.to_string(), challenge: c.to_string() };
    assert_eq!(drained_hash(&vec![]), (String::new(), String::new()));
    assert_eq!(drained_hash(&vec![DrainMessage::Other]), (String::new(), String::new()));
    assert_eq!(drained_hash(&vec![h("s1", "c1"), DrainMessage::Other]), ("s1".to_string(), "c1".to_string()));
    assert_eq!(
        drained_hash(&vec![h("s1", "c1"), DrainMessage::Other, h("s2", "c2"), DrainMessage::Other]),
        ("s2".to_string(), "c2".to_string())
    );
}

#[test]
fn status_and_probe_agree() {
    let relay_true = r#"{"peer_id":"5","status":"online","relay":true}"#;
    let relay_false = r#"{"peer_id":"5","status":"online","relay":false}"#;
    let by_relay = punch(PunchFailure::IdNotExist, "r:21117", &[], "");
    assert_eq!(peer_status_body("5", PeerProbe::Reply(punch(PunchFailure::IdNotExist, "r:21117", &[], ""))), relay_true);
    assert_eq!(peer_info_message("5", Some(by_relay)), Ok("5: online via relay".to_string()));
    let ready = || RendezvousReply::Relay(RelayReply { relay_server: "r".to_string(), uuid: "u".to_string() });
    assert_eq!(peer_status_body("5", PeerProbe::Reply(ready())), relay_true);
    assert_eq!(peer_info_message("5", Some(ready())), Ok("5: online (relay ready)".to_string()));
    let direct = || punch(PunchFailure::IdNotExist, "", &[1, 2], "");
    assert_eq!(peer_status_body("5", PeerProbe::Reply(direct())), relay_false);
    assert_eq!(peer_info_message("5", Some(direct())), Ok("5: online via direct".to_string()));
    let offline = || punch(PunchFailure::Offline, "", &[], "");
    assert_eq!(peer_status_body("5", PeerProbe::Reply(offline())), r#"{"peer_id":"5","status":"offline"}"#);
    assert_eq!(peer_info_message("5", Some(offline())), Ok("5: offline".to_string()));
}
