use rustdesk_pp::http::extract_body;
use rustdesk_pp::http::handle_peers;
use rustdesk_pp::http::handle_request;
use rustdesk_pp::http::json;
use rustdesk_pp::http::parse_file_req;
use rustdesk_pp::http::parse_request_line;
use rustdesk_pp::http::peer_status_body;
use rustdesk_pp::http::peer_status_response;
use rustdesk_pp::http::route;
use rustdesk_pp::http::Job;
use rustdesk_pp::http::PeerProbe;
use rustdesk_pp::http::Plan;
use rustdesk_pp::http::Route;
use rustdesk_pp::http::Stub;
use rustdesk_pp::json::push_json_escaped;
use rustdesk_pp::peers::peer_list_json;
use rustdesk_pp::peers::peer_rows;
use rustdesk_pp::peers::PeerRecord;
use rustdesk_pp::rendezvous::PunchFailure;
use rustdesk_pp::rendezvous::PunchReply;
use rustdesk_pp::rendezvous::RelayReply;
use rustdesk_pp::rendezvous::RendezvousReply;

fn body_of(bytes: &[u8]) -> String {
    let s = String::from_utf8(bytes.to_vec()).unwrap();
    s.split("\r\n\r\n").nth(1).unwrap().to_string()
}

fn status_line(bytes: &[u8]) -> String {
    let s = String::from_utf8(bytes.to_vec()).unwrap();
    s.lines().next().unwrap().to_string()
}

#[test]
fn request_line_method_and_path() {
    let (m, p) = parse_request_line("GET /api/v1/health HTTP/1.1\r\nHost: x\r\n\r\n");
    assert_eq!((m.as_str(), p.as_str()), ("GET", "/api/v1/health"));
}

#[test]
fn request_line_too_short_or_empty() {
    let (m, p) = parse_request_line("GET\r\n");
    assert_eq!((m.as_str(), p.as_str()), ("", ""));
    let (m, p) = parse_request_line("");
    assert_eq!((m.as_str(), p.as_str()), ("", ""));
    let (m, p) = parse_request_line("\r\nGET / HTTP/1.1");
    assert_eq!((m.as_str(), p.as_str()), ("", ""));
}

#[test]
fn request_line_extra_whitespace() {
    let (m, p) = parse_request_line("  POST\t /api/v1/exec   HTTP/1.1");
    assert_eq!((m.as_str(), p.as_str()), ("POST", "/api/v1/exec"));
}

#[test]
fn body_between_blank_lines() {
    assert_eq!(extract_body("POST / HTTP/1.1\r\nA: b\r\n\r\n{\"x\":1}"), "{\"x\":1}");
    assert_eq!(extract_body("GET / HTTP/1.1\r\n"), "");
    assert_eq!(extract_body("h\r\n\r\nbody\r\n\r\nmore"), "body");
}

#[test]
fn json_answer_bytes() {
    let r = json(200, r#"{"a":1}"#);
    assert_eq!(
        String::from_utf8(r).unwrap(),
        "HTTP/1.1 200 OK\r\nContent-Type: application/json\r\nContent-Length: 7\r\nConnection: close\r\n\r\n{\"a\":1}"
    );
}

#[test]
fn json_content_length_counts_bytes() {
    let r = json(404, "é");
    let s = String::from_utf8(r).unwrap();
    assert!(s.starts_with("HTTP/1.1 404 Not Found\r\n"));
    assert!(s.contains("Content-Length: 2\r\n"));
    let r = json(500, "");
    assert_eq!(status_line(&r), "HTTP/1.1 500 Error");
    assert_eq!(status_line(&json(400, "")), "HTTP/1.1 400 Bad Request");
    assert_eq!(status_line(&json(501, "")), "HTTP/1.1 501 Not Implemented");
}

#[test]
fn routes_of_endpoints() {
    assert!(matches!(route("GET", "/api/v1/health"), Route::Health));
    assert!(matches!(route("GET", "/api/v1/peers"), Route::Peers));
    assert!(matches!(route("GET", "/api/v1/peers?x=1"), Route::Peers));
    assert!(matches!(route("GET", "/api/v1/peer/123"), Route::PeerStatus(ref id) if id == "123"));
    assert!(matches!(route("GET", "/api/v1/peer/123/status"), Route::PeerStatus(ref id) if id == "123"));
    assert!(matches!(route("GET", "/api/v1/peer/123/screenshot"), Route::PeerStub(Stub::Screenshot)));
    assert!(matches!(route("GET", "/api/v1/peer/123/system"), Route::PeerStub(Stub::System)));
    assert!(matches!(route("GET", "/api/v1/peer/123/apps"), Route::PeerStub(Stub::Apps)));
    assert!(matches!(route("POST", "/api/v1/file/upload"), Route::Upload));
    assert!(matches!(route("POST", "/api/v1/file/download"), Route::Download));
    assert!(matches!(route("POST", "/api/v1/exec"), Route::Exec));
    assert!(matches!(route("POST", "/api/v1/peer/9/restart"), Route::Restart(ref id) if id == "9"));
    assert!(matches!(route("POST", "/api/v1/peer/9/shutdown"), Route::Shutdown(ref id) if id == "9"));
    assert!(matches!(route("POST", "/api/v1/peer/9/dir"), Route::CreateDir(ref id) if id == "9"));
    assert!(matches!(route("POST", "/api/v1/peer/9/other"), Route::NotFound));
    assert!(matches!(route("GET", "/api/v1/file/upload"), Route::NotFound));
    assert!(matches!(route("PUT", "/api/v1/health"), Route::NotFound));
    assert!(matches!(route("GET", "/api/v1/health/"), Route::NotFound));
}

#[test]
fn peer_status_alias_law_on_values() {
    for id in ["254504451", "", "abc"] {
        let a = format!("/api/v1/peer/{}", id);
        let b = format!("/api/v1/peer/{}/status", id);
        match (route("GET", &a), route("GET", &b)) {
            (Route::PeerStatus(x), Route::PeerStatus(y)) => assert_eq!(x, y),
            _ => panic!("not a status route"),
        }
    }
}

#[test]
fn plan_health_peers_exec_not_found() {
    match handle_request("GET /api/v1/health HTTP/1.1\r\n\r\n") {
        Plan::Respond(b) => {
            assert_eq!(status_line(&b), "HTTP/1.1 200 OK");
            assert_eq!(body_of(&b), r#"{"status":"ok","server":"rustdesk++","version":"1.4.9-pp"}"#);
        }
        _ => panic!(),
    }
    assert!(matches!(handle_request("GET /api/v1/peers HTTP/1.1\r\n\r\n"), Plan::ListPeers));
    match handle_request("POST /api/v1/exec HTTP/1.1\r\n\r\n{}") {
        Plan::Respond(b) => assert_eq!(status_line(&b), "HTTP/1.1 501 Not Implemented"),
        _ => panic!(),
    }
    match handle_request("DELETE /x HTTP/1.1\r\n\r\n") {
        Plan::Respond(b) => {
            assert_eq!(status_line(&b), "HTTP/1.1 404 Not Found");
            assert_eq!(body_of(&b), r#"{"error":"not_found"}"#);
        }
        _ => panic!(),
    }
    match handle_request("") {
        Plan::Respond(b) => assert_eq!(status_line(&b), "HTTP/1.1 404 Not Found"),
        _ => panic!(),
    }
}

#[test]
fn plan_peer_status() {
    assert!(matches!(handle_request("GET /api/v1/peer/42 HTTP/1.1\r\n\r\n"), Plan::ProbePeer(ref id) if id == "42"));
    match handle_request("GET /api/v1/peer/ HTTP/1.1\r\n\r\n") {
        Plan::Respond(b) => {
            assert_eq!(status_line(&b), "HTTP/1.1 400 Bad Request");
            assert_eq!(body_of(&b), r#"{"error":"peer_id required"}"#);
        }
        _ => panic!(),
    }
    match handle_request("GET /api/v1/peer/42/apps HTTP/1.1\r\n\r\n") {
        Plan::Respond(b) => assert!(body_of(&b).contains("wmic product get name")),
        _ => panic!(),
    }
}

#[test]
fn plan_upload_and_download() {
    let up = "POST /api/v1/file/upload HTTP/1.1\r\n\r\n{\"peer_id\":\"1\",\"local_path\":\"/a\",\"remote_path\":\"C:/b\",\"password\":\"p\"}";
    match handle_request(up) {
        Plan::Start(Job::Upload(f), b) => {
            assert_eq!((f.peer_id.as_str(), f.local.as_str(), f.remote.as_str(), f.password.as_str()), ("1", "/a", "C:/b", "p"));
            assert_eq!(body_of(&b), r#"{"success":true,"message":"upload started"}"#);
        }
        _ => panic!(),
    }
    let down = "POST /api/v1/file/download HTTP/1.1\r\n\r\n{\"peer_id\":\"1\",\"remote\":\"C:/r.txt\",\"local\":\"./r.txt\"}";
    match handle_request(down) {
        Plan::Start(Job::Download(f), b) => {
            assert_eq!(f.remote, "C:/r.txt");
            assert_eq!(f.local, "./r.txt");
            assert_eq!(f.password, "");
            assert_eq!(body_of(&b), r#"{"success":true,"message":"download started"}"#);
        }
        _ => panic!(),
    }
    match handle_request("POST /api/v1/file/upload HTTP/1.1\r\n\r\n{\"peer_id\":\"1\"}") {
        Plan::Respond(b) => assert_eq!(body_of(&b), r#"{"error":"peer_id, local_path, remote_path required"}"#),
        _ => panic!(),
    }
    match handle_request("POST /api/v1/file/download HTTP/1.1\r\n\r\n{}") {
        Plan::Respond(b) => assert_eq!(body_of(&b), r#"{"error":"peer_id, remote_path, local_path required"}"#),
        _ => panic!(),
    }
}

#[test]
fn plan_peer_commands() {
    match handle_request("POST /api/v1/peer/7/restart HTTP/1.1\r\n\r\n{\"password\":\"x\"}") {
        Plan::Start(Job::Restart { peer_id, password }, b) => {
            assert_eq!((peer_id.as_str(), password.as_str()), ("7", "x"));
            assert_eq!(body_of(&b), r#"{"success":true,"message":"restart started"}"#);
        }
        _ => panic!(),
    }
    assert!(matches!(
        handle_request("POST /api/v1/peer/7/shutdown HTTP/1.1\r\n\r\n{}"),
        Plan::Start(Job::Shutdown { .. }, _)
    ));
    match handle_request("POST /api/v1/peer/7/dir HTTP/1.1\r\n\r\n{\"path\":\"C:/New\"}") {
        Plan::Start(Job::CreateDir { peer_id, path, password }, _) => {
            assert_eq!((peer_id.as_str(), path.as_str(), password.as_str()), ("7", "C:/New", ""));
        }
        _ => panic!(),
    }
    match handle_request("POST /api/v1/peer/7/dir HTTP/1.1\r\n\r\n{}") {
        Plan::Respond(b) => assert_eq!(body_of(&b), r#"{"error":"path required"}"#),
        _ => panic!(),
    }
    match handle_request("POST /api/v1/peer//restart HTTP/1.1\r\n\r\n{}") {
        Plan::Respond(b) => assert_eq!(body_of(&b), r#"{"error":"peer_id required"}"#),
        _ => panic!(),
    }
}

#[test]
fn file_req_fallback_fields() {
    let f = parse_file_req(r#"{"peer_id":"1","local":"l","remote":"r"}"#);
    assert_eq!((f.local.as_str(), f.remote.as_str()), ("l", "r"));
    let f = parse_file_req(r#"{"local_path":"L","local":"l"}"#);
    assert_eq!(f.local, "L");
    assert_eq!(f.peer_id, "");
}

fn punch(failure: PunchFailure, relay: &str, addr: &[u8], other: &str) -> RendezvousReply {
    RendezvousReply::PunchHole(PunchReply {
        failure,
        relay_server: relay.to_string(),
        socket_addr: addr.to_vec(),
        other_failure: other.to_string(),
    })
}

#[test]
fn peer_status_bodies() {
    let b = |p| peer_status_body("9", p);
    assert_eq!(b(PeerProbe::ConnectFailed("refused".into())), r#"{"peer_id":"9","error":"connect: refused"}"#);
    assert_eq!(b(PeerProbe::SendFailed), r#"{"peer_id":"9","error":"send failed"}"#);
    assert_eq!(b(PeerProbe::NoReply), r#"{"peer_id":"9","error":"timeout"}"#);
    assert_eq!(b(PeerProbe::Reply(punch(PunchFailure::Offline, "", &[], ""))), r#"{"peer_id":"9","status":"offline"}"#);
    assert_eq!(b(PeerProbe::Reply(punch(PunchFailure::IdNotExist, "", &[], ""))), r#"{"peer_id":"9","status":"not_found"}"#);
    assert_eq!(b(PeerProbe::Reply(punch(PunchFailure::Unrecognized(9), "", &[], ""))), r#"{"peer_id":"9","status":"not_found"}"#);
    assert_eq!(b(PeerProbe::Reply(punch(PunchFailure::LicenseMismatch, "", &[], ""))), r#"{"peer_id":"9","status":"key_mismatch"}"#);
    assert_eq!(b(PeerProbe::Reply(punch(PunchFailure::LicenseOveruse, "", &[], ""))), r#"{"peer_id":"9","status":"unknown"}"#);
    assert_eq!(b(PeerProbe::Reply(punch(PunchFailure::Offline, "r.example", &[], ""))), r#"{"peer_id":"9","status":"online","relay":true}"#);
    assert_eq!(b(PeerProbe::Reply(punch(PunchFailure::Offline, "", &[1, 2], ""))), r#"{"peer_id":"9","status":"online","relay":false}"#);
    assert_eq!(
        b(PeerProbe::Reply(RendezvousReply::Relay(RelayReply { relay_server: "r".into(), uuid: "u".into() }))),
        r#"{"peer_id":"9","status":"online","relay":true}"#
    );
    assert_eq!(b(PeerProbe::Reply(RendezvousReply::Other)), r#"{"peer_id":"9","status":"unknown"}"#);
    let r = peer_status_response("9", PeerProbe::SendFailed);
    assert_eq!(status_line(&r), "HTTP/1.1 200 OK");
}

#[test]
fn peer_rows_from_database_dump() {
    let dump = "254504451\u{1f}2024-05-01 10:00:00\u{1f}{\"ip\":\"::ffff:192.168.0.5\"}\u{1e}\
                254504452\u{1f}2024-05-02 11:00:00\u{1f}\u{1e}\
                \u{1f}2024-05-03\u{1f}{}\u{1e}\
                broken row\u{1e}";
    let peers = peer_rows(dump);
    assert_eq!(peers.len(), 2);
    assert_eq!(peers[0].id, "254504451");
    assert_eq!(peers[0].created_at, "2024-05-01 10:00:00");
    assert_eq!(peers[0].ip, "::ffff:192.168.0.5");
    assert_eq!(peers[1].id, "254504452");
    assert_eq!(peers[1].ip, "");
    assert_eq!(peer_rows("").len(), 0);
}

#[test]
fn peer_list_answers() {
    let p = |id: &str, at: &str, ip: &str| PeerRecord { id: id.to_string(), created_at: at.to_string(), ip: ip.to_string() };
    assert_eq!(peer_list_json(&vec![]), r#"{"peers":[]}"#);
    assert_eq!(
        peer_list_json(&vec![p("1", "t1", "10.0.0.1"), p("2", "t2", "")]),
        r#"{"peers":[{"id":"1","created_at":"t1","ip":"10.0.0.1"},{"id":"2","created_at":"t2","ip":""}]}"#
    );
    let ok = handle_peers(Ok(vec![p("1", "t", "a")]));
    assert_eq!(status_line(&ok), "HTTP/1.1 200 OK");
    assert_eq!(body_of(&ok), r#"{"peers":[{"id":"1","created_at":"t","ip":"a"}]}"#);
    let err = handle_peers(Err("no such table: peer".to_string()));
    assert_eq!(status_line(&err), "HTTP/1.1 500 Error");
    assert_eq!(body_of(&err), r#"{"error":"peer list unavailable","detail":"no such table: peer"}"#);
}

#[test]
fn json_escaping() {
    let mut s = String::from("x");
    push_json_escaped(&mut s, "a\"b\\c\nd\u{1}é");
    assert_eq!(s, "xa\\\"b\\\\c\\u000ad\\u0001é");
}
