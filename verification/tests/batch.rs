use rustdesk_pp::batch::parse_manifest;
use rustdesk_pp::batch::result_line;
use rustdesk_pp::batch::BatchOp;
use rustdesk_pp::batch::OpKind;
use rustdesk_pp::batch::OpOutcome;

const README_MANIFEST: &str = r#"{
  "password": "optional_default",
  "operations": [
    { "op": "send_file", "peer_id": "254504451", "local": "update.exe", "remote": "C:/Deploy/update.exe" },
    { "op": "restart", "peer_id": "254504451" },
    { "op": "create_dir", "peer_id": "254504452", "path": "C:/Data/NewFolder" },
    { "op": "recv_file", "peer_id": "254504452", "remote": "C:/Data/report.csv", "local": "./reports/" },
    { "op": "delete_remote", "peer_id": "254504452", "path": "C:/Temp/old.log" }
  ]
}"#;

#[test]
fn readme_manifest() {
    let ops = parse_manifest(README_MANIFEST, "cli").unwrap();
    assert_eq!(ops.len(), 5);
    assert_eq!(ops[0].peer_id, "254504451");
    assert_eq!(ops[0].password, "optional_default");
    assert!(matches!(ops[0].kind, OpKind::SendFile { ref local, ref remote } if local == "update.exe" && remote == "C:/Deploy/update.exe"));
    assert!(matches!(ops[1].kind, OpKind::Restart));
    assert!(matches!(ops[2].kind, OpKind::CreateDir { ref path } if path == "C:/Data/NewFolder"));
    assert!(matches!(ops[3].kind, OpKind::RecvFile { ref remote, ref local } if remote == "C:/Data/report.csv" && local == "./reports/"));
    assert!(matches!(ops[4].kind, OpKind::DeleteRemote { ref path } if path == "C:/Temp/old.log"));
}

#[test]
fn manifest_passwords() {
    let m = r#"{"operations":[{"op":"restart","peer_id":"1"},{"op":"shutdown","peer_id":"2","password":"own"}]}"#;
    let ops = parse_manifest(m, "dflt").unwrap();
    // An operation's own password is for that operation alone.
    assert_eq!(ops[0].password, "dflt");
    assert_eq!(ops[1].password, "own");
    assert!(matches!(ops[1].kind, OpKind::Shutdown));
    let m = r#"{"password":"top","operations":[{"op":"restart","peer_id":"1"},{"op":"shutdown","peer_id":"2","password":"own"}]}"#;
    let ops = parse_manifest(m, "dflt").unwrap();
    assert_eq!(ops[0].password, "top");
    assert_eq!(ops[1].password, "own");
    let m = r#"{"operations":[{"op":"restart","peer_id":"1"}]}"#;
    assert_eq!(parse_manifest(m, "dflt").unwrap()[0].password, "dflt");
    // The manifest's own password may also follow the operations array.
    let m = r#"{"operations":[{"op":"shutdown","peer_id":"2","password":"own"},{"op":"restart","peer_id":"1"}],"password":"top"}"#;
    let ops = parse_manifest(m, "dflt").unwrap();
    assert_eq!(ops[0].password, "own");
    assert_eq!(ops[1].password, "top");
}

#[test]
fn manifest_all_ops() {
    let m = r#"{"operations":[
        {"op":"list_dir","peer_id":"1","path":"/"},
        {"op":"move_remote","peer_id":"1","old":"/a","new":"/b"},
        {"op":"send_dir","peer_id":"1","local":"./d","remote":"/r"},
        {"op":"screenshot","peer_id":"1"},
        {"op":"screenshot","peer_id":"1","output":"s.png"},
        {"op":"peer_info","peer_id":"1"},
        {"op":"dance","peer_id":"1"}
    ]}"#;
    let ops = parse_manifest(m, "").unwrap();
    assert!(matches!(ops[0].kind, OpKind::ListDir { ref path } if path == "/"));
    assert!(matches!(ops[1].kind, OpKind::MoveRemote { ref old, ref new } if old == "/a" && new == "/b"));
    assert!(matches!(ops[2].kind, OpKind::SendDir { ref local, ref remote } if local == "./d" && remote == "/r"));
    assert!(matches!(ops[3].kind, OpKind::Screenshot { ref output } if output == "screenshot.png"));
    assert!(matches!(ops[4].kind, OpKind::Screenshot { ref output } if output == "s.png"));
    assert!(matches!(ops[5].kind, OpKind::PeerInfo));
    assert!(matches!(ops[6].kind, OpKind::Unknown { ref op } if op == "dance"));
}

#[test]
fn manifest_errors_and_empty_array() {
    assert_eq!(parse_manifest(r#"{"password":"x"}"#, "").err(), Some("no operations in manifest".to_string()));
    assert_eq!(parse_manifest(r#"{"operations":[{"op":"restart"}"#, "").err(), Some("no operations in manifest".to_string()));
    assert_eq!(parse_manifest(r#"{"operations":[]}"#, "").unwrap().len(), 0);
}

fn op(peer: &str, kind: OpKind) -> BatchOp {
    BatchOp { peer_id: peer.to_string(), password: String::new(), kind }
}

#[test]
fn result_lines() {
    let s = |x: &str| x.to_string();
    assert_eq!(result_line(&op("1", OpKind::SendFile { local: s("a"), remote: s("b") }), OpOutcome::Done), "[1] send_file a -> b: ok");
    assert_eq!(result_line(&op("1", OpKind::SendFile { local: s("a"), remote: s("b") }), OpOutcome::Failed(s("e"))), "[1] send_file: e");
    assert_eq!(result_line(&op("1", OpKind::RecvFile { remote: s("r"), local: s("l") }), OpOutcome::Done), "[1] recv_file r <- l: ok");
    assert_eq!(result_line(&op("1", OpKind::ListDir { path: s("/") }), OpOutcome::Entries(3)), "[1] list_dir /: 3 entries");
    assert_eq!(result_line(&op("1", OpKind::ListDir { path: s("/") }), OpOutcome::Failed(s("x"))), "[1] list_dir: x");
    assert_eq!(result_line(&op("1", OpKind::DeleteRemote { path: s("p") }), OpOutcome::Done), "[1] delete_remote p: ok");
    assert_eq!(result_line(&op("1", OpKind::MoveRemote { old: s("o"), new: s("n") }), OpOutcome::Done), "[1] move_remote o -> n: ok");
    assert_eq!(result_line(&op("1", OpKind::SendDir { local: s("l"), remote: s("r") }), OpOutcome::Done), "[1] send_dir l -> r: ok");
    assert_eq!(result_line(&op("1", OpKind::CreateDir { path: s("p") }), OpOutcome::Done), "[1] create_dir p: ok");
    assert_eq!(result_line(&op("1", OpKind::Restart), OpOutcome::Done), "[1] restart: ok");
    assert_eq!(result_line(&op("1", OpKind::Shutdown), OpOutcome::Failed(s("no"))), "[1] shutdown: no");
    assert_eq!(result_line(&op("1", OpKind::Screenshot { output: s("o.png") }), OpOutcome::Done), "[1] screenshot -> o.png: ok");
    assert_eq!(result_line(&op("1", OpKind::PeerInfo), OpOutcome::Report(s("1: offline"))), "1: offline");
    assert_eq!(result_line(&op("1", OpKind::PeerInfo), OpOutcome::Failed(s("t"))), "[1] peer_info: t");
    assert_eq!(result_line(&op("1", OpKind::Unknown { op: s("dance") }), OpOutcome::Done), "[1] unknown op 'dance'");
}
