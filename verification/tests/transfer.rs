use rustdesk_pp::transfer::collect_items;
use rustdesk_pp::transfer::entry_line;
use rustdesk_pp::transfer::join_path;
use rustdesk_pp::transfer::list_result;
use rustdesk_pp::transfer::listed_file;
use rustdesk_pp::transfer::outcome_entry;
use rustdesk_pp::transfer::parse_peer_ids;
use rustdesk_pp::transfer::recv_action;
use rustdesk_pp::transfer::recv_target;
use rustdesk_pp::transfer::remote_file_path;
use rustdesk_pp::transfer::reply_action;
use rustdesk_pp::transfer::shot_action;
use rustdesk_pp::transfer::DirEntry;
use rustdesk_pp::transfer::DirReply;
use rustdesk_pp::transfer::EntryType;
use rustdesk_pp::transfer::RecvAction;
use rustdesk_pp::transfer::RecvEvent;
use rustdesk_pp::transfer::ReplyAction;
use rustdesk_pp::transfer::ReplyEvent;
use rustdesk_pp::transfer::ShotAction;
use rustdesk_pp::transfer::ShotEvent;

#[test]
fn remote_paths() {
    assert_eq!(remote_file_path("/remote/path/", "file.txt"), "/remote/path/file.txt");
    assert_eq!(remote_file_path("C:\\Deploy\\", "u.exe"), "C:\\Deploy\\u.exe");
    assert_eq!(remote_file_path("C:/Deploy/u.exe", "x"), "C:/Deploy/u.exe");
    assert_eq!(remote_file_path("", "x"), "");
}

#[test]
fn joined_paths() {
    assert_eq!(join_path("/logs/", "a.log"), "/logs/a.log");
    assert_eq!(join_path("/logs///", "a.log"), "/logs/a.log");
    assert_eq!(join_path("logs", "a.log"), "logs/a.log");
    assert_eq!(join_path("/", "a"), "/a");
}

#[test]
fn peer_id_lists() {
    assert_eq!(parse_peer_ids("254504451,254504452").unwrap(), vec!["254504451", "254504452"]);
    assert_eq!(parse_peer_ids(" 1 , ,2,\t3 ,").unwrap(), vec!["1", "2", "3"]);
    assert_eq!(parse_peer_ids(" , ,"), Err("no peer IDs provided".to_string()));
    assert_eq!(parse_peer_ids(""), Err("no peer IDs provided".to_string()));
}

#[test]
fn transfer_outcomes() {
    assert_eq!(outcome_entry("1", Ok(())), ("1".to_string(), "ok".to_string()));
    assert_eq!(outcome_entry("1:a", Err("boom".into())), ("1:a".to_string(), "error: boom".to_string()));
}

#[test]
fn listing_lines() {
    let e = |t, n: &str, s| DirEntry { entry_type: t, name: n.to_string(), size: s };
    assert_eq!(entry_line(&e(EntryType::Dir, "docs", 0)), "[DIR] docs 0b");
    assert_eq!(entry_line(&e(EntryType::DirDrive, "C:", 0)), "[DIR] C: 0b");
    assert_eq!(entry_line(&e(EntryType::DirLink, "l", 3)), "[FILE] l 3b");
    assert_eq!(entry_line(&e(EntryType::File, "a.txt", 1234)), "[FILE] a.txt 1234b");
    assert_eq!(entry_line(&e(EntryType::Unknown, "x", 1)), "[FILE] x 1b");
    let r = list_result(DirReply::Entries(vec![e(EntryType::File, "a", 1), e(EntryType::Dir, "d", 0)]));
    assert_eq!(r, Ok(vec!["[FILE] a 1b".to_string(), "[DIR] d 0b".to_string()]));
    assert_eq!(list_result(DirReply::Error("denied".into())), Err("remote: denied".to_string()));
    assert_eq!(list_result(DirReply::Other), Err("unexpected response".to_string()));
}

#[test]
fn listed_files() {
    assert_eq!(listed_file("[FILE] a.txt 12b"), Some("a.txt".to_string()));
    assert_eq!(listed_file("[DIR] d 0b"), None);
    assert_eq!(listed_file("[FILE]"), None);
    assert_eq!(listed_file("[FILE]x y"), None);
    assert_eq!(listed_file("[FILE] a b.txt 5b"), Some("a b.txt".to_string()));
    assert_eq!(listed_file("[FILE]  5b"), None);
    assert_eq!(listed_file("[FILE] nosize"), None);
    let f = DirEntry { entry_type: EntryType::File, name: "my report.csv".to_string(), size: 120 };
    assert_eq!(listed_file(&entry_line(&f)), Some("my report.csv".to_string()));
}

#[test]
fn collect_plan() {
    let lines = vec!["[FILE] a.log 3b".to_string(), "[DIR] sub 0b".to_string(), "[FILE] b.log 5b".to_string()];
    let items = collect_items("7", "/logs/", "/local/logs", &lines);
    assert_eq!(items.len(), 2);
    assert_eq!(items[0].label, "7:a.log");
    assert_eq!(items[0].remote, "/logs/a.log");
    assert_eq!(items[0].local, "/local/logs/a.log");
    assert_eq!(items[1].label, "7:b.log");
}

#[test]
fn receive_actions() {
    assert!(matches!(recv_action(RecvEvent::NoMessage), RecvAction::Fail(ref e) if e == "recv timeout"));
    assert!(matches!(recv_action(RecvEvent::Digest), RecvAction::Confirm));
    assert!(matches!(recv_action(RecvEvent::Block { compressed: false }), RecvAction::Write { decompress: false }));
    assert!(matches!(recv_action(RecvEvent::Block { compressed: true }), RecvAction::Write { decompress: true }));
    assert!(matches!(recv_action(RecvEvent::Done), RecvAction::Finish));
    assert!(matches!(recv_action(RecvEvent::Error("gone".into())), RecvAction::Fail(ref e) if e == "remote error: gone"));
    assert!(matches!(recv_action(RecvEvent::Unparsable), RecvAction::Skip));
    assert!(matches!(recv_action(RecvEvent::OtherFileResponse), RecvAction::Skip));
    assert!(matches!(recv_action(RecvEvent::Other), RecvAction::Skip));
}

#[test]
fn reply_actions() {
    assert!(matches!(reply_action(ReplyEvent::Timeout), ReplyAction::Fail(ref e) if e == "timeout"));
    assert!(matches!(reply_action(ReplyEvent::RecvError("x".into())), ReplyAction::Fail(ref e) if e == "recv: x"));
    assert!(matches!(reply_action(ReplyEvent::ParseError("y".into())), ReplyAction::Fail(ref e) if e == "parse: y"));
    assert!(matches!(reply_action(ReplyEvent::FileResponse), ReplyAction::Take));
    assert!(matches!(reply_action(ReplyEvent::Other), ReplyAction::Skip));
}

#[test]
fn screenshot_actions() {
    assert!(matches!(shot_action(ShotEvent::NoMessage), ShotAction::Fail(ref e) if e == "screenshot: no response"));
    assert!(matches!(shot_action(ShotEvent::Response { data: vec![1, 2], msg: "m".into() }), ShotAction::Save(ref d) if d == &vec![1u8, 2]));
    assert!(matches!(shot_action(ShotEvent::Response { data: vec![], msg: "busy".into() }), ShotAction::Fail(ref e) if e == "screenshot error: busy"));
    assert!(matches!(shot_action(ShotEvent::Response { data: vec![], msg: String::new() }), ShotAction::Skip));
    assert!(matches!(shot_action(ShotEvent::Unparsable), ShotAction::Skip));
    assert!(matches!(shot_action(ShotEvent::Other), ShotAction::Skip));
}

#[test]
fn receive_targets() {
    // A directory path, marked by its trailing slash, gets the remote name.
    assert_eq!(recv_target("/remote/path/file.txt", "/local/path/"), "/local/path/file.txt");
    assert_eq!(recv_target("C:\\Data\\report.csv", "./reports/"), "./reports/report.csv");
    assert_eq!(recv_target("C:/Data/report.csv", "out\\"), "out\\report.csv");
    // Any other local path is the file's own path.
    assert_eq!(recv_target("/remote/path/file.txt", "/local/copy.txt"), "/local/copy.txt");
    assert_eq!(recv_target("/remote/path/file.txt", "/local/path"), "/local/path");
    // A remote path without separators is its own name.
    assert_eq!(recv_target("file.txt", "d/"), "d/file.txt");
}
