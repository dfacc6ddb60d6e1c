use rustdesk_pp::oauth::state_from_draws;
use rustdesk_pp::local::ipc_job_meta;
use rustdesk_pp::local::local_status_text;
use rustdesk_pp::local::service_running;
use rustdesk_pp::oauth::authorize_url;
use rustdesk_pp::oauth::generate_state;
use rustdesk_pp::oauth::parse_code_from_request;
use rustdesk_pp::oauth::state_char;
use rustdesk_pp::oauth::usable_token;

#[test]
fn callback_codes() {
    assert_eq!(parse_code_from_request("GET /?code=abc123 HTTP/1.1\r\n"), Ok("abc123".to_string()));
    assert_eq!(parse_code_from_request("GET ?code=xyz HTTP/1.1"), Ok("xyz".to_string()));
    assert_eq!(parse_code_from_request("GET /?state=s&code=q HTTP/1.1"), Err("No authorization code in callback URL".to_string()));
    assert_eq!(parse_code_from_request("GET /?code=q&state=s HTTP/1.1"), Ok("q".to_string()));
    assert_eq!(parse_code_from_request("GET"), Err("No authorization code in callback URL".to_string()));
    assert_eq!(parse_code_from_request(""), Err("No authorization code in callback URL".to_string()));
}

#[test]
fn authorization_url() {
    assert_eq!(
        authorize_url("s1"),
        "https://api.rustdesk.com/oauth/authorize?response_type=code&state=s1"
    );
}

#[test]
fn state_tokens() {
    let s = generate_state();
    assert_eq!(s.chars().count(), 16);
    assert!(s.chars().all(|c| c.is_ascii_lowercase() || c.is_ascii_digit()));
    assert_eq!(state_char(0), 'a');
    assert_eq!(state_char(25), 'z');
    assert_eq!(state_char(26), '0');
    assert_eq!(state_char(36 + 35), '9');
}

#[test]
fn stored_tokens() {
    assert_eq!(usable_token("t".to_string()), Some("t".to_string()));
    assert_eq!(usable_token(String::new()), None);
}

#[test]
fn service_and_status() {
    assert!(service_running(true, "STATE : 4 RUNNING"));
    assert!(!service_running(true, "STATE : 1 STOPPED"));
    assert!(!service_running(false, "RUNNING"));
    assert_eq!(
        local_status_text("123", true, "rs:1", "", "1.4.9"),
        "RustDesk++ Headless\n  ID: 123\n  Service: running\n  Rendezvous: rs:1\n  Relay: \n  Version: 1.4.9"
    );
    assert!(local_status_text("1", false, "", "", "").contains("Service: stopped"));
}

#[test]
fn ipc_jobs() {
    let m = ipc_job_meta("./l", "C:/r", "download");
    assert_eq!((m.id, m.remote.as_str(), m.to.as_str(), m.show_hidden, m.file_num, m.is_remote), (42, "C:/r", "./l", false, 1, true));
    assert!(!ipc_job_meta("./l", "C:/r", "upload").is_remote);
}

#[test]
fn state_from_given_draws() {
    assert_eq!(state_from_draws(&vec![0, 25, 26, 35, 36, 71]), "az09a9");
    assert_eq!(state_from_draws(&vec![]), "");
    assert_eq!(state_from_draws(&vec![u64::MAX as usize]), "p");
}
