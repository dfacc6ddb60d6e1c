//! The HTTP API: reading a request and deciding the answer.
//!
//! The caller reads the request text from the socket, asks
//! [`handle_request`] what to do, performs the network work that the plan
//! names, and writes the answer bytes back.

use vstd::prelude::*;
use vstd::utf8::encode_utf8;
use crate::json::{field_or_empty, json_escape, json_field, json_field_chars, or_empty, push_json_escaped};
use crate::peers::{peer_list_body, peer_list_json, peer_views, PeerRecord};
use crate::rendezvous::{PunchFailure, RendezvousReply};
use crate::text::literal;
use crate::text::{
    chars_of, decimal, decimal_exec, eq_str, find, find_at, find_from, first_index,
    lemma_find_from_found, push_chars, push_str, slice_to_vec, starts_with, starts_with_exec,
    string_from, tokens, tokens_exec, views,
};

verus! {

// ---------------------------------------------------------------------------
// The request text
// ---------------------------------------------------------------------------

/// The first line of `s` (`str::lines().next()`, or empty text): the text
/// before the first line feed, without a carriage return just before it;
/// the whole text when there is no line feed.
pub open spec fn first_line(s: Seq<char>) -> Seq<char> {
    match find(s, seq!['\n']) {
        Some(j) => {
            let l = s.take(j);
            if l.len() > 0 && l.last() == '\r' {
                l.drop_last()
            } else {
                l
            }
        },
        None => s,
    }
}

/// The method and path of a request: the first two words of its first
/// line, or two empty texts when it has fewer than two.
pub open spec fn request_line_spec(s: Seq<char>) -> (Seq<char>, Seq<char>) {
    let t = tokens(first_line(s));
    if t.len() >= 2 {
        (t[0], t[1])
    } else {
        (Seq::empty(), Seq::empty())
    }
}

/// The first line of `s`.
fn first_line_chars(s: &[char]) -> (res: Vec<char>)
    ensures
        res@ == first_line(s@),
{
    let mut nl: Vec<char> = Vec::new();
    nl.push('\n');
    assert(nl@ == seq!['\n']);
    match find_at(s, nl.as_slice(), 0) {
        Some(j) => {
            proof {
                lemma_find_from_found(s@, nl@, 0);
                assert(find_from(s@, nl@, 0) == Some(j as int));
            }
            assert(s@.take(j as int) == s@.subrange(0, j as int));
            if j > 0 && s[j - 1] == '\r' {
                assert(s@.take(j as int).drop_last() == s@.subrange(0, j - 1));
                slice_to_vec(s, 0, j - 1)
            } else {
                slice_to_vec(s, 0, j)
            }
        },
        None => {
            assert(s@.subrange(0, s@.len() as int) == s@);
            slice_to_vec(s, 0, s.len())
        },
    }
}

/// The method and path of a request, as characters.
fn request_line_chars(s: &[char]) -> (res: (Vec<char>, Vec<char>))
    ensures
        (res.0@, res.1@) == request_line_spec(s@),
{
    let line = first_line_chars(s);
    let t = tokens_exec(line.as_slice());
    if t.len() >= 2 {
        assert(views(t@)[0] == t@[0]@);
        assert(views(t@)[1] == t@[1]@);
        (t[0].clone(), t[1].clone())
    } else {
        (Vec::new(), Vec::new())
    }
}

/// The method and path of an HTTP request: the first two words of its
/// first line, or two empty texts when there are fewer.
pub fn parse_request_line(request: &str) -> (res: (String, String))
    ensures
        (res.0@, res.1@) == request_line_spec(request@),
{
    let s = chars_of(request);
    let (m, p) = request_line_chars(s.as_slice());
    (string_from(m.as_slice()), string_from(p.as_slice()))
}

/// The blank line that ends the headers.
pub open spec fn blank_line() -> Seq<char> {
    seq!['\r', '\n', '\r', '\n']
}

/// The body of a request (`split("\r\n\r\n").nth(1)`, or empty text): the
/// text between the first blank line and the next one (or the end).
pub open spec fn body_spec(s: Seq<char>) -> Seq<char> {
    match find(s, blank_line()) {
        None => Seq::empty(),
        Some(i) => {
            let r = s.skip(i + 4);
            match find(r, blank_line()) {
                None => r,
                Some(j) => r.take(j),
            }
        },
    }
}

/// The body of a request, as characters.
fn body_chars(s: &[char]) -> (res: Vec<char>)
    ensures
        res@ == body_spec(s@),
{
    let mut bl: Vec<char> = Vec::new();
    bl.push('\r');
    bl.push('\n');
    bl.push('\r');
    bl.push('\n');
    assert(bl@ == blank_line());
    match find_at(s, bl.as_slice(), 0) {
        None => Vec::new(),
        Some(i) => {
            proof {
                lemma_find_from_found(s@, bl@, 0);
                assert(find_from(s@, bl@, 0) == Some(i as int));
            }
            let n = s.len();
            assert(i + 4 <= n);
            let r = slice_to_vec(s, i + 4, n);
            assert(r@ == s@.skip(i + 4));
            match find_at(r.as_slice(), bl.as_slice(), 0) {
                None => r,
                Some(j) => {
                    proof {
                        lemma_find_from_found(r@, bl@, 0);
                        assert(find_from(r@, bl@, 0) == Some(j as int));
                    }
                    assert(r@.take(j as int) == r@.subrange(0, j as int));
                    slice_to_vec(r.as_slice(), 0, j)
                },
            }
        },
    }
}

/// The body of an HTTP request: the text between the first blank line and
/// the next one, or empty text when there is no blank line.
pub fn extract_body(request: &str) -> (res: String)
    ensures
        res@ == body_spec(request@),
{
    let s = chars_of(request);
    let b = body_chars(s.as_slice());
    string_from(b.as_slice())
}

// ---------------------------------------------------------------------------
// The answer bytes
// ---------------------------------------------------------------------------

/// The reason phrase of a status code.
pub open spec fn reason_phrase(status: u16) -> Seq<char> {
    if status == 200 {
        "OK"@
    } else if status == 400 {
        "Bad Request"@
    } else if status == 404 {
        "Not Found"@
    } else if status == 501 {
        "Not Implemented"@
    } else {
        "Error"@
    }
}

/// The reason phrase of a status code.
fn reason(status: u16) -> (r: &'static str)
    ensures
        r@ == reason_phrase(status),
{
    if status == 200 {
        "OK"
    } else if status == 400 {
        "Bad Request"
    } else if status == 404 {
        "Not Found"
    } else if status == 501 {
        "Not Implemented"
    } else {
        "Error"
    }
}

/// The status line and headers of a JSON answer whose body has `len`
/// bytes.
pub open spec fn response_head(status: u16, len: nat) -> Seq<char> {
    "HTTP/1.1 "@ + decimal(status as nat) + " "@ + reason_phrase(status)
        + "\r\nContent-Type: application/json\r\nContent-Length: "@ + decimal(len)
        + "\r\nConnection: close\r\n\r\n"@
}

/// Characters read as bytes, one each (exact for ASCII text).
pub open spec fn ascii_bytes(s: Seq<char>) -> Seq<u8> {
    s.map_values(|c: char| c as u8)
}

/// The bytes of a JSON answer: the head, whose `Content-Length` is the
/// number of bytes of the body's UTF-8 encoding, then that encoding.
pub open spec fn response_bytes(status: u16, body: Seq<char>) -> Seq<u8> {
    ascii_bytes(response_head(status, encode_utf8(body).len())) + encode_utf8(body)
}

/// The bytes of a JSON answer with this status and body, with the
/// connection closed after it.
pub fn json(status: u16, body: &str) -> (res: Vec<u8>)
    ensures
        res@ == response_bytes(status, body@),
{
    let bytes = body.as_bytes();
    let mut head = String::new();
    push_str(&mut head, "HTTP/1.1 ");
    let st = decimal_exec(status as u64);
    push_chars(&mut head, st.as_slice());
    push_str(&mut head, " ");
    push_str(&mut head, reason(status));
    push_str(&mut head, "\r\nContent-Type: application/json\r\nContent-Length: ");
    let ln = decimal_exec(bytes.len() as u64);
    push_chars(&mut head, ln.as_slice());
    push_str(&mut head, "\r\nConnection: close\r\n\r\n");
    assert(head@ == response_head(status, encode_utf8(body@).len()));
    let hv = chars_of(head.as_str());
    let mut out: Vec<u8> = Vec::new();
    let mut i: usize = 0;
    while i < hv.len()
        invariant
            i <= hv@.len(),
            out@ == ascii_bytes(hv@.take(i as int)),
        decreases hv@.len() - i,
    {
        out.push(hv[i] as u8);
        assert(hv@.take(i + 1) == hv@.take(i as int).push(hv@[i as int]));
        assert(ascii_bytes(hv@.take(i + 1)) == ascii_bytes(hv@.take(i as int)).push(
            hv@[i as int] as u8,
        ));
        i += 1;
    }
    assert(hv@.take(hv@.len() as int) == hv@);
    out.extend_from_slice(bytes);
    out
}


// ---------------------------------------------------------------------------
// Routing
// ---------------------------------------------------------------------------

/// A peer endpoint that answers with the command-line alternative.
#[derive(Clone, Copy, PartialEq, Eq, Structural)]
pub enum Stub {
    /// `GET /api/v1/peer/{id}/screenshot`.
    Screenshot,
    /// `GET /api/v1/peer/{id}/system`.
    System,
    /// `GET /api/v1/peer/{id}/apps`.
    Apps,
}

/// The endpoint that a request names.
pub enum Route {
    /// `GET /api/v1/health`.
    Health,
    /// `GET /api/v1/peers...`.
    Peers,
    /// `GET /api/v1/peer/{id}` and `GET /api/v1/peer/{id}/status`.
    PeerStatus(String),
    /// A stub peer endpoint.
    PeerStub(Stub),
    /// `POST /api/v1/peer/{id}/restart`.
    Restart(String),
    /// `POST /api/v1/peer/{id}/shutdown`.
    Shutdown(String),
    /// `POST /api/v1/peer/{id}/dir`.
    CreateDir(String),
    /// `POST /api/v1/file/upload`.
    Upload,
    /// `POST /api/v1/file/download`.
    Download,
    /// `POST /api/v1/exec`.
    Exec,
    /// Anything else.
    NotFound,
}

/// The path prefix of the per-peer endpoints.
pub open spec fn peer_prefix() -> Seq<char> {
    "/api/v1/peer/"@
}

/// The peer ID in the rest of a per-peer path: the text before its first
/// slash.
pub open spec fn peer_id_part(rest: Seq<char>) -> Seq<char> {
    rest.take(first_index(rest, |c: char| c == '/') as int)
}

/// What follows the peer ID in the rest of a per-peer path.
pub open spec fn peer_tail_part(rest: Seq<char>) -> Seq<char> {
    rest.skip(first_index(rest, |c: char| c == '/') as int)
}

/// The endpoint of a request, with texts read as character sequences.
pub enum RouteView {
    Health,
    Peers,
    PeerStatus(Seq<char>),
    PeerStub(Stub),
    Restart(Seq<char>),
    Shutdown(Seq<char>),
    CreateDir(Seq<char>),
    Upload,
    Download,
    Exec,
    NotFound,
}

impl View for Route {
    type V = RouteView;

    open spec fn view(&self) -> RouteView {
        match self {
            Route::Health => RouteView::Health,
            Route::Peers => RouteView::Peers,
            Route::PeerStatus(id) => RouteView::PeerStatus(id@),
            Route::PeerStub(s) => RouteView::PeerStub(*s),
            Route::Restart(id) => RouteView::Restart(id@),
            Route::Shutdown(id) => RouteView::Shutdown(id@),
            Route::CreateDir(id) => RouteView::CreateDir(id@),
            Route::Upload => RouteView::Upload,
            Route::Download => RouteView::Download,
            Route::Exec => RouteView::Exec,
            Route::NotFound => RouteView::NotFound,
        }
    }
}

/// The route of a request with method `m` and path `p`.
pub open spec fn route_spec(m: Seq<char>, p: Seq<char>) -> RouteView {
    let rest = p.skip(peer_prefix().len() as int);
    let id = peer_id_part(rest);
    let tail = peer_tail_part(rest);
    if m == "GET"@ && p == "/api/v1/health"@ {
        RouteView::Health
    } else if m == "GET"@ && starts_with(p, "/api/v1/peers"@) {
        RouteView::Peers
    } else if m == "GET"@ && starts_with(p, peer_prefix()) {
        if tail == "/screenshot"@ {
            RouteView::PeerStub(Stub::Screenshot)
        } else if tail == "/system"@ {
            RouteView::PeerStub(Stub::System)
        } else if tail == "/apps"@ {
            RouteView::PeerStub(Stub::Apps)
        } else {
            RouteView::PeerStatus(id)
        }
    } else if m == "POST"@ && p == "/api/v1/file/upload"@ {
        RouteView::Upload
    } else if m == "POST"@ && p == "/api/v1/file/download"@ {
        RouteView::Download
    } else if m == "POST"@ && p == "/api/v1/exec"@ {
        RouteView::Exec
    } else if m == "POST"@ && starts_with(p, peer_prefix()) {
        if tail == "/restart"@ {
            RouteView::Restart(id)
        } else if tail == "/shutdown"@ {
            RouteView::Shutdown(id)
        } else if tail == "/dir"@ {
            RouteView::CreateDir(id)
        } else {
            RouteView::NotFound
        }
    } else {
        RouteView::NotFound
    }
}

/// The position of the first slash at or after `from`, or the end.
fn slash_index(s: &[char], from: usize) -> (k: usize)
    requires
        from <= s@.len(),
    ensures
        from <= k <= s@.len(),
        k - from == first_index(s@.skip(from as int), |c: char| c == '/'),
{
    let ghost stop = |c: char| c == '/';
    let mut i = from;
    while i < s.len() && s[i] != '/'
        invariant
            from <= i <= s@.len(),
            stop == (|c: char| c == '/'),
            first_index(s@.skip(from as int), stop) == (i - from) + first_index(
                s@.skip(i as int),
                stop,
            ),
        decreases s@.len() - i,
    {
        assert(s@.skip(i as int).drop_first() == s@.skip(i + 1));
        assert(s@.skip(i as int)[0] == s@[i as int]);
        i += 1;
    }
    if i < s.len() {
        assert(s@.skip(i as int)[0] == s@[i as int]);
    }
    i
}

/// The route of a request with method `m` and path `p`, as characters.
fn route_chars(m: &[char], p: &[char]) -> (r: Route)
    ensures
        r@ == route_spec(m@, p@),
{
    let get = eq_str(m, "GET");
    let post = eq_str(m, "POST");
    let pre = chars_of("/api/v1/peer/");
    let is_peer = starts_with_exec(p, pre.as_slice());
    let ghost rest = p@.skip(peer_prefix().len() as int);
    let mut id: Vec<char> = Vec::new();
    let mut tail: Vec<char> = Vec::new();
    if is_peer {
        let from = pre.len();
        let k = slash_index(p, from);
        id = slice_to_vec(p, from, k);
        tail = slice_to_vec(p, k, p.len());
        assert(rest == p@.skip(from as int));
        assert(id@ == peer_id_part(rest));
        assert(tail@ == peer_tail_part(rest));
    }
    if get && eq_str(p, "/api/v1/health") {
        Route::Health
    } else if get && starts_with_exec(p, chars_of("/api/v1/peers").as_slice()) {
        Route::Peers
    } else if get && is_peer {
        if eq_str(tail.as_slice(), "/screenshot") {
            Route::PeerStub(Stub::Screenshot)
        } else if eq_str(tail.as_slice(), "/system") {
            Route::PeerStub(Stub::System)
        } else if eq_str(tail.as_slice(), "/apps") {
            Route::PeerStub(Stub::Apps)
        } else {
            Route::PeerStatus(string_from(id.as_slice()))
        }
    } else if post && eq_str(p, "/api/v1/file/upload") {
        Route::Upload
    } else if post && eq_str(p, "/api/v1/file/download") {
        Route::Download
    } else if post && eq_str(p, "/api/v1/exec") {
        Route::Exec
    } else if post && is_peer {
        if eq_str(tail.as_slice(), "/restart") {
            Route::Restart(string_from(id.as_slice()))
        } else if eq_str(tail.as_slice(), "/shutdown") {
            Route::Shutdown(string_from(id.as_slice()))
        } else if eq_str(tail.as_slice(), "/dir") {
            Route::CreateDir(string_from(id.as_slice()))
        } else {
            Route::NotFound
        }
    } else {
        Route::NotFound
    }
}

/// The endpoint that a request with this method and path names.
pub fn route(method: &str, path: &str) -> (r: Route)
    ensures
        r@ == route_spec(method@, path@),
{
    let m = chars_of(method);
    let p = chars_of(path);
    route_chars(m.as_slice(), p.as_slice())
}


// ---------------------------------------------------------------------------
// Request bodies
// ---------------------------------------------------------------------------

/// A file transfer asked for in a request body.
pub struct FileRequest {
    /// The peer to transfer with.
    pub peer_id: String,
    /// The path on this machine.
    pub local: String,
    /// The path on the peer.
    pub remote: String,
    /// The peer's password, empty for a passwordless peer.
    pub password: String,
}

/// A file transfer request, with texts read as character sequences.
pub struct FileRequestView {
    pub peer_id: Seq<char>,
    pub local: Seq<char>,
    pub remote: Seq<char>,
    pub password: Seq<char>,
}

impl View for FileRequest {
    type V = FileRequestView;

    open spec fn view(&self) -> FileRequestView {
        FileRequestView {
            peer_id: self.peer_id@,
            local: self.local@,
            remote: self.remote@,
            password: self.password@,
        }
    }
}

/// `a` when it holds a value, else `b` (`Option::or_else`).
pub open spec fn either(a: Option<Seq<char>>, b: Option<Seq<char>>) -> Option<Seq<char>> {
    if a is Some {
        a
    } else {
        b
    }
}

/// The transfer that a body asks for: fields `peer_id`, `local_path` (or
/// `local`), `remote_path` (or `remote`) and `password`, each empty when
/// absent.
pub open spec fn file_request_spec(body: Seq<char>) -> FileRequestView {
    FileRequestView {
        peer_id: or_empty(json_field(body, "peer_id"@)),
        local: or_empty(either(json_field(body, "local_path"@), json_field(body, "local"@))),
        remote: or_empty(either(json_field(body, "remote_path"@), json_field(body, "remote"@))),
        password: or_empty(json_field(body, "password"@)),
    }
}

/// The value of field `key`, else of field `alt`, or empty text.
fn field_or_alt(body: &[char], key: &str, alt: &str) -> (res: String)
    ensures
        res@ == or_empty(either(json_field(body@, key@), json_field(body@, alt@))),
{
    match json_field_chars(body, key) {
        Some(v) => string_from(v.as_slice()),
        None => field_or_empty(body, alt),
    }
}

/// The transfer that a request body asks for, as characters.
fn file_request_chars(body: &[char]) -> (r: FileRequest)
    ensures
        r@ == file_request_spec(body@),
{
    FileRequest {
        peer_id: field_or_empty(body, "peer_id"),
        local: field_or_alt(body, "local_path", "local"),
        remote: field_or_alt(body, "remote_path", "remote"),
        password: field_or_empty(body, "password"),
    }
}

/// The transfer that a request body asks for.
pub fn parse_file_req(body: &str) -> (r: FileRequest)
    ensures
        r@ == file_request_spec(body@),
{
    let b = chars_of(body);
    file_request_chars(b.as_slice())
}

// ---------------------------------------------------------------------------
// Plans
// ---------------------------------------------------------------------------

/// Work on a peer that a request starts in the background.
pub enum Job {
    /// Send a local file to the peer.
    Upload(FileRequest),
    /// Fetch a file from the peer.
    Download(FileRequest),
    /// Restart the peer.
    Restart { peer_id: String, password: String },
    /// Shut the peer down.
    Shutdown { peer_id: String, password: String },
    /// Create a directory on the peer.
    CreateDir { peer_id: String, path: String, password: String },
}

/// What the server does with a request.
pub enum Plan {
    /// Answer with these bytes.
    Respond(Vec<u8>),
    /// Ask the rendezvous server about this peer, then answer with
    /// [`peer_status_response`].
    ProbePeer(String),
    /// Read the peers registered in the rendezvous server's database, then
    /// answer with [`handle_peers`].
    ListPeers,
    /// Start the job in the background and answer with these bytes.
    Start(Job, Vec<u8>),
}

/// A background job, with texts read as character sequences.
pub enum JobView {
    Upload(FileRequestView),
    Download(FileRequestView),
    Restart { peer_id: Seq<char>, password: Seq<char> },
    Shutdown { peer_id: Seq<char>, password: Seq<char> },
    CreateDir { peer_id: Seq<char>, path: Seq<char>, password: Seq<char> },
}

/// A plan, with texts and bytes read as sequences.
pub enum PlanView {
    Respond(Seq<u8>),
    ProbePeer(Seq<char>),
    ListPeers,
    Start(JobView, Seq<u8>),
}

impl View for Job {
    type V = JobView;

    open spec fn view(&self) -> JobView {
        match self {
            Job::Upload(r) => JobView::Upload(r@),
            Job::Download(r) => JobView::Download(r@),
            Job::Restart { peer_id, password } => JobView::Restart {
                peer_id: peer_id@,
                password: password@,
            },
            Job::Shutdown { peer_id, password } => JobView::Shutdown {
                peer_id: peer_id@,
                password: password@,
            },
            Job::CreateDir { peer_id, path, password } => JobView::CreateDir {
                peer_id: peer_id@,
                path: path@,
                password: password@,
            },
        }
    }
}

impl View for Plan {
    type V = PlanView;

    open spec fn view(&self) -> PlanView {
        match self {
            Plan::Respond(b) => PlanView::Respond(b@),
            Plan::ProbePeer(id) => PlanView::ProbePeer(id@),
            Plan::ListPeers => PlanView::ListPeers,
            Plan::Start(j, b) => PlanView::Start(j@, b@),
        }
    }
}

/// The body of the health answer.
pub open spec fn health_body() -> Seq<char> {
    r#"{"status":"ok","server":"rustdesk++","version":"1.4.9-pp"}"#@
}

/// The body of the answer when the peer list could not be read.
pub open spec fn peers_error_body(e: Seq<char>) -> Seq<char> {
    r#"{"error":"peer list unavailable","detail":""#@ + json_escape(e) + r#""}"#@
}

/// The body of the remote execution answer.
pub open spec fn exec_body() -> Seq<char> {
    r#"{"error":"not_implemented","message":"Exec via relay: send script then recv result. Use --send-file + --recv-file in sequence."}"#@
}

/// The body of the answer to an unknown endpoint.
pub open spec fn not_found_body() -> Seq<char> {
    r#"{"error":"not_found"}"#@
}

/// The body of the answer to a peer request without a peer ID.
pub open spec fn missing_peer_body() -> Seq<char> {
    r#"{"error":"peer_id required"}"#@
}

/// The body of the answer to a stub endpoint: the command-line alternative.
pub open spec fn stub_body(s: Stub) -> Seq<char> {
    match s {
        Stub::Screenshot => r#"{"error":"not_implemented","message":"Use CLI: rustdesk --screenshot <id> <output> [password]"}"#@,
        Stub::System => r#"{"error":"not_implemented","message":"Use CLI: rustdesk --exec <id> \"systeminfo.exe\""}"#@,
        Stub::Apps => r#"{"error":"not_implemented","message":"Use CLI: rustdesk --exec <id> \"wmic product get name\""}"#@,
    }
}

/// A request's plan: fixed answers for the health, stub, execution and
/// unknown endpoints; a database read for the peer list; a probe for the
/// peer status (a 400
/// answer without a peer ID); a background job for transfers and peer
/// commands once the fields they need are there (a 400 answer naming them
/// when one is empty).
pub open spec fn plan_spec(req: Seq<char>) -> PlanView {
    let (m, p) = request_line_spec(req);
    let body = body_spec(req);
    let f = file_request_spec(body);
    let password = or_empty(json_field(body, "password"@));
    let path = or_empty(json_field(body, "path"@));
    match route_spec(m, p) {
        RouteView::Health => PlanView::Respond(response_bytes(200, health_body())),
        RouteView::Peers => PlanView::ListPeers,
        RouteView::PeerStatus(id) => if id.len() == 0 {
            PlanView::Respond(response_bytes(400, missing_peer_body()))
        } else {
            PlanView::ProbePeer(id)
        },
        RouteView::PeerStub(s) => PlanView::Respond(response_bytes(501, stub_body(s))),
        RouteView::Restart(id) => if id.len() == 0 {
            PlanView::Respond(response_bytes(400, missing_peer_body()))
        } else {
            PlanView::Start(
                JobView::Restart { peer_id: id, password },
                response_bytes(200, r#"{"success":true,"message":"restart started"}"#@),
            )
        },
        RouteView::Shutdown(id) => if id.len() == 0 {
            PlanView::Respond(response_bytes(400, missing_peer_body()))
        } else {
            PlanView::Start(
                JobView::Shutdown { peer_id: id, password },
                response_bytes(200, r#"{"success":true,"message":"shutdown started"}"#@),
            )
        },
        RouteView::CreateDir(id) => if id.len() == 0 {
            PlanView::Respond(response_bytes(400, missing_peer_body()))
        } else if path.len() == 0 {
            PlanView::Respond(response_bytes(400, r#"{"error":"path required"}"#@))
        } else {
            PlanView::Start(
                JobView::CreateDir { peer_id: id, path, password },
                response_bytes(200, r#"{"success":true,"message":"create_dir started"}"#@),
            )
        },
        RouteView::Upload => if f.peer_id.len() == 0 || f.local.len() == 0 || f.remote.len() == 0 {
            PlanView::Respond(
                response_bytes(400, r#"{"error":"peer_id, local_path, remote_path required"}"#@),
            )
        } else {
            PlanView::Start(
                JobView::Upload(f),
                response_bytes(200, r#"{"success":true,"message":"upload started"}"#@),
            )
        },
        RouteView::Download => if f.peer_id.len() == 0 || f.remote.len() == 0 || f.local.len()
            == 0 {
            PlanView::Respond(
                response_bytes(400, r#"{"error":"peer_id, remote_path, local_path required"}"#@),
            )
        } else {
            PlanView::Start(
                JobView::Download(f),
                response_bytes(200, r#"{"success":true,"message":"download started"}"#@),
            )
        },
        RouteView::Exec => PlanView::Respond(response_bytes(501, exec_body())),
        RouteView::NotFound => PlanView::Respond(response_bytes(404, not_found_body())),
    }
}

/// The answer of the peer list endpoint, given what reading the
/// rendezvous server's database gave: the list of its peers, or a 500
/// answer with the reason it could not be read.
pub fn handle_peers(read: Result<Vec<PeerRecord>, String>) -> (res: Vec<u8>)
    ensures
        res@ == match read {
            Ok(ps) => response_bytes(200, peer_list_body(peer_views(ps@))),
            Err(e) => response_bytes(500, peers_error_body(e@)),
        },
{
    match read {
        Ok(ps) => {
            let body = peer_list_json(&ps);
            json(200, body.as_str())
        },
        Err(e) => {
            let mut body = literal(r#"{"error":"peer list unavailable","detail":""#);
            push_json_escaped(&mut body, e.as_str());
            push_str(&mut body, r#""}"#);
            json(500, body.as_str())
        },
    }
}

/// The answer of the remote execution endpoint, which points to the
/// command line.
pub fn handle_exec() -> (res: Vec<u8>)
    ensures
        res@ == response_bytes(501, exec_body()),
{
    json(
        501,
        r#"{"error":"not_implemented","message":"Exec via relay: send script then recv result. Use --send-file + --recv-file in sequence."}"#,
    )
}

/// The answer of a stub endpoint.
fn stub_response(s: Stub) -> (res: Vec<u8>)
    ensures
        res@ == response_bytes(501, stub_body(s)),
{
    match s {
        Stub::Screenshot => json(
            501,
            r#"{"error":"not_implemented","message":"Use CLI: rustdesk --screenshot <id> <output> [password]"}"#,
        ),
        Stub::System => json(
            501,
            r#"{"error":"not_implemented","message":"Use CLI: rustdesk --exec <id> \"systeminfo.exe\""}"#,
        ),
        Stub::Apps => json(
            501,
            r#"{"error":"not_implemented","message":"Use CLI: rustdesk --exec <id> \"wmic product get name\""}"#,
        ),
    }
}

/// What the server does with a request: the plan of [`plan_spec`].
pub fn handle_request(request: &str) -> (plan: Plan)
    ensures
        plan@ == plan_spec(request@),
{
    let s = chars_of(request);
    let (m, p) = request_line_chars(s.as_slice());
    let body = body_chars(s.as_slice());
    let r = route_chars(m.as_slice(), p.as_slice());
    match r {
        Route::Health => Plan::Respond(
            json(200, r#"{"status":"ok","server":"rustdesk++","version":"1.4.9-pp"}"#),
        ),
        Route::Peers => Plan::ListPeers,
        Route::PeerStatus(id) => {
            if id.as_str().is_empty() {
                Plan::Respond(json(400, r#"{"error":"peer_id required"}"#))
            } else {
                Plan::ProbePeer(id)
            }
        },
        Route::PeerStub(st) => Plan::Respond(stub_response(st)),
        Route::Restart(id) => {
            if id.as_str().is_empty() {
                Plan::Respond(json(400, r#"{"error":"peer_id required"}"#))
            } else {
                let password = field_or_empty(body.as_slice(), "password");
                Plan::Start(
                    Job::Restart { peer_id: id, password },
                    json(200, r#"{"success":true,"message":"restart started"}"#),
                )
            }
        },
        Route::Shutdown(id) => {
            if id.as_str().is_empty() {
                Plan::Respond(json(400, r#"{"error":"peer_id required"}"#))
            } else {
                let password = field_or_empty(body.as_slice(), "password");
                Plan::Start(
                    Job::Shutdown { peer_id: id, password },
                    json(200, r#"{"success":true,"message":"shutdown started"}"#),
                )
            }
        },
        Route::CreateDir(id) => {
            let path = field_or_empty(body.as_slice(), "path");
            if id.as_str().is_empty() {
                Plan::Respond(json(400, r#"{"error":"peer_id required"}"#))
            } else if path.as_str().is_empty() {
                Plan::Respond(json(400, r#"{"error":"path required"}"#))
            } else {
                let password = field_or_empty(body.as_slice(), "password");
                Plan::Start(
                    Job::CreateDir { peer_id: id, path, password },
                    json(200, r#"{"success":true,"message":"create_dir started"}"#),
                )
            }
        },
        Route::Upload => {
            let f = file_request_chars(body.as_slice());
            if f.peer_id.as_str().is_empty() || f.local.as_str().is_empty()
                || f.remote.as_str().is_empty() {
                Plan::Respond(json(400, r#"{"error":"peer_id, local_path, remote_path required"}"#))
            } else {
                Plan::Start(Job::Upload(f), json(200, r#"{"success":true,"message":"upload started"}"#))
            }
        },
        Route::Download => {
            let f = file_request_chars(body.as_slice());
            if f.peer_id.as_str().is_empty() || f.remote.as_str().is_empty()
                || f.local.as_str().is_empty() {
                Plan::Respond(json(400, r#"{"error":"peer_id, remote_path, local_path required"}"#))
            } else {
                Plan::Start(
                    Job::Download(f),
                    json(200, r#"{"success":true,"message":"download started"}"#),
                )
            }
        },
        Route::Exec => Plan::Respond(handle_exec()),
        Route::NotFound => Plan::Respond(json(404, r#"{"error":"not_found"}"#)),
    }
}


// ---------------------------------------------------------------------------
// Peer status
// ---------------------------------------------------------------------------

/// How the question to the rendezvous server about a peer went.
pub enum PeerProbe {
    /// The server could not be reached; the connection error.
    ConnectFailed(String),
    /// The question could not be sent.
    SendFailed,
    /// No answer came in time.
    NoReply,
    /// The server's answer.
    Reply(RendezvousReply),
}

/// The status word for a failure code: unnamed codes read as an unknown
/// ID, and an overused licence as unknown.
pub open spec fn status_word(f: PunchFailure) -> Seq<char> {
    match f {
        PunchFailure::Offline => "offline"@,
        PunchFailure::IdNotExist => "not_found"@,
        PunchFailure::Unrecognized(_) => "not_found"@,
        PunchFailure::LicenseMismatch => "key_mismatch"@,
        PunchFailure::LicenseOveruse => "unknown"@,
    }
}

/// The JSON object that reports a peer's status: online (and whether by
/// relay) when the server gives a relay or an address, else the failure's
/// status word; an error object when the probe itself failed.
pub open spec fn peer_status_spec(id: Seq<char>, probe: PeerProbe) -> Seq<char> {
    let head = r#"{"peer_id":""#@ + id;
    match probe {
        PeerProbe::ConnectFailed(e) => head + r#"","error":"connect: "#@ + e@ + r#""}"#@,
        PeerProbe::SendFailed => head + r#"","error":"send failed"}"#@,
        PeerProbe::NoReply => head + r#"","error":"timeout"}"#@,
        PeerProbe::Reply(RendezvousReply::PunchHole(p)) => if p.relay_server@.len() != 0
            || p.socket_addr@.len() != 0 {
            head + r#"","status":"online","relay":"#@ + (if p.relay_server@.len() != 0 {
                "true"@
            } else {
                "false"@
            }) + "}"@
        } else {
            head + r#"","status":""#@ + status_word(p.failure) + r#""}"#@
        },
        PeerProbe::Reply(RendezvousReply::Relay(_)) => head
            + r#"","status":"online","relay":true}"#@,
        PeerProbe::Reply(RendezvousReply::Other) => head + r#"","status":"unknown"}"#@,
    }
}

/// The JSON object that reports a peer's status.
pub fn peer_status_body(peer_id: &str, probe: PeerProbe) -> (res: String)
    ensures
        res@ == peer_status_spec(peer_id@, probe),
{
    let mut s = literal(r#"{"peer_id":""#);
    push_str(&mut s, peer_id);
    match probe {
        PeerProbe::ConnectFailed(e) => {
            push_str(&mut s, r#"","error":"connect: "#);
            push_str(&mut s, e.as_str());
            push_str(&mut s, r#""}"#);
        },
        PeerProbe::SendFailed => push_str(&mut s, r#"","error":"send failed"}"#),
        PeerProbe::NoReply => push_str(&mut s, r#"","error":"timeout"}"#),
        PeerProbe::Reply(RendezvousReply::PunchHole(p)) => {
            let relay = !p.relay_server.as_str().is_empty();
            if relay || p.socket_addr.len() != 0 {
                push_str(&mut s, r#"","status":"online","relay":"#);
                if relay {
                    push_str(&mut s, "true");
                } else {
                    push_str(&mut s, "false");
                }
                push_str(&mut s, "}");
            } else {
                push_str(&mut s, r#"","status":""#);
                match p.failure {
                    PunchFailure::Offline => push_str(&mut s, "offline"),
                    PunchFailure::IdNotExist => push_str(&mut s, "not_found"),
                    PunchFailure::Unrecognized(_) => push_str(&mut s, "not_found"),
                    PunchFailure::LicenseMismatch => push_str(&mut s, "key_mismatch"),
                    PunchFailure::LicenseOveruse => push_str(&mut s, "unknown"),
                }
                push_str(&mut s, r#""}"#);
            }
        },
        PeerProbe::Reply(RendezvousReply::Relay(_)) => push_str(
            &mut s,
            r#"","status":"online","relay":true}"#,
        ),
        PeerProbe::Reply(RendezvousReply::Other) => push_str(&mut s, r#"","status":"unknown"}"#),
    }
    s
}

/// The answer of the peer status endpoint: status 200 with the report.
pub fn peer_status_response(peer_id: &str, probe: PeerProbe) -> (res: Vec<u8>)
    ensures
        res@ == response_bytes(200, peer_status_spec(peer_id@, probe)),
{
    let body = peer_status_body(peer_id, probe);
    json(200, body.as_str())
}

} // verus!
