//! File transfer decisions: target paths, peer lists, and what to do with
//! each message that a peer sends during a transfer.

use vstd::prelude::*;
use crate::text::literal;
use crate::text::{
    chars_of, decimal, decimal_exec, ends_with, ends_with_exec, keep_nonempty, last_index_exec,
    last_index_of, nonempty, push_chars, push_str, sep_pred, slice_to_vec, split_by, split_exec,
    starts_with, starts_with_exec, string_from, tokens, tokens_exec, trim, trim_exec, views, Sep,
};

verus! {

// ---------------------------------------------------------------------------
// Paths
// ---------------------------------------------------------------------------

/// The path a sent file gets on the peer: the remote path with the file's
/// name added when the remote path ends with a slash or a backslash, else
/// the remote path itself.
pub open spec fn remote_file_path_spec(remote: Seq<char>, name: Seq<char>) -> Seq<char> {
    if ends_with(remote, seq!['/']) || ends_with(remote, seq!['\\']) {
        remote + name
    } else {
        remote
    }
}

/// The path a sent file gets on the peer.
pub fn remote_file_path(remote_path: &str, file_name: &str) -> (res: String)
    ensures
        res@ == remote_file_path_spec(remote_path@, file_name@),
{
    let r = chars_of(remote_path);
    let mut slash: Vec<char> = Vec::new();
    slash.push('/');
    let mut back: Vec<char> = Vec::new();
    back.push('\\');
    assert(slash@ == seq!['/']);
    assert(back@ == seq!['\\']);
    let mut s = string_from(r.as_slice());
    if ends_with_exec(r.as_slice(), slash.as_slice()) || ends_with_exec(
        r.as_slice(),
        back.as_slice(),
    ) {
        push_str(&mut s, file_name);
    }
    s
}

/// `s` without its trailing slashes (`trim_end_matches('/')`).
pub open spec fn trim_slashes(s: Seq<char>) -> Seq<char>
    decreases s.len(),
{
    if s.len() > 0 && s.last() == '/' {
        trim_slashes(s.drop_last())
    } else {
        s
    }
}

/// A directory path and a name joined by one slash.
pub open spec fn join_path_spec(dir: Seq<char>, name: Seq<char>) -> Seq<char> {
    trim_slashes(dir) + seq!['/'] + name
}

/// A directory path and a name joined by one slash, the directory's
/// trailing slashes dropped.
pub fn join_path(dir: &str, name: &str) -> (res: String)
    ensures
        res@ == join_path_spec(dir@, name@),
{
    let d = chars_of(dir);
    let mut hi = d.len();
    assert(d@.take(d@.len() as int) == d@);
    while hi > 0 && d[hi - 1] == '/'
        invariant
            hi <= d@.len(),
            trim_slashes(d@) == trim_slashes(d@.take(hi as int)),
        decreases hi,
    {
        assert(d@.take(hi as int).drop_last() == d@.take(hi - 1));
        hi -= 1;
    }
    assert(d@.take(hi as int) == d@.subrange(0, hi as int));
    let mut s = crate::text::substring(d.as_slice(), 0, hi);
    let mut sl: Vec<char> = Vec::new();
    sl.push('/');
    push_chars(&mut s, sl.as_slice());
    push_str(&mut s, name);
    s
}

// ---------------------------------------------------------------------------
// Peer lists
// ---------------------------------------------------------------------------

/// The texts of `ss`, each trimmed.
pub open spec fn trimmed(ss: Seq<Seq<char>>) -> Seq<Seq<char>> {
    ss.map_values(|t: Seq<char>| trim(t))
}

/// The peer IDs of a comma-separated list: each piece trimmed, empty ones
/// dropped.
pub open spec fn peer_ids_spec(s: Seq<char>) -> Seq<Seq<char>> {
    nonempty(trimmed(split_by(s, sep_pred(Sep::Char(',')))))
}

/// The views of a sequence of strings.
pub open spec fn string_views(v: Seq<String>) -> Seq<Seq<char>> {
    v.map_values(|x: String| x@)
}

/// The peer IDs of a comma-separated list; an error when there are none.
pub fn parse_peer_ids(peer_ids: &str) -> (res: Result<Vec<String>, String>)
    ensures
        match res {
            Ok(v) => string_views(v@) == peer_ids_spec(peer_ids@) && v@.len() > 0,
            Err(e) => peer_ids_spec(peer_ids@).len() == 0 && e@ == "no peer IDs provided"@,
        },
{
    let s = chars_of(peer_ids);
    let pieces = split_exec(s.as_slice(), Sep::Char(','));
    let mut t: Vec<Vec<char>> = Vec::new();
    let mut i: usize = 0;
    while i < pieces.len()
        invariant
            i <= pieces@.len(),
            views(t@) == trimmed(views(pieces@)).take(i as int),
        decreases pieces@.len() - i,
    {
        let p = trim_exec(pieces[i].as_slice());
        t.push(p);
        assert(trimmed(views(pieces@)).take(i + 1) == trimmed(views(pieces@)).take(i as int).push(
            trim(pieces@[i as int]@),
        ));
        i += 1;
    }
    assert(trimmed(views(pieces@)).take(pieces@.len() as int) == trimmed(views(pieces@)));
    let ids = keep_nonempty(t);
    if ids.len() == 0 {
        return Err(literal("no peer IDs provided"));
    }
    let mut out: Vec<String> = Vec::new();
    let mut j: usize = 0;
    while j < ids.len()
        invariant
            j <= ids@.len(),
            string_views(out@) == views(ids@).take(j as int),
        decreases ids@.len() - j,
    {
        out.push(string_from(ids[j].as_slice()));
        assert(views(ids@).take(j + 1) == views(ids@).take(j as int).push(ids@[j as int]@));
        j += 1;
    }
    assert(views(ids@).take(ids@.len() as int) == views(ids@));
    Ok(out)
}

/// The report line of one transfer: the label with `ok`, or with the error.
pub open spec fn outcome_entry_spec(label: Seq<char>, outcome: Result<(), String>) -> (Seq<char>, Seq<char>) {
    match outcome {
        Ok(()) => (label, "ok"@),
        Err(e) => (label, "error: "@ + e@),
    }
}

/// The report line of one transfer of a broadcast or a collection.
pub fn outcome_entry(label: &str, outcome: Result<(), String>) -> (res: (String, String))
    ensures
        (res.0@, res.1@) == outcome_entry_spec(label@, outcome),
{
    match outcome {
        Ok(()) => (literal(label), literal("ok")),
        Err(e) => {
            let mut m = literal("error: ");
            push_str(&mut m, e.as_str());
            (literal(label), m)
        },
    }
}

// ---------------------------------------------------------------------------
// Directory listings
// ---------------------------------------------------------------------------

/// The kind of a directory entry.
pub enum EntryType {
    Dir,
    DirLink,
    DirDrive,
    File,
    FileLink,
    /// A kind code that the protocol version we speak does not name.
    Unknown,
}

/// One entry of a peer's directory listing.
pub struct DirEntry {
    pub entry_type: EntryType,
    pub name: String,
    pub size: u64,
}

/// The kind word of an entry: `DIR` for directories and drives, `FILE`
/// for everything else.
pub open spec fn kind_word(t: EntryType) -> Seq<char> {
    match t {
        EntryType::Dir => "DIR"@,
        EntryType::DirDrive => "DIR"@,
        _ => "FILE"@,
    }
}

/// The line that lists an entry: `[KIND] name SIZEb`.
pub open spec fn entry_line_spec(e: DirEntry) -> Seq<char> {
    "["@ + kind_word(e.entry_type) + "] "@ + e.name@ + " "@ + decimal(e.size as nat) + "b"@
}

/// The line that lists an entry.
pub fn entry_line(e: &DirEntry) -> (res: String)
    ensures
        res@ == entry_line_spec(*e),
{
    let mut s = literal("[");
    match e.entry_type {
        EntryType::Dir => push_str(&mut s, "DIR"),
        EntryType::DirDrive => push_str(&mut s, "DIR"),
        _ => push_str(&mut s, "FILE"),
    }
    push_str(&mut s, "] ");
    push_str(&mut s, e.name.as_str());
    push_str(&mut s, " ");
    let d = decimal_exec(e.size);
    push_chars(&mut s, d.as_slice());
    push_str(&mut s, "b");
    s
}

/// The peer's answer to a directory listing request.
pub enum DirReply {
    /// The entries of the directory.
    Entries(Vec<DirEntry>),
    /// An error from the peer.
    Error(String),
    /// Another file response.
    Other,
}

/// The lines of a listing.
pub open spec fn entry_lines(es: Seq<DirEntry>) -> Seq<Seq<char>> {
    es.map_values(|e: DirEntry| entry_line_spec(e))
}

/// What a listing request yields: the entry lines, the peer's error, or
/// an error for an unexpected answer.
pub open spec fn list_result_spec(r: DirReply) -> Result<Seq<Seq<char>>, Seq<char>> {
    match r {
        DirReply::Entries(es) => Ok(entry_lines(es@)),
        DirReply::Error(e) => Err("remote: "@ + e@),
        DirReply::Other => Err("unexpected response"@),
    }
}

/// What a listing request yields.
pub fn list_result(r: DirReply) -> (res: Result<Vec<String>, String>)
    ensures
        match res {
            Ok(v) => list_result_spec(r) == Ok::<Seq<Seq<char>>, Seq<char>>(string_views(v@)),
            Err(e) => list_result_spec(r) == Err::<Seq<Seq<char>>, Seq<char>>(e@),
        },
{
    match r {
        DirReply::Entries(es) => {
            let mut out: Vec<String> = Vec::new();
            let mut i: usize = 0;
            while i < es.len()
                invariant
                    i <= es@.len(),
                    string_views(out@) == entry_lines(es@).take(i as int),
                decreases es@.len() - i,
            {
                out.push(entry_line(&es[i]));
                assert(entry_lines(es@).take(i + 1) == entry_lines(es@).take(i as int).push(
                    entry_line_spec(es@[i as int]),
                ));
                i += 1;
            }
            assert(entry_lines(es@).take(es@.len() as int) == entry_lines(es@));
            Ok(out)
        },
        DirReply::Error(e) => {
            let mut m = literal("remote: ");
            push_str(&mut m, e.as_str());
            Err(m)
        },
        DirReply::Other => Err(literal("unexpected response")),
    }
}


// ---------------------------------------------------------------------------
// Collecting files from peers
// ---------------------------------------------------------------------------

/// The marker that opens the listing line of a file.
pub open spec fn file_marker() -> Seq<char> {
    "[FILE] "@
}

/// The name of the file that a listing line names, if the line lists a
/// file: the text between the `[FILE] ` marker and the last space (the
/// one before the size), when that text is not empty.
pub open spec fn listed_file_spec(line: Seq<char>) -> Option<Seq<char>> {
    if starts_with(line, file_marker()) {
        let rest = line.skip(file_marker().len() as int);
        match last_index_of(rest, ' ') {
            Some(k) => if k > 0 {
                Some(rest.take(k))
            } else {
                None
            },
            None => None,
        }
    } else {
        None
    }
}

/// The name of the file that a listing line names, if any.
pub fn listed_file(line: &str) -> (res: Option<String>)
    ensures
        match res {
            Some(n) => listed_file_spec(line@) == Some(n@),
            None => listed_file_spec(line@) is None,
        },
{
    let l = chars_of(line);
    let tag = chars_of("[FILE] ");
    if !starts_with_exec(l.as_slice(), tag.as_slice()) {
        return None;
    }
    let rest = slice_to_vec(l.as_slice(), tag.len(), l.len());
    assert(rest@ == l@.skip(file_marker().len() as int));
    match last_index_exec(rest.as_slice(), ' ') {
        Some(k) => {
            if k > 0 {
                let name = slice_to_vec(rest.as_slice(), 0, k);
                assert(name@ == rest@.take(k as int));
                Some(string_from(name.as_slice()))
            } else {
                None
            }
        },
        None => None,
    }
}

/// One file to fetch while collecting from a peer.
pub struct CollectItem {
    /// `peer:name`, the label of the file in the report.
    pub label: String,
    /// The file's path on the peer.
    pub remote: String,
    /// The path to store it at.
    pub local: String,
}

/// The files to fetch from one peer, in listing order: each listed file,
/// labelled `peer:name`, fetched from the remote directory into the local
/// one.
pub open spec fn collect_items_spec(
    peer: Seq<char>,
    remote_dir: Seq<char>,
    local_dir: Seq<char>,
    lines: Seq<Seq<char>>,
) -> Seq<(Seq<char>, Seq<char>, Seq<char>)>
    decreases lines.len(),
{
    if lines.len() == 0 {
        seq![]
    } else {
        let prev = collect_items_spec(peer, remote_dir, local_dir, lines.drop_last());
        match listed_file_spec(lines.last()) {
            Some(n) => prev.push(
                (peer + ":"@ + n, join_path_spec(remote_dir, n), join_path_spec(local_dir, n)),
            ),
            None => prev,
        }
    }
}

/// An item read as three texts.
pub open spec fn item_views(v: Seq<CollectItem>) -> Seq<(Seq<char>, Seq<char>, Seq<char>)> {
    v.map_values(|x: CollectItem| (x.label@, x.remote@, x.local@))
}

/// The files to fetch from one peer, given its listing lines.
pub fn collect_items(peer: &str, remote_dir: &str, local_dir: &str, lines: &Vec<String>) -> (res:
    Vec<CollectItem>)
    ensures
        item_views(res@) == collect_items_spec(peer@, remote_dir@, local_dir@, string_views(lines@)),
{
    let mut out: Vec<CollectItem> = Vec::new();
    let mut i: usize = 0;
    assert(string_views(lines@).take(0) == Seq::<Seq<char>>::empty());
    while i < lines.len()
        invariant
            i <= lines@.len(),
            item_views(out@) == collect_items_spec(
                peer@,
                remote_dir@,
                local_dir@,
                string_views(lines@).take(i as int),
            ),
        decreases lines@.len() - i,
    {
        let ghost pre = string_views(lines@).take(i as int);
        assert(string_views(lines@).take(i + 1).drop_last() == pre);
        assert(string_views(lines@).take(i + 1).last() == lines@[i as int]@);
        match listed_file(lines[i].as_str()) {
            Some(name) => {
                let mut label = literal(peer);
                push_str(&mut label, ":");
                push_str(&mut label, name.as_str());
                let remote = join_path(remote_dir, name.as_str());
                let local = join_path(local_dir, name.as_str());
                out.push(CollectItem { label, remote, local });
            },
            None => {},
        }
        i += 1;
    }
    assert(string_views(lines@).take(lines@.len() as int) == string_views(lines@));
    out
}

// ---------------------------------------------------------------------------
// Messages during a transfer
// ---------------------------------------------------------------------------

/// What was read while receiving a file.
pub enum RecvEvent {
    /// Nothing within the wait, or a failed read.
    NoMessage,
    /// Bytes that are not a message.
    Unparsable,
    /// The file's digest.
    Digest,
    /// A block of the file's content, compressed or not.
    Block { compressed: bool },
    /// The end of the file.
    Done,
    /// An error from the peer.
    Error(String),
    /// Another file response.
    OtherFileResponse,
    /// Any other message (handshake leftovers included).
    Other,
}

/// What to do with what was read while receiving a file.
pub enum RecvAction {
    /// Stop with this error.
    Fail(String),
    /// Read on.
    Skip,
    /// Send the digest back as confirmation, then read on.
    Confirm,
    /// Write the block's data to the file (decompressed first when
    /// `decompress` is set), then read on.
    Write { decompress: bool },
    /// The file is complete.
    Finish,
}

/// A digest is confirmed, a block written (a compressed one decompressed
/// first, so the file holds the remote file's own bytes), the end
/// finishes; silence is an error, and so is an error from the peer;
/// anything else is skipped.
pub open spec fn recv_action_spec(ev: RecvEvent, a: RecvAction) -> bool {
    match ev {
        RecvEvent::NoMessage => a is Fail && a->Fail_0@ == "recv timeout"@,
        RecvEvent::Digest => a is Confirm,
        RecvEvent::Block { compressed } => a matches RecvAction::Write { decompress }
            && decompress == compressed,
        RecvEvent::Done => a is Finish,
        RecvEvent::Error(e) => a is Fail && a->Fail_0@ == "remote error: "@ + e@,
        _ => a is Skip,
    }
}

/// What to do with what was read while receiving a file.
pub fn recv_action(ev: RecvEvent) -> (a: RecvAction)
    ensures
        recv_action_spec(ev, a),
{
    match ev {
        RecvEvent::NoMessage => RecvAction::Fail(literal("recv timeout")),
        RecvEvent::Digest => RecvAction::Confirm,
        RecvEvent::Block { compressed } => RecvAction::Write { decompress: compressed },
        RecvEvent::Done => RecvAction::Finish,
        RecvEvent::Error(e) => {
            let mut m = literal("remote error: ");
            push_str(&mut m, e.as_str());
            RecvAction::Fail(m)
        },
        _ => RecvAction::Skip,
    }
}

/// Where the name of a path starts: just past its last `/` or `\`, or at
/// its start when it has neither.
pub open spec fn name_start(s: Seq<char>) -> int
    decreases s.len(),
{
    if s.len() == 0 {
        0
    } else if s.last() == '/' || s.last() == '\\' {
        s.len() as int
    } else {
        name_start(s.drop_last())
    }
}

/// The name of a remote file: its path after the last `/` or `\`.
pub open spec fn remote_file_name(remote: Seq<char>) -> Seq<char> {
    remote.skip(name_start(remote))
}

/// Where a received file is saved: a local path that ends with `/` or
/// `\` names a directory, and the file is saved in it under the remote
/// file's name; any other local path is the file's own path.
pub open spec fn recv_target_spec(remote: Seq<char>, local: Seq<char>) -> Seq<char> {
    if ends_with(local, seq!['/']) || ends_with(local, seq!['\\']) {
        local + remote_file_name(remote)
    } else {
        local
    }
}

/// Where the name of a path starts.
fn name_start_exec(s: &[char]) -> (k: usize)
    ensures
        k == name_start(s@),
        k <= s@.len(),
{
    let mut m = s.len();
    assert(s@.take(m as int) == s@);
    while m > 0
        invariant
            m <= s@.len(),
            name_start(s@) == name_start(s@.take(m as int)),
        decreases m,
    {
        assert(s@.take(m as int).last() == s@[m - 1]);
        if s[m - 1] == '/' || s[m - 1] == '\\' {
            return m;
        }
        assert(s@.take(m as int).drop_last() == s@.take(m - 1));
        m -= 1;
    }
    0
}

/// Where a received file is saved.
pub fn recv_target(remote_path: &str, local_path: &str) -> (res: String)
    ensures
        res@ == recv_target_spec(remote_path@, local_path@),
{
    let r = chars_of(remote_path);
    let l = chars_of(local_path);
    let mut slash: Vec<char> = Vec::new();
    slash.push('/');
    let mut back: Vec<char> = Vec::new();
    back.push('\\');
    let mut res = literal(local_path);
    if ends_with_exec(l.as_slice(), slash.as_slice()) || ends_with_exec(l.as_slice(), back.as_slice()) {
        let k = name_start_exec(r.as_slice());
        let name = slice_to_vec(r.as_slice(), k, r.len());
        assert(name@ == remote_file_name(r@));
        push_chars(&mut res, name.as_slice());
    }
    res
}

/// What was read while waiting for a file response.
pub enum ReplyEvent {
    /// Nothing within the wait.
    Timeout,
    /// The read failed; the error.
    RecvError(String),
    /// The bytes are not a message; the parse error.
    ParseError(String),
    /// A file response.
    FileResponse,
    /// Any other message.
    Other,
}

/// What to do with what was read while waiting for a file response.
pub enum ReplyAction {
    /// Stop with this error.
    Fail(String),
    /// Read on.
    Skip,
    /// This is the answer.
    Take,
}

/// A file response is the answer, other messages are skipped, and every
/// failure to read one is an error.
pub open spec fn reply_action_spec(ev: ReplyEvent, a: ReplyAction) -> bool {
    match ev {
        ReplyEvent::Timeout => a is Fail && a->Fail_0@ == "timeout"@,
        ReplyEvent::RecvError(e) => a is Fail && a->Fail_0@ == "recv: "@ + e@,
        ReplyEvent::ParseError(e) => a is Fail && a->Fail_0@ == "parse: "@ + e@,
        ReplyEvent::FileResponse => a is Take,
        ReplyEvent::Other => a is Skip,
    }
}

/// What to do with what was read while waiting for a file response.
pub fn reply_action(ev: ReplyEvent) -> (a: ReplyAction)
    ensures
        reply_action_spec(ev, a),
{
    match ev {
        ReplyEvent::Timeout => ReplyAction::Fail(literal("timeout")),
        ReplyEvent::RecvError(e) => {
            let mut m = literal("recv: ");
            push_str(&mut m, e.as_str());
            ReplyAction::Fail(m)
        },
        ReplyEvent::ParseError(e) => {
            let mut m = literal("parse: ");
            push_str(&mut m, e.as_str());
            ReplyAction::Fail(m)
        },
        ReplyEvent::FileResponse => ReplyAction::Take,
        ReplyEvent::Other => ReplyAction::Skip,
    }
}

/// What was read while waiting for a screenshot.
pub enum ShotEvent {
    /// Nothing within the wait, or a failed read.
    NoMessage,
    /// Bytes that are not a message.
    Unparsable,
    /// A screenshot response: the image data and a message.
    Response { data: Vec<u8>, msg: String },
    /// Any other message.
    Other,
}

/// What to do with what was read while waiting for a screenshot.
pub enum ShotAction {
    /// Stop with this error.
    Fail(String),
    /// Read on.
    Skip,
    /// Save these bytes as the screenshot.
    Save(Vec<u8>),
}

/// A response with data is saved; one without data but with a message is
/// an error; silence is an error; anything else is skipped.
pub open spec fn shot_action_spec(ev: ShotEvent, a: ShotAction) -> bool {
    match ev {
        ShotEvent::NoMessage => a is Fail && a->Fail_0@ == "screenshot: no response"@,
        ShotEvent::Response { data, msg } => if data@.len() != 0 {
            a is Save && a->Save_0@ == data@
        } else if msg@.len() != 0 {
            a is Fail && a->Fail_0@ == "screenshot error: "@ + msg@
        } else {
            a is Skip
        },
        _ => a is Skip,
    }
}

/// What to do with what was read while waiting for a screenshot.
pub fn shot_action(ev: ShotEvent) -> (a: ShotAction)
    ensures
        shot_action_spec(ev, a),
{
    match ev {
        ShotEvent::NoMessage => ShotAction::Fail(literal("screenshot: no response")),
        ShotEvent::Response { data, msg } => {
            if data.len() != 0 {
                ShotAction::Save(data)
            } else if !msg.as_str().is_empty() {
                let mut m = literal("screenshot error: ");
                push_str(&mut m, msg.as_str());
                ShotAction::Fail(m)
            } else {
                ShotAction::Skip
            }
        },
        _ => ShotAction::Skip,
    }
}

} // verus!
