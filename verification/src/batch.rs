//! Batch manifests: reading the list of operations, and the report line
//! of each operation once it has run.
//!
//! A manifest is JSON text with a default `password` and an `operations`
//! array of objects, each naming an `op`, a `peer_id` and the op's fields.

use vstd::prelude::*;
use crate::json::{field_or_empty, json_array_range, json_array_span, json_field, json_field_chars, object_pieces, or_empty, split_objects};
use crate::text::literal;
use crate::text::{chars_of, decimal, decimal_exec, eq_str, push_chars, push_str, slice_to_vec, string_from, views};

verus! {

/// An operation of a manifest.
pub enum OpKind {
    SendFile { local: String, remote: String },
    RecvFile { remote: String, local: String },
    ListDir { path: String },
    DeleteRemote { path: String },
    MoveRemote { old: String, new: String },
    SendDir { local: String, remote: String },
    CreateDir { path: String },
    Restart,
    Shutdown,
    Screenshot { output: String },
    PeerInfo,
    /// An `op` that the manifest format does not name.
    Unknown { op: String },
}

/// An operation with its peer and the password to log in with.
pub struct BatchOp {
    pub peer_id: String,
    pub password: String,
    pub kind: OpKind,
}

/// An operation, with texts read as character sequences.
pub enum OpKindView {
    SendFile { local: Seq<char>, remote: Seq<char> },
    RecvFile { remote: Seq<char>, local: Seq<char> },
    ListDir { path: Seq<char> },
    DeleteRemote { path: Seq<char> },
    MoveRemote { old: Seq<char>, new: Seq<char> },
    SendDir { local: Seq<char>, remote: Seq<char> },
    CreateDir { path: Seq<char> },
    Restart,
    Shutdown,
    Screenshot { output: Seq<char> },
    PeerInfo,
    Unknown { op: Seq<char> },
}

/// A batch operation, with texts read as character sequences.
pub struct BatchOpView {
    pub peer_id: Seq<char>,
    pub password: Seq<char>,
    pub kind: OpKindView,
}

impl View for OpKind {
    type V = OpKindView;

    open spec fn view(&self) -> OpKindView {
        match self {
            OpKind::SendFile { local, remote } => OpKindView::SendFile {
                local: local@,
                remote: remote@,
            },
            OpKind::RecvFile { remote, local } => OpKindView::RecvFile {
                remote: remote@,
                local: local@,
            },
            OpKind::ListDir { path } => OpKindView::ListDir { path: path@ },
            OpKind::DeleteRemote { path } => OpKindView::DeleteRemote { path: path@ },
            OpKind::MoveRemote { old, new } => OpKindView::MoveRemote { old: old@, new: new@ },
            OpKind::SendDir { local, remote } => OpKindView::SendDir {
                local: local@,
                remote: remote@,
            },
            OpKind::CreateDir { path } => OpKindView::CreateDir { path: path@ },
            OpKind::Restart => OpKindView::Restart,
            OpKind::Shutdown => OpKindView::Shutdown,
            OpKind::Screenshot { output } => OpKindView::Screenshot { output: output@ },
            OpKind::PeerInfo => OpKindView::PeerInfo,
            OpKind::Unknown { op } => OpKindView::Unknown { op: op@ },
        }
    }
}

impl View for BatchOp {
    type V = BatchOpView;

    open spec fn view(&self) -> BatchOpView {
        BatchOpView { peer_id: self.peer_id@, password: self.password@, kind: self.kind@ }
    }
}

/// `o`, or `d` when there is none.
pub open spec fn or_text(o: Option<Seq<char>>, d: Seq<char>) -> Seq<char> {
    match o {
        Some(v) => v,
        None => d,
    }
}

/// The operation that an object of the `operations` array describes; the
/// object's own `password` overrides the manifest's.
pub open spec fn op_spec(obj: Seq<char>, password: Seq<char>) -> BatchOpView {
    let op = or_empty(json_field(obj, "op"@));
    let local = or_empty(json_field(obj, "local"@));
    let remote = or_empty(json_field(obj, "remote"@));
    let path = or_empty(json_field(obj, "path"@));
    BatchOpView {
        peer_id: or_empty(json_field(obj, "peer_id"@)),
        password: or_text(json_field(obj, "password"@), password),
        kind: if op == "send_file"@ {
            OpKindView::SendFile { local, remote }
        } else if op == "recv_file"@ {
            OpKindView::RecvFile { remote, local }
        } else if op == "list_dir"@ {
            OpKindView::ListDir { path }
        } else if op == "delete_remote"@ {
            OpKindView::DeleteRemote { path }
        } else if op == "move_remote"@ {
            OpKindView::MoveRemote {
                old: or_empty(json_field(obj, "old"@)),
                new: or_empty(json_field(obj, "new"@)),
            }
        } else if op == "send_dir"@ {
            OpKindView::SendDir { local, remote }
        } else if op == "create_dir"@ {
            OpKindView::CreateDir { path }
        } else if op == "restart"@ {
            OpKindView::Restart
        } else if op == "shutdown"@ {
            OpKindView::Shutdown
        } else if op == "screenshot"@ {
            OpKindView::Screenshot {
                output: or_text(json_field(obj, "output"@), "screenshot.png"@),
            }
        } else if op == "peer_info"@ {
            OpKindView::PeerInfo
        } else {
            OpKindView::Unknown { op }
        },
    }
}

/// The text of a manifest outside its operations array: where the
/// manifest's own fields stand.
pub open spec fn outside_operations(content: Seq<char>, a: int, b: int) -> Seq<char> {
    content.take(a) + content.skip(b)
}

/// The operations of a manifest, in order: the objects that the
/// `operations` array is cut into, each read with the manifest's own
/// `password` (the one outside the array), else `default_password`; an
/// error when there is no array.
pub open spec fn manifest_spec(content: Seq<char>, default_password: Seq<char>) -> Result<
    Seq<BatchOpView>,
    Seq<char>,
> {
    match json_array_span(content, "operations"@) {
        None => Err("no operations in manifest"@),
        Some((a, b)) => {
            let password = or_text(
                json_field(outside_operations(content, a, b), "password"@),
                default_password,
            );
            Ok(
                object_pieces(content.subrange(a, b)).map_values(
                    |o: Seq<char>| op_spec(o, password),
                ),
            )
        },
    }
}

/// The views of a sequence of operations.
pub open spec fn op_views(v: Seq<BatchOp>) -> Seq<BatchOpView> {
    v.map_values(|x: BatchOp| x@)
}

/// The value of field `key`, or `d`.
fn field_or(obj: &[char], key: &str, d: &str) -> (res: String)
    ensures
        res@ == or_text(json_field(obj@, key@), d@),
{
    match json_field_chars(obj, key) {
        Some(v) => string_from(v.as_slice()),
        None => literal(d),
    }
}

/// The value of field `key`, or the text `d`.
fn field_or_string(obj: &[char], key: &str, d: &String) -> (res: String)
    ensures
        res@ == or_text(json_field(obj@, key@), d@),
{
    match json_field_chars(obj, key) {
        Some(v) => string_from(v.as_slice()),
        None => d.clone(),
    }
}

/// The operation that one object describes.
fn parse_op(obj: &[char], password: &String) -> (res: BatchOp)
    ensures
        res@ == op_spec(obj@, password@),
{
    let opv = match json_field_chars(obj, "op") {
        Some(v) => v,
        None => Vec::new(),
    };
    let op = opv.as_slice();
    assert(op@ == or_empty(json_field(obj@, "op"@)));
    let peer_id = field_or_empty(obj, "peer_id");
    let pwd = field_or_string(obj, "password", password);
    let kind = if eq_str(op, "send_file") {
        OpKind::SendFile { local: field_or_empty(obj, "local"), remote: field_or_empty(obj, "remote") }
    } else if eq_str(op, "recv_file") {
        OpKind::RecvFile { remote: field_or_empty(obj, "remote"), local: field_or_empty(obj, "local") }
    } else if eq_str(op, "list_dir") {
        OpKind::ListDir { path: field_or_empty(obj, "path") }
    } else if eq_str(op, "delete_remote") {
        OpKind::DeleteRemote { path: field_or_empty(obj, "path") }
    } else if eq_str(op, "move_remote") {
        OpKind::MoveRemote { old: field_or_empty(obj, "old"), new: field_or_empty(obj, "new") }
    } else if eq_str(op, "send_dir") {
        OpKind::SendDir { local: field_or_empty(obj, "local"), remote: field_or_empty(obj, "remote") }
    } else if eq_str(op, "create_dir") {
        OpKind::CreateDir { path: field_or_empty(obj, "path") }
    } else if eq_str(op, "restart") {
        OpKind::Restart
    } else if eq_str(op, "shutdown") {
        OpKind::Shutdown
    } else if eq_str(op, "screenshot") {
        OpKind::Screenshot { output: field_or(obj, "output", "screenshot.png") }
    } else if eq_str(op, "peer_info") {
        OpKind::PeerInfo
    } else {
        OpKind::Unknown { op: string_from(op) }
    };
    BatchOp { peer_id, password: pwd, kind }
}

/// The operations of a manifest's text, in order.
pub fn parse_manifest(content: &str, default_password: &str) -> (res: Result<Vec<BatchOp>, String>)
    ensures
        match res {
            Ok(v) => manifest_spec(content@, default_password@) == Ok::<
                Seq<BatchOpView>,
                Seq<char>,
            >(op_views(v@)),
            Err(e) => manifest_spec(content@, default_password@) == Err::<
                Seq<BatchOpView>,
                Seq<char>,
            >(e@),
        },
{
    let c = chars_of(content);
    let (a, b) = match json_array_range(c.as_slice(), "operations") {
        Some(r) => r,
        None => {
            return Err(literal("no operations in manifest"));
        },
    };
    let mut own = slice_to_vec(c.as_slice(), 0, a);
    let rest = slice_to_vec(c.as_slice(), b, c.len());
    let mut j: usize = 0;
    let ghost head = own@;
    while j < rest.len()
        invariant
            j <= rest@.len(),
            own@ == head + rest@.take(j as int),
        decreases rest@.len() - j,
    {
        own.push(rest[j]);
        assert(rest@.take(j + 1) == rest@.take(j as int).push(rest@[j as int]));
        j += 1;
    }
    assert(rest@.take(rest@.len() as int) == rest@);
    assert(own@ == outside_operations(c@, a as int, b as int));
    let password = field_or(own.as_slice(), "password", default_password);
    let block = slice_to_vec(c.as_slice(), a, b);
    let objs = split_objects(block.as_slice());
    let ghost pieces = object_pieces(block@);
    let mut ops: Vec<BatchOp> = Vec::new();
    let mut i: usize = 0;
    while i < objs.len()
        invariant
            i <= objs@.len(),
            views(objs@) == pieces,
            op_views(ops@) == pieces.take(i as int).map_values(
                |o: Seq<char>| op_spec(o, password@),
            ),
        decreases objs@.len() - i,
    {
        let op = parse_op(objs[i].as_slice(), &password);
        ops.push(op);
        assert(views(objs@)[i as int] == objs@[i as int]@);
        assert(pieces.take(i + 1).map_values(|o: Seq<char>| op_spec(o, password@)) == pieces.take(
            i as int,
        ).map_values(|o: Seq<char>| op_spec(o, password@)).push(op_spec(objs@[i as int]@, password@)));
        i += 1;
    }
    assert(pieces.take(objs@.len() as int) == pieces);
    Ok(ops)
}


/// How an operation went.
pub enum OpOutcome {
    /// It succeeded.
    Done,
    /// A listing succeeded with this many entries.
    Entries(u64),
    /// A peer probe succeeded with this report.
    Report(String),
    /// It failed with this error.
    Failed(String),
}

/// The word that names an operation in the report.
pub open spec fn op_word(k: OpKindView) -> Seq<char> {
    match k {
        OpKindView::SendFile { .. } => "send_file"@,
        OpKindView::RecvFile { .. } => "recv_file"@,
        OpKindView::ListDir { .. } => "list_dir"@,
        OpKindView::DeleteRemote { .. } => "delete_remote"@,
        OpKindView::MoveRemote { .. } => "move_remote"@,
        OpKindView::SendDir { .. } => "send_dir"@,
        OpKindView::CreateDir { .. } => "create_dir"@,
        OpKindView::Restart => "restart"@,
        OpKindView::Shutdown => "shutdown"@,
        OpKindView::Screenshot { .. } => "screenshot"@,
        OpKindView::PeerInfo => "peer_info"@,
        OpKindView::Unknown { op } => op,
    }
}

/// The number of entries a listing outcome reports (0 for other outcomes).
pub open spec fn entries_of(o: OpOutcome) -> nat {
    match o {
        OpOutcome::Entries(n) => n as nat,
        _ => 0,
    }
}

/// The report a probe outcome carries (empty for other outcomes).
pub open spec fn report_of(o: OpOutcome) -> Seq<char> {
    match o {
        OpOutcome::Report(m) => m@,
        _ => Seq::empty(),
    }
}

/// The report line of a successful operation.
pub open spec fn ok_line(op: BatchOpView, o: OpOutcome) -> Seq<char> {
    let tag = "["@ + op.peer_id + "] "@;
    match op.kind {
        OpKindView::SendFile { local, remote } => tag + "send_file "@ + local + " -> "@ + remote
            + ": ok"@,
        OpKindView::RecvFile { remote, local } => tag + "recv_file "@ + remote + " <- "@ + local
            + ": ok"@,
        OpKindView::ListDir { path } => tag + "list_dir "@ + path + ": "@ + decimal(entries_of(o))
            + " entries"@,
        OpKindView::DeleteRemote { path } => tag + "delete_remote "@ + path + ": ok"@,
        OpKindView::MoveRemote { old, new } => tag + "move_remote "@ + old + " -> "@ + new
            + ": ok"@,
        OpKindView::SendDir { local, remote } => tag + "send_dir "@ + local + " -> "@ + remote
            + ": ok"@,
        OpKindView::CreateDir { path } => tag + "create_dir "@ + path + ": ok"@,
        OpKindView::Restart => tag + "restart: ok"@,
        OpKindView::Shutdown => tag + "shutdown: ok"@,
        OpKindView::Screenshot { output } => tag + "screenshot -> "@ + output + ": ok"@,
        OpKindView::PeerInfo => report_of(o),
        OpKindView::Unknown { op } => tag + "unknown op '"@ + op + "'"@,
    }
}

/// The report line of an operation: for an unknown `op`, the line that
/// says so (nothing was run); for a failure, the peer, the op's word and
/// the error; else the line of [`ok_line`].
pub open spec fn result_line_spec(op: BatchOpView, o: OpOutcome) -> Seq<char> {
    match (op.kind, o) {
        (OpKindView::Unknown { op: w }, _) => "["@ + op.peer_id + "] "@ + "unknown op '"@ + w
            + "'"@,
        (_, OpOutcome::Failed(e)) => "["@ + op.peer_id + "] "@ + op_word(op.kind) + ": "@ + e@,
        _ => ok_line(op, o),
    }
}

/// The report line of an operation that has run (or, for an unknown `op`,
/// was skipped).
pub fn result_line(op: &BatchOp, o: OpOutcome) -> (res: String)
    ensures
        res@ == result_line_spec(op@, o),
{
    let mut s = literal("[");
    push_str(&mut s, op.peer_id.as_str());
    push_str(&mut s, "] ");
    if let OpKind::Unknown { op: w } = &op.kind {
        push_str(&mut s, "unknown op '");
        push_str(&mut s, w.as_str());
        push_str(&mut s, "'");
        return s;
    }
    match o {
        OpOutcome::Failed(e) => {
            match &op.kind {
                OpKind::SendFile { .. } => push_str(&mut s, "send_file"),
                OpKind::RecvFile { .. } => push_str(&mut s, "recv_file"),
                OpKind::ListDir { .. } => push_str(&mut s, "list_dir"),
                OpKind::DeleteRemote { .. } => push_str(&mut s, "delete_remote"),
                OpKind::MoveRemote { .. } => push_str(&mut s, "move_remote"),
                OpKind::SendDir { .. } => push_str(&mut s, "send_dir"),
                OpKind::CreateDir { .. } => push_str(&mut s, "create_dir"),
                OpKind::Restart => push_str(&mut s, "restart"),
                OpKind::Shutdown => push_str(&mut s, "shutdown"),
                OpKind::Screenshot { .. } => push_str(&mut s, "screenshot"),
                OpKind::PeerInfo => push_str(&mut s, "peer_info"),
                OpKind::Unknown { op: w } => push_str(&mut s, w.as_str()),
            }
            push_str(&mut s, ": ");
            push_str(&mut s, e.as_str());
            s
        },
        _ => ok_line_exec(op, o, s),
    }
}

/// Completes the line of a successful operation after its `[peer] ` tag.
fn ok_line_exec(op: &BatchOp, o: OpOutcome, tag: String) -> (res: String)
    requires
        tag@ == "["@ + op.peer_id@ + "] "@,
    ensures
        res@ == ok_line(op@, o),
{
    let mut s = tag;
    match &op.kind {
        OpKind::SendFile { local, remote } => {
            push_str(&mut s, "send_file ");
            push_str(&mut s, local.as_str());
            push_str(&mut s, " -> ");
            push_str(&mut s, remote.as_str());
            push_str(&mut s, ": ok");
        },
        OpKind::RecvFile { remote, local } => {
            push_str(&mut s, "recv_file ");
            push_str(&mut s, remote.as_str());
            push_str(&mut s, " <- ");
            push_str(&mut s, local.as_str());
            push_str(&mut s, ": ok");
        },
        OpKind::ListDir { path } => {
            push_str(&mut s, "list_dir ");
            push_str(&mut s, path.as_str());
            push_str(&mut s, ": ");
            let n: u64 = match o {
                OpOutcome::Entries(n) => n,
                _ => 0,
            };
            let d = decimal_exec(n);
            push_chars(&mut s, d.as_slice());
            push_str(&mut s, " entries");
        },
        OpKind::DeleteRemote { path } => {
            push_str(&mut s, "delete_remote ");
            push_str(&mut s, path.as_str());
            push_str(&mut s, ": ok");
        },
        OpKind::MoveRemote { old, new } => {
            push_str(&mut s, "move_remote ");
            push_str(&mut s, old.as_str());
            push_str(&mut s, " -> ");
            push_str(&mut s, new.as_str());
            push_str(&mut s, ": ok");
        },
        OpKind::SendDir { local, remote } => {
            push_str(&mut s, "send_dir ");
            push_str(&mut s, local.as_str());
            push_str(&mut s, " -> ");
            push_str(&mut s, remote.as_str());
            push_str(&mut s, ": ok");
        },
        OpKind::CreateDir { path } => {
            push_str(&mut s, "create_dir ");
            push_str(&mut s, path.as_str());
            push_str(&mut s, ": ok");
        },
        OpKind::Restart => push_str(&mut s, "restart: ok"),
        OpKind::Shutdown => push_str(&mut s, "shutdown: ok"),
        OpKind::Screenshot { output } => {
            push_str(&mut s, "screenshot -> ");
            push_str(&mut s, output.as_str());
            push_str(&mut s, ": ok");
        },
        OpKind::PeerInfo => {
            s = match o {
                OpOutcome::Report(m) => m,
                _ => String::new(),
            };
        },
        OpKind::Unknown { op: w } => {
            push_str(&mut s, "unknown op '");
            push_str(&mut s, w.as_str());
            push_str(&mut s, "'");
        },
    }
    s
}

} // verus!
