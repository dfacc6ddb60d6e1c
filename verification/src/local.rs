//! This machine's side: the status report and the transfer job handed to
//! the running service.

use vstd::prelude::*;
use crate::text::literal;
use crate::text::{chars_of, contains, eq_str, find_at, push_str};

verus! {

/// Whether the service query reports the service as running: the query
/// succeeded and its output contains `RUNNING`.
pub open spec fn service_running_spec(success: bool, output: Seq<char>) -> bool {
    success && contains(output, "RUNNING"@)
}

/// Whether the service query reports the service as running.
pub fn service_running(success: bool, output: &str) -> (b: bool)
    ensures
        b == service_running_spec(success, output@),
{
    if !success {
        return false;
    }
    let o = chars_of(output);
    let p = chars_of("RUNNING");
    find_at(o.as_slice(), p.as_slice(), 0).is_some()
}

/// The status report of this machine.
pub open spec fn local_status_spec(
    id: Seq<char>,
    running: bool,
    rendezvous: Seq<char>,
    relay: Seq<char>,
    version: Seq<char>,
) -> Seq<char> {
    "RustDesk++ Headless\n  ID: "@ + id + "\n  Service: "@ + (if running {
        "running"@
    } else {
        "stopped"@
    }) + "\n  Rendezvous: "@ + rendezvous + "\n  Relay: "@ + relay + "\n  Version: "@ + version
}

/// The status report of this machine: its ID, whether the service runs,
/// the rendezvous and relay servers, and the version.
pub fn local_status_text(id: &str, running: bool, rendezvous: &str, relay: &str, version: &str) -> (res: String)
    ensures
        res@ == local_status_spec(id@, running, rendezvous@, relay@, version@),
{
    let mut s = literal("RustDesk++ Headless\n  ID: ");
    push_str(&mut s, id);
    push_str(&mut s, "\n  Service: ");
    if running {
        push_str(&mut s, "running");
    } else {
        push_str(&mut s, "stopped");
    }
    push_str(&mut s, "\n  Rendezvous: ");
    push_str(&mut s, rendezvous);
    push_str(&mut s, "\n  Relay: ");
    push_str(&mut s, relay);
    push_str(&mut s, "\n  Version: ");
    push_str(&mut s, version);
    s
}

/// A transfer job handed to the running service.
pub struct TransferMeta {
    pub id: i32,
    pub remote: String,
    pub to: String,
    pub show_hidden: bool,
    pub file_num: i32,
    pub is_remote: bool,
}

/// The job for a transfer through the running service: job 42, one file,
/// hidden files left out, from `remote` to `local`; a download when the
/// direction is `download`.
pub fn ipc_job_meta(local_path: &str, remote_path: &str, direction: &str) -> (m: TransferMeta)
    ensures
        m.id == 42,
        m.remote@ == remote_path@,
        m.to@ == local_path@,
        !m.show_hidden,
        m.file_num == 1,
        m.is_remote == (direction@ == "download"@),
{
    let d = chars_of(direction);
    TransferMeta {
        id: 42,
        remote: literal(remote_path),
        to: literal(local_path),
        show_hidden: false,
        file_num: 1,
        is_remote: eq_str(d.as_slice(), "download"),
    }
}

} // verus!
