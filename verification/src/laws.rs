//! Properties of the library as a whole, proved over the specifications
//! that the functions' contracts use.

use vstd::prelude::*;
use crate::http::{FileRequestView, file_request_spec, body_spec, plan_spec, JobView, PlanView, response_bytes, peer_status_spec, PeerProbe, first_line, request_line_spec, peer_id_part, peer_prefix, peer_tail_part, route_spec, RouteView};
use crate::batch::manifest_spec;
use crate::login::LoginSession;
use crate::json::{is_json_ws, json_array, last_open, object_pieces, or_empty, ends_bare_value, is_quote, json_field, key_pattern, value_at};
use crate::rendezvous::{punch_step_ok, PunchStep, RelayReply, PunchReply, peer_info_spec, relay_target_spec, rendezvous_addr_spec, RendezvousReply};
use crate::transfer::{collect_items_spec, join_path_spec, entry_line_spec, file_marker, kind_word, listed_file_spec, peer_ids_spec, trimmed, DirEntry};
use crate::local::service_running_spec;
use crate::oauth::{callback_code_spec, first_code, param_code};
use crate::text::{
    is_ws, lemma_nonempty_keeps, nonempty, tokens, lemma_split_by_pieces_free, lemma_trim, trim,
    lemma_split_by_concat, lemma_split_by_single, sep_pred, split_by, Sep,
    contains, decimal, find, lemma_find_from_found, last_index_of, lemma_decimal_digits, lemma_last_index_of_concat, lemma_find_from_exact, lemma_find_from_matches, lemma_first_index_concat, matches_at, starts_with,
};

verus! {

/// `GET /api/v1/peer/{id}/status` names the same endpoint as
/// `GET /api/v1/peer/{id}`: the status of peer `id`.
pub proof fn law_peer_status_alias(id: Seq<char>)
    requires
        forall|k: int| 0 <= k < id.len() ==> id[k] != '/',
    ensures
        route_spec("GET"@, peer_prefix() + id) == RouteView::PeerStatus(id),
        route_spec("GET"@, peer_prefix() + id + "/status"@) == RouteView::PeerStatus(id),
{
    reveal_strlit("GET");
    reveal_strlit("/api/v1/peer/");
    reveal_strlit("/api/v1/health");
    reveal_strlit("/api/v1/peers");
    reveal_strlit("/status");
    reveal_strlit("/screenshot");
    reveal_strlit("/system");
    reveal_strlit("/apps");
    let pre = peer_prefix();
    let slash = |c: char| c == '/';
    let p1 = pre + id;
    let p2 = pre + id + "/status"@;
    assert(p1[8] == 'p' && "/api/v1/health"@[8] == 'h');
    assert(p2[8] == 'p');
    assert(p1.take(13) == pre);
    assert(p2.take(13) == pre);
    assert(starts_with(p1, pre));
    assert(starts_with(p2, pre));
    assert(p1[12] == '/' && "/api/v1/peers"@[12] == 's');
    assert(p2[12] == '/');
    assert(!starts_with(p1, "/api/v1/peers"@)) by {
        assert(p1.take(13)[12] != "/api/v1/peers"@[12]);
    }
    assert(!starts_with(p2, "/api/v1/peers"@)) by {
        assert(p2.take(13)[12] != "/api/v1/peers"@[12]);
    }
    let r1 = p1.skip(13);
    let r2 = p2.skip(13);
    assert(r1 == id + Seq::<char>::empty());
    assert(r2 == id + "/status"@);
    lemma_first_index_concat(id, Seq::<char>::empty(), slash);
    lemma_first_index_concat(id, "/status"@, slash);
    assert(peer_id_part(r1) == id);
    assert(peer_id_part(r2) == id);
    assert(peer_tail_part(r1) == Seq::<char>::empty());
    assert(peer_tail_part(r2) == "/status"@);
    assert("/status"@ != "/screenshot"@);
    assert("/status"@ != "/system"@) by {
        assert("/status"@[2] != "/system"@[2]);
    }
    assert("/status"@ != "/apps"@);
}


/// The field of a one-field object is found after its key.
proof fn lemma_one_field_found(key: Seq<char>, tail: Seq<char>)
    ensures
        find(seq!['{'] + key_pattern(key) + tail, key_pattern(key)) == Some(1int),
{
    let pat = key_pattern(key);
    let b = seq!['{'] + pat + tail;
    assert(b.subrange(1, 1 + pat.len() as int) == pat);
    assert(matches_at(b, pat, 1));
    assert(!matches_at(b, pat, 0)) by {
        assert(b.subrange(0, pat.len() as int)[0] == '{');
        assert(pat[0] == '"');
    }
    lemma_find_from_exact(b, pat, 0, 1);
}

/// Reading back what was written: in the object `{"key": "value"}` the
/// field `key` has the value `value`, for any value without a double
/// quote; in `{"key": value}` it has `value` for any value that neither
/// starts with a double quote or whitespace nor holds a comma, closing
/// brace or space; in both, any JSON whitespace may follow the colon.
pub proof fn law_json_field_roundtrip(key: Seq<char>, gap: Seq<char>, value: Seq<char>)
    requires
        forall|k: int| 0 <= k < gap.len() ==> is_json_ws(#[trigger] gap[k]),
    ensures
        (forall|k: int| 0 <= k < value.len() ==> value[k] != '"') ==> json_field(
            seq!['{'] + key_pattern(key) + gap + seq!['"'] + value + seq!['"', '}'],
            key,
        ) == Some(value),
        (forall|k: int| 0 <= k < value.len() ==> !ends_bare_value(#[trigger] value[k])) && (
        value.len() == 0 || (value[0] != '"' && !is_json_ws(value[0]))) ==> json_field(
            seq!['{'] + key_pattern(key) + gap + value + seq!['}'],
            key,
        ) == Some(value),
{
    let pat = key_pattern(key);
    let not_ws = |c: char| !is_json_ws(c);
    if forall|k: int| 0 <= k < value.len() ==> value[k] != '"' {
        let tail = seq!['"'] + value + seq!['"', '}'];
        let b = seq!['{'] + pat + (gap + tail);
        assert(seq!['{'] + pat + gap + seq!['"'] + value + seq!['"', '}'] == b);
        lemma_one_field_found(key, gap + tail);
        assert(b.skip(1 + pat.len() as int) == gap + tail);
        lemma_first_index_concat(gap, tail, not_ws);
        assert((gap + tail).skip(gap.len() as int) == tail);
        let r = tail.drop_first();
        assert(r == value + seq!['"', '}']);
        lemma_first_index_concat(value, seq!['"', '}'], |c: char| is_quote(c));
        assert(r.take(value.len() as int) == value);
        assert(value_at(tail) == Some(value));
    }
    if (forall|k: int| 0 <= k < value.len() ==> !ends_bare_value(#[trigger] value[k])) && (
    value.len() == 0 || (value[0] != '"' && !is_json_ws(value[0]))) {
        let tail = value + seq!['}'];
        let b = seq!['{'] + pat + (gap + tail);
        assert(seq!['{'] + pat + gap + value + seq!['}'] == b);
        lemma_one_field_found(key, gap + tail);
        assert(b.skip(1 + pat.len() as int) == gap + tail);
        if value.len() > 0 {
            assert(tail[0] == value[0]);
        } else {
            assert(tail[0] == '}');
        }
        lemma_first_index_concat(gap, tail, not_ws);
        assert((gap + tail).skip(gap.len() as int) == tail);
        lemma_first_index_concat(value, seq!['}'], |c: char| ends_bare_value(c));
        assert(tail.take(value.len() as int) == value);
        assert(value_at(tail) == Some(value));
    }
}

/// The browser's callback `METHOD /?code=CODE REST` yields `CODE`, for any
/// method without spaces and any code without spaces or ampersands.
pub proof fn law_callback_code(method: Seq<char>, code: Seq<char>, rest: Seq<char>)
    requires
        forall|k: int| 0 <= k < method.len() ==> method[k] != ' ',
        forall|k: int| 0 <= k < code.len() ==> code[k] != ' ' && code[k] != '&',
    ensures
        callback_code_spec(method + seq![' '] + "/?code="@ + code + seq![' '] + rest) == Ok::<
            Seq<char>,
            Seq<char>,
        >(code),
{
    reveal_strlit("/?code=");
    let sp = sep_pred(Sep::Char(' '));
    let amp = sep_pred(Sep::Char('&'));
    let target = "/?code="@ + code;
    let req = method + seq![' '] + target + seq![' '] + rest;
    assert(req == method + seq![' '] + (target + seq![' '] + rest));
    assert(forall|k: int| 0 <= k < target.len() ==> target[k] != ' ' && target[k] != '&') by {
        assert forall|k: int| 0 <= k < target.len() implies target[k] != ' ' && target[k] != '&' by {
            if k >= 7 {
                assert(target[k] == code[k - 7]);
            }
        }
    }
    lemma_split_by_concat(method, ' ', target + seq![' '] + rest, sp);
    lemma_split_by_concat(target, ' ', rest, sp);
    lemma_split_by_single(method, sp);
    lemma_split_by_single(target, sp);
    lemma_split_by_single(target, amp);
    let pieces = split_by(req, sp);
    assert(pieces == seq![method] + (seq![target] + split_by(rest, sp)));
    assert(pieces[1] == target);
    assert(target.take(7) == "/?code="@);
    assert(target.skip(7) == code);
    assert(param_code(target) == Some(code));
    assert(first_code(seq![target]) == Some(code));
    assert(method + seq![' '] + "/?code="@ + code + seq![' '] + rest == req);
}


/// Text ending with a colon and a port contains a colon.
proof fn lemma_has_colon(a: Seq<char>, port: Seq<char>)
    requires
        port.len() > 0,
        port[0] == ':',
    ensures
        contains(a + port, seq![':']),
{
    let s = a + port;
    assert(s.subrange(a.len() as int, a.len() + 1int) == seq![':']);
    lemma_find_from_matches(s, seq![':'], 0, a.len() as int);
}

/// Every address the client dials names a port: the relay target and the
/// rendezvous address contain a colon, and a relay target is left as it
/// is when taken as a relay name again.
pub proof fn law_addresses_name_a_port(addr: Seq<char>, server: Seq<char>, custom: Seq<char>)
    ensures
        contains(relay_target_spec(addr), seq![':']),
        relay_target_spec(relay_target_spec(addr)) == relay_target_spec(addr),
        contains(rendezvous_addr_spec(server, custom), seq![':']),
{
    reveal_strlit(":21117");
    reveal_strlit(":21116");
    reveal_strlit("209.250.254.15:21116");
    if !contains(addr, seq![':']) {
        lemma_has_colon(addr, ":21117"@);
    }
    let target = if custom.len() != 0 {
        custom
    } else {
        server
    };
    let d = "209.250.254.15:21116"@;
    assert(d.subrange(14, 15) == seq![':']);
    lemma_find_from_matches(d, seq![':'], 0, 14);
    if !contains(target, seq![':']) {
        lemma_has_colon(target, ":21116"@);
    }
}


/// A clean peer ID: not empty, without commas, without whitespace at
/// either end.
pub open spec fn clean_id(t: Seq<char>) -> bool {
    &&& t.len() > 0
    &&& forall|k: int| 0 <= k < t.len() ==> t[k] != ','
    &&& !is_ws(t[0])
    &&& !is_ws(t.last())
}

/// Every ID read from a comma-separated peer list is clean.
pub proof fn law_peer_ids_clean(s: Seq<char>)
    ensures
        forall|i: int| 0 <= i < peer_ids_spec(s).len() ==> clean_id(#[trigger] peer_ids_spec(s)[i]),
{
    let sep = sep_pred(Sep::Char(','));
    let pieces = split_by(s, sep);
    lemma_split_by_pieces_free(s, sep);
    let t = trimmed(pieces);
    let p = |x: Seq<char>|
        (forall|k: int| 0 <= k < x.len() ==> x[k] != ',') && (x.len() > 0 ==> !is_ws(x[0])
            && !is_ws(x.last()));
    assert forall|i: int| 0 <= i < t.len() implies p(#[trigger] t[i]) by {
        let piece = pieces[i];
        assert(t[i] == trim(piece));
        let r = lemma_trim(piece);
        assert forall|k: int| 0 <= k < t[i].len() implies t[i][k] != ',' by {
            assert(t[i][k] == piece[r.0 + k]);
            assert(!sep(pieces[i][r.0 + k]));
        }
    }
    lemma_nonempty_keeps(t, p);
}


/// The number of times `c` occurs in `s`.
pub open spec fn count_char(s: Seq<char>, c: char) -> nat
    decreases s.len(),
{
    if s.len() == 0 {
        0
    } else {
        count_char(s.drop_last(), c) + if s.last() == c {
            1nat
        } else {
            0nat
        }
    }
}

/// The last `{` lies inside the text (or is 0 for empty text).
proof fn lemma_last_open_bounds(s: Seq<char>)
    ensures
        0 <= last_open(s) <= s.len(),
        s.len() > 0 ==> last_open(s) < s.len(),
    decreases s.len(),
{
    if s.len() > 0 && s.last() != '{' {
        lemma_last_open_bounds(s.drop_last());
    }
}

/// Each `}` of an operations array closes one operation's text: there are
/// as many texts as closing braces, and each ends with its brace.
pub proof fn law_objects_per_closing_brace(block: Seq<char>)
    ensures
        object_pieces(block).len() == count_char(block, '}'),
        forall|i: int|
            0 <= i < object_pieces(block).len() ==> (#[trigger] object_pieces(block)[i]).len() > 0
                && object_pieces(block)[i].last() == '}',
    decreases block.len(),
{
    if block.len() > 0 {
        law_objects_per_closing_brace(block.drop_last());
        lemma_last_open_bounds(block.drop_last());
        let prev = object_pieces(block.drop_last());
        let cur = object_pieces(block);
        if block.last() == '}' {
            let piece = block.subrange(last_open(block.drop_last()), block.len() as int);
            assert(piece.last() == block.last());
            assert forall|i: int| 0 <= i < cur.len() implies (#[trigger] cur[i]).len() > 0
                && cur[i].last() == '}' by {
                if i < prev.len() {
                    assert(cur[i] == prev[i]);
                }
            }
        }
    }
}

/// A manifest yields one operation per closing brace of its operations
/// array.
pub proof fn law_manifest_operation_count(content: Seq<char>, default_password: Seq<char>)
    ensures
        manifest_spec(content, default_password) matches Ok(ops) ==> ops.len() == count_char(
            or_empty(json_array(content, "operations"@)),
            '}',
        ),
{
    law_objects_per_closing_brace(or_empty(json_array(content, "operations"@)));
}


/// A word: not empty, without whitespace.
pub open spec fn is_word(w: Seq<char>) -> bool {
    w.len() > 0 && forall|k: int| 0 <= k < w.len() ==> !is_ws(#[trigger] w[k])
}

/// The request line `METHOD PATH VERSION\r\n` followed by anything is read
/// back as its method and path.
pub proof fn law_request_line(method: Seq<char>, path: Seq<char>, version: Seq<char>, rest: Seq<char>)
    requires
        is_word(method),
        is_word(path),
        is_word(version),
    ensures
        request_line_spec(
            method + seq![' '] + path + seq![' '] + version + seq!['\r', '\n'] + rest,
        ) == (method, path),
{
    let ws = sep_pred(Sep::Whitespace);
    let line = method + seq![' '] + path + seq![' '] + version;
    let req = method + seq![' '] + path + seq![' '] + version + seq!['\r', '\n'] + rest;
    let j: int = line.len() as int + 1;
    assert(req == line + seq!['\r', '\n'] + rest);
    assert(forall|k: int| 0 <= k < line.len() ==> !is_ws(#[trigger] line[k])
        || line[k] == ' ') by {
        assert forall|k: int| 0 <= k < line.len() implies !is_ws(#[trigger] line[k]) || line[k]
            == ' ' by {
            if k < method.len() {
                assert(line[k] == method[k]);
            } else if k == method.len() {
            } else if k < method.len() + 1 + path.len() {
                assert(line[k] == path[k - method.len() - 1]);
            } else if k == method.len() + 1 + path.len() {
            } else {
                assert(line[k] == version[k - method.len() - 2 - path.len()]);
            }
        }
    }
    assert forall|k: int| 0 <= k < j implies !matches_at(req, seq!['\n'], k) by {
        if k < line.len() {
            assert(req[k] == line[k]);
            assert(req.subrange(k, k + 1)[0] == req[k]);
        } else {
            assert(req[k] == '\r');
            assert(req.subrange(k, k + 1)[0] == req[k]);
        }
    }
    assert(req.subrange(j, j + 1) == seq!['\n']);
    lemma_find_from_exact(req, seq!['\n'], 0, j);
    assert(req.take(j) == line.push('\r'));
    assert(line.push('\r').drop_last() == line);
    assert(first_line(req) == line);
    assert(line == method + seq![' '] + (path + seq![' '] + version));
    lemma_split_by_concat(method, ' ', path + seq![' '] + version, ws);
    lemma_split_by_concat(path, ' ', version, ws);
    lemma_split_by_single(method, ws);
    lemma_split_by_single(path, ws);
    lemma_split_by_single(version, ws);
    let pieces = split_by(line, ws);
    assert(pieces == seq![method, path, version]);
    assert(pieces.drop_last() == seq![method, path]);
    assert(pieces.drop_last().drop_last() == seq![method]);
    assert(seq![method].drop_last() == Seq::<Seq<char>>::empty());
    assert(nonempty(Seq::<Seq<char>>::empty()) == Seq::<Seq<char>>::empty());
    assert(seq![method].last() == method);
    assert(Seq::<Seq<char>>::empty().push(method) == seq![method]);
    assert(nonempty(seq![method]) == seq![method]);
    assert(seq![method, path].last() == path);
    assert(seq![method].push(path) == seq![method, path]);
    assert(seq![method, path, version].last() == version);
    assert(seq![method, path].push(version) == seq![method, path, version]);
    assert(nonempty(seq![method, path]) == seq![method, path]);
    assert(tokens(line) == seq![method, path, version]);
}


/// A login in progress has read fewer than three messages per password it
/// may try: with every step either ending it or raising its progress (see
/// `LoginSession::step`), it ends within `3 * total` messages.
pub proof fn law_login_bounded(s: LoginSession)
    requires
        s.wf(),
        !s.state().finished,
    ensures
        0 <= LoginSession::progress(s.state()) < 3 * s.state().total,
{
}

/// The listing line of a file names that file again, spaces in its name
/// and all; the listing line of a directory names no file.
pub proof fn law_listed_file_entry_line(e: DirEntry)
    ensures
        kind_word(e.entry_type) == "FILE"@ && e.name@.len() > 0 ==> listed_file_spec(
            entry_line_spec(e),
        ) == Some(e.name@),
        kind_word(e.entry_type) == "DIR"@ ==> listed_file_spec(entry_line_spec(e)) is None,
{
    reveal_strlit("[");
    reveal_strlit("FILE");
    reveal_strlit("DIR");
    reveal_strlit("] ");
    reveal_strlit(" ");
    reveal_strlit("b");
    reveal_strlit("[FILE] ");
    let name = e.name@;
    let dec = decimal(e.size as nat);
    let line = entry_line_spec(e);
    let m = file_marker();
    if kind_word(e.entry_type) == "FILE"@ && name.len() > 0 {
        let tail = dec + "b"@;
        assert(line == m + name + " "@ + tail);
        assert(line.take(m.len() as int) == m);
        let rest = line.skip(m.len() as int);
        assert(rest == (name + " "@) + tail);
        lemma_decimal_digits(e.size as nat, ' ');
        assert forall|k: int| 0 <= k < tail.len() implies tail[k] != ' ' by {
            if k < dec.len() {
                assert(tail[k] == dec[k]);
            }
        }
        lemma_last_index_of_concat(name + " "@, tail, ' ');
        assert((name + " "@).last() == ' ');
        assert(last_index_of(name + " "@, ' ') == Some(name.len() as int));
        assert(rest.take(name.len() as int) == name);
    }
    if kind_word(e.entry_type) == "DIR"@ {
        assert(line[1] == 'D');
        if line.len() >= m.len() {
            assert(line.take(m.len() as int)[1] != m[1]);
        }
    }
}

/// What the status endpoint's probe sees when the rendezvous server
/// answers `reply` (`None`: no answer in time).
pub open spec fn probe_of(reply: Option<RendezvousReply>) -> PeerProbe {
    match reply {
        None => PeerProbe::NoReply,
        Some(r) => PeerProbe::Reply(r),
    }
}

/// The status object of a peer that is online, by relay or directly.
pub open spec fn online_body(id: Seq<char>, relay: bool) -> Seq<char> {
    r#"{"peer_id":""#@ + id + if relay {
        r#"","status":"online","relay":true}"#@
    } else {
        r#"","status":"online","relay":false}"#@
    }
}

/// Texts with the same start are equal exactly when what follows is.
proof fn lemma_same_start(a: Seq<char>, x: Seq<char>, y: Seq<char>)
    ensures
        (a + x == a + y) == (x == y),
{
    if a + x == a + y {
        assert(x == (a + x).skip(a.len() as int));
        assert(y == (a + y).skip(a.len() as int));
    }
}

/// For the same answer of the rendezvous server, the status endpoint and
/// the peer probe agree: the endpoint reports the peer online by relay
/// exactly when the probe reports it online via relay (or relay ready),
/// and online directly exactly when the probe reports it online via
/// direct. A free-text failure that reads like one of those reports is
/// left out: the probe repeats it verbatim.
pub proof fn law_peer_status_agrees_with_peer_info(id: Seq<char>, reply: Option<RendezvousReply>)
    requires
        reply matches Some(RendezvousReply::PunchHole(p)) ==> p.other_failure@
            != "online via relay"@ && p.other_failure@ != "online via direct"@
            && p.other_failure@ != "online (relay ready)"@,
    ensures
        (peer_status_spec(id, probe_of(reply)) == online_body(id, true)) <==> (peer_info_spec(
            id,
            reply,
        ) == Ok::<Seq<char>, Seq<char>>(id + ": online via relay"@) || peer_info_spec(id, reply)
            == Ok::<Seq<char>, Seq<char>>(id + ": online (relay ready)"@)),
        (peer_status_spec(id, probe_of(reply)) == online_body(id, false)) <==> peer_info_spec(
            id,
            reply,
        ) == Ok::<Seq<char>, Seq<char>>(id + ": online via direct"@),
{
    reveal_strlit(r#"{"peer_id":""#);
    reveal_strlit(r#"","error":"timeout"}"#);
    reveal_strlit(r#"","status":"online","relay":"#);
    reveal_strlit("true");
    reveal_strlit("false");
    reveal_strlit("}");
    reveal_strlit(r#"","status":""#);
    reveal_strlit(r#""}"#);
    reveal_strlit("offline");
    reveal_strlit("not_found");
    reveal_strlit("key_mismatch");
    reveal_strlit("unknown");
    reveal_strlit(r#"","status":"online","relay":true}"#);
    reveal_strlit(r#"","status":"online","relay":false}"#);
    reveal_strlit(r#"","status":"unknown"}"#);
    reveal_strlit(": online via relay");
    reveal_strlit(": online via direct");
    reveal_strlit(": online (relay ready)");
    reveal_strlit("online via relay");
    reveal_strlit("online via direct");
    reveal_strlit("online (relay ready)");
    reveal_strlit(": ");
    reveal_strlit(": offline");
    reveal_strlit(": key mismatch");
    reveal_strlit(": key overuse");
    reveal_strlit(": not found");
    let head = r#"{"peer_id":""#@ + id;
    let t = r#"","status":"online","relay":true}"#@;
    let f = r#"","status":"online","relay":false}"#@;
    let via_relay = id + ": online via relay"@;
    let via_direct = id + ": online via direct"@;
    let ready = id + ": online (relay ready)"@;
    assert(online_body(id, true) == head + t);
    assert(online_body(id, false) == head + f);
    let body = peer_status_spec(id, probe_of(reply));
    let info = peer_info_spec(id, reply);
    assert(via_relay.len() == id.len() + 18);
    assert(via_direct.len() == id.len() + 19);
    assert(ready.len() == id.len() + 22);
    assert(via_relay != via_direct && via_relay != ready && ready != via_direct);
    match reply {
        None => {
            assert(body == head + r#"","error":"timeout"}"#@);
            assert(body.len() != (head + t).len() && body.len() != (head + f).len());
            assert(info is Err);
        },
        Some(RendezvousReply::Other) => {
            assert(body.len() != (head + t).len() && body.len() != (head + f).len());
        },
        Some(RendezvousReply::Relay(_)) => {
            assert(body.len() != (head + f).len());
        },
        Some(RendezvousReply::PunchHole(p)) => {
            if p.relay_server@.len() != 0 {
                assert(body == head + t);
                assert(body.len() != (head + f).len());
            } else if p.socket_addr@.len() != 0 {
                assert(body == head + f);
                assert(body.len() != (head + t).len());
            } else {
                assert(body.len() != (head + t).len() && body.len() != (head + f).len());
                let o = p.other_failure@;
                if o.len() != 0 {
                    assert((id + (": "@ + o)) == id + ": "@ + o);
                    lemma_same_start(id, ": "@ + o, ": online via relay"@);
                    lemma_same_start(id, ": "@ + o, ": online via direct"@);
                    lemma_same_start(id, ": "@ + o, ": online (relay ready)"@);
                    lemma_same_start(": "@, o, "online via relay"@);
                    lemma_same_start(": "@, o, "online via direct"@);
                    lemma_same_start(": "@, o, "online (relay ready)"@);
                    assert(": online via relay"@ == ": "@ + "online via relay"@);
                    assert(": online via direct"@ == ": "@ + "online via direct"@);
                    assert(": online (relay ready)"@ == ": "@ + "online (relay ready)"@);
                }
            }
        },
    }
}

/// `s` contains the one-character text `c` exactly when `c` is one of its
/// characters.
proof fn lemma_contains_char(s: Seq<char>, c: char)
    ensures
        contains(s, seq![c]) <==> exists|k: int| 0 <= k < s.len() && s[k] == c,
{
    lemma_find_from_found(s, seq![c], 0);
    if let Some(k) = find(s, seq![c]) {
        assert(s.subrange(k, k + 1)[0] == s[k]);
    }
    if exists|k: int| 0 <= k < s.len() && s[k] == c {
        let k = choose|k: int| 0 <= k < s.len() && s[k] == c;
        assert(s.subrange(k, k + 1) == seq![c]);
        lemma_find_from_matches(s, seq![c], 0, k);
    }
}

/// A relay the client dials is named with a port: a relay server name
/// that has a `:` is dialled as it is, and one without gets port 21117;
/// so the dialled target always has a `:`. This holds for the relay of a
/// punch-hole answer and for the relay session of a relay answer, whose
/// session identifier is kept. A direct route is taken only when no relay
/// was offered, to the peer address the answer gave.
pub proof fn law_relay_dial_target(attempt: u64, reply: Option<RendezvousReply>, step: PunchStep)
    requires
        punch_step_ok(attempt, reply, step),
    ensures
        reply matches Some(RendezvousReply::Relay(r)) ==> {
            &&& step matches PunchStep::JoinRelay { target, uuid }
            &&& uuid@ == r.uuid@
            &&& (exists|k: int| 0 <= k < r.relay_server@.len() && r.relay_server@[k] == ':')
                ==> target@ == r.relay_server@
            &&& (forall|k: int| 0 <= k < r.relay_server@.len() ==> r.relay_server@[k] != ':')
                ==> target@ == r.relay_server@ + ":21117"@
            &&& exists|k: int| 0 <= k < target@.len() && target@[k] == ':'
        },
        step matches PunchStep::Relay { target } ==> reply matches Some(
            RendezvousReply::PunchHole(p),
        ) && {
            &&& (exists|k: int| 0 <= k < p.relay_server@.len() && p.relay_server@[k] == ':')
                ==> target@ == p.relay_server@
            &&& (forall|k: int| 0 <= k < p.relay_server@.len() ==> p.relay_server@[k] != ':')
                ==> target@ == p.relay_server@ + ":21117"@
            &&& exists|k: int| 0 <= k < target@.len() && target@[k] == ':'
        },
        step matches PunchStep::Direct { socket_addr } ==> reply matches Some(
            RendezvousReply::PunchHole(p),
        ) && p.relay_server@.len() == 0 && socket_addr@ == p.socket_addr@ && socket_addr@.len()
            > 0,
{
    reveal_strlit(":21117");
    let name = match reply {
        Some(RendezvousReply::Relay(r)) => r.relay_server@,
        Some(RendezvousReply::PunchHole(p)) => p.relay_server@,
        _ => Seq::empty(),
    };
    lemma_contains_char(name, ':');
    let t = relay_target_spec(name);
    lemma_contains_char(t, ':');
    if !contains(name, seq![':']) {
        let x = name + ":21117"@;
        assert(x[name.len() as int] == ':');
    }
}

/// Every peer command the server starts acts on the peer named in the
/// request's path and logs in with the password of the request's body; a
/// directory is created at the body's `path`, which is never empty.
pub proof fn law_peer_command_jobs(req: Seq<char>)
    ensures
        plan_spec(req) matches PlanView::Start(JobView::Restart { peer_id, password }, _)
            ==> password == or_empty(json_field(body_spec(req), "password"@)) && peer_id.len()
            > 0 && route_spec(request_line_spec(req).0, request_line_spec(req).1)
            == RouteView::Restart(peer_id),
        plan_spec(req) matches PlanView::Start(JobView::Shutdown { peer_id, password }, _)
            ==> password == or_empty(json_field(body_spec(req), "password"@)) && peer_id.len()
            > 0 && route_spec(request_line_spec(req).0, request_line_spec(req).1)
            == RouteView::Shutdown(peer_id),
        plan_spec(req) matches PlanView::Start(JobView::CreateDir { peer_id, path, password }, _)
            ==> password == or_empty(json_field(body_spec(req), "password"@)) && peer_id.len()
            > 0 && path == or_empty(json_field(body_spec(req), "path"@)) && path.len() > 0
            && route_spec(request_line_spec(req).0, request_line_spec(req).1)
            == RouteView::CreateDir(peer_id),
{
}

/// The fields of a transfer as a body gives them: `peer_id`, the local path
/// (`local_path`, else `local`), the remote path (`remote_path`, else
/// `remote`) and `password`.
pub open spec fn transfer_fields(body: Seq<char>, f: FileRequestView) -> bool {
    &&& f.peer_id == or_empty(json_field(body, "peer_id"@))
    &&& f.local == or_empty(if json_field(body, "local_path"@) is Some {
        json_field(body, "local_path"@)
    } else {
        json_field(body, "local"@)
    })
    &&& f.remote == or_empty(if json_field(body, "remote_path"@) is Some {
        json_field(body, "remote_path"@)
    } else {
        json_field(body, "remote"@)
    })
    &&& f.password == or_empty(json_field(body, "password"@))
}

/// A transfer the server starts names a peer, a local path and a remote
/// path, and logs in with the body's password; a transfer request whose
/// body lacks any of the three is answered 400.
pub proof fn law_transfer_jobs_complete(req: Seq<char>)
    ensures
        plan_spec(req) matches PlanView::Start(JobView::Upload(f), _) ==> f.peer_id.len() > 0
            && f.local.len() > 0 && f.remote.len() > 0 && transfer_fields(body_spec(req), f),
        plan_spec(req) matches PlanView::Start(JobView::Download(f), _) ==> f.peer_id.len() > 0
            && f.local.len() > 0 && f.remote.len() > 0 && transfer_fields(body_spec(req), f),
        ({
            let (m, p) = request_line_spec(req);
            let f = file_request_spec(body_spec(req));
            route_spec(m, p) == RouteView::Upload && (f.peer_id.len() == 0 || f.local.len() == 0
                || f.remote.len() == 0) ==> plan_spec(req) == PlanView::Respond(
                response_bytes(400, r#"{"error":"peer_id, local_path, remote_path required"}"#@),
            )
        }),
        ({
            let (m, p) = request_line_spec(req);
            let f = file_request_spec(body_spec(req));
            route_spec(m, p) == RouteView::Download && (f.peer_id.len() == 0 || f.local.len() == 0
                || f.remote.len() == 0) ==> plan_spec(req) == PlanView::Respond(
                response_bytes(400, r#"{"error":"peer_id, remote_path, local_path required"}"#@),
            )
        }),
{
}

/// The number of listing lines that name a file.
pub open spec fn file_line_count(lines: Seq<Seq<char>>) -> nat
    decreases lines.len(),
{
    if lines.len() == 0 {
        0
    } else {
        file_line_count(lines.drop_last()) + if listed_file_spec(lines.last()) is Some {
            1nat
        } else {
            0nat
        }
    }
}

/// Collecting from a peer fetches every listed file, whatever its size:
/// one more listing line that names a file `n` adds exactly the item
/// `peer:n`, fetched from the remote directory into the local one, and a
/// line that names no file adds nothing; so there is one item per file
/// line.
pub proof fn law_collect_every_file(
    peer: Seq<char>,
    remote_dir: Seq<char>,
    local_dir: Seq<char>,
    lines: Seq<Seq<char>>,
    line: Seq<char>,
)
    ensures
        collect_items_spec(peer, remote_dir, local_dir, lines).len() == file_line_count(lines),
        listed_file_spec(line) matches Some(n) ==> collect_items_spec(
            peer,
            remote_dir,
            local_dir,
            lines.push(line),
        ) == collect_items_spec(peer, remote_dir, local_dir, lines).push(
            (peer + ":"@ + n, join_path_spec(remote_dir, n), join_path_spec(local_dir, n)),
        ),
        listed_file_spec(line) is None ==> collect_items_spec(
            peer,
            remote_dir,
            local_dir,
            lines.push(line),
        ) == collect_items_spec(peer, remote_dir, local_dir, lines),
    decreases lines.len(),
{
    assert(lines.push(line).drop_last() == lines);
    if lines.len() > 0 {
        law_collect_every_file(peer, remote_dir, local_dir, lines.drop_last(), lines.last());
    }
}

/// The service counts as running exactly when its query succeeded and the
/// word `RUNNING` appears somewhere in what the query printed.
pub proof fn law_service_running_word(success: bool, output: Seq<char>)
    ensures
        service_running_spec(success, output) <==> (success && exists|k: int|
            0 <= k && k + 7 <= output.len() && #[trigger] output.subrange(k, k + 7) == "RUNNING"@),
{
    reveal_strlit("RUNNING");
    let w = "RUNNING"@;
    lemma_find_from_found(output, w, 0);
    if let Some(k) = find(output, w) {
        assert(output.subrange(k, k + 7) == w);
    }
    if exists|k: int| 0 <= k && k + 7 <= output.len() && #[trigger] output.subrange(k, k + 7) == w {
        let k = choose|k: int| 0 <= k && k + 7 <= output.len() && #[trigger] output.subrange(k, k + 7) == w;
        lemma_find_from_matches(output, w, 0, k);
    }
}

} // verus!
