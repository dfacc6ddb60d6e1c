//! The peers registered with the rendezvous server, as its database
//! lists them, and the JSON list that the peer list endpoint answers.
//!
//! The database is read in the `sqlite3` shell's ASCII mode: fields end
//! at the unit separator (0x1F) and rows at the record separator (0x1E),
//! so no text inside a field can break a row apart.

use vstd::prelude::*;
use crate::json::{field_or_empty, json_escape, json_field, or_empty, push_json_escaped};
use crate::text::literal;
use crate::text::{chars_of, push_str, sep_pred, split_by, split_exec, string_from, views, Sep};

verus! {

/// A registered peer.
pub struct PeerRecord {
    /// Its ID.
    pub id: String,
    /// When it registered, as the database writes it.
    pub created_at: String,
    /// The address it last registered from (empty when unknown).
    pub ip: String,
}

/// A peer read as its three texts.
pub open spec fn peer_view(p: PeerRecord) -> (Seq<char>, Seq<char>, Seq<char>) {
    (p.id@, p.created_at@, p.ip@)
}

/// A sequence of peers read as texts.
pub open spec fn peer_views(v: Seq<PeerRecord>) -> Seq<(Seq<char>, Seq<char>, Seq<char>)> {
    v.map_values(|p: PeerRecord| peer_view(p))
}

/// The character that ends a field in the database dump.
pub open spec fn unit_sep() -> char {
    '\u{1f}'
}

/// The character that ends a row in the database dump.
pub open spec fn record_sep() -> char {
    '\u{1e}'
}

/// The peer that one row (`id`, `created_at`, `info`) describes: a row of
/// exactly three fields with a non-empty ID; its address is the `ip`
/// field of the `info` JSON, empty when there is none.
pub open spec fn row_peer(row: Seq<char>) -> Option<(Seq<char>, Seq<char>, Seq<char>)> {
    let f = split_by(row, sep_pred(Sep::Char(unit_sep())));
    if f.len() == 3 && f[0].len() > 0 {
        Some((f[0], f[1], or_empty(json_field(f[2], "ip"@))))
    } else {
        None
    }
}

/// The peers of the rows of `rows`, in order, rows that describe none
/// left out.
pub open spec fn rows_peers(rows: Seq<Seq<char>>) -> Seq<(Seq<char>, Seq<char>, Seq<char>)>
    decreases rows.len(),
{
    if rows.len() == 0 {
        seq![]
    } else {
        let prev = rows_peers(rows.drop_last());
        match row_peer(rows.last()) {
            Some(p) => prev.push(p),
            None => prev,
        }
    }
}

/// The peers that a database dump lists, in order.
pub open spec fn peer_rows_spec(dump: Seq<char>) -> Seq<(Seq<char>, Seq<char>, Seq<char>)> {
    rows_peers(split_by(dump, sep_pred(Sep::Char(record_sep()))))
}

/// The peers that a database dump lists, in order.
pub fn peer_rows(dump: &str) -> (res: Vec<PeerRecord>)
    ensures
        peer_views(res@) == peer_rows_spec(dump@),
{
    let d = chars_of(dump);
    let rows = split_exec(d.as_slice(), Sep::Char('\u{1e}'));
    let ghost rs = split_by(dump@, sep_pred(Sep::Char(record_sep())));
    assert(views(rows@) == rs);
    let mut out: Vec<PeerRecord> = Vec::new();
    let mut i: usize = 0;
    assert(rs.take(0) == Seq::<Seq<char>>::empty());
    while i < rows.len()
        invariant
            i <= rows@.len(),
            views(rows@) == rs,
            peer_views(out@) == rows_peers(rs.take(i as int)),
        decreases rows@.len() - i,
    {
        assert(rs.take(i + 1).drop_last() == rs.take(i as int));
        assert(rs.take(i + 1).last() == rows@[i as int]@);
        let f = split_exec(rows[i].as_slice(), Sep::Char('\u{1f}'));
        if f.len() == 3 && f[0].len() > 0 {
            assert(views(f@)[0] == f@[0]@);
            assert(views(f@)[1] == f@[1]@);
            assert(views(f@)[2] == f@[2]@);
            let p = PeerRecord {
                id: string_from(f[0].as_slice()),
                created_at: string_from(f[1].as_slice()),
                ip: field_or_empty(f[2].as_slice(), "ip"),
            };
            out.push(p);
            assert(peer_views(out@) == peer_views(out@).drop_last().push(peer_view(p)));
            assert(out@.drop_last() == out@.take(out@.len() - 1));
        } else {
            assert(f.len() == 3 ==> views(f@)[0] == f@[0]@);
        }
        i += 1;
    }
    assert(rs.take(rows@.len() as int) == rs);
    out
}

/// The JSON object of one peer.
pub open spec fn peer_object(p: (Seq<char>, Seq<char>, Seq<char>)) -> Seq<char> {
    r#"{"id":""#@ + json_escape(p.0) + r#"","created_at":""#@ + json_escape(p.1)
        + r#"","ip":""#@ + json_escape(p.2) + r#""}"#@
}

/// The objects of the peers, separated by commas.
pub open spec fn peer_items(ps: Seq<(Seq<char>, Seq<char>, Seq<char>)>) -> Seq<char>
    decreases ps.len(),
{
    if ps.len() == 0 {
        Seq::empty()
    } else if ps.len() == 1 {
        peer_object(ps[0])
    } else {
        peer_items(ps.drop_last()) + seq![','] + peer_object(ps.last())
    }
}

/// The body of the peer list answer: `{"peers":[...]}` with one object
/// per peer, in order.
pub open spec fn peer_list_body(ps: Seq<(Seq<char>, Seq<char>, Seq<char>)>) -> Seq<char> {
    r#"{"peers":["#@ + peer_items(ps) + "]}"@
}

/// The body of the peer list answer.
pub fn peer_list_json(peers: &Vec<PeerRecord>) -> (res: String)
    ensures
        res@ == peer_list_body(peer_views(peers@)),
{
    let ghost ps = peer_views(peers@);
    let mut s = literal(r#"{"peers":["#);
    let ghost head = s@;
    let mut i: usize = 0;
    assert(ps.take(0) == Seq::<(Seq<char>, Seq<char>, Seq<char>)>::empty());
    while i < peers.len()
        invariant
            i <= peers@.len(),
            ps == peer_views(peers@),
            head == r#"{"peers":["#@,
            s@ == head + peer_items(ps.take(i as int)),
        decreases peers@.len() - i,
    {
        let ghost before = s@;
        assert(ps.take(i + 1).drop_last() == ps.take(i as int));
        assert(ps.take(i + 1).last() == peer_view(peers@[i as int]));
        if i > 0 {
            push_str(&mut s, ",");
            proof { reveal_strlit(","); }
        }
        let p = &peers[i];
        push_str(&mut s, r#"{"id":""#);
        push_json_escaped(&mut s, p.id.as_str());
        push_str(&mut s, r#"","created_at":""#);
        push_json_escaped(&mut s, p.created_at.as_str());
        push_str(&mut s, r#"","ip":""#);
        push_json_escaped(&mut s, p.ip.as_str());
        push_str(&mut s, r#""}"#);
        proof {
            let obj = peer_object(peer_view(peers@[i as int]));
            if i == 0 {
                assert(ps.take(1)[0] == peer_view(peers@[0]));
                assert(s@ == before + obj);
            } else {
                assert(s@ == before + seq![','] + obj);
            }
        }
        i += 1;
    }
    assert(ps.take(peers@.len() as int) == ps);
    push_str(&mut s, "]}");
    s
}

} // verus!
