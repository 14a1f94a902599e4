//! The decisions of the manager's web handlers that do not read or write
//! anything themselves.

use vstd::prelude::*;
use crate::text::{trim, str_eq, trim_str, push_str_chars, string_from_chars};
use crate::protocol::{PeerStat, PeerStatView, stats_view};
use crate::db::Peer;

verus! {

/// How long after its latest handshake a peer still counts as connected.
pub const CONNECTED_WINDOW_SECS: u64 = 180;

/// One row of the dashboard's peer list.
#[derive(Debug, Clone)]
pub struct PeerStatus {
    pub id: i64,
    pub public_key: String,
    pub connected: bool,
    pub latest_handshake: Option<u64>,
    pub rx_bytes: u64,
    pub tx_bytes: u64,
}

/// What the interface reports of a key: the last report of it, as a map
/// filled in order keeps the last value of a key.
pub open spec fn stat_for(stats: Seq<PeerStatView>, key: Seq<char>) -> Option<PeerStatView>
    decreases stats.len(),
{
    if stats.len() == 0 {
        None
    } else if stats.last().public_key == key {
        Some(stats.last())
    } else {
        stat_for(stats.drop_last(), key)
    }
}

/// A handshake at `h` (seconds since the epoch) counts as a live
/// connection at `now` when it is at most 180 seconds old.
pub open spec fn recent(h: u64, now: u64) -> bool {
    now <= h + CONNECTED_WINDOW_SECS
}

/// The dashboard row of a peer, given what the interface reports of it.
pub open spec fn status_ok(p: Peer, s: Option<PeerStatView>, now: u64, r: PeerStatus) -> bool {
    &&& r.id == p.id
    &&& r.public_key@ == p.public_key@
    &&& match s {
        Some(st) => {
            &&& r.latest_handshake == st.latest_handshake
            &&& r.rx_bytes == st.rx_bytes
            &&& r.tx_bytes == st.tx_bytes
            &&& r.connected == (st.latest_handshake matches Some(h) && recent(h, now))
        },
        None => {
            &&& r.latest_handshake is None
            &&& r.rx_bytes == 0
            &&& r.tx_bytes == 0
            &&& !r.connected
        },
    }
}

/// The dashboard rows of the peers of the database, in its order, each
/// joined with what the interface reports under the peer's public key.
pub open spec fn rows_ok(peers: Seq<Peer>, stats: Seq<PeerStatView>, now: u64, rows: Seq<PeerStatus>) -> bool {
    &&& rows.len() == peers.len()
    &&& forall|i: int|
        0 <= i < rows.len() ==> status_ok(
            peers[i],
            stat_for(stats, peers[i].public_key@),
            now,
            #[trigger] rows[i],
        )
}

/// The last report of `key` among the interface's peers.
fn find_stat(stats: &Vec<PeerStat>, key: &str) -> (r: Option<usize>)
    ensures
        match stat_for(stats_view(stats@), key@) {
            None => r is None,
            Some(st) => r matches Some(i) && i < stats@.len() && stats@[i as int]@ == st,
        },
{
    let mut k: usize = stats.len();
    let ghost sv = stats_view(stats@);
    proof {
        assert(sv.take(k as int) =~= sv);
    }
    while k > 0
        invariant
            k <= stats@.len(),
            sv == stats_view(stats@),
            stat_for(sv, key@) == stat_for(sv.take(k as int), key@),
        decreases k,
    {
        let ghost t = sv.take(k as int);
        proof {
            assert(t.drop_last() =~= sv.take(k - 1));
            assert(t.last() == stats@[k - 1]@);
        }
        if str_eq(stats[k - 1].public_key.as_str(), key) {
            return Some(k - 1);
        }
        k = k - 1;
    }
    None
}

/// The dashboard rows: one per peer of the database, in its order, joined
/// with what the interface reports under the peer's public key.
pub fn merge_peer_stats(db_peers: &Vec<Peer>, wg_peers: &Vec<PeerStat>, now: u64) -> (r: Vec<PeerStatus>)
    ensures
        rows_ok(db_peers@, stats_view(wg_peers@), now, r@),
{
    let mut out: Vec<PeerStatus> = Vec::new();
    let mut i: usize = 0;
    while i < db_peers.len()
        invariant
            i <= db_peers@.len(),
            out@.len() == i,
            forall|j: int|
                0 <= j < i ==> status_ok(
                    db_peers@[j],
                    stat_for(stats_view(wg_peers@), db_peers@[j].public_key@),
                    now,
                    #[trigger] out@[j],
                ),
        decreases db_peers.len() - i,
    {
        let p = &db_peers[i];
        let row = match find_stat(wg_peers, p.public_key.as_str()) {
            Some(k) => {
                let s = &wg_peers[k];
                let connected = match s.latest_handshake {
                    Some(h) => now <= h || now - h <= CONNECTED_WINDOW_SECS,
                    None => false,
                };
                PeerStatus {
                    id: p.id,
                    public_key: p.public_key.clone(),
                    connected,
                    latest_handshake: s.latest_handshake,
                    rx_bytes: s.rx_bytes,
                    tx_bytes: s.tx_bytes,
                }
            },
            None => PeerStatus {
                id: p.id,
                public_key: p.public_key.clone(),
                connected: false,
                latest_handshake: None,
                rx_bytes: 0,
                tx_bytes: 0,
            },
        };
        out.push(row);
        i = i + 1;
    }
    out
}

/// What changing a peer's active flag asks of the interface.
#[derive(Debug, PartialEq, Eq, Structural)]
pub enum WgChange {
    /// The flag does not change: nothing to do.
    Keep,
    /// Set the peer on the interface again.
    Enable,
    /// Remove the peer from the interface.
    Disable,
}

/// What the interface must do when a peer's active flag goes from
/// `current` to `requested`.
pub fn toggle_change(current: bool, requested: bool) -> (r: WgChange)
    ensures
        current == requested ==> r == WgChange::Keep,
        current != requested && requested ==> r == WgChange::Enable,
        current != requested && !requested ==> r == WgChange::Disable,
{
    if current == requested {
        WgChange::Keep
    } else if requested {
        WgChange::Enable
    } else {
        WgChange::Disable
    }
}

/// What an update of a peer does: the change on the interface, the new
/// active flag to store, and the new name to store.
pub struct PeerUpdate {
    pub wg: WgChange,
    pub set_active: Option<bool>,
    pub rename: Option<String>,
}

/// What a requested active flag asks for when `current` is stored: the
/// change on the interface and the flag to store.
pub open spec fn flag_update(current: bool, requested: Option<bool>) -> (WgChange, Option<bool>) {
    match requested {
        Some(a) => if a == current {
            (WgChange::Keep, None)
        } else if a {
            (WgChange::Enable, Some(a))
        } else {
            (WgChange::Disable, Some(a))
        },
        None => (WgChange::Keep, None),
    }
}

/// The update that a request asks of a peer: a requested active flag that
/// differs from the stored one is applied on the interface and stored; a
/// requested name is stored.
pub fn plan_peer_update(peer: &Peer, is_active: Option<bool>, name: Option<String>) -> (r: PeerUpdate)
    ensures
        (r.wg, r.set_active) == flag_update(peer.is_active, is_active),
        r.rename == name,
{
    match is_active {
        Some(a) => {
            let wg = toggle_change(peer.is_active, a);
            let set_active = if a != peer.is_active {
                Some(a)
            } else {
                None
            };
            PeerUpdate { wg, set_active, rename: name }
        },
        None => PeerUpdate { wg: WgChange::Keep, set_active: None, rename: name },
    }
}

/// An update is idempotent: once its flag is stored, the same request
/// changes nothing on the interface and stores nothing.
pub proof fn lemma_update_idempotent(current: bool, requested: Option<bool>)
    ensures
        ({
            let stored = match flag_update(current, requested).1 {
                Some(a) => a,
                None => current,
            };
            flag_update(stored, requested) == (WgChange::Keep, None::<bool>)
        }),
{
}

/// Whether deleting a peer first removes it from the interface: only an
/// active peer is on it.
pub fn delete_removes_from_interface(peer: &Peer) -> (r: bool)
    ensures
        r == peer.is_active,
{
    peer.is_active
}

/// The allowed IPs that a peer is set on the interface with: its address
/// as a single-host network.
pub fn peer_allowed_ips(peer: &Peer) -> (r: Vec<String>)
    ensures
        r.deep_view() == seq![peer.allocated_ip@ + "/32"@],
{
    let mut v: Vec<char> = Vec::new();
    push_str_chars(&mut v, peer.allocated_ip.as_str());
    push_str_chars(&mut v, "/32");
    let s = string_from_chars(&v);
    let mut r: Vec<String> = Vec::new();
    let ghost before = r;
    let ghost pushed = s;
    r.push(s);
    proof {
        crate::text::lemma_push_string_deep(before, r, pushed);
        assert(r.deep_view() =~= seq![peer.allocated_ip@ + "/32"@]);
    }
    r
}

/// The `server_public_key` query parameter that a configuration download
/// needs: present and not blank; it is used trimmed.
pub fn required_server_public_key(param: Option<&str>) -> (r: Result<String, String>)
    ensures
        match param {
            Some(p) => if trim(p@).len() > 0 {
                r matches Ok(k) && k@ == trim(p@)
            } else {
                r matches Err(e) && e@ == "server_public_key required"@
            },
            None => r matches Err(e) && e@ == "server_public_key required"@,
        },
{
    match param {
        Some(p) => {
            let t = trim_str(p);
            if t.as_str().is_empty() {
                Err("server_public_key required".to_string())
            } else {
                Ok(t)
            }
        },
        None => Err("server_public_key required".to_string()),
    }
}

/// The `Content-Disposition` of a downloaded configuration: an attachment
/// named after the peer.
pub fn conf_attachment_header(peer_name: &str) -> (r: String)
    ensures
        r@ == "attachment; filename=\""@ + peer_name@ + ".conf\""@,
{
    let mut v: Vec<char> = Vec::new();
    push_str_chars(&mut v, "attachment; filename=\"");
    push_str_chars(&mut v, peer_name);
    push_str_chars(&mut v, ".conf\"");
    string_from_chars(&v)
}

} // verus!
