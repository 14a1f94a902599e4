//! The one-line JSON protocol between the manager and the privileged worker:
//! its message types, and how the manager reads a worker's reply.
//!
//! The JSON text itself is written and read by the application around the
//! library; the library decides what a reply means.

use vstd::prelude::*;

verus! {

/// An access-control rule handed from the manager to the worker.
#[derive(Debug, Clone)]
pub struct AclRule {
    /// `"allow"` or `"deny"`.
    pub action: String,
    pub target_cidr: String,
    /// `"any"`, `"tcp"`, `"udp"` or `"icmp"`.
    pub protocol: String,
    /// `""`, `"80"` or `"80-443"` (tcp/udp only).
    pub port_range: String,
    pub priority: i64,
    pub description: String,
}

/// The rules of one peer, as sent in [`WorkerRequest::ReloadAllAcl`].
#[derive(Debug, Clone)]
pub struct PeerAclEntry {
    pub peer_ip: String,
    pub rules: Vec<AclRule>,
}

/// A request to the worker; its JSON form carries the variant in `"cmd"`.
#[derive(Debug, Clone)]
pub enum WorkerRequest {
    GetPublicKey,
    GetPeerStats,
    PeerSet { public_key: String, allowed_ips: Vec<String>, preshared_key: Option<String> },
    PeerRemove { public_key: String },
    UpdateWireGuard,
    /// Applies the ACL of one peer; empty `rules` remove that peer's rules.
    ApplyAclRules { peer_ip: String, rules: Vec<AclRule> },
    /// Applies the ACL of every peer again (at start-up).
    ReloadAllAcl { peers: Vec<PeerAclEntry> },
}

/// One peer as `wg show <interface> dump` reports it.
#[derive(Debug, Clone)]
pub struct PeerStat {
    pub public_key: String,
    pub endpoint: Option<String>,
    pub allowed_ips: Vec<String>,
    pub latest_handshake: Option<u64>,
    pub rx_bytes: u64,
    pub tx_bytes: u64,
}

/// The model of a [`PeerStat`].
pub struct PeerStatView {
    pub public_key: Seq<char>,
    pub endpoint: Option<Seq<char>>,
    pub allowed_ips: Seq<Seq<char>>,
    pub latest_handshake: Option<u64>,
    pub rx_bytes: u64,
    pub tx_bytes: u64,
}

impl View for PeerStat {
    type V = PeerStatView;

    open spec fn view(&self) -> PeerStatView {
        PeerStatView {
            public_key: self.public_key@,
            endpoint: self.endpoint.deep_view(),
            allowed_ips: self.allowed_ips.deep_view(),
            latest_handshake: self.latest_handshake,
            rx_bytes: self.rx_bytes,
            tx_bytes: self.tx_bytes,
        }
    }
}

/// The models of a sequence of peers.
pub open spec fn stats_view(s: Seq<PeerStat>) -> Seq<PeerStatView> {
    Seq::new(s.len(), |i: int| s[i]@)
}

/// A reply of the worker: `ok`, and what the request asked for or an error.
#[derive(Debug, Clone)]
pub struct WorkerResponse {
    pub ok: bool,
    pub public_key: Option<String>,
    pub peers: Option<Vec<PeerStat>>,
    pub error: Option<String>,
    pub output: Option<String>,
}

/// The error text of a failed reply: its `error`, or `"unknown"`.
pub open spec fn reply_error(r: WorkerResponse) -> Seq<char> {
    match r.error {
        Some(e) => e@,
        None => "unknown"@,
    }
}

/// What the manager reads from a reply to `get_public_key`: the key, or
/// the error text.
pub open spec fn public_key_reading(reply: Result<WorkerResponse, String>) -> Result<Seq<char>, Seq<char>> {
    match reply {
        Err(e) => Err(e@),
        Ok(resp) => if !resp.ok {
            Err(reply_error(resp))
        } else {
            match resp.public_key {
                Some(k) => Ok(k@),
                None => Err("no public_key in response"@),
            }
        },
    }
}

/// What the manager reads from a reply to `get_peer_stats`: the peers
/// (none when the reply names none), or the error text.
pub open spec fn peer_stats_reading(reply: Result<WorkerResponse, String>) -> Result<Seq<PeerStatView>, Seq<char>> {
    match reply {
        Err(e) => Err(e@),
        Ok(resp) => if !resp.ok {
            Err(reply_error(resp))
        } else {
            match resp.peers {
                Some(p) => Ok(stats_view(p@)),
                None => Ok(Seq::empty()),
            }
        },
    }
}

/// What the manager reads from a reply to a request that asks for nothing
/// back: success, or the error text.
pub open spec fn ack_reading(reply: Result<WorkerResponse, String>) -> Result<(), Seq<char>> {
    match reply {
        Err(e) => Err(e@),
        Ok(resp) => if !resp.ok {
            Err(reply_error(resp))
        } else {
            Ok(())
        },
    }
}

/// How the manager reads a reply, or the failure to get one: a failed
/// exchange or a reply with `ok == false` is an error.
pub fn check_response(reply: Result<WorkerResponse, String>) -> (r: Result<WorkerResponse, String>)
    ensures
        match reply {
            Err(e) => r matches Err(x) && x@ == e@,
            Ok(resp) => if resp.ok {
                r == Ok::<WorkerResponse, String>(resp)
            } else {
                r matches Err(x) && x@ == reply_error(resp)
            },
        },
{
    match reply {
        Err(e) => Err(e),
        Ok(resp) => {
            if resp.ok {
                Ok(resp)
            } else {
                match resp.error {
                    Some(e) => Err(e),
                    None => Err("unknown".to_string()),
                }
            }
        },
    }
}

/// The server's public key from the worker's reply to `get_public_key`.
pub fn get_server_public_key(reply: Result<WorkerResponse, String>) -> (r: Result<String, String>)
    ensures
        match r {
            Ok(x) => public_key_reading(reply) == Ok::<Seq<char>, Seq<char>>(x@),
            Err(x) => public_key_reading(reply) == Err::<Seq<char>, Seq<char>>(x@),
        },
{
    let resp = check_response(reply)?;
    match resp.public_key {
        Some(k) => Ok(k),
        None => Err("no public_key in response".to_string()),
    }
}

/// The peers from the worker's reply to `get_peer_stats`; none when the
/// reply names none.
pub fn get_peer_stats(reply: Result<WorkerResponse, String>) -> (r: Result<Vec<PeerStat>, String>)
    ensures
        match r {
            Ok(x) => peer_stats_reading(reply) == Ok::<Seq<PeerStatView>, Seq<char>>(stats_view(x@)),
            Err(x) => peer_stats_reading(reply) == Err::<Seq<PeerStatView>, Seq<char>>(x@),
        },
{
    let resp = check_response(reply)?;
    match resp.peers {
        Some(p) => Ok(p),
        None => {
            let v: Vec<PeerStat> = Vec::new();
            proof {
                assert(stats_view(v@) =~= Seq::<PeerStatView>::empty());
            }
            Ok(v)
        },
    }
}

/// Whether the worker carried out a request that asks for nothing back.
pub fn acknowledged(reply: Result<WorkerResponse, String>) -> (r: Result<(), String>)
    ensures
        match r {
            Ok(_) => ack_reading(reply) == Ok::<(), Seq<char>>(()),
            Err(x) => ack_reading(reply) == Err::<(), Seq<char>>(x@),
        },
{
    let _ = check_response(reply)?;
    Ok(())
}

/// The output of the WireGuard update from the worker's reply to
/// `update_wire_guard`; empty when the reply carries none.
pub fn update_output(reply: Result<WorkerResponse, String>) -> (r: Result<String, String>)
    ensures
        match r {
            Ok(x) => ack_reading(reply) == Ok::<(), Seq<char>>(()) && x@ == (match reply {
                Ok(resp) => match resp.output {
                    Some(o) => o@,
                    None => Seq::<char>::empty(),
                },
                Err(_) => Seq::<char>::empty(),
            }),
            Err(x) => ack_reading(reply) == Err::<(), Seq<char>>(x@),
        },
{
    let resp = check_response(reply)?;
    match resp.output {
        Some(o) => Ok(o),
        None => Ok(String::new()),
    }
}

/// The request that adds or updates a peer on the interface.
pub fn peer_set_request(public_key: &str, allowed_ips: &Vec<String>, preshared_key: Option<&str>) -> (r: WorkerRequest)
    ensures
        r matches WorkerRequest::PeerSet { public_key: k, allowed_ips: a, preshared_key: p } && k@
            == public_key@ && a.deep_view() == allowed_ips.deep_view() && p.deep_view()
            == preshared_key.deep_view(),
{
    let psk: Option<String> = match preshared_key {
        Some(p) => Some(p.to_string()),
        None => None,
    };
    WorkerRequest::PeerSet {
        public_key: public_key.to_string(),
        allowed_ips: allowed_ips.clone(),
        preshared_key: psk,
    }
}

/// The request that removes a peer from the interface.
pub fn peer_remove_request(public_key: &str) -> (r: WorkerRequest)
    ensures
        r matches WorkerRequest::PeerRemove { public_key: k } && k@ == public_key@,
{
    WorkerRequest::PeerRemove { public_key: public_key.to_string() }
}

} // verus!
