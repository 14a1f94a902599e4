//! The API requests that take several outside steps, as state machines.
//!
//! The application performs each step that a machine asks for (a database
//! call, a key generation with `wg`, a change on the interface) and hands
//! its outcome back as an event; the machine decides the next step and what
//! the request is answered with.

use vstd::prelude::*;
use crate::config::Settings;
use crate::conf::{build_client_conf, conf_text};
use crate::db::Peer;
use crate::qr::{png_gray, qr_render, qrcode_png, QR_MIN_SIZE};
use crate::text::trim;
use crate::ipalloc::{allocate_next_ip, allocation_outcome};
use crate::protocol::{PeerStat, stats_view};
use crate::web::{
    conf_attachment_header, delete_removes_from_interface, flag_update, merge_peer_stats,
    peer_allowed_ips, plan_peer_update, required_server_public_key, rows_ok, PeerStatus, PeerUpdate,
    WgChange,
};

verus! {

/// The status of a request whose input is refused.
pub const STATUS_BAD_REQUEST: u16 = 400;

/// The status of a request for a peer that does not exist.
pub const STATUS_NOT_FOUND: u16 = 404;

/// The status of a failed database call or key generation.
pub const STATUS_INTERNAL_ERROR: u16 = 500;

/// The status of a failed change on the interface.
pub const STATUS_UNAVAILABLE: u16 = 503;

/// How a failed request is answered: its status and the body text.
pub struct ApiFailure {
    pub status: u16,
    pub message: String,
}

/// A failure with the given status and text.
pub open spec fn failed_with(f: ApiFailure, status: u16, message: Seq<char>) -> bool {
    f.status == status && f.message@ == message
}

// ---------------------------------------------------------------------
// Creating a peer
// ---------------------------------------------------------------------

/// What a peer creation waits for.
pub enum CreateStage {
    /// The addresses that active peers hold.
    AwaitUsedIps,
    /// A new private key; the address is chosen.
    AwaitPrivateKey { ip: String },
    /// The public key of the private key.
    AwaitPublicKey { ip: String, private_key: String },
    /// A preshared key (a failure means none).
    AwaitPresharedKey { ip: String, private_key: String, public_key: String },
    /// The stored peer.
    AwaitStored,
    /// The peer set on the interface.
    AwaitEnabled { peer: Peer },
    /// Answered.
    Finished,
}

/// The outcome of a step of a peer creation.
pub enum CreateEvent {
    UsedIps(Result<Vec<String>, String>),
    PrivateKey(Result<String, String>),
    PublicKey(Result<String, String>),
    PresharedKey(Result<String, String>),
    Stored(Result<Peer, String>),
    Enabled(Result<(), String>),
}

/// The next step of a peer creation.
pub enum CreateStep {
    /// `Database::list_allocated_ips`.
    ListUsedIps,
    /// `wg genkey`.
    GeneratePrivateKey,
    /// `wg pubkey` of the private key.
    GeneratePublicKey { private_key: String },
    /// `wg genpsk`.
    GeneratePresharedKey,
    /// `Database::create_peer`, active.
    StorePeer {
        name: String,
        public_key: String,
        private_key: String,
        preshared_key: Option<String>,
        ip: String,
    },
    /// Set the peer on the interface.
    EnablePeer { public_key: String, allowed_ips: Vec<String>, preshared_key: Option<String> },
    /// Answer with the failure.
    Fail(ApiFailure),
    /// Answer with the new peer, its private key included.
    Created(Peer),
}

/// A peer creation in progress: the requested name, the range that the
/// address comes from, and what it waits for.
pub struct PeerCreation {
    pub name: String,
    pub ip_range: String,
    pub stage: CreateStage,
}

/// Whether the stage waits for this kind of event.
pub open spec fn create_awaits(stage: CreateStage, event: CreateEvent) -> bool {
    match stage {
        CreateStage::AwaitUsedIps => event is UsedIps,
        CreateStage::AwaitPrivateKey { .. } => event is PrivateKey,
        CreateStage::AwaitPublicKey { .. } => event is PublicKey,
        CreateStage::AwaitPresharedKey { .. } => event is PresharedKey,
        CreateStage::AwaitStored => event is Stored,
        CreateStage::AwaitEnabled { .. } => event is Enabled,
        CreateStage::Finished => false,
    }
}

/// How far a creation has come; every step goes further.
pub open spec fn create_rank(stage: CreateStage) -> int {
    match stage {
        CreateStage::AwaitUsedIps => 0,
        CreateStage::AwaitPrivateKey { .. } => 1,
        CreateStage::AwaitPublicKey { .. } => 2,
        CreateStage::AwaitPresharedKey { .. } => 3,
        CreateStage::AwaitStored => 4,
        CreateStage::AwaitEnabled { .. } => 5,
        CreateStage::Finished => 6,
    }
}

/// The creation ends with the failure.
pub open spec fn create_fails(r: (PeerCreation, CreateStep), status: u16, message: Seq<char>) -> bool {
    &&& r.0.stage is Finished
    &&& r.1 matches CreateStep::Fail(f) && failed_with(f, status, message)
}

/// The addresses in use as the creation reads them: none when the database
/// could not list them.
pub open spec fn used_or_none(used: Result<Vec<String>, String>) -> Seq<Seq<char>> {
    match used {
        Ok(v) => v.deep_view(),
        Err(_) => Seq::empty(),
    }
}

/// What a creation does with the outcome of its step.
pub open spec fn create_next(c: PeerCreation, event: CreateEvent, r: (PeerCreation, CreateStep)) -> bool {
    &&& r.0.name@ == c.name@
    &&& r.0.ip_range@ == c.ip_range@
    &&& match (c.stage, event) {
        (CreateStage::AwaitUsedIps, CreateEvent::UsedIps(used)) => {
            let u = used_or_none(used);
            ||| (r.1 is GeneratePrivateKey && (r.0.stage matches CreateStage::AwaitPrivateKey { ip }
                && allocation_outcome(c.ip_range@, u, Ok(ip@))))
            ||| (r.0.stage is Finished && (r.1 matches CreateStep::Fail(f) && f.status
                == STATUS_BAD_REQUEST && allocation_outcome(c.ip_range@, u, Err(f.message@))))
        },
        (CreateStage::AwaitPrivateKey { ip }, CreateEvent::PrivateKey(k)) => match k {
            Ok(pk) => {
                &&& r.0.stage matches CreateStage::AwaitPublicKey { ip: i, private_key: p } && i@
                    == ip@ && p@ == pk@
                &&& r.1 matches CreateStep::GeneratePublicKey { private_key: p } && p@ == pk@
            },
            Err(e) => create_fails(r, STATUS_INTERNAL_ERROR, e@),
        },
        (CreateStage::AwaitPublicKey { ip, private_key }, CreateEvent::PublicKey(k)) => match k {
            Ok(pubk) => {
                &&& r.0.stage matches CreateStage::AwaitPresharedKey {
                    ip: i,
                    private_key: p,
                    public_key: q,
                } && i@ == ip@ && p@ == private_key@ && q@ == pubk@
                &&& r.1 is GeneratePresharedKey
            },
            Err(e) => create_fails(r, STATUS_INTERNAL_ERROR, e@),
        },
        (
            CreateStage::AwaitPresharedKey { ip, private_key, public_key },
            CreateEvent::PresharedKey(k),
        ) => {
            &&& r.0.stage is AwaitStored
            &&& r.1 matches CreateStep::StorePeer {
                name: n,
                public_key: q,
                private_key: p,
                preshared_key: s,
                ip: i,
            } && n@ == c.name@ && q@ == public_key@ && p@ == private_key@ && i@ == ip@ && s.deep_view()
                == (match k {
                Ok(x) => Some(x@),
                Err(_) => None,
            })
        },
        (CreateStage::AwaitStored, CreateEvent::Stored(p)) => match p {
            Ok(peer) => {
                &&& r.0.stage == CreateStage::AwaitEnabled { peer }
                &&& r.1 matches CreateStep::EnablePeer {
                    public_key: q,
                    allowed_ips: a,
                    preshared_key: s,
                } && q@ == peer.public_key@ && a.deep_view() == seq![peer.allocated_ip@ + "/32"@]
                    && s.deep_view() == peer.pre_shared_key.deep_view()
            },
            Err(e) => create_fails(r, STATUS_INTERNAL_ERROR, e@),
        },
        (CreateStage::AwaitEnabled { peer }, CreateEvent::Enabled(x)) => match x {
            Ok(_) => r.0.stage is Finished && r.1 == CreateStep::Created(peer),
            Err(e) => create_fails(r, STATUS_UNAVAILABLE, e@),
        },
        _ => false,
    }
}

fn copy_opt(s: &Option<String>) -> (r: Option<String>)
    ensures
        r.deep_view() == s.deep_view(),
{
    match s {
        Some(x) => Some(x.clone()),
        None => None,
    }
}

impl PeerCreation {
    /// A creation of a peer named `name` with an address from `ip_range`;
    /// its first step lists the addresses in use.
    pub fn start(name: String, ip_range: String) -> (r: (PeerCreation, CreateStep))
        ensures
            r.0.name == name,
            r.0.ip_range == ip_range,
            r.0.stage is AwaitUsedIps,
            r.1 is ListUsedIps,
    {
        (PeerCreation { name, ip_range, stage: CreateStage::AwaitUsedIps }, CreateStep::ListUsedIps)
    }

    /// The next step, given the outcome of the last one: the first free
    /// address (an unlisted set of addresses counts as empty), a private
    /// key, its public key, a preshared key (none if it failed), the stored
    /// peer, and the peer set on the interface with its address as a
    /// single-host network. A failed address choice is answered 400, a
    /// failed key or database call 500, a failed change on the interface
    /// 503; a creation that got through every step is answered with the
    /// stored peer.
    pub fn step(self, event: CreateEvent) -> (r: (PeerCreation, CreateStep))
        requires
            create_awaits(self.stage, event),
        ensures
            create_next(self, event, r),
            create_rank(r.0.stage) > create_rank(self.stage),
    {
        let PeerCreation { name, ip_range, stage } = self;
        match (stage, event) {
            (CreateStage::AwaitUsedIps, CreateEvent::UsedIps(used)) => {
                let u: Vec<String> = match used {
                    Ok(v) => v,
                    Err(_) => Vec::new(),
                };
                let a = allocate_next_ip(ip_range.as_str(), u.as_slice());
                match a {
                    Ok(ip) => (
                        PeerCreation { name, ip_range, stage: CreateStage::AwaitPrivateKey { ip } },
                        CreateStep::GeneratePrivateKey,
                    ),
                    Err(e) => (
                        PeerCreation { name, ip_range, stage: CreateStage::Finished },
                        CreateStep::Fail(ApiFailure { status: STATUS_BAD_REQUEST, message: e }),
                    ),
                }
            },
            (CreateStage::AwaitPrivateKey { ip }, CreateEvent::PrivateKey(k)) => match k {
                Ok(pk) => {
                    let step = CreateStep::GeneratePublicKey { private_key: pk.clone() };
                    (
                        PeerCreation {
                            name,
                            ip_range,
                            stage: CreateStage::AwaitPublicKey { ip, private_key: pk },
                        },
                        step,
                    )
                },
                Err(e) => (
                    PeerCreation { name, ip_range, stage: CreateStage::Finished },
                    CreateStep::Fail(ApiFailure { status: STATUS_INTERNAL_ERROR, message: e }),
                ),
            },
            (CreateStage::AwaitPublicKey { ip, private_key }, CreateEvent::PublicKey(k)) => match k {
                Ok(pubk) => (
                    PeerCreation {
                        name,
                        ip_range,
                        stage: CreateStage::AwaitPresharedKey { ip, private_key, public_key: pubk },
                    },
                    CreateStep::GeneratePresharedKey,
                ),
                Err(e) => (
                    PeerCreation { name, ip_range, stage: CreateStage::Finished },
                    CreateStep::Fail(ApiFailure { status: STATUS_INTERNAL_ERROR, message: e }),
                ),
            },
            (
                CreateStage::AwaitPresharedKey { ip, private_key, public_key },
                CreateEvent::PresharedKey(k),
            ) => {
                let preshared_key: Option<String> = match k {
                    Ok(x) => Some(x),
                    Err(_) => None,
                };
                let step = CreateStep::StorePeer {
                    name: name.clone(),
                    public_key,
                    private_key,
                    preshared_key,
                    ip,
                };
                (PeerCreation { name, ip_range, stage: CreateStage::AwaitStored }, step)
            },
            (CreateStage::AwaitStored, CreateEvent::Stored(p)) => match p {
                Ok(peer) => {
                    let step = CreateStep::EnablePeer {
                        public_key: peer.public_key.clone(),
                        allowed_ips: peer_allowed_ips(&peer),
                        preshared_key: copy_opt(&peer.pre_shared_key),
                    };
                    (PeerCreation { name, ip_range, stage: CreateStage::AwaitEnabled { peer } }, step)
                },
                Err(e) => (
                    PeerCreation { name, ip_range, stage: CreateStage::Finished },
                    CreateStep::Fail(ApiFailure { status: STATUS_INTERNAL_ERROR, message: e }),
                ),
            },
            (CreateStage::AwaitEnabled { peer }, CreateEvent::Enabled(x)) => match x {
                Ok(_) => (
                    PeerCreation { name, ip_range, stage: CreateStage::Finished },
                    CreateStep::Created(peer),
                ),
                Err(e) => (
                    PeerCreation { name, ip_range, stage: CreateStage::Finished },
                    CreateStep::Fail(ApiFailure { status: STATUS_UNAVAILABLE, message: e }),
                ),
            },
            (_, _) => {
                proof {
                    assert(false);
                }
                (PeerCreation { name, ip_range, stage: CreateStage::Finished }, CreateStep::ListUsedIps)
            },
        }
    }
}

/// A creation stores exactly what it chose and generated: the requested
/// name, the first free address of the range, the private key, the public
/// key, and the preshared key when one could be made.
pub proof fn lemma_creation_stores_what_it_generated(
    c: PeerCreation,
    used: Result<Vec<String>, String>,
    private_key: String,
    public_key: String,
    preshared: Result<String, String>,
    r1: (PeerCreation, CreateStep),
    r2: (PeerCreation, CreateStep),
    r3: (PeerCreation, CreateStep),
    r4: (PeerCreation, CreateStep),
)
    requires
        c.stage is AwaitUsedIps,
        create_next(c, CreateEvent::UsedIps(used), r1),
        r1.1 is GeneratePrivateKey,
        create_next(r1.0, CreateEvent::PrivateKey(Ok(private_key)), r2),
        create_next(r2.0, CreateEvent::PublicKey(Ok(public_key)), r3),
        create_next(r3.0, CreateEvent::PresharedKey(preshared), r4),
    ensures
        r4.1 matches CreateStep::StorePeer { name: n, public_key: q, private_key: p, preshared_key: k, ip: i }
            && n@ == c.name@ && q@ == public_key@ && p@ == private_key@ && allocation_outcome(
            c.ip_range@,
            used_or_none(used),
            Ok(i@),
        ) && k.deep_view() == (match preshared {
            Ok(x) => Some(x@),
            Err(_) => None,
        }),
{
}

/// A creation that gets through answers with the very peer that was
/// stored, after setting that peer on the interface: its public key, its
/// address as a single-host network and its preshared key.
pub proof fn lemma_creation_answers_the_stored_peer(
    c: PeerCreation,
    peer: Peer,
    r1: (PeerCreation, CreateStep),
    r2: (PeerCreation, CreateStep),
)
    requires
        c.stage is AwaitStored,
        create_next(c, CreateEvent::Stored(Ok(peer)), r1),
        create_next(r1.0, CreateEvent::Enabled(Ok(())), r2),
    ensures
        r1.1 matches CreateStep::EnablePeer { public_key: k, allowed_ips: a, preshared_key: s } && k@
            == peer.public_key@ && a.deep_view() == seq![peer.allocated_ip@ + "/32"@] && s.deep_view()
            == peer.pre_shared_key.deep_view(),
        r2.1 == CreateStep::Created(peer),
        r2.0.stage is Finished,
{
}

// ---------------------------------------------------------------------
// Updating a peer
// ---------------------------------------------------------------------

/// What a peer update waits for.
pub enum UpdateStage {
    /// The stored peer.
    AwaitPeer,
    /// The change on the interface; then the flag and the name to store.
    AwaitInterface { set_active: Option<bool>, rename: Option<String> },
    /// The stored flag; then the name to store.
    AwaitActiveStored { rename: Option<String> },
    /// The stored name.
    AwaitNameStored,
    /// Answered.
    Finished,
}

/// The outcome of a step of a peer update.
pub enum UpdateEvent {
    Peer(Result<Option<Peer>, String>),
    Interface(Result<(), String>),
    ActiveStored(Result<(), String>),
    NameStored(Result<(), String>),
}

/// The next step of a peer update.
pub enum UpdateStep {
    /// `Database::get_peer`.
    GetPeer { id: i64 },
    /// Set the peer on the interface.
    EnablePeer { public_key: String, allowed_ips: Vec<String>, preshared_key: Option<String> },
    /// Remove the peer from the interface.
    DisablePeer { public_key: String },
    /// `Database::set_peer_active`.
    StoreActive { id: i64, active: bool },
    /// `Database::update_peer_name`.
    StoreName { id: i64, name: String },
    /// Answer with the failure.
    Fail(ApiFailure),
    /// Answer "no content".
    Updated,
}

/// An update of the peer `id` in progress: the requested flag and name,
/// and what it waits for.
pub struct PeerUpdating {
    pub id: i64,
    pub is_active: Option<bool>,
    pub name: Option<String>,
    pub stage: UpdateStage,
}

/// Whether the stage waits for this kind of event.
pub open spec fn update_awaits(stage: UpdateStage, event: UpdateEvent) -> bool {
    match stage {
        UpdateStage::AwaitPeer => event is Peer,
        UpdateStage::AwaitInterface { .. } => event is Interface,
        UpdateStage::AwaitActiveStored { .. } => event is ActiveStored,
        UpdateStage::AwaitNameStored => event is NameStored,
        UpdateStage::Finished => false,
    }
}

/// How far an update has come; every step goes further.
pub open spec fn update_rank(stage: UpdateStage) -> int {
    match stage {
        UpdateStage::AwaitPeer => 0,
        UpdateStage::AwaitInterface { .. } => 1,
        UpdateStage::AwaitActiveStored { .. } => 2,
        UpdateStage::AwaitNameStored => 3,
        UpdateStage::Finished => 4,
    }
}

/// The update ends with the failure.
pub open spec fn update_fails(r: (PeerUpdating, UpdateStep), status: u16, message: Seq<char>) -> bool {
    &&& r.0.stage is Finished
    &&& r.1 matches UpdateStep::Fail(f) && failed_with(f, status, message)
}

/// After the stored flag: store the name if one was requested, else answer.
pub open spec fn then_name(id: i64, rename: Option<Seq<char>>, r: (PeerUpdating, UpdateStep)) -> bool {
    match rename {
        Some(n) => r.0.stage is AwaitNameStored && (r.1 matches UpdateStep::StoreName { id: i, name: m }
            && i == id && m@ == n),
        None => r.0.stage is Finished && r.1 is Updated,
    }
}

/// After the interface: store the flag if it changes, then the name.
pub open spec fn then_flag(id: i64, set_active: Option<bool>, rename: Option<Seq<char>>, r: (PeerUpdating, UpdateStep)) -> bool {
    match set_active {
        Some(a) => (r.0.stage matches UpdateStage::AwaitActiveStored { rename: q } && q.deep_view()
            == rename) && r.1 == UpdateStep::StoreActive { id, active: a },
        None => then_name(id, rename, r),
    }
}

/// What an update does with the outcome of its step.
pub open spec fn update_next(u: PeerUpdating, event: UpdateEvent, r: (PeerUpdating, UpdateStep)) -> bool {
    &&& r.0.id == u.id
    &&& r.0.is_active == u.is_active
    &&& r.0.name.deep_view() == u.name.deep_view()
    &&& match (u.stage, event) {
        (UpdateStage::AwaitPeer, UpdateEvent::Peer(p)) => match p {
            Err(e) => update_fails(r, STATUS_INTERNAL_ERROR, e@),
            Ok(None) => update_fails(r, STATUS_NOT_FOUND, Seq::empty()),
            Ok(Some(peer)) => {
                let (wg, set_active) = flag_update(peer.is_active, u.is_active);
                match wg {
                    WgChange::Keep => then_flag(u.id, set_active, u.name.deep_view(), r),
                    WgChange::Enable => {
                        &&& r.0.stage matches UpdateStage::AwaitInterface { set_active: s, rename: q }
                            && s == set_active && q.deep_view() == u.name.deep_view()
                        &&& r.1 matches UpdateStep::EnablePeer {
                            public_key: k,
                            allowed_ips: a,
                            preshared_key: psk,
                        } && k@ == peer.public_key@ && a.deep_view() == seq![
                            peer.allocated_ip@ + "/32"@,
                        ] && psk.deep_view() == peer.pre_shared_key.deep_view()
                    },
                    WgChange::Disable => {
                        &&& r.0.stage matches UpdateStage::AwaitInterface { set_active: s, rename: q }
                            && s == set_active && q.deep_view() == u.name.deep_view()
                        &&& r.1 matches UpdateStep::DisablePeer { public_key: k } && k@
                            == peer.public_key@
                    },
                }
            },
        },
        (UpdateStage::AwaitInterface { set_active, rename }, UpdateEvent::Interface(x)) => match x {
            Err(e) => update_fails(r, STATUS_UNAVAILABLE, e@),
            Ok(_) => then_flag(u.id, set_active, rename.deep_view(), r),
        },
        (UpdateStage::AwaitActiveStored { rename }, UpdateEvent::ActiveStored(x)) => match x {
            Err(e) => update_fails(r, STATUS_INTERNAL_ERROR, e@),
            Ok(_) => then_name(u.id, rename.deep_view(), r),
        },
        (UpdateStage::AwaitNameStored, UpdateEvent::NameStored(x)) => match x {
            Err(e) => update_fails(r, STATUS_INTERNAL_ERROR, e@),
            Ok(_) => r.0.stage is Finished && r.1 is Updated,
        },
        _ => false,
    }
}

impl PeerUpdating {
    /// An update of peer `id` to the requested flag and name; its first
    /// step reads the stored peer.
    pub fn start(id: i64, is_active: Option<bool>, name: Option<String>) -> (r: (PeerUpdating, UpdateStep))
        ensures
            r.0.id == id,
            r.0.is_active == is_active,
            r.0.name == name,
            r.0.stage is AwaitPeer,
            r.1 == (UpdateStep::GetPeer { id }),
    {
        (PeerUpdating { id, is_active, name, stage: UpdateStage::AwaitPeer }, UpdateStep::GetPeer { id })
    }

    /// What follows the change on the interface.
    fn after_interface(id: i64, is_active: Option<bool>, name: Option<String>, set_active: Option<bool>, rename: Option<String>) -> (r: (PeerUpdating, UpdateStep))
        ensures
            r.0.id == id,
            r.0.is_active == is_active,
            r.0.name == name,
            then_flag(id, set_active, rename.deep_view(), r),
            update_rank(r.0.stage) >= 2,
    {
        match set_active {
            Some(a) => (
                PeerUpdating { id, is_active, name, stage: UpdateStage::AwaitActiveStored { rename } },
                UpdateStep::StoreActive { id, active: a },
            ),
            None => Self::after_flag(id, is_active, name, rename),
        }
    }

    /// What follows the stored flag.
    fn after_flag(id: i64, is_active: Option<bool>, name: Option<String>, rename: Option<String>) -> (r: (PeerUpdating, UpdateStep))
        ensures
            r.0.id == id,
            r.0.is_active == is_active,
            r.0.name == name,
            then_name(id, rename.deep_view(), r),
            update_rank(r.0.stage) >= 3,
    {
        match rename {
            Some(n) => (
                PeerUpdating { id, is_active, name, stage: UpdateStage::AwaitNameStored },
                UpdateStep::StoreName { id, name: n },
            ),
            None => (PeerUpdating { id, is_active, name, stage: UpdateStage::Finished }, UpdateStep::Updated),
        }
    }

    /// The next step, given the outcome of the last one. A peer that could
    /// not be read is answered 500, a missing one 404; a requested flag that
    /// differs from the stored one is first applied on the interface (set
    /// with its address as a single-host network, or removed; a failure is
    /// answered 503) and then stored; a requested name is stored last; a
    /// failed store is answered 500; an update that got through is
    /// answered "no content".
    pub fn step(self, event: UpdateEvent) -> (r: (PeerUpdating, UpdateStep))
        requires
            update_awaits(self.stage, event),
        ensures
            update_next(self, event, r),
            update_rank(r.0.stage) > update_rank(self.stage),
    {
        let PeerUpdating { id, is_active, name, stage } = self;
        match (stage, event) {
            (UpdateStage::AwaitPeer, UpdateEvent::Peer(p)) => match p {
                Err(e) => (
                    PeerUpdating { id, is_active, name, stage: UpdateStage::Finished },
                    UpdateStep::Fail(ApiFailure { status: STATUS_INTERNAL_ERROR, message: e }),
                ),
                Ok(None) => (
                    PeerUpdating { id, is_active, name, stage: UpdateStage::Finished },
                    UpdateStep::Fail(ApiFailure { status: STATUS_NOT_FOUND, message: String::new() }),
                ),
                Ok(Some(peer)) => {
                    let plan: PeerUpdate = plan_peer_update(&peer, is_active, copy_opt(&name));
                    match plan.wg {
                        WgChange::Keep => Self::after_interface(id, is_active, name, plan.set_active, plan.rename),
                        WgChange::Enable => (
                            PeerUpdating {
                                id,
                                is_active,
                                name,
                                stage: UpdateStage::AwaitInterface {
                                    set_active: plan.set_active,
                                    rename: plan.rename,
                                },
                            },
                            UpdateStep::EnablePeer {
                                public_key: peer.public_key.clone(),
                                allowed_ips: peer_allowed_ips(&peer),
                                preshared_key: copy_opt(&peer.pre_shared_key),
                            },
                        ),
                        WgChange::Disable => (
                            PeerUpdating {
                                id,
                                is_active,
                                name,
                                stage: UpdateStage::AwaitInterface {
                                    set_active: plan.set_active,
                                    rename: plan.rename,
                                },
                            },
                            UpdateStep::DisablePeer { public_key: peer.public_key.clone() },
                        ),
                    }
                },
            },
            (UpdateStage::AwaitInterface { set_active, rename }, UpdateEvent::Interface(x)) => match x {
                Err(e) => (
                    PeerUpdating { id, is_active, name, stage: UpdateStage::Finished },
                    UpdateStep::Fail(ApiFailure { status: STATUS_UNAVAILABLE, message: e }),
                ),
                Ok(_) => Self::after_interface(id, is_active, name, set_active, rename),
            },
            (UpdateStage::AwaitActiveStored { rename }, UpdateEvent::ActiveStored(x)) => match x {
                Err(e) => (
                    PeerUpdating { id, is_active, name, stage: UpdateStage::Finished },
                    UpdateStep::Fail(ApiFailure { status: STATUS_INTERNAL_ERROR, message: e }),
                ),
                Ok(_) => Self::after_flag(id, is_active, name, rename),
            },
            (UpdateStage::AwaitNameStored, UpdateEvent::NameStored(x)) => match x {
                Err(e) => (
                    PeerUpdating { id, is_active, name, stage: UpdateStage::Finished },
                    UpdateStep::Fail(ApiFailure { status: STATUS_INTERNAL_ERROR, message: e }),
                ),
                Ok(_) => (PeerUpdating { id, is_active, name, stage: UpdateStage::Finished }, UpdateStep::Updated),
            },
            (_, _) => {
                proof {
                    assert(false);
                }
                (PeerUpdating { id, is_active, name, stage: UpdateStage::Finished }, UpdateStep::Updated)
            },
        }
    }
}

/// An update changes the interface first, and only when the requested flag
/// differs from the stored one: it sets the peer when it is switched on and
/// removes it when it is switched off; the flag is stored only once the
/// interface accepted the change, and it is the requested flag.
pub proof fn lemma_update_changes_interface_first(
    u: PeerUpdating,
    peer: Peer,
    r1: (PeerUpdating, UpdateStep),
    r2: (PeerUpdating, UpdateStep),
)
    requires
        u.stage is AwaitPeer,
        update_next(u, UpdateEvent::Peer(Ok(Some(peer))), r1),
        r1.0.stage is AwaitInterface,
        update_next(r1.0, UpdateEvent::Interface(Ok(())), r2),
    ensures
        !(r1.1 is StoreActive),
        (r1.1 is EnablePeer) <==> (u.is_active == Some(true) && !peer.is_active),
        (r1.1 is DisablePeer) <==> (u.is_active == Some(false) && peer.is_active),
        r2.1 == (UpdateStep::StoreActive { id: u.id, active: u.is_active->0 }),
{
}

// ---------------------------------------------------------------------
// The dashboard's peer statistics
// ---------------------------------------------------------------------

/// What a statistics request waits for.
pub enum StatsStage {
    /// The peers of the database.
    AwaitPeers,
    /// What the interface reports; the peers are read.
    AwaitInterface { peers: Vec<Peer> },
    /// Answered.
    Finished,
}

/// The outcome of a step of a statistics request.
pub enum StatsEvent {
    Peers(Result<Vec<Peer>, String>),
    InterfacePeers(Result<Vec<PeerStat>, String>),
}

/// The next step of a statistics request.
pub enum StatsStep {
    /// `Database::list_peers`.
    ListPeers,
    /// The peers that the interface reports (through the worker, or from
    /// `wg show <interface> dump`).
    ReadInterface,
    /// Answer with the failure.
    Fail(ApiFailure),
    /// Answer with the rows.
    Report(Vec<PeerStatus>),
}

/// A statistics request at time `now` (seconds since the epoch).
pub struct PeerStatsQuery {
    pub now: u64,
    pub stage: StatsStage,
}

/// Whether the stage waits for this kind of event.
pub open spec fn stats_awaits(stage: StatsStage, event: StatsEvent) -> bool {
    match stage {
        StatsStage::AwaitPeers => event is Peers,
        StatsStage::AwaitInterface { .. } => event is InterfacePeers,
        StatsStage::Finished => false,
    }
}

/// What a statistics request does with the outcome of its step.
pub open spec fn stats_next(q: PeerStatsQuery, event: StatsEvent, r: (PeerStatsQuery, StatsStep)) -> bool {
    &&& r.0.now == q.now
    &&& match (q.stage, event) {
        (StatsStage::AwaitPeers, StatsEvent::Peers(p)) => match p {
            Ok(peers) => r.0.stage == StatsStage::AwaitInterface { peers } && r.1 is ReadInterface,
            Err(e) => r.0.stage is Finished && (r.1 matches StatsStep::Fail(f) && failed_with(
                f,
                STATUS_INTERNAL_ERROR,
                e@,
            )),
        },
        (StatsStage::AwaitInterface { peers }, StatsEvent::InterfacePeers(w)) => {
            &&& r.0.stage is Finished
            &&& match w {
                Ok(stats) => r.1 matches StatsStep::Report(rows) && rows_ok(
                    peers@,
                    stats_view(stats@),
                    q.now,
                    rows@,
                ),
                Err(e) => r.1 matches StatsStep::Fail(f) && failed_with(f, STATUS_UNAVAILABLE, e@),
            }
        },
        _ => false,
    }
}

impl PeerStatsQuery {
    /// A statistics request at time `now`; its first step reads the peers.
    pub fn start(now: u64) -> (r: (PeerStatsQuery, StatsStep))
        ensures
            r.0.now == now,
            r.0.stage is AwaitPeers,
            r.1 is ListPeers,
    {
        (PeerStatsQuery { now, stage: StatsStage::AwaitPeers }, StatsStep::ListPeers)
    }

    /// The next step: peers that could not be read are answered 500, an
    /// interface that could not be read 503; else one row per peer of the
    /// database, joined with what the interface reports of it.
    pub fn step(self, event: StatsEvent) -> (r: (PeerStatsQuery, StatsStep))
        requires
            stats_awaits(self.stage, event),
        ensures
            stats_next(self, event, r),
    {
        let PeerStatsQuery { now, stage } = self;
        match (stage, event) {
            (StatsStage::AwaitPeers, StatsEvent::Peers(p)) => match p {
                Ok(peers) => (PeerStatsQuery { now, stage: StatsStage::AwaitInterface { peers } }, StatsStep::ReadInterface),
                Err(e) => (
                    PeerStatsQuery { now, stage: StatsStage::Finished },
                    StatsStep::Fail(ApiFailure { status: STATUS_INTERNAL_ERROR, message: e }),
                ),
            },
            (StatsStage::AwaitInterface { peers }, StatsEvent::InterfacePeers(w)) => match w {
                Ok(stats) => {
                    let rows = merge_peer_stats(&peers, &stats, now);
                    (PeerStatsQuery { now, stage: StatsStage::Finished }, StatsStep::Report(rows))
                },
                Err(e) => (
                    PeerStatsQuery { now, stage: StatsStage::Finished },
                    StatsStep::Fail(ApiFailure { status: STATUS_UNAVAILABLE, message: e }),
                ),
            },
            (_, _) => {
                proof {
                    assert(false);
                }
                (PeerStatsQuery { now, stage: StatsStage::Finished }, StatsStep::ListPeers)
            },
        }
    }
}

// ---------------------------------------------------------------------
// The server's public key
// ---------------------------------------------------------------------

/// What a public-key request waits for.
pub enum KeyStage {
    /// The worker's answer.
    AwaitWorker,
    /// The answer of `sudo wg show <interface> public-key`.
    AwaitLocal,
    /// Answered.
    Finished,
}

/// The outcome of a step of a public-key request.
pub enum KeyEvent {
    Worker(Result<String, String>),
    Local(Result<String, String>),
}

/// The next step of a public-key request.
pub enum KeyStep {
    /// Ask the worker.
    AskWorker,
    /// Run `sudo wg show <interface> public-key`.
    RunLocal,
    /// Answer with the failure.
    Fail(ApiFailure),
    /// Answer with the key.
    Key(String),
}

/// Whether the stage waits for this kind of event.
pub open spec fn key_awaits(stage: KeyStage, event: KeyEvent) -> bool {
    match stage {
        KeyStage::AwaitWorker => event is Worker,
        KeyStage::AwaitLocal => event is Local,
        KeyStage::Finished => false,
    }
}

/// What a public-key request does with the outcome of its step: the key
/// it got, or 503 with the error. With a worker configured only the worker
/// is asked: its failure is the answer, and `sudo wg` is never run.
pub open spec fn key_next(stage: KeyStage, event: KeyEvent, r: (KeyStage, KeyStep)) -> bool {
    match (stage, event) {
        (KeyStage::AwaitWorker, KeyEvent::Worker(w)) => match w {
            Ok(k) => r.0 is Finished && (r.1 matches KeyStep::Key(x) && x@ == k@),
            Err(e) => r.0 is Finished && (r.1 matches KeyStep::Fail(f) && failed_with(
                f,
                STATUS_UNAVAILABLE,
                e@,
            )),
        },
        (KeyStage::AwaitLocal, KeyEvent::Local(l)) => match l {
            Ok(k) => r.0 is Finished && (r.1 matches KeyStep::Key(x) && x@ == k@),
            Err(e) => r.0 is Finished && (r.1 matches KeyStep::Fail(f) && failed_with(
                f,
                STATUS_UNAVAILABLE,
                e@,
            )),
        },
        _ => false,
    }
}

/// The first step of a public-key request: the worker when one is
/// configured, else `sudo wg`.
pub fn key_start(uses_worker: bool) -> (r: (KeyStage, KeyStep))
    ensures
        uses_worker ==> r.0 is AwaitWorker && r.1 is AskWorker,
        !uses_worker ==> r.0 is AwaitLocal && r.1 is RunLocal,
{
    if uses_worker {
        (KeyStage::AwaitWorker, KeyStep::AskWorker)
    } else {
        (KeyStage::AwaitLocal, KeyStep::RunLocal)
    }
}

/// The next step of a public-key request (see [`key_next`]).
pub fn key_step(stage: KeyStage, event: KeyEvent) -> (r: (KeyStage, KeyStep))
    requires
        key_awaits(stage, event),
    ensures
        key_next(stage, event, r),
{
    match (stage, event) {
        (KeyStage::AwaitWorker, KeyEvent::Worker(w)) => match w {
            Ok(k) => (KeyStage::Finished, KeyStep::Key(k)),
            Err(e) => (
                KeyStage::Finished,
                KeyStep::Fail(ApiFailure { status: STATUS_UNAVAILABLE, message: e }),
            ),
        },
        (KeyStage::AwaitLocal, KeyEvent::Local(l)) => match l {
            Ok(k) => (KeyStage::Finished, KeyStep::Key(k)),
            Err(e) => (
                KeyStage::Finished,
                KeyStep::Fail(ApiFailure { status: STATUS_UNAVAILABLE, message: e }),
            ),
        },
        (_, _) => {
            proof {
                assert(false);
            }
            (KeyStage::Finished, KeyStep::RunLocal)
        },
    }
}

/// A public-key request with a worker configured never runs `sudo wg`:
/// it answers with the worker's key, or with 503 and the worker's error;
/// without one it answers with the key of `sudo wg`, or 503 and its error.
pub proof fn lemma_key_worker_only(
    uses_worker: bool,
    start: (KeyStage, KeyStep),
    answer: Result<String, String>,
    r: (KeyStage, KeyStep),
)
    requires
        uses_worker ==> start.0 is AwaitWorker && start.1 is AskWorker,
        !uses_worker ==> start.0 is AwaitLocal && start.1 is RunLocal,
        uses_worker ==> key_next(start.0, KeyEvent::Worker(answer), r),
        !uses_worker ==> key_next(start.0, KeyEvent::Local(answer), r),
    ensures
        r.0 is Finished,
        !(r.1 is RunLocal),
        !(r.1 is AskWorker),
        answer is Ok ==> (r.1 matches KeyStep::Key(k) && k@ == answer->Ok_0@),
        answer is Err ==> (r.1 matches KeyStep::Fail(f) && failed_with(
            f,
            STATUS_UNAVAILABLE,
            answer->Err_0@,
        )),
{
}

// ---------------------------------------------------------------------
// Deleting a peer
// ---------------------------------------------------------------------

/// What a peer deletion waits for.
pub enum DeleteStage {
    /// The stored peer.
    AwaitPeer,
    /// The removal from the interface (its outcome is not looked at).
    AwaitRemoved,
    /// The removal from the database (its outcome is not looked at).
    AwaitDeleted,
    /// Answered.
    Finished,
}

/// The outcome of a step of a peer deletion.
pub enum DeleteEvent {
    Peer(Result<Option<Peer>, String>),
    Removed(Result<(), String>),
    Deleted(Result<(), String>),
}

/// The next step of a peer deletion.
pub enum DeleteStep {
    /// `Database::get_peer`.
    GetPeer { id: i64 },
    /// Remove the peer from the interface.
    DisablePeer { public_key: String },
    /// `Database::delete_peer`.
    DeletePeer { id: i64 },
    /// Answer "no content".
    Deleted,
}

/// Whether the stage waits for this kind of event.
pub open spec fn delete_awaits(stage: DeleteStage, event: DeleteEvent) -> bool {
    match stage {
        DeleteStage::AwaitPeer => event is Peer,
        DeleteStage::AwaitRemoved => event is Removed,
        DeleteStage::AwaitDeleted => event is Deleted,
        DeleteStage::Finished => false,
    }
}

/// What a deletion of peer `id` does with the outcome of its step: an
/// active peer is first removed from the interface; the peer is then
/// deleted from the database, and the request answered "no content",
/// whatever the interface and the database answered.
pub open spec fn delete_next(id: i64, stage: DeleteStage, event: DeleteEvent, r: (DeleteStage, DeleteStep)) -> bool {
    match (stage, event) {
        (DeleteStage::AwaitPeer, DeleteEvent::Peer(p)) => match p {
            Ok(Some(peer)) => if peer.is_active {
                r.0 is AwaitRemoved && (r.1 matches DeleteStep::DisablePeer { public_key: k } && k@
                    == peer.public_key@)
            } else {
                r.0 is AwaitDeleted && r.1 == DeleteStep::DeletePeer { id }
            },
            _ => r.0 is AwaitDeleted && r.1 == DeleteStep::DeletePeer { id },
        },
        (DeleteStage::AwaitRemoved, DeleteEvent::Removed(_)) => r.0 is AwaitDeleted && r.1
            == DeleteStep::DeletePeer { id },
        (DeleteStage::AwaitDeleted, DeleteEvent::Deleted(_)) => r.0 is Finished && r.1 is Deleted,
        _ => false,
    }
}

/// The first step of a deletion of peer `id`: read the stored peer.
pub fn delete_start(id: i64) -> (r: (DeleteStage, DeleteStep))
    ensures
        r.0 is AwaitPeer,
        r.1 == (DeleteStep::GetPeer { id }),
{
    (DeleteStage::AwaitPeer, DeleteStep::GetPeer { id })
}

/// The next step of a deletion of peer `id` (see [`delete_next`]).
pub fn delete_step(id: i64, stage: DeleteStage, event: DeleteEvent) -> (r: (DeleteStage, DeleteStep))
    requires
        delete_awaits(stage, event),
    ensures
        delete_next(id, stage, event, r),
{
    match (stage, event) {
        (DeleteStage::AwaitPeer, DeleteEvent::Peer(p)) => match p {
            Ok(Some(peer)) => {
                if delete_removes_from_interface(&peer) {
                    (DeleteStage::AwaitRemoved, DeleteStep::DisablePeer { public_key: peer.public_key })
                } else {
                    (DeleteStage::AwaitDeleted, DeleteStep::DeletePeer { id })
                }
            },
            _ => (DeleteStage::AwaitDeleted, DeleteStep::DeletePeer { id }),
        },
        (DeleteStage::AwaitRemoved, DeleteEvent::Removed(_)) => (
            DeleteStage::AwaitDeleted,
            DeleteStep::DeletePeer { id },
        ),
        (DeleteStage::AwaitDeleted, DeleteEvent::Deleted(_)) => (DeleteStage::Finished, DeleteStep::Deleted),
        (_, _) => {
            proof {
                assert(false);
            }
            (DeleteStage::Finished, DeleteStep::Deleted)
        },
    }
}

// ---------------------------------------------------------------------
// The client configuration of a peer
// ---------------------------------------------------------------------

/// A downloaded configuration: its `Content-Disposition` and its text.
pub struct ConfDownload {
    pub disposition: String,
    pub text: String,
}

/// The configuration that a download or a QR code is made of: none for a
/// peer that could not be read (404), or a missing server key (400).
pub open spec fn conf_request_ok(peer: Result<Option<Peer>, String>, server_public_key: Option<Seq<char>>) -> bool {
    &&& peer matches Ok(Some(_))
    &&& server_public_key matches Some(k) && trim(k).len() > 0
}

/// The failure of a configuration request that is not [`conf_request_ok`].
pub open spec fn conf_request_failure(peer: Result<Option<Peer>, String>, f: ApiFailure) -> bool {
    if peer matches Ok(Some(_)) {
        failed_with(f, STATUS_BAD_REQUEST, "server_public_key required"@)
    } else {
        failed_with(f, STATUS_NOT_FOUND, Seq::empty())
    }
}

/// The configuration of the peer with the trimmed server key.
fn conf_for(settings: &Settings, peer: Result<Option<Peer>, String>, server_public_key: Option<&str>) -> (r: Result<(Peer, String), ApiFailure>)
    ensures
        conf_request_ok(peer, server_public_key.deep_view()) ==> (r matches Ok((p, t)) && peer
            == Ok::<Option<Peer>, String>(Some(p)) && t@ == conf_text(
            *settings,
            p,
            trim(server_public_key->Some_0@),
        )),
        !conf_request_ok(peer, server_public_key.deep_view()) ==> (r matches Err(f)
            && conf_request_failure(peer, f)),
{
    let p = match peer {
        Ok(Some(p)) => p,
        _ => {
            return Err(ApiFailure { status: STATUS_NOT_FOUND, message: String::new() });
        },
    };
    let key = match required_server_public_key(server_public_key) {
        Ok(k) => k,
        Err(e) => {
            return Err(ApiFailure { status: STATUS_BAD_REQUEST, message: e });
        },
    };
    let text = build_client_conf(settings, &p, key.as_str());
    Ok((p, text))
}

/// The download of a peer's client configuration, given the stored peer
/// (any failure to read it counts as missing: 404) and the
/// `server_public_key` parameter (needed, not blank: else 400): an
/// attachment named after the peer, holding its configuration with the
/// trimmed key.
pub fn conf_download(settings: &Settings, peer: Result<Option<Peer>, String>, server_public_key: Option<&str>) -> (r: Result<ConfDownload, ApiFailure>)
    ensures
        conf_request_ok(peer, server_public_key.deep_view()) ==> (r matches Ok(d) && (peer
            matches Ok(Some(p)) && d.disposition@ == "attachment; filename=\""@ + p.name@
            + ".conf\""@ && d.text@ == conf_text(*settings, p, trim(server_public_key->Some_0@)))),
        !conf_request_ok(peer, server_public_key.deep_view()) ==> (r matches Err(f)
            && conf_request_failure(peer, f)),
{
    let (p, text) = conf_for(settings, peer, server_public_key)?;
    Ok(ConfDownload { disposition: conf_attachment_header(p.name.as_str()), text })
}

/// The QR code of a peer's client configuration, as a PNG image; the
/// request fails as [`conf_download`] does, and with 500 when the
/// configuration does not fit in a QR code or the image cannot be made.
pub fn conf_qr(settings: &Settings, peer: Result<Option<Peer>, String>, server_public_key: Option<&str>) -> (r: Result<Vec<u8>, ApiFailure>)
    ensures
        conf_request_ok(peer, server_public_key.deep_view()) ==> (peer matches Ok(Some(p))
            && qr_answer(conf_text(*settings, p, trim(server_public_key->Some_0@)), r)),
        !conf_request_ok(peer, server_public_key.deep_view()) ==> (r matches Err(f)
            && conf_request_failure(peer, f)),
{
    let (_, text) = conf_for(settings, peer, server_public_key)?;
    match qrcode_png(text.as_str()) {
        Ok(png) => Ok(png),
        Err(e) => Err(ApiFailure { status: STATUS_INTERNAL_ERROR, message: e }),
    }
}

/// The answer with the QR code of `text`: the PNG image, or 500 with the
/// error text of `qrcode` or `image`.
pub open spec fn qr_answer(text: Seq<char>, r: Result<Vec<u8>, ApiFailure>) -> bool {
    match qr_render(vstd::utf8::encode_utf8(text), QR_MIN_SIZE) {
        Err(e) => r matches Err(f) && failed_with(f, STATUS_INTERNAL_ERROR, e),
        Ok((w, h, px)) => match png_gray(w, h, px) {
            Ok(b) => r matches Ok(y) && y@ == b,
            Err(e) => r matches Err(f) && failed_with(f, STATUS_INTERNAL_ERROR, e),
        },
    }
}

} // verus!
