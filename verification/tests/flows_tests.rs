use wg_manager::db::Peer;
use wg_manager::flows::{
    CreateEvent, CreateStage, CreateStep, PeerCreation, PeerStatsQuery, PeerUpdating, StatsEvent,
    StatsStep, UpdateEvent, UpdateStep,
};
use wg_manager::protocol::PeerStat;

fn stored(id: i64, active: bool, psk: Option<&str>) -> Peer {
    Peer {
        id,
        name: "laptop".to_string(),
        public_key: "PUB".to_string(),
        private_key_encrypted: "PRIV".to_string(),
        pre_shared_key: psk.map(|s| s.to_string()),
        allocated_ip: "10.8.0.2".to_string(),
        is_active: active,
        created_at: "2024-01-01T00:00:00Z".to_string(),
    }
}

fn create_fail(step: CreateStep) -> (u16, String) {
    match step {
        CreateStep::Fail(f) => (f.status, f.message),
        _ => panic!("expected a failure"),
    }
}

#[test]
fn creation_runs_every_step_in_order() {
    let (c, s) = PeerCreation::start("laptop".to_string(), "10.8.0.0/24".to_string());
    assert!(matches!(s, CreateStep::ListUsedIps));
    let (c, s) = c.step(CreateEvent::UsedIps(Ok(vec!["10.8.0.2".to_string()])));
    assert!(matches!(s, CreateStep::GeneratePrivateKey));
    assert!(matches!(&c.stage, CreateStage::AwaitPrivateKey { ip } if ip == "10.8.0.3"));
    let (c, s) = c.step(CreateEvent::PrivateKey(Ok("PRIV".to_string())));
    assert!(matches!(&s, CreateStep::GeneratePublicKey { private_key } if private_key == "PRIV"));
    let (c, s) = c.step(CreateEvent::PublicKey(Ok("PUB".to_string())));
    assert!(matches!(s, CreateStep::GeneratePresharedKey));
    let (c, s) = c.step(CreateEvent::PresharedKey(Ok("PSK".to_string())));
    match s {
        CreateStep::StorePeer { name, public_key, private_key, preshared_key, ip } => {
            assert_eq!(name, "laptop");
            assert_eq!(public_key, "PUB");
            assert_eq!(private_key, "PRIV");
            assert_eq!(preshared_key, Some("PSK".to_string()));
            assert_eq!(ip, "10.8.0.3");
        }
        _ => panic!("expected the store"),
    }
    let mut peer = stored(7, true, Some("PSK"));
    peer.allocated_ip = "10.8.0.3".to_string();
    let (c, s) = c.step(CreateEvent::Stored(Ok(peer)));
    match s {
        CreateStep::EnablePeer { public_key, allowed_ips, preshared_key } => {
            assert_eq!(public_key, "PUB");
            assert_eq!(allowed_ips, vec!["10.8.0.3/32".to_string()]);
            assert_eq!(preshared_key, Some("PSK".to_string()));
        }
        _ => panic!("expected the interface change"),
    }
    let (c, s) = c.step(CreateEvent::Enabled(Ok(())));
    assert!(matches!(c.stage, CreateStage::Finished));
    match s {
        CreateStep::Created(p) => {
            assert_eq!(p.id, 7);
            assert_eq!(p.allocated_ip, "10.8.0.3");
        }
        _ => panic!("expected the new peer"),
    }
}

#[test]
fn creation_failures_and_their_status() {
    let (c, _) = PeerCreation::start("x".to_string(), "bad range".to_string());
    let (c, s) = c.step(CreateEvent::UsedIps(Ok(vec![])));
    assert_eq!(create_fail(s), (400, "client_ip_range が不正です".to_string()));
    assert!(matches!(c.stage, CreateStage::Finished));

    let (c, _) = PeerCreation::start("x".to_string(), "10.8.0.0/24".to_string());
    let (c, s) = c.step(CreateEvent::UsedIps(Err("db locked".to_string())));
    assert!(matches!(s, CreateStep::GeneratePrivateKey));
    assert!(matches!(&c.stage, CreateStage::AwaitPrivateKey { ip } if ip == "10.8.0.2"));
    let (_, s) = c.step(CreateEvent::PrivateKey(Err("wg: not found".to_string())));
    assert_eq!(create_fail(s), (500, "wg: not found".to_string()));

    let (c, _) = PeerCreation::start("x".to_string(), "10.8.0.0/30".to_string());
    let (_, s) = c.step(CreateEvent::UsedIps(Ok(vec!["10.8.0.2".to_string()])));
    assert_eq!(create_fail(s), (400, "空き IP がありません".to_string()));
}

#[test]
fn creation_without_preshared_key_and_failed_interface() {
    let (c, _) = PeerCreation::start("x".to_string(), "10.8.0.0/24".to_string());
    let (c, _) = c.step(CreateEvent::UsedIps(Ok(vec![])));
    let (c, _) = c.step(CreateEvent::PrivateKey(Ok("PRIV".to_string())));
    let (c, _) = c.step(CreateEvent::PublicKey(Ok("PUB".to_string())));
    let (c, s) = c.step(CreateEvent::PresharedKey(Err("genpsk failed".to_string())));
    assert!(matches!(s, CreateStep::StorePeer { preshared_key: None, .. }));
    let (c, s) = c.step(CreateEvent::Stored(Ok(stored(1, true, None))));
    assert!(matches!(s, CreateStep::EnablePeer { preshared_key: None, .. }));
    let (_, s) = c.step(CreateEvent::Enabled(Err("Worker 接続失敗".to_string())));
    assert_eq!(create_fail(s), (503, "Worker 接続失敗".to_string()));

    let (c, _) = PeerCreation::start("x".to_string(), "10.8.0.0/24".to_string());
    let (c, _) = c.step(CreateEvent::UsedIps(Ok(vec![])));
    let (c, _) = c.step(CreateEvent::PrivateKey(Ok("PRIV".to_string())));
    let (_, s) = c.step(CreateEvent::PublicKey(Err("pubkey failed".to_string())));
    assert_eq!(create_fail(s), (500, "pubkey failed".to_string()));
}

#[test]
fn creation_store_failure_is_internal() {
    let (c, _) = PeerCreation::start("x".to_string(), "10.8.0.0/24".to_string());
    let (c, _) = c.step(CreateEvent::UsedIps(Ok(vec![])));
    let (c, _) = c.step(CreateEvent::PrivateKey(Ok("PRIV".to_string())));
    let (c, _) = c.step(CreateEvent::PublicKey(Ok("PUB".to_string())));
    let (c, _) = c.step(CreateEvent::PresharedKey(Ok("PSK".to_string())));
    let (_, s) = c.step(CreateEvent::Stored(Err("UNIQUE constraint failed".to_string())));
    assert_eq!(create_fail(s), (500, "UNIQUE constraint failed".to_string()));
}

fn update_fail(step: UpdateStep) -> (u16, String) {
    match step {
        UpdateStep::Fail(f) => (f.status, f.message),
        _ => panic!("expected a failure"),
    }
}

#[test]
fn switching_a_peer_off_removes_it_then_stores_the_flag_and_name() {
    let (u, s) = PeerUpdating::start(3, Some(false), Some("old phone".to_string()));
    assert!(matches!(s, UpdateStep::GetPeer { id: 3 }));
    let (u, s) = u.step(UpdateEvent::Peer(Ok(Some(stored(3, true, None)))));
    assert!(matches!(&s, UpdateStep::DisablePeer { public_key } if public_key == "PUB"));
    let (u, s) = u.step(UpdateEvent::Interface(Ok(())));
    assert!(matches!(s, UpdateStep::StoreActive { id: 3, active: false }));
    let (u, s) = u.step(UpdateEvent::ActiveStored(Ok(())));
    assert!(matches!(&s, UpdateStep::StoreName { id: 3, name } if name == "old phone"));
    let (_, s) = u.step(UpdateEvent::NameStored(Ok(())));
    assert!(matches!(s, UpdateStep::Updated));
}

#[test]
fn switching_a_peer_on_sets_it_with_its_preshared_key() {
    let (u, _) = PeerUpdating::start(3, Some(true), None);
    let (u, s) = u.step(UpdateEvent::Peer(Ok(Some(stored(3, false, Some("PSK"))))));
    match s {
        UpdateStep::EnablePeer { public_key, allowed_ips, preshared_key } => {
            assert_eq!(public_key, "PUB");
            assert_eq!(allowed_ips, vec!["10.8.0.2/32".to_string()]);
            assert_eq!(preshared_key, Some("PSK".to_string()));
        }
        _ => panic!("expected the interface change"),
    }
    let (u, s) = u.step(UpdateEvent::Interface(Ok(())));
    assert!(matches!(s, UpdateStep::StoreActive { id: 3, active: true }));
    let (_, s) = u.step(UpdateEvent::ActiveStored(Ok(())));
    assert!(matches!(s, UpdateStep::Updated));
}

#[test]
fn unchanged_flag_touches_nothing() {
    let (u, _) = PeerUpdating::start(3, Some(true), None);
    let (_, s) = u.step(UpdateEvent::Peer(Ok(Some(stored(3, true, None)))));
    assert!(matches!(s, UpdateStep::Updated));
    let (u, _) = PeerUpdating::start(3, None, Some("n".to_string()));
    let (_, s) = u.step(UpdateEvent::Peer(Ok(Some(stored(3, false, None)))));
    assert!(matches!(&s, UpdateStep::StoreName { id: 3, name } if name == "n"));
}

#[test]
fn update_failures_and_their_status() {
    let (u, _) = PeerUpdating::start(9, Some(true), None);
    let (_, s) = u.step(UpdateEvent::Peer(Ok(None)));
    assert_eq!(update_fail(s), (404, String::new()));
    let (u, _) = PeerUpdating::start(9, Some(true), None);
    let (_, s) = u.step(UpdateEvent::Peer(Err("db".to_string())));
    assert_eq!(update_fail(s), (500, "db".to_string()));
    let (u, _) = PeerUpdating::start(9, Some(false), None);
    let (u, _) = u.step(UpdateEvent::Peer(Ok(Some(stored(9, true, None)))));
    let (_, s) = u.step(UpdateEvent::Interface(Err("no such device".to_string())));
    assert_eq!(update_fail(s), (503, "no such device".to_string()));
    let (u, _) = PeerUpdating::start(9, Some(false), Some("n".to_string()));
    let (u, _) = u.step(UpdateEvent::Peer(Ok(Some(stored(9, true, None)))));
    let (u, _) = u.step(UpdateEvent::Interface(Ok(())));
    let (_, s) = u.step(UpdateEvent::ActiveStored(Err("readonly".to_string())));
    assert_eq!(update_fail(s), (500, "readonly".to_string()));
}

#[test]
fn statistics_request() {
    let (q, s) = PeerStatsQuery::start(1000);
    assert!(matches!(s, StatsStep::ListPeers));
    let (q, s) = q.step(StatsEvent::Peers(Ok(vec![stored(1, true, None)])));
    assert!(matches!(s, StatsStep::ReadInterface));
    let stat = PeerStat {
        public_key: "PUB".to_string(),
        endpoint: None,
        allowed_ips: vec![],
        latest_handshake: Some(900),
        rx_bytes: 5,
        tx_bytes: 6,
    };
    let (_, s) = q.step(StatsEvent::InterfacePeers(Ok(vec![stat])));
    match s {
        StatsStep::Report(rows) => {
            assert_eq!(rows.len(), 1);
            assert!(rows[0].connected);
            assert_eq!(rows[0].rx_bytes, 5);
        }
        _ => panic!("expected the rows"),
    }
    let (q, _) = PeerStatsQuery::start(0);
    let (_, s) = q.step(StatsEvent::Peers(Err("db".to_string())));
    assert!(matches!(s, StatsStep::Fail(f) if f.status == 500 && f.message == "db"));
    let (q, _) = PeerStatsQuery::start(0);
    let (q, _) = q.step(StatsEvent::Peers(Ok(vec![])));
    let (_, s) = q.step(StatsEvent::InterfacePeers(Err("sudo: wg not found".to_string())));
    assert!(matches!(s, StatsStep::Fail(f) if f.status == 503 && f.message == "sudo: wg not found"));
}

use wg_manager::config::Settings;
use wg_manager::flows::{
    conf_download, conf_qr, delete_start, delete_step, key_start, key_step, DeleteEvent, DeleteStep,
    KeyEvent, KeyStep,
};

#[test]
fn public_key_with_a_worker_never_runs_local_wg() {
    let (st, s) = key_start(true);
    assert!(matches!(s, KeyStep::AskWorker));
    let (_, s) = key_step(st, KeyEvent::Worker(Err("Worker 接続失敗".to_string())));
    assert!(matches!(s, KeyStep::Fail(f) if f.status == 503 && f.message == "Worker 接続失敗"));

    let (st, _) = key_start(true);
    let (_, s) = key_step(st, KeyEvent::Worker(Ok("WORKERKEY=".to_string())));
    assert!(matches!(&s, KeyStep::Key(k) if k == "WORKERKEY="));

    let (st, s) = key_start(false);
    assert!(matches!(s, KeyStep::RunLocal));
    let (_, s) = key_step(st, KeyEvent::Local(Ok("LOCALKEY=".to_string())));
    assert!(matches!(&s, KeyStep::Key(k) if k == "LOCALKEY="));

    let (st, _) = key_start(false);
    let (_, s) = key_step(st, KeyEvent::Local(Err("sudo: a password is required".to_string())));
    assert!(matches!(s, KeyStep::Fail(f) if f.status == 503 && f.message == "sudo: a password is required"));
}

#[test]
fn deletion_removes_active_peers_first_and_always_deletes() {
    let (st, s) = delete_start(4);
    assert!(matches!(s, DeleteStep::GetPeer { id: 4 }));
    let (st, s) = delete_step(4, st, DeleteEvent::Peer(Ok(Some(stored(4, true, None)))));
    assert!(matches!(&s, DeleteStep::DisablePeer { public_key } if public_key == "PUB"));
    let (st, s) = delete_step(4, st, DeleteEvent::Removed(Err("no such device".to_string())));
    assert!(matches!(s, DeleteStep::DeletePeer { id: 4 }));
    let (_, s) = delete_step(4, st, DeleteEvent::Deleted(Err("locked".to_string())));
    assert!(matches!(s, DeleteStep::Deleted));

    let (st, _) = delete_start(5);
    let (_, s) = delete_step(5, st, DeleteEvent::Peer(Ok(Some(stored(5, false, None)))));
    assert!(matches!(s, DeleteStep::DeletePeer { id: 5 }));
    let (st, _) = delete_start(6);
    let (_, s) = delete_step(6, st, DeleteEvent::Peer(Ok(None)));
    assert!(matches!(s, DeleteStep::DeletePeer { id: 6 }));
    let (st, _) = delete_start(7);
    let (_, s) = delete_step(7, st, DeleteEvent::Peer(Err("db".to_string())));
    assert!(matches!(s, DeleteStep::DeletePeer { id: 7 }));
}

#[test]
fn configuration_download() {
    let settings = Settings::from_sections(None, None, None);
    let d = conf_download(&settings, Ok(Some(stored(1, true, None))), Some("  SRV= ")).ok().unwrap();
    assert_eq!(d.disposition, "attachment; filename=\"laptop.conf\"");
    assert!(d.text.contains("PublicKey = SRV=\n"));
    assert!(d.text.starts_with("[Interface]\nPrivateKey = PRIV\nAddress = 10.8.0.2/32\n"));

    let f = conf_download(&settings, Ok(None), Some("SRV=")).err().unwrap();
    assert_eq!((f.status, f.message), (404, String::new()));
    let f = conf_download(&settings, Err("db".to_string()), None).err().unwrap();
    assert_eq!(f.status, 404);
    let f = conf_download(&settings, Ok(Some(stored(1, true, None))), Some(" ")).err().unwrap();
    assert_eq!((f.status, f.message), (400, "server_public_key required".to_string()));
    let f = conf_download(&settings, Ok(Some(stored(1, true, None))), None).err().unwrap();
    assert_eq!(f.status, 400);
}

#[test]
fn configuration_qr_code() {
    let settings = Settings::from_sections(None, None, None);
    let png = conf_qr(&settings, Ok(Some(stored(1, true, Some("PSK")))), Some("SRV=")).ok().unwrap();
    assert_eq!(&png[..4], &[0x89, b'P', b'N', b'G']);
    let f = conf_qr(&settings, Ok(None), Some("SRV=")).err().unwrap();
    assert_eq!(f.status, 404);
    let mut huge = stored(1, true, None);
    huge.private_key_encrypted = "k".repeat(5000);
    let f = conf_qr(&settings, Ok(Some(huge)), Some("SRV=")).err().unwrap();
    assert_eq!(f.status, 500);
    assert!(!f.message.is_empty());
}
