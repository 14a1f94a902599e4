use wg_manager::db::Peer;
use wg_manager::protocol::PeerStat;
use wg_manager::web::{
    conf_attachment_header, delete_removes_from_interface, merge_peer_stats, peer_allowed_ips,
    plan_peer_update, required_server_public_key, toggle_change, WgChange, CONNECTED_WINDOW_SECS,
};

fn peer(id: i64, key: &str, active: bool) -> Peer {
    Peer {
        id,
        name: format!("peer{id}"),
        public_key: key.to_string(),
        private_key_encrypted: "PRIV".to_string(),
        pre_shared_key: None,
        allocated_ip: format!("10.8.0.{}", id + 1),
        is_active: active,
        created_at: "2024-01-01T00:00:00+00:00".to_string(),
    }
}

fn stat(key: &str, handshake: Option<u64>, rx: u64, tx: u64) -> PeerStat {
    PeerStat {
        public_key: key.to_string(),
        endpoint: None,
        allowed_ips: vec![],
        latest_handshake: handshake,
        rx_bytes: rx,
        tx_bytes: tx,
    }
}

#[test]
fn connected_means_handshake_within_180_seconds() {
    assert_eq!(CONNECTED_WINDOW_SECS, 180);
    let now = 1_700_000_000u64;
    let peers = vec![peer(1, "A", true), peer(2, "B", true), peer(3, "C", true), peer(4, "D", false)];
    let stats = vec![
        stat("A", Some(now - 180), 10, 20),
        stat("B", Some(now - 181), 30, 40),
        stat("C", None, 50, 60),
    ];
    let rows = merge_peer_stats(&peers, &stats, now);
    assert_eq!(rows.len(), 4);
    assert_eq!(rows[0].id, 1);
    assert!(rows[0].connected);
    assert_eq!((rows[0].rx_bytes, rows[0].tx_bytes), (10, 20));
    assert!(!rows[1].connected);
    assert_eq!(rows[1].latest_handshake, Some(now - 181));
    assert!(!rows[2].connected);
    assert_eq!((rows[2].rx_bytes, rows[2].tx_bytes), (50, 60));
    assert!(!rows[3].connected);
    assert_eq!(rows[3].latest_handshake, None);
    assert_eq!((rows[3].rx_bytes, rows[3].tx_bytes), (0, 0));
    assert_eq!(rows[3].public_key, "D");
}

#[test]
fn handshake_in_the_future_counts_as_connected() {
    let rows = merge_peer_stats(&vec![peer(1, "A", true)], &vec![stat("A", Some(200), 0, 0)], 100);
    assert!(rows[0].connected);
}

#[test]
fn last_report_of_a_key_wins() {
    let rows = merge_peer_stats(
        &vec![peer(1, "A", true)],
        &vec![stat("A", None, 1, 1), stat("A", None, 2, 2)],
        0,
    );
    assert_eq!(rows[0].rx_bytes, 2);
}

#[test]
fn toggling_the_active_flag() {
    assert_eq!(toggle_change(true, true), WgChange::Keep);
    assert_eq!(toggle_change(false, false), WgChange::Keep);
    assert_eq!(toggle_change(false, true), WgChange::Enable);
    assert_eq!(toggle_change(true, false), WgChange::Disable);
}

#[test]
fn peer_update_plans() {
    let p = peer(1, "A", true);
    let u = plan_peer_update(&p, Some(false), Some("renamed".to_string()));
    assert_eq!(u.wg, WgChange::Disable);
    assert_eq!(u.set_active, Some(false));
    assert_eq!(u.rename, Some("renamed".to_string()));

    let u = plan_peer_update(&p, Some(true), None);
    assert_eq!(u.wg, WgChange::Keep);
    assert_eq!(u.set_active, None);
    assert_eq!(u.rename, None);

    let q = peer(2, "B", false);
    let u = plan_peer_update(&q, Some(true), None);
    assert_eq!(u.wg, WgChange::Enable);
    assert_eq!(u.set_active, Some(true));

    let u = plan_peer_update(&q, None, Some("x".to_string()));
    assert_eq!(u.wg, WgChange::Keep);
    assert_eq!(u.set_active, None);
}

#[test]
fn repeating_an_update_changes_nothing() {
    let mut p = peer(1, "A", true);
    let first = plan_peer_update(&p, Some(false), None);
    if let Some(a) = first.set_active {
        p.is_active = a;
    }
    let second = plan_peer_update(&p, Some(false), None);
    assert_eq!(second.wg, WgChange::Keep);
    assert_eq!(second.set_active, None);
}

#[test]
fn only_active_peers_are_removed_from_the_interface() {
    assert!(delete_removes_from_interface(&peer(1, "A", true)));
    assert!(!delete_removes_from_interface(&peer(1, "A", false)));
}

#[test]
fn allowed_ips_of_a_peer() {
    assert_eq!(peer_allowed_ips(&peer(1, "A", true)), vec!["10.8.0.2/32".to_string()]);
}

#[test]
fn server_public_key_parameter() {
    assert_eq!(required_server_public_key(Some(" KEY= ")), Ok("KEY=".to_string()));
    assert_eq!(required_server_public_key(Some("   ")), Err("server_public_key required".to_string()));
    assert_eq!(required_server_public_key(None), Err("server_public_key required".to_string()));
}

#[test]
fn download_header_names_the_peer() {
    assert_eq!(conf_attachment_header("laptop"), "attachment; filename=\"laptop.conf\"");
}
