use wg_manager::db::{chronological, Database, TrafficSnapshot};

fn fresh_db() -> (tempfile::TempDir, Database) {
    let dir = tempfile::tempdir().unwrap();
    let path = dir.path().join("wg.db");
    let db = Database::open(path.to_str().unwrap()).unwrap();
    db.init().unwrap();
    (dir, db)
}

#[test]
fn database_keeps_its_path() {
    let db = Database::open("/tmp/some/wg.db").unwrap();
    assert_eq!(db.path(), "/tmp/some/wg.db");
}

#[test]
fn init_twice_is_harmless() {
    let (_dir, db) = fresh_db();
    db.init().unwrap();
    assert!(db.list_peers().unwrap().is_empty());
    assert!(db.list_all_acl_rules().unwrap().is_empty());
}

#[test]
fn peers_round_trip() {
    let (_dir, db) = fresh_db();
    let a = db.create_peer("laptop", "PUBA", "PRIVA", Some("PSKA"), "10.8.0.2", true).unwrap();
    let b = db.create_peer("phone", "PUBB", "PRIVB", None, "10.8.0.3", false).unwrap();
    assert_eq!(a.name, "laptop");
    assert_eq!(a.pre_shared_key, Some("PSKA".to_string()));
    assert!(a.is_active);
    assert_eq!(b.pre_shared_key, None);
    assert!(!b.is_active);
    assert!(!a.created_at.is_empty());

    let all = db.list_peers().unwrap();
    assert_eq!(all.iter().map(|p| p.id).collect::<Vec<_>>(), vec![a.id, b.id]);
    let mut ips = db.list_allocated_ips().unwrap();
    ips.sort();
    assert_eq!(ips, vec!["10.8.0.2".to_string(), "10.8.0.3".to_string()]);

    db.set_peer_active(b.id, true).unwrap();
    db.update_peer_name(a.id, "work laptop").unwrap();
    assert_eq!(db.get_peer(a.id).unwrap().unwrap().name, "work laptop");
    assert_eq!(db.list_allocated_ips().unwrap().len(), 2);

    db.delete_peer(a.id).unwrap();
    assert!(db.get_peer(a.id).unwrap().is_none());
    assert_eq!(db.list_peers().unwrap().len(), 1);
}

#[test]
fn duplicate_public_key_is_refused() {
    let (_dir, db) = fresh_db();
    db.create_peer("a", "SAME", "P1", None, "10.8.0.2", true).unwrap();
    assert!(db.create_peer("b", "SAME", "P2", None, "10.8.0.3", true).is_err());
}

#[test]
fn acl_rules_by_priority() {
    let (_dir, db) = fresh_db();
    let p = db.create_peer("a", "K", "P", None, "10.8.0.2", true).unwrap();
    let r1 = db.create_acl_rule(p.id, "deny", "0.0.0.0/0", "any", "", "default deny", 200).unwrap();
    let r2 = db.create_acl_rule(p.id, "allow", "192.168.1.0/24", "tcp", "80-443", "lan web", 10).unwrap();
    assert_eq!(r2.protocol, "tcp");
    assert_eq!(r2.port_range, "80-443");
    let rules = db.get_peer_acl_rules_for_apply(p.id).unwrap();
    assert_eq!(rules.iter().map(|r| r.id).collect::<Vec<_>>(), vec![r2.id, r1.id]);
    assert_eq!(db.list_acl_rules(p.id).unwrap().len(), 2);
    assert!(db.create_acl_rule(p.id, "maybe", "0.0.0.0/0", "any", "", "", 1).is_err());
    db.delete_acl_rule(r1.id).unwrap();
    assert_eq!(db.list_all_acl_rules().unwrap().len(), 1);
}

#[test]
fn traffic_history_is_limited_and_pruned() {
    let (_dir, db) = fresh_db();
    let p = db.create_peer("a", "K", "P", None, "10.8.0.2", true).unwrap();
    for i in 0..3u64 {
        db.record_traffic_snapshot(p.id, i * 10, i * 20).unwrap();
    }
    let mut rx: Vec<u64> = db.get_traffic_history(p.id, 10).unwrap().iter().map(|s| s.rx_bytes).collect();
    rx.sort();
    assert_eq!(rx, vec![0, 10, 20]);
    assert_eq!(db.get_traffic_history(p.id, 2).unwrap().len(), 2);
    assert!(db.get_traffic_history(p.id + 1, 10).unwrap().is_empty());
    db.prune_traffic_log(1).unwrap();
    assert_eq!(db.get_traffic_history(p.id, 10).unwrap().len(), 1);
}

#[test]
fn chronological_reverses() {
    let s = |n: u64| TrafficSnapshot { recorded_at: format!("t{n}"), rx_bytes: n, tx_bytes: n };
    let r = chronological(vec![s(3), s(2), s(1)]);
    assert_eq!(r.iter().map(|x| x.rx_bytes).collect::<Vec<_>>(), vec![1, 2, 3]);
}

#[test]
fn unopenable_database_is_an_error() {
    let db = Database::open("/nonexistent-dir/for/sure/wg.db").unwrap();
    assert!(db.init().is_err());
}

use wg_manager::db::{created_peer, peer_from_columns, snapshot_from_columns};

#[test]
fn peer_columns_to_peer() {
    let p = peer_from_columns(3, "n".to_string(), "K".to_string(), "P".to_string(), None, "10.8.0.4".to_string(), 2, "t".to_string());
    assert_eq!(p.id, 3);
    assert!(p.is_active);
    assert_eq!(p.allocated_ip, "10.8.0.4");
    let q = peer_from_columns(3, "n".to_string(), "K".to_string(), "P".to_string(), Some("S".to_string()), "ip".to_string(), 0, "t".to_string());
    assert!(!q.is_active);
    assert_eq!(q.pre_shared_key, Some("S".to_string()));
}

#[test]
fn snapshot_counters_keep_their_bits() {
    let s = snapshot_from_columns("2024-01-01T00:00:00Z".to_string(), -1, 42);
    assert_eq!(s.rx_bytes, u64::MAX);
    assert_eq!(s.tx_bytes, 42);
    assert_eq!(s.recorded_at, "2024-01-01T00:00:00Z");
}

#[test]
fn created_peer_must_be_found() {
    let p = peer_from_columns(1, "n".to_string(), "K".to_string(), "P".to_string(), None, "ip".to_string(), 1, "t".to_string());
    assert_eq!(created_peer(Ok(Some(p))).unwrap().id, 1);
    assert_eq!(created_peer(Ok(None)).unwrap_err(), "created peer not found");
    assert_eq!(created_peer(Err("disk I/O error".to_string())).unwrap_err(), "disk I/O error");
}

#[test]
fn large_counters_round_trip_through_the_database() {
    let (_dir, db) = fresh_db();
    let p = db.create_peer("a", "K", "P", None, "10.8.0.2", true).unwrap();
    db.record_traffic_snapshot(p.id, u64::MAX, 1 << 63).unwrap();
    let h = db.get_traffic_history(p.id, 1).unwrap();
    assert_eq!((h[0].rx_bytes, h[0].tx_bytes), (u64::MAX, 1 << 63));
}

use wg_manager::db::{
    acl_rule_from_columns, acl_rule_insert_params, history_params, id_params, peer_active_params,
    peer_insert_params, peer_name_params, snapshot_insert_params, SqlParam,
};

fn shown(ps: &[SqlParam]) -> Vec<String> {
    ps.iter()
        .map(|p| match p {
            SqlParam::Int(i) => format!("i{i}"),
            SqlParam::Text(t) => format!("t{t}"),
            SqlParam::OptText(Some(t)) => format!("t{t}"),
            SqlParam::OptText(None) => "null".to_string(),
        })
        .collect()
}

#[test]
fn insert_parameters_follow_the_columns() {
    assert_eq!(
        shown(&peer_insert_params("n", "PUB", "PRIV", Some("PSK"), "10.8.0.2", true, "T")),
        vec!["tn", "tPUB", "tPRIV", "tPSK", "t10.8.0.2", "i1", "tT"]
    );
    assert_eq!(
        shown(&peer_insert_params("n", "PUB", "PRIV", None, "10.8.0.2", false, "T")),
        vec!["tn", "tPUB", "tPRIV", "null", "t10.8.0.2", "i0", "tT"]
    );
    assert_eq!(
        shown(&acl_rule_insert_params(3, "allow", "10.0.0.0/8", "tcp", "80-443", "web", 10, "T")),
        vec!["i3", "tallow", "t10.0.0.0/8", "ttcp", "t80-443", "tweb", "i10", "tT"]
    );
    assert_eq!(shown(&snapshot_insert_params(2, "T", u64::MAX, 5)), vec!["i2", "tT", "i-1", "i5"]);
    assert_eq!(shown(&peer_active_params(4, false)), vec!["i0", "i4"]);
    assert_eq!(shown(&peer_name_params(4, "x")), vec!["tx", "i4"]);
    assert_eq!(shown(&id_params(9)), vec!["i9"]);
    assert_eq!(shown(&history_params(9, 100)), vec!["i9", "i100"]);
}

#[test]
fn acl_rule_columns_to_rule() {
    let r = acl_rule_from_columns(1, 2, "deny".to_string(), "0.0.0.0/0".to_string(), "any".to_string(), "".to_string(), "d".to_string(), 100, "T".to_string());
    assert_eq!((r.id, r.peer_id, r.priority), (1, 2, 100));
    assert_eq!(r.action, "deny");
    assert_eq!(r.target_cidr, "0.0.0.0/0");
    assert_eq!(r.protocol, "any");
    assert_eq!(r.port_range, "");
    assert_eq!(r.description, "d");
    assert_eq!(r.created_at, "T");
}

#[test]
fn stored_fields_come_back_in_place() {
    let (_dir, db) = fresh_db();
    let p = db.create_peer("n", "PUB", "PRIV", Some("PSK"), "10.8.0.9", false).unwrap();
    assert_eq!((p.name.as_str(), p.public_key.as_str(), p.private_key_encrypted.as_str()), ("n", "PUB", "PRIV"));
    assert_eq!(p.pre_shared_key.as_deref(), Some("PSK"));
    assert_eq!(p.allocated_ip, "10.8.0.9");
    assert!(!p.is_active);
    assert!(p.created_at.ends_with('Z'));
    let r = db.create_acl_rule(p.id, "allow", "10.0.0.0/8", "udp", "53", "dns", 5).unwrap();
    assert_eq!((r.peer_id, r.action.as_str(), r.target_cidr.as_str()), (p.id, "allow", "10.0.0.0/8"));
    assert_eq!((r.protocol.as_str(), r.port_range.as_str(), r.description.as_str(), r.priority), ("udp", "53", "dns", 5));
}
