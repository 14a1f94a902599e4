use wg_manager::protocol::{
    acknowledged, check_response, get_peer_stats, get_server_public_key, peer_remove_request,
    peer_set_request, update_output, PeerStat, WorkerRequest, WorkerResponse,
};

fn ok_reply() -> WorkerResponse {
    WorkerResponse { ok: true, public_key: None, peers: None, error: None, output: None }
}

fn failed(error: Option<&str>) -> WorkerResponse {
    WorkerResponse { ok: false, public_key: None, peers: None, error: error.map(|s| s.to_string()), output: None }
}

#[test]
fn failed_exchange_passes_its_error_on() {
    assert_eq!(check_response(Err("connect failed".to_string())).unwrap_err(), "connect failed");
    assert_eq!(get_server_public_key(Err("timeout".to_string())), Err("timeout".to_string()));
    assert_eq!(acknowledged(Err("timeout".to_string())), Err("timeout".to_string()));
}

#[test]
fn refused_reply_gives_its_error_or_unknown() {
    assert_eq!(check_response(Ok(failed(Some("bad")))).unwrap_err(), "bad");
    assert_eq!(check_response(Ok(failed(None))).unwrap_err(), "unknown");
    assert!(check_response(Ok(ok_reply())).unwrap().ok);
}

#[test]
fn public_key_must_be_in_the_reply() {
    let mut r = ok_reply();
    assert_eq!(get_server_public_key(Ok(r.clone())), Err("no public_key in response".to_string()));
    r.public_key = Some("SERVER=".to_string());
    assert_eq!(get_server_public_key(Ok(r)), Ok("SERVER=".to_string()));
}

#[test]
fn peer_stats_default_to_none() {
    assert_eq!(get_peer_stats(Ok(ok_reply())).unwrap().len(), 0);
    let mut r = ok_reply();
    r.peers = Some(vec![PeerStat {
        public_key: "P".to_string(),
        endpoint: None,
        allowed_ips: vec![],
        latest_handshake: Some(5),
        rx_bytes: 1,
        tx_bytes: 2,
    }]);
    let peers = get_peer_stats(Ok(r)).unwrap();
    assert_eq!(peers.len(), 1);
    assert_eq!(peers[0].public_key, "P");
    assert_eq!(get_peer_stats(Ok(failed(Some("x")))).unwrap_err(), "x");
}

#[test]
fn update_output_defaults_to_empty() {
    assert_eq!(update_output(Ok(ok_reply())), Ok(String::new()));
    let mut r = ok_reply();
    r.output = Some("upgraded".to_string());
    assert_eq!(update_output(Ok(r)), Ok("upgraded".to_string()));
    assert_eq!(update_output(Ok(failed(Some("apt failed")))), Err("apt failed".to_string()));
}

#[test]
fn requests_carry_their_arguments() {
    let ips = vec!["10.8.0.2/32".to_string()];
    match peer_set_request("K=", &ips, Some("PSK")) {
        WorkerRequest::PeerSet { public_key, allowed_ips, preshared_key } => {
            assert_eq!(public_key, "K=");
            assert_eq!(allowed_ips, ips);
            assert_eq!(preshared_key, Some("PSK".to_string()));
        }
        _ => panic!("expected peer_set"),
    }
    match peer_set_request("K=", &ips, None) {
        WorkerRequest::PeerSet { preshared_key, .. } => assert_eq!(preshared_key, None),
        _ => panic!("expected peer_set"),
    }
    match peer_remove_request("K=") {
        WorkerRequest::PeerRemove { public_key } => assert_eq!(public_key, "K="),
        _ => panic!("expected peer_remove"),
    }
}
