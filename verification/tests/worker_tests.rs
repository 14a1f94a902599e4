use wg_manager::wgcmd::WgOutput;
use wg_manager::worker::{
    empty_request_reply, error_reply, finish_wg, join_strings, plan_request, psk_file_failure,
    RawRequest, WgExpect, WorkerStep,
};
use wg_manager::protocol::{acknowledged, get_peer_stats, get_server_public_key, WorkerResponse};

fn req(cmd: &str, key: &str, ips: &[&str], psk: Option<&str>) -> RawRequest {
    RawRequest {
        cmd: cmd.to_string(),
        public_key: key.to_string(),
        allowed_ips: ips.iter().map(|s| s.to_string()).collect(),
        preshared_key: psk.map(|s| s.to_string()),
    }
}

fn strs(v: &[&str]) -> Vec<String> {
    v.iter().map(|s| s.to_string()).collect()
}

fn error_of(step: WorkerStep) -> String {
    match step {
        WorkerStep::Reply(r) => {
            assert!(!r.ok);
            assert!(r.public_key.is_none() && r.peers.is_none() && r.output.is_none());
            r.error.unwrap()
        }
        _ => panic!("expected a reply"),
    }
}

#[test]
fn get_public_key_runs_wg_show() {
    match plan_request("wg0", &req("get_public_key", "", &[], None)) {
        WorkerStep::Run { args, expect: WgExpect::PublicKey } => {
            assert_eq!(args, strs(&["show", "wg0", "public-key"]))
        }
        _ => panic!("expected wg show public-key"),
    }
}

#[test]
fn get_peer_stats_runs_wg_dump() {
    match plan_request("wg0", &req("get_peer_stats", "", &[], None)) {
        WorkerStep::Run { args, expect: WgExpect::PeerStats } => {
            assert_eq!(args, strs(&["show", "wg0", "dump"]))
        }
        _ => panic!("expected wg show dump"),
    }
}

#[test]
fn peer_set_joins_allowed_ips() {
    match plan_request("wg0", &req("peer_set", "K=", &["10.8.0.2/32", "fd00::2/128"], None)) {
        WorkerStep::Run { args, expect: WgExpect::Ack } => assert_eq!(
            args,
            strs(&["set", "wg0", "peer", "K=", "allowed-ips", "10.8.0.2/32,fd00::2/128"])
        ),
        _ => panic!("expected wg set"),
    }
}

#[test]
fn peer_set_with_preshared_key_goes_through_a_file() {
    match plan_request("wg0", &req("peer_set", "K=", &["10.8.0.2/32"], Some("PSK="))) {
        WorkerStep::RunWithPsk { args, psk } => {
            assert_eq!(args, strs(&["set", "wg0", "peer", "K=", "allowed-ips", "10.8.0.2/32"]));
            assert_eq!(psk, "PSK=");
        }
        _ => panic!("expected wg set with a preshared key"),
    }
}

#[test]
fn peer_set_needs_key_and_ips() {
    assert_eq!(error_of(plan_request("wg0", &req("peer_set", "", &["10.8.0.2/32"], None))), "public_key and allowed_ips required");
    assert_eq!(error_of(plan_request("wg0", &req("peer_set", "K", &[], None))), "public_key and allowed_ips required");
}

#[test]
fn peer_remove_runs_wg_set_remove() {
    match plan_request("wg1", &req("peer_remove", "K=", &[], None)) {
        WorkerStep::Run { args, expect: WgExpect::Ack } => {
            assert_eq!(args, strs(&["set", "wg1", "peer", "K=", "remove"]))
        }
        _ => panic!("expected wg set remove"),
    }
    assert_eq!(error_of(plan_request("wg1", &req("peer_remove", "", &[], None))), "public_key required");
}

#[test]
fn unknown_command_is_refused() {
    assert_eq!(error_of(plan_request("wg0", &req("reboot", "", &[], None))), "unknown cmd: reboot");
    assert_eq!(error_of(plan_request("wg0", &req("", "", &[], None))), "unknown cmd: ");
}

#[test]
fn fixed_error_replies() {
    assert_eq!(empty_request_reply().error, Some("empty request".to_string()));
    assert!(!empty_request_reply().ok);
    assert_eq!(psk_file_failure(false).error, Some("preshared-key temp file failed".to_string()));
    assert_eq!(psk_file_failure(true).error, Some("preshared-key temp file keep failed".to_string()));
    let e = error_reply("boom".to_string());
    assert!(!e.ok);
    assert_eq!(e.error, Some("boom".to_string()));
}

#[test]
fn join_with_separator() {
    assert_eq!(join_strings(&strs(&["a", "b", "c"]), ","), "a,b,c");
    assert_eq!(join_strings(&strs(&["a"]), ","), "a");
    assert_eq!(join_strings(&strs(&[]), ","), "");
}

fn wg(stdout: &str, stderr: &str, code: i32) -> Option<WgOutput> {
    Some(WgOutput { stdout: stdout.to_string(), stderr: stderr.to_string(), code })
}

#[test]
fn finished_commands_are_answered() {
    let r = finish_wg(WgExpect::PublicKey, wg("SERVERKEY=\n", "", 0));
    assert!(r.ok);
    assert_eq!(r.public_key, Some("SERVERKEY=".to_string()));

    let r = finish_wg(WgExpect::Ack, wg("", "", 0));
    assert!(r.ok && r.error.is_none() && r.public_key.is_none() && r.peers.is_none());

    let r = finish_wg(WgExpect::Ack, None);
    assert!(!r.ok);
    assert_eq!(r.error, Some("wg command failed".to_string()));

    let r = finish_wg(WgExpect::PublicKey, wg("", "Unable to access interface\n", 1));
    assert_eq!(r.error, Some("Unable to access interface".to_string()));

    let r = finish_wg(WgExpect::Ack, wg("", "", 3));
    assert_eq!(r.error, Some("exit 3".to_string()));

    let dump = "priv\tpub\t51820\toff\nPEER\t(none)\t(none)\t10.8.0.2/32\t0\t0\t0\toff\n";
    let r = finish_wg(WgExpect::PeerStats, wg(dump, "", 0));
    let peers = r.peers.unwrap();
    assert_eq!(peers.len(), 1);
    assert_eq!(peers[0].public_key, "PEER");
    assert_eq!(peers[0].latest_handshake, None);
}

#[test]
fn manager_reads_what_the_worker_answered() {
    let failed = finish_wg(WgExpect::PublicKey, wg("", "no such device\n", 1));
    assert_eq!(get_server_public_key(Ok(failed.clone())), Err("no such device".to_string()));
    assert_eq!(acknowledged(Ok(failed)).unwrap_err(), "no such device");

    let key = finish_wg(WgExpect::PublicKey, wg(" KEY= \n", "", 0));
    assert_eq!(get_server_public_key(Ok(key)), Ok("KEY=".to_string()));

    let unrun = finish_wg(WgExpect::PeerStats, None);
    assert_eq!(get_peer_stats(Ok(unrun)).unwrap_err(), "wg command failed");
}

#[test]
fn reply_fields_are_plain() {
    let r = WorkerResponse { ok: true, public_key: None, peers: None, error: None, output: Some("done".to_string()) };
    assert!(acknowledged(Ok(r)).is_ok());
}
