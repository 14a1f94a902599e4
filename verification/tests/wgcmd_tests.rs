use wg_manager::wgcmd::{
    command_outcome, dump_args, failure_message, key_outcome, peer_remove_args, peer_set_args,
    public_key_args, to_strings, version_outcome, with_preshared_key_file, WgOutput,
};

fn out(stdout: &str, stderr: &str, code: i32) -> WgOutput {
    WgOutput { stdout: stdout.to_string(), stderr: stderr.to_string(), code }
}

fn strs(v: &[&str]) -> Vec<String> {
    v.iter().map(|s| s.to_string()).collect()
}

#[test]
fn wg_command_lines() {
    assert_eq!(public_key_args("wg0"), strs(&["show", "wg0", "public-key"]));
    assert_eq!(dump_args("wg1"), strs(&["show", "wg1", "dump"]));
    assert_eq!(
        peer_set_args("wg0", "KEY=", "10.8.0.2/32"),
        strs(&["set", "wg0", "peer", "KEY=", "allowed-ips", "10.8.0.2/32"])
    );
    assert_eq!(peer_remove_args("wg0", "KEY="), strs(&["set", "wg0", "peer", "KEY=", "remove"]));
    assert_eq!(
        with_preshared_key_file(peer_set_args("wg0", "K", "10.8.0.2/32"), "/tmp/psk"),
        strs(&["set", "wg0", "peer", "K", "allowed-ips", "10.8.0.2/32", "preshared-key", "/tmp/psk"])
    );
    assert_eq!(to_strings(&["a", "", "c"]), strs(&["a", "", "c"]));
}

#[test]
fn failure_text_is_stderr_or_exit_code() {
    assert_eq!(failure_message("  Unable to access interface: No such device\n", 1), "Unable to access interface: No such device");
    assert_eq!(failure_message("", 1), "exit 1");
    assert_eq!(failure_message(" \n\t", -1), "exit -1");
    assert_eq!(failure_message("", 255), "exit 255");
}

#[test]
fn command_outcome_reads_exit_code() {
    assert_eq!(command_outcome(&out("  abc=\n", "", 0)), Ok("abc=".to_string()));
    assert_eq!(command_outcome(&out("ignored", "denied\n", 2)), Err("denied".to_string()));
    assert_eq!(command_outcome(&out("", "", -1)), Err("exit -1".to_string()));
}

#[test]
fn key_outcome_reads_trimmed_streams() {
    assert_eq!(key_outcome(&out("PRIVKEY=\n", "", 0)), Ok("PRIVKEY=".to_string()));
    assert_eq!(key_outcome(&out("", " bad key \n", 1)), Err("bad key".to_string()));
    assert_eq!(key_outcome(&out("", "", 1)), Err("".to_string()));
}

#[test]
fn version_outcome_needs_success_and_text() {
    assert_eq!(version_outcome(None), None);
    assert_eq!(version_outcome(Some(out("wireguard-tools v1.0.20210914\n", "", 0))), Some("wireguard-tools v1.0.20210914".to_string()));
    assert_eq!(version_outcome(Some(out("  \n", "", 0))), None);
    assert_eq!(version_outcome(Some(out("wireguard-tools v1\n", "", 1))), None);
}
