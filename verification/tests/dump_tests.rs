use wg_manager::dump::parse_dump;

#[test]
fn parse_dump_reads_peer_lines() {
    let dump = "privkey\tpubkey\t51820\toff\nPEER1\t(none)\t1.2.3.4:5555\t10.8.0.2/32,10.8.0.3/32\t1700000000\t100\t200\t25\nshort\tline\n";
    let peers = parse_dump("wg0", dump).unwrap();
    assert_eq!(peers.len(), 1);
    assert_eq!(peers[0].public_key, "PEER1");
    assert_eq!(peers[0].endpoint.as_deref(), Some("1.2.3.4:5555"));
    assert_eq!(peers[0].allowed_ips, vec!["10.8.0.2/32".to_string(), "10.8.0.3/32".to_string()]);
    assert_eq!(peers[0].latest_handshake, Some(1700000000));
    assert_eq!(peers[0].rx_bytes, 100);
    assert_eq!(peers[0].tx_bytes, 200);
}
