use wg_manager::ipalloc::allocate_next_ip;

fn strs(v: &[&str]) -> Vec<String> {
    v.iter().map(|s| s.to_string()).collect()
}

#[test]
fn first_free_host_after_the_first() {
    assert_eq!(allocate_next_ip("10.8.0.0/24", &[]), Ok("10.8.0.2".to_string()));
    assert_eq!(allocate_next_ip("10.8.0.0/24", &strs(&["10.8.0.2"])), Ok("10.8.0.3".to_string()));
    assert_eq!(
        allocate_next_ip("10.8.0.0/24", &strs(&["10.8.0.3", "10.8.0.2", "10.8.0.5"])),
        Ok("10.8.0.4".to_string())
    );
}

#[test]
fn host_bits_of_the_range_are_ignored() {
    assert_eq!(allocate_next_ip("10.8.0.77/24", &[]), Ok("10.8.0.2".to_string()));
}

#[test]
fn address_of_first_host_is_never_handed_out() {
    assert_eq!(allocate_next_ip("10.8.0.0/24", &strs(&["10.8.0.1"])), Ok("10.8.0.2".to_string()));
}

#[test]
fn invalid_range_is_refused() {
    assert_eq!(allocate_next_ip("10.8.0.0", &[]), Err("client_ip_range が不正です".to_string()));
    assert_eq!(allocate_next_ip("not a net", &[]), Err("client_ip_range が不正です".to_string()));
    assert_eq!(allocate_next_ip("10.8.0.0/33", &[]), Err("client_ip_range が不正です".to_string()));
}

#[test]
fn full_range_has_no_free_address() {
    assert_eq!(allocate_next_ip("10.8.0.5/32", &[]), Err("空き IP がありません".to_string()));
    assert_eq!(
        allocate_next_ip("10.8.0.0/30", &strs(&["10.8.0.2"])),
        Err("空き IP がありません".to_string())
    );
    assert_eq!(allocate_next_ip("10.8.0.0/30", &[]), Ok("10.8.0.2".to_string()));
}

#[test]
fn ipv6_range() {
    assert_eq!(allocate_next_ip("fd00::/64", &[]), Ok("fd00::1".to_string()));
    assert_eq!(allocate_next_ip("fd00::/64", &strs(&["fd00::1"])), Ok("fd00::2".to_string()));
    assert_eq!(allocate_next_ip("fd00::/127", &[]), Ok("fd00::1".to_string()));
    assert_eq!(allocate_next_ip("fd00::/128", &[]), Err("空き IP がありません".to_string()));
}

#[test]
fn allocations_in_turn_are_distinct() {
    let mut used: Vec<String> = Vec::new();
    for _ in 0..5 {
        let ip = allocate_next_ip("10.8.0.0/29", &used).unwrap();
        assert!(!used.contains(&ip));
        used.push(ip);
    }
    assert_eq!(used, strs(&["10.8.0.2", "10.8.0.3", "10.8.0.4", "10.8.0.5", "10.8.0.6"]));
    assert_eq!(allocate_next_ip("10.8.0.0/29", &used), Err("空き IP がありません".to_string()));
}
