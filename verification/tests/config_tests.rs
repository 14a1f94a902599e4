use wg_manager::config::{
    is_logged_in, kept_password, masked_password, AppConfig, PathsConfig, Settings, WireGuardConfig,
    SESSION_VALUE,
};

fn settings_with_socket(socket: &str, owner: &str) -> Settings {
    let mut s = Settings::from_sections(None, None, None);
    s.paths.wg_worker_socket = socket.to_string();
    s.paths.socket_owner = owner.to_string();
    s
}

#[test]
fn missing_sections_take_their_defaults() {
    let s = Settings::from_sections(None, None, None);
    assert_eq!(s.app.host, "0.0.0.0");
    assert_eq!(s.app.port, 8080);
    assert_eq!(s.app.auth_username, "admin");
    assert_eq!(s.app.auth_password, "password123");
    assert_eq!(s.paths.db_path, "data/wg-manager.db");
    assert_eq!(s.paths.wg_conf_dir, "/etc/wireguard");
    assert_eq!(s.paths.wg_worker_socket, "");
    assert_eq!(s.paths.socket_owner, "wgwm");
    assert_eq!(s.wireguard.interface, "wg0");
    assert_eq!(s.wireguard.server_endpoint, "127.0.0.1");
    assert_eq!(s.wireguard.listen_port, 51820);
    assert_eq!(s.wireguard.client_ip_range, "10.8.0.0/24");
    assert_eq!(s.wireguard.client_dns, "1.1.1.1, 8.8.8.8");
    assert_eq!(s.wireguard.persistent_keepalive, 25);
}

#[test]
fn given_sections_are_kept() {
    let app = AppConfig {
        host: "127.0.0.1".to_string(),
        port: 9000,
        auth_username: "root".to_string(),
        auth_password: "secret".to_string(),
    };
    let wg = WireGuardConfig {
        interface: "wg1".to_string(),
        server_endpoint: "vpn.example.com".to_string(),
        listen_port: 51000,
        client_ip_range: "10.9.0.0/24".to_string(),
        client_dns: "9.9.9.9".to_string(),
        persistent_keepalive: 0,
    };
    let s = Settings::from_sections(Some(app), None, Some(wg));
    assert_eq!(s.app.port, 9000);
    assert_eq!(s.app.auth_username, "root");
    assert_eq!(s.paths.db_path, "data/wg-manager.db");
    assert_eq!(s.wireguard.interface, "wg1");
    assert_eq!(s.wireguard.persistent_keepalive, 0);
    let p = PathsConfig::default();
    assert_eq!(p.socket_owner, "wgwm");
}

#[test]
fn blank_socket_means_local_wg() {
    let s = settings_with_socket("   ", "");
    assert!(!s.uses_worker());
    assert_eq!(s.worker_socket(), Err("wg_worker_socket が設定されていません".to_string()));
    assert_eq!(s.worker_listen_path(), "/var/run/wg-manager.sock");
    assert_eq!(s.socket_owner_or_default(), "wgwm");
}

#[test]
fn configured_socket_is_used_trimmed() {
    let s = settings_with_socket(" /run/wg-manager.sock ", " wgadmin ");
    assert!(s.uses_worker());
    assert_eq!(s.worker_socket(), Ok("/run/wg-manager.sock".to_string()));
    assert_eq!(s.worker_listen_path(), "/run/wg-manager.sock");
    assert_eq!(s.socket_owner_or_default(), "wgadmin");
}

#[test]
fn login_needs_both_user_and_password() {
    let s = Settings::from_sections(None, None, None);
    assert!(s.credentials_match("admin", "password123"));
    assert!(!s.credentials_match("admin", "password"));
    assert!(!s.credentials_match("Admin", "password123"));
    assert!(!s.credentials_match("", ""));
}

#[test]
fn session_cookie_decides_login() {
    assert!(is_logged_in(Some(SESSION_VALUE)));
    assert!(is_logged_in(Some("authenticated")));
    assert!(!is_logged_in(Some("authenticated ")));
    assert!(!is_logged_in(Some("")));
    assert!(!is_logged_in(None));
}

#[test]
fn settings_page_never_shows_the_password() {
    assert_eq!(masked_password(), "");
}

#[test]
fn masked_password_sent_back_keeps_the_stored_one() {
    let masked = masked_password();
    assert_eq!(kept_password(true, Some(masked.as_str()), Some(7)), Some(7));
    assert_eq!(kept_password(true, Some("new-secret"), Some(7)), None);
    assert_eq!(kept_password(false, Some(""), Some(7)), None);
    assert_eq!(kept_password::<i32>(true, None, Some(7)), None);
    assert_eq!(kept_password::<i32>(true, Some(""), None), None);
}
