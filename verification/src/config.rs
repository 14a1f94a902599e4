//! The settings of `config.yaml` and the decisions that rest on them alone.
//!
//! Reading and writing the YAML file is the application's part; it hands the
//! sections it found to [`Settings::from_sections`].

use vstd::prelude::*;
use crate::text::{trim, trim_str, str_eq};

verus! {

/// Where the settings are read from when no path is given.
pub const DEFAULT_CONFIG_PATH: &'static str = "config.yaml";

/// `app:` — the web server and its login.
#[derive(Debug, Clone)]
pub struct AppConfig {
    pub host: String,
    pub port: u16,
    pub auth_username: String,
    pub auth_password: String,
}

/// `paths:` — files, and the worker's socket.
#[derive(Debug, Clone)]
pub struct PathsConfig {
    pub db_path: String,
    pub wg_conf_dir: String,
    pub wg_worker_socket: String,
    pub socket_owner: String,
}

/// `wireguard:` — the interface and what client configurations carry.
#[derive(Debug, Clone)]
pub struct WireGuardConfig {
    pub interface: String,
    pub server_endpoint: String,
    pub listen_port: u16,
    pub client_ip_range: String,
    pub client_dns: String,
    pub persistent_keepalive: u16,
}

/// The whole of `config.yaml`.
#[derive(Debug, Clone)]
pub struct Settings {
    pub app: AppConfig,
    pub paths: PathsConfig,
    pub wireguard: WireGuardConfig,
}

/// The `app:` section that a file without one gets.
pub open spec fn is_default_app(a: AppConfig) -> bool {
    &&& a.host@ == "0.0.0.0"@
    &&& a.port == 8080
    &&& a.auth_username@ == "admin"@
    &&& a.auth_password@ == "password123"@
}

/// The `paths:` section that a file without one gets.
pub open spec fn is_default_paths(p: PathsConfig) -> bool {
    &&& p.db_path@ == "data/wg-manager.db"@
    &&& p.wg_conf_dir@ == "/etc/wireguard"@
    &&& p.wg_worker_socket@ == Seq::<char>::empty()
    &&& p.socket_owner@ == "wgwm"@
}

/// The `wireguard:` section that a file without one gets.
pub open spec fn is_default_wireguard(w: WireGuardConfig) -> bool {
    &&& w.interface@ == "wg0"@
    &&& w.server_endpoint@ == "127.0.0.1"@
    &&& w.listen_port == 51820
    &&& w.client_ip_range@ == "10.8.0.0/24"@
    &&& w.client_dns@ == "1.1.1.1, 8.8.8.8"@
    &&& w.persistent_keepalive == 25
}

impl Default for AppConfig {
    fn default() -> (r: Self)
        ensures
            is_default_app(r),
    {
        AppConfig {
            host: "0.0.0.0".to_string(),
            port: 8080,
            auth_username: "admin".to_string(),
            auth_password: "password123".to_string(),
        }
    }
}

impl Default for PathsConfig {
    fn default() -> (r: Self)
        ensures
            is_default_paths(r),
    {
        PathsConfig {
            db_path: "data/wg-manager.db".to_string(),
            wg_conf_dir: "/etc/wireguard".to_string(),
            wg_worker_socket: String::new(),
            socket_owner: "wgwm".to_string(),
        }
    }
}

impl Default for WireGuardConfig {
    fn default() -> (r: Self)
        ensures
            is_default_wireguard(r),
    {
        WireGuardConfig {
            interface: "wg0".to_string(),
            server_endpoint: "127.0.0.1".to_string(),
            listen_port: 51820,
            client_ip_range: "10.8.0.0/24".to_string(),
            client_dns: "1.1.1.1, 8.8.8.8".to_string(),
            persistent_keepalive: 25,
        }
    }
}

/// Whether the manager asks the worker (a socket path is set) rather than
/// running `sudo wg` itself.
pub open spec fn spec_uses_worker(s: Settings) -> bool {
    trim(s.paths.wg_worker_socket@).len() > 0
}

impl Settings {
    /// The settings of a file with the given sections; a missing section
    /// takes its defaults.
    pub fn from_sections(
        app: Option<AppConfig>,
        paths: Option<PathsConfig>,
        wireguard: Option<WireGuardConfig>,
    ) -> (r: Settings)
        ensures
            match app {
                Some(a) => r.app == a,
                None => is_default_app(r.app),
            },
            match paths {
                Some(p) => r.paths == p,
                None => is_default_paths(r.paths),
            },
            match wireguard {
                Some(w) => r.wireguard == w,
                None => is_default_wireguard(r.wireguard),
            },
    {
        let app = match app {
            Some(a) => a,
            None => AppConfig::default(),
        };
        let paths = match paths {
            Some(p) => p,
            None => PathsConfig::default(),
        };
        let wireguard = match wireguard {
            Some(w) => w,
            None => WireGuardConfig::default(),
        };
        Settings { app, paths, wireguard }
    }

    /// Whether `wg` is reached through the worker's socket.
    pub fn uses_worker(&self) -> (r: bool)
        ensures
            r == spec_uses_worker(*self),
    {
        let t = trim_str(self.paths.wg_worker_socket.as_str());
        !t.as_str().is_empty()
    }

    /// The socket the manager connects to; an error when none is set.
    pub fn worker_socket(&self) -> (r: Result<String, String>)
        ensures
            spec_uses_worker(*self) ==> (r matches Ok(p) && p@ == trim(
                self.paths.wg_worker_socket@,
            )),
            !spec_uses_worker(*self) ==> (r matches Err(e) && e@
                == "wg_worker_socket が設定されていません"@),
    {
        let t = trim_str(self.paths.wg_worker_socket.as_str());
        if t.as_str().is_empty() {
            Err("wg_worker_socket が設定されていません".to_string())
        } else {
            Ok(t)
        }
    }

    /// The socket the worker listens on: the configured one, or
    /// `/var/run/wg-manager.sock`.
    pub fn worker_listen_path(&self) -> (r: String)
        ensures
            spec_uses_worker(*self) ==> r@ == trim(self.paths.wg_worker_socket@),
            !spec_uses_worker(*self) ==> r@ == "/var/run/wg-manager.sock"@,
    {
        let t = trim_str(self.paths.wg_worker_socket.as_str());
        if t.as_str().is_empty() {
            "/var/run/wg-manager.sock".to_string()
        } else {
            t
        }
    }

    /// The user the worker gives its socket to: the configured one, or `wgwm`.
    pub fn socket_owner_or_default(&self) -> (r: String)
        ensures
            trim(self.paths.socket_owner@).len() > 0 ==> r@ == trim(self.paths.socket_owner@),
            trim(self.paths.socket_owner@).len() == 0 ==> r@ == "wgwm"@,
    {
        let t = trim_str(self.paths.socket_owner.as_str());
        if t.as_str().is_empty() {
            "wgwm".to_string()
        } else {
            t
        }
    }

    /// Whether a login form carries the configured user name and password.
    pub fn credentials_match(&self, username: &str, password: &str) -> (r: bool)
        ensures
            r == (username@ == self.app.auth_username@ && password@ == self.app.auth_password@),
    {
        str_eq(username, self.app.auth_username.as_str()) && str_eq(
            password,
            self.app.auth_password.as_str(),
        )
    }
}

/// The name of the session cookie.
pub const SESSION_COOKIE: &'static str = "wgwm_session";

/// The value that a session cookie of a logged-in browser holds.
pub const SESSION_VALUE: &'static str = "authenticated";

/// Whether a request comes from a logged-in browser: its session cookie,
/// if any, holds `authenticated`.
pub fn is_logged_in(session_cookie: Option<&str>) -> (r: bool)
    ensures
        r == (session_cookie matches Some(v) && v@ == SESSION_VALUE@),
{
    match session_cookie {
        Some(v) => str_eq(v, SESSION_VALUE),
        None => false,
    }
}

/// The password that the settings page is sent: never the stored one.
pub fn masked_password() -> (r: String)
    ensures
        r@.len() == 0,
{
    String::new()
}

/// Whether a saved settings form keeps the stored password: its `app`
/// section is an object whose `auth_password` is the empty text (an empty
/// field means "keep the current one").
pub open spec fn keeps_stored_password(app_is_object: bool, submitted: Option<Seq<char>>) -> bool {
    &&& app_is_object
    &&& submitted matches Some(p) && p.len() == 0
}

/// The stored password that a saved settings form puts back: the one in
/// the file when the form keeps it, else none and the form is saved as sent.
pub fn kept_password<V>(app_is_object: bool, submitted: Option<&str>, existing: Option<V>) -> (r: Option<V>)
    ensures
        keeps_stored_password(app_is_object, submitted.deep_view()) ==> r == existing,
        !keeps_stored_password(app_is_object, submitted.deep_view()) ==> r is None,
{
    match submitted {
        Some(p) => if app_is_object && p.is_empty() {
            existing
        } else {
            None
        },
        None => None,
    }
}

/// The password survives a round trip through the settings page: the page
/// is sent the masked password, and a form sent back with it unchanged
/// keeps the stored one.
pub proof fn lemma_masked_password_round_trip(masked: Seq<char>)
    requires
        masked.len() == 0,
    ensures
        keeps_stored_password(true, Some(masked)),
{
}

} // verus!
