//! Verified core of a WireGuard web manager: configuration, the worker
//! protocol, `wg show dump` parsing, client address allocation, client
//! configuration text, the manual pages, and the decisions of the web
//! handlers and of the privileged worker (the multi-step requests as state
//! machines whose outside steps the application performs).

pub mod text;
pub mod protocol;
pub mod dump;
pub mod config;
pub mod db;
pub mod conf;
pub mod version;
pub mod ipalloc;
pub mod wgcmd;
pub mod worker;
pub mod web;
pub mod flows;
pub mod docs;
pub mod qr;
