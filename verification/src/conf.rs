//! The WireGuard configuration file that a client downloads (or scans as a
//! QR code).

use vstd::prelude::*;
use crate::text::{decimal, push_str_chars, push_decimal, string_from_chars};
use crate::config::Settings;
use crate::db::Peer;

verus! {

/// One line of the file, with its line feed.
pub open spec fn conf_line(s: Seq<char>) -> Seq<char> {
    s + seq!['\n']
}

/// The lines of the file before the optional `PresharedKey` line.
pub open spec fn conf_head(s: Settings, p: Peer, server_public_key: Seq<char>) -> Seq<char> {
    conf_line("[Interface]"@) + conf_line("PrivateKey = "@ + p.private_key_encrypted@) + conf_line(
        "Address = "@ + p.allocated_ip@ + "/32"@,
    ) + conf_line("DNS = "@ + s.wireguard.client_dns@) + conf_line(Seq::empty()) + conf_line(
        "[Peer]"@,
    ) + conf_line("PublicKey = "@ + server_public_key) + conf_line(
        "Endpoint = "@ + s.wireguard.server_endpoint@ + ":"@ + decimal(
            s.wireguard.listen_port as nat,
        ),
    )
}

/// The `PresharedKey` line: present exactly when the peer has a preshared key.
pub open spec fn conf_psk(p: Peer) -> Seq<char> {
    match p.pre_shared_key {
        Some(k) => conf_line("PresharedKey = "@ + k@),
        None => Seq::empty(),
    }
}

/// The lines of the file after the optional `PresharedKey` line.
pub open spec fn conf_tail(s: Settings) -> Seq<char> {
    conf_line("AllowedIPs = 0.0.0.0/0, ::/0"@) + conf_line(
        "PersistentKeepalive = "@ + decimal(s.wireguard.persistent_keepalive as nat),
    )
}

/// The whole client configuration.
pub open spec fn conf_text(s: Settings, p: Peer, server_public_key: Seq<char>) -> Seq<char> {
    conf_head(s, p, server_public_key) + conf_psk(p) + conf_tail(s)
}

/// The client configuration of `peer`: its private key and address, the
/// server's public key and endpoint, and the preshared key (if any) right
/// before `AllowedIPs`.
pub fn build_client_conf(settings: &Settings, peer: &Peer, server_public_key: &str) -> (r: String)
    ensures
        r@ == conf_text(*settings, *peer, server_public_key@),
{
    let mut v: Vec<char> = Vec::new();
    push_str_chars(&mut v, "[Interface]\n");
    push_str_chars(&mut v, "PrivateKey = ");
    push_str_chars(&mut v, peer.private_key_encrypted.as_str());
    push_str_chars(&mut v, "\n");
    push_str_chars(&mut v, "Address = ");
    push_str_chars(&mut v, peer.allocated_ip.as_str());
    push_str_chars(&mut v, "/32\n");
    push_str_chars(&mut v, "DNS = ");
    push_str_chars(&mut v, settings.wireguard.client_dns.as_str());
    push_str_chars(&mut v, "\n");
    push_str_chars(&mut v, "\n");
    push_str_chars(&mut v, "[Peer]\n");
    push_str_chars(&mut v, "PublicKey = ");
    push_str_chars(&mut v, server_public_key);
    push_str_chars(&mut v, "\n");
    push_str_chars(&mut v, "Endpoint = ");
    push_str_chars(&mut v, settings.wireguard.server_endpoint.as_str());
    push_str_chars(&mut v, ":");
    push_decimal(&mut v, settings.wireguard.listen_port as u64);
    push_str_chars(&mut v, "\n");
    let ghost head = v@;
    match &peer.pre_shared_key {
        Some(k) => {
            push_str_chars(&mut v, "PresharedKey = ");
            push_str_chars(&mut v, k.as_str());
            push_str_chars(&mut v, "\n");
        },
        None => {},
    }
    let ghost psk = v@.skip(head.len() as int);
    push_str_chars(&mut v, "AllowedIPs = 0.0.0.0/0, ::/0\n");
    push_str_chars(&mut v, "PersistentKeepalive = ");
    push_decimal(&mut v, settings.wireguard.persistent_keepalive as u64);
    push_str_chars(&mut v, "\n");
    proof {
        reveal_strlit("[Interface]\n");
        reveal_strlit("[Interface]");
        reveal_strlit("\n");
        reveal_strlit("/32\n");
        reveal_strlit("/32");
        reveal_strlit("[Peer]\n");
        reveal_strlit("[Peer]");
        reveal_strlit("AllowedIPs = 0.0.0.0/0, ::/0\n");
        reveal_strlit("AllowedIPs = 0.0.0.0/0, ::/0");
        assert(head =~= conf_head(*settings, *peer, server_public_key@));
        assert(psk =~= conf_psk(*peer));
        assert(v@ =~= conf_text(*settings, *peer, server_public_key@));
    }
    string_from_chars(&v)
}

/// The law of the `PresharedKey` line: a peer with a preshared key gets
/// exactly the file of the same peer without one, with one more line
/// `PresharedKey = <key>` right before `AllowedIPs`.
pub proof fn lemma_psk_line_only_difference(s: Settings, p: Peer, q: Peer, spk: Seq<char>)
    requires
        p.pre_shared_key is Some,
        q == (Peer { pre_shared_key: None, ..p }),
    ensures
        conf_text(s, p, spk) == conf_head(s, q, spk) + conf_line(
            "PresharedKey = "@ + p.pre_shared_key->0@,
        ) + conf_tail(s),
        conf_text(s, q, spk) == conf_head(s, q, spk) + conf_tail(s),
{
    assert(conf_psk(q) =~= Seq::<char>::empty());
    assert(conf_text(s, q, spk) =~= conf_head(s, q, spk) + conf_tail(s));
}

} // verus!
