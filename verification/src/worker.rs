//! The decisions of the privileged worker: which `wg` command a request
//! asks for, and what the worker answers.
//!
//! The worker reads one JSON line per connection; the application turns it
//! into a [`RawRequest`], runs the step that [`plan_request`] gives, and
//! writes the [`WorkerResponse`] back as one JSON line.

use vstd::prelude::*;
use crate::text::{trim, str_eq, push_str_chars, string_from_chars};
use crate::protocol::{PeerStat, PeerStatView, WorkerResponse, stats_view, public_key_reading, peer_stats_reading, ack_reading};
use crate::dump::{parse_dump, dump_peers};
use crate::wgcmd::{
    WgOutput, failure_text, failure_message, public_key_args, dump_args, peer_set_args,
    peer_remove_args, with_preshared_key_file,
};

verus! {

/// A request as the worker reads it from its JSON line: a missing or
/// non-string field reads as empty, non-string allowed IPs are dropped, and
/// a line that is no JSON reads as the command `""`.
pub struct RawRequest {
    pub cmd: String,
    pub public_key: String,
    pub allowed_ips: Vec<String>,
    pub preshared_key: Option<String>,
}

/// What the output of the `wg` command is read as.
pub enum WgExpect {
    PublicKey,
    PeerStats,
    Ack,
}

/// The next step of the worker for one request.
pub enum WorkerStep {
    /// Answer at once.
    Reply(WorkerResponse),
    /// Run `wg` with these arguments, then read its outcome with [`finish_wg`].
    Run { args: Vec<String>, expect: WgExpect },
    /// Write the preshared key to a temporary file, add it with
    /// [`with_preshared_key_file`], run `wg`, remove the file, then read the
    /// outcome as an acknowledgement.
    RunWithPsk { args: Vec<String>, psk: String },
}

/// A successful reply with nothing else in it.
pub open spec fn is_plain_ok(r: WorkerResponse) -> bool {
    r.ok && r.public_key is None && r.peers is None && r.error is None && r.output is None
}

/// A failed reply with the given error text.
pub open spec fn is_error(r: WorkerResponse, msg: Seq<char>) -> bool {
    &&& !r.ok
    &&& r.public_key is None
    &&& r.peers is None
    &&& r.output is None
    &&& r.error matches Some(e) && e@ == msg
}

/// The strings joined with `sep` between them.
pub open spec fn join_with(ss: Seq<Seq<char>>, sep: Seq<char>) -> Seq<char>
    decreases ss.len(),
{
    if ss.len() == 0 {
        Seq::empty()
    } else if ss.len() == 1 {
        ss[0]
    } else {
        join_with(ss.drop_last(), sep) + sep + ss.last()
    }
}

/// What the worker answers when the `wg` command could not be run at all,
/// or ran with the given outcome.
pub open spec fn wg_reply_ok(expect: WgExpect, out: WgOutput, r: WorkerResponse) -> bool {
    match expect {
        WgExpect::PublicKey => {
            &&& r.ok
            &&& r.peers is None
            &&& r.error is None
            &&& r.output is None
            &&& r.public_key matches Some(k) && k@ == trim(out.stdout@)
        },
        WgExpect::PeerStats => {
            &&& r.ok
            &&& r.public_key is None
            &&& r.error is None
            &&& r.output is None
            &&& r.peers matches Some(p) && stats_view(p@) == dump_peers(trim(out.stdout@))
        },
        WgExpect::Ack => is_plain_ok(r),
    }
}

/// The reply of the worker to a `wg` command that could not be run
/// (`None`) or ran with the given outcome.
pub open spec fn finish_spec(expect: WgExpect, outcome: Option<WgOutput>, r: WorkerResponse) -> bool {
    match outcome {
        None => is_error(r, "wg command failed"@),
        Some(o) => if o.code != 0 {
            is_error(r, failure_text(o.stderr@, o.code))
        } else {
            wg_reply_ok(expect, o, r)
        },
    }
}

/// A failed reply.
pub fn error_reply(msg: String) -> (r: WorkerResponse)
    ensures
        is_error(r, msg@),
{
    WorkerResponse { ok: false, public_key: None, peers: None, error: Some(msg), output: None }
}

/// The reply to an empty request line.
pub fn empty_request_reply() -> (r: WorkerResponse)
    ensures
        is_error(r, "empty request"@),
{
    error_reply("empty request".to_string())
}

/// The reply when the temporary file for the preshared key could not be
/// made (`kept == false`) or kept.
pub fn psk_file_failure(kept: bool) -> (r: WorkerResponse)
    ensures
        !kept ==> is_error(r, "preshared-key temp file failed"@),
        kept ==> is_error(r, "preshared-key temp file keep failed"@),
{
    if kept {
        error_reply("preshared-key temp file keep failed".to_string())
    } else {
        error_reply("preshared-key temp file failed".to_string())
    }
}

/// The strings joined with `sep`.
pub fn join_strings(ss: &Vec<String>, sep: &str) -> (r: String)
    ensures
        r@ == join_with(ss.deep_view(), sep@),
{
    let mut v: Vec<char> = Vec::new();
    let mut i: usize = 0;
    while i < ss.len()
        invariant
            i <= ss@.len(),
            v@ == join_with(ss.deep_view().take(i as int), sep@),
        decreases ss.len() - i,
    {
        proof {
            let t = ss.deep_view().take(i + 1);
            assert(t.drop_last() =~= ss.deep_view().take(i as int));
            assert(t.last() == ss@[i as int]@);
        }
        if i > 0 {
            push_str_chars(&mut v, sep);
        }
        push_str_chars(&mut v, ss[i].as_str());
        proof {
            if i == 0 {
                assert(v@ =~= join_with(ss.deep_view().take(1), sep@));
            }
        }
        i = i + 1;
    }
    proof {
        assert(ss.deep_view().take(ss@.len() as int) =~= ss.deep_view());
    }
    string_from_chars(&v)
}

/// What the outcome of the `wg` command is answered with: a failure to run
/// it is `wg command failed`; a non-zero exit is the failure text; else the
/// public key, the peers of the dump, or a plain acknowledgement.
pub fn finish_wg(expect: WgExpect, outcome: Option<WgOutput>) -> (r: WorkerResponse)
    ensures
        finish_spec(expect, outcome, r),
{
    match outcome {
        None => error_reply("wg command failed".to_string()),
        Some(o) => {
            if o.code != 0 {
                return error_reply(failure_message(o.stderr.as_str(), o.code));
            }
            let out = crate::text::trim_str(o.stdout.as_str());
            match expect {
                WgExpect::PublicKey => WorkerResponse {
                    ok: true,
                    public_key: Some(out),
                    peers: None,
                    error: None,
                    output: None,
                },
                WgExpect::PeerStats => {
                    let peers: Vec<PeerStat> = match parse_dump("", out.as_str()) {
                        Ok(p) => p,
                        Err(_) => Vec::new(),
                    };
                    WorkerResponse { ok: true, public_key: None, peers: Some(peers), error: None, output: None }
                },
                WgExpect::Ack => WorkerResponse {
                    ok: true,
                    public_key: None,
                    peers: None,
                    error: None,
                    output: None,
                },
            }
        },
    }
}

/// What the worker does for a request on `interface`.
///
/// - `get_public_key`: run `wg show <interface> public-key`;
/// - `get_peer_stats`: run `wg show <interface> dump`;
/// - `peer_set`: with a public key and allowed IPs, run `wg set <interface>
///   peer <key> allowed-ips <ips joined by ','>` (with the preshared key
///   through a temporary file when there is one), else refuse;
/// - `peer_remove`: with a public key, run `wg set <interface> peer <key>
///   remove`, else refuse;
/// - anything else: refuse as an unknown command.
pub fn plan_request(interface: &str, req: &RawRequest) -> (r: WorkerStep)
    ensures
        req.cmd@ == "get_public_key"@ ==> (r matches WorkerStep::Run { args, expect: WgExpect::PublicKey }
            && args.deep_view() == seq!["show"@, interface@, "public-key"@]),
        req.cmd@ == "get_peer_stats"@ ==> (r matches WorkerStep::Run { args, expect: WgExpect::PeerStats }
            && args.deep_view() == seq!["show"@, interface@, "dump"@]),
        req.cmd@ == "peer_set"@ ==> if req.public_key@.len() == 0 || req.allowed_ips@.len() == 0 {
            r matches WorkerStep::Reply(resp) && is_error(resp, "public_key and allowed_ips required"@)
        } else {
            let args_spec = seq![
                "set"@,
                interface@,
                "peer"@,
                req.public_key@,
                "allowed-ips"@,
                join_with(req.allowed_ips.deep_view(), ","@),
            ];
            match req.preshared_key {
                Some(k) => r matches WorkerStep::RunWithPsk { args, psk } && args.deep_view()
                    == args_spec && psk@ == k@,
                None => r matches WorkerStep::Run { args, expect: WgExpect::Ack } && args.deep_view()
                    == args_spec,
            }
        },
        req.cmd@ == "peer_remove"@ ==> if req.public_key@.len() == 0 {
            r matches WorkerStep::Reply(resp) && is_error(resp, "public_key required"@)
        } else {
            r matches WorkerStep::Run { args, expect: WgExpect::Ack } && args.deep_view() == seq![
                "set"@,
                interface@,
                "peer"@,
                req.public_key@,
                "remove"@,
            ]
        },
        (req.cmd@ != "get_public_key"@ && req.cmd@ != "get_peer_stats"@ && req.cmd@ != "peer_set"@
            && req.cmd@ != "peer_remove"@) ==> (r matches WorkerStep::Reply(resp) && is_error(
            resp,
            "unknown cmd: "@ + req.cmd@,
        )),
{
    proof {
        reveal_strlit("get_public_key");
        reveal_strlit("get_peer_stats");
        reveal_strlit("peer_set");
        reveal_strlit("peer_remove");
        assert("peer_set"@.len() != "peer_remove"@.len());
        assert("get_public_key"@[5] != "get_peer_stats"@[5]);
        assert("get_public_key"@.len() != "peer_set"@.len());
        assert("get_public_key"@.len() != "peer_remove"@.len());
        assert("get_peer_stats"@.len() != "peer_set"@.len());
        assert("get_peer_stats"@.len() != "peer_remove"@.len());
    }
    let cmd = req.cmd.as_str();
    if str_eq(cmd, "get_public_key") {
        WorkerStep::Run { args: public_key_args(interface), expect: WgExpect::PublicKey }
    } else if str_eq(cmd, "get_peer_stats") {
        WorkerStep::Run { args: dump_args(interface), expect: WgExpect::PeerStats }
    } else if str_eq(cmd, "peer_set") {
        if req.public_key.as_str().is_empty() || req.allowed_ips.len() == 0 {
            return WorkerStep::Reply(error_reply("public_key and allowed_ips required".to_string()));
        }
        let joined = join_strings(&req.allowed_ips, ",");
        let args = peer_set_args(interface, req.public_key.as_str(), joined.as_str());
        match &req.preshared_key {
            Some(k) => WorkerStep::RunWithPsk { args, psk: k.clone() },
            None => WorkerStep::Run { args, expect: WgExpect::Ack },
        }
    } else if str_eq(cmd, "peer_remove") {
        if req.public_key.as_str().is_empty() {
            return WorkerStep::Reply(error_reply("public_key required".to_string()));
        }
        WorkerStep::Run {
            args: peer_remove_args(interface, req.public_key.as_str()),
            expect: WgExpect::Ack,
        }
    } else {
        let mut v: Vec<char> = Vec::new();
        push_str_chars(&mut v, "unknown cmd: ");
        push_str_chars(&mut v, cmd);
        WorkerStep::Reply(error_reply(string_from_chars(&v)))
    }
}

/// What the manager reads from the worker's reply to a `wg` command: a
/// failure to run it, or a non-zero exit, reaches the manager as the very
/// text the worker reported; a success as the trimmed public key, the
/// peers of the trimmed dump, or a plain success.
pub proof fn lemma_manager_reads_worker_reply(outcome: Option<WgOutput>, r: WorkerResponse, expect: WgExpect)
    requires
        finish_spec(expect, outcome, r),
    ensures
        match outcome {
            None => {
                &&& public_key_reading(Ok(r)) == Err::<Seq<char>, Seq<char>>("wg command failed"@)
                &&& ack_reading(Ok(r)) == Err::<(), Seq<char>>("wg command failed"@)
                &&& peer_stats_reading(Ok(r)) == Err::<Seq<PeerStatView>, Seq<char>>(
                    "wg command failed"@,
                )
            },
            Some(o) => if o.code != 0 {
                &&& public_key_reading(Ok(r)) == Err::<Seq<char>, Seq<char>>(
                    failure_text(o.stderr@, o.code),
                )
                &&& ack_reading(Ok(r)) == Err::<(), Seq<char>>(failure_text(o.stderr@, o.code))
                &&& peer_stats_reading(Ok(r)) == Err::<Seq<PeerStatView>, Seq<char>>(
                    failure_text(o.stderr@, o.code),
                )
            } else {
                match expect {
                    WgExpect::PublicKey => public_key_reading(Ok(r)) == Ok::<Seq<char>, Seq<char>>(
                        trim(o.stdout@),
                    ),
                    WgExpect::PeerStats => peer_stats_reading(Ok(r)) == Ok::<
                        Seq<PeerStatView>,
                        Seq<char>,
                    >(dump_peers(trim(o.stdout@))),
                    WgExpect::Ack => ack_reading(Ok(r)) == Ok::<(), Seq<char>>(()),
                }
            },
        },
{
}

/// Every answer of the worker is `{"ok": true, ...}` without an error, or
/// `{"ok": false, "error": ...}` with one: for the outcome of a `wg`
/// command and for a request answered at once alike.
pub proof fn lemma_worker_reply_is_ok_or_error(expect: WgExpect, outcome: Option<WgOutput>, r: WorkerResponse, msg: Seq<char>)
    ensures
        finish_spec(expect, outcome, r) ==> (r.ok <==> r.error is None),
        is_error(r, msg) ==> !r.ok && r.error is Some,
{
}

} // verus!
