//! The `wg` command lines that the manager and the worker run, and how
//! their outcomes are read. Running the command is the application's part.

use vstd::prelude::*;
use crate::text::{signed_decimal, trim, str_chars, trim_chars, push_str_chars, push_signed_decimal, string_from_chars};

verus! {

/// What a finished `wg` process left: its output streams as written and its
/// exit code (`-1` when it had none, as when a signal ended it).
pub struct WgOutput {
    pub stdout: String,
    pub stderr: String,
    pub code: i32,
}

/// The text of a failed command: its error output, or `exit <code>` when
/// that is blank.
pub open spec fn failure_text(stderr: Seq<char>, code: i32) -> Seq<char> {
    if trim(stderr).len() == 0 {
        "exit "@ + signed_decimal(code as int)
    } else {
        trim(stderr)
    }
}

/// The models of a list of strings.
pub open spec fn strs(v: Seq<&str>) -> Seq<Seq<char>> {
    Seq::new(v.len(), |i: int| v[i]@)
}

/// A vector of strings from string slices.
pub fn to_strings(parts: &[&str]) -> (r: Vec<String>)
    ensures
        r.deep_view() == strs(parts@),
{
    let mut out: Vec<String> = Vec::new();
    let mut i: usize = 0;
    while i < parts.len()
        invariant
            i <= parts@.len(),
            out.deep_view() == strs(parts@).take(i as int),
        decreases parts.len() - i,
    {
        let s = parts[i].to_string();
        let ghost before = out;
        let ghost pushed = s;
        out.push(s);
        proof {
            crate::text::lemma_push_string_deep(before, out, pushed);
            assert(strs(parts@).take(i + 1) =~= strs(parts@).take(i as int).push(parts@[i as int]@));
        }
        i = i + 1;
    }
    proof {
        assert(strs(parts@).take(parts@.len() as int) =~= strs(parts@));
    }
    out
}

/// `wg show <interface> public-key`.
pub fn public_key_args(interface: &str) -> (r: Vec<String>)
    ensures
        r.deep_view() == seq!["show"@, interface@, "public-key"@],
{
    let r = to_strings(&["show", interface, "public-key"]);
    proof {
        assert(strs(seq!["show", interface, "public-key"]) =~= seq!["show"@, interface@, "public-key"@]);
    }
    r
}

/// `wg show <interface> dump`.
pub fn dump_args(interface: &str) -> (r: Vec<String>)
    ensures
        r.deep_view() == seq!["show"@, interface@, "dump"@],
{
    let r = to_strings(&["show", interface, "dump"]);
    proof {
        assert(strs(seq!["show", interface, "dump"]) =~= seq!["show"@, interface@, "dump"@]);
    }
    r
}

/// `wg set <interface> peer <key> allowed-ips <ips>`; a preshared key file
/// is added by [`with_preshared_key_file`].
pub fn peer_set_args(interface: &str, public_key: &str, allowed_ips: &str) -> (r: Vec<String>)
    ensures
        r.deep_view() == seq!["set"@, interface@, "peer"@, public_key@, "allowed-ips"@, allowed_ips@],
{
    let r = to_strings(&["set", interface, "peer", public_key, "allowed-ips", allowed_ips]);
    proof {
        assert(strs(seq!["set", interface, "peer", public_key, "allowed-ips", allowed_ips])
            =~= seq!["set"@, interface@, "peer"@, public_key@, "allowed-ips"@, allowed_ips@]);
    }
    r
}

/// The arguments followed by `preshared-key <path>`.
pub fn with_preshared_key_file(args: Vec<String>, path: &str) -> (r: Vec<String>)
    ensures
        r.deep_view() == args.deep_view() + seq!["preshared-key"@, path@],
{
    let mut r = args;
    let ghost b0 = r;
    let s1 = "preshared-key".to_string();
    let ghost p1 = s1;
    r.push(s1);
    let ghost b1 = r;
    let s2 = path.to_string();
    let ghost p2 = s2;
    r.push(s2);
    proof {
        crate::text::lemma_push_string_deep(b0, b1, p1);
        crate::text::lemma_push_string_deep(b1, r, p2);
        assert(r.deep_view() =~= b0.deep_view() + seq!["preshared-key"@, path@]);
    }
    r
}

/// `wg set <interface> peer <key> remove`.
pub fn peer_remove_args(interface: &str, public_key: &str) -> (r: Vec<String>)
    ensures
        r.deep_view() == seq!["set"@, interface@, "peer"@, public_key@, "remove"@],
{
    let r = to_strings(&["set", interface, "peer", public_key, "remove"]);
    proof {
        assert(strs(seq!["set", interface, "peer", public_key, "remove"])
            =~= seq!["set"@, interface@, "peer"@, public_key@, "remove"@]);
    }
    r
}

/// The text of a failed command.
pub fn failure_message(stderr: &str, code: i32) -> (r: String)
    ensures
        r@ == failure_text(stderr@, code),
{
    let e = trim_chars(&str_chars(stderr));
    if e.len() == 0 {
        let mut v: Vec<char> = Vec::new();
        push_str_chars(&mut v, "exit ");
        push_signed_decimal(&mut v, code as i64);
        string_from_chars(&v)
    } else {
        string_from_chars(&e)
    }
}

/// How the manager reads `sudo wg ...`: its trimmed output when it exits
/// with 0, else the failure text.
pub fn command_outcome(out: &WgOutput) -> (r: Result<String, String>)
    ensures
        out.code == 0 ==> (r matches Ok(s) && s@ == trim(out.stdout@)),
        out.code != 0 ==> (r matches Err(e) && e@ == failure_text(out.stderr@, out.code)),
{
    if out.code == 0 {
        let t = trim_chars(&str_chars(out.stdout.as_str()));
        Ok(string_from_chars(&t))
    } else {
        Err(failure_message(out.stderr.as_str(), out.code))
    }
}

/// How a key is read from `wg genkey`, `wg pubkey` or `wg genpsk`: the
/// trimmed output on success, else the trimmed error output.
pub fn key_outcome(out: &WgOutput) -> (r: Result<String, String>)
    ensures
        out.code == 0 ==> (r matches Ok(s) && s@ == trim(out.stdout@)),
        out.code != 0 ==> (r matches Err(e) && e@ == trim(out.stderr@)),
{
    if out.code == 0 {
        let t = trim_chars(&str_chars(out.stdout.as_str()));
        Ok(string_from_chars(&t))
    } else {
        let t = trim_chars(&str_chars(out.stderr.as_str()));
        Err(string_from_chars(&t))
    }
}

/// How the installed version is read from `wg --version`: nothing when the
/// command could not run or failed, or printed only blanks.
pub fn version_outcome(out: Option<WgOutput>) -> (r: Option<String>)
    ensures
        match out {
            None => r is None,
            Some(o) => if o.code != 0 || trim(o.stdout@).len() == 0 {
                r is None
            } else {
                r matches Some(s) && s@ == trim(o.stdout@)
            },
        },
{
    match out {
        None => None,
        Some(o) => {
            if o.code != 0 {
                return None;
            }
            let t = trim_chars(&str_chars(o.stdout.as_str()));
            if t.len() == 0 {
                None
            } else {
                Some(string_from_chars(&t))
            }
        },
    }
}

} // verus!
