//! Reading the output of `wg show <interface> dump`.
//!
//! The first line describes the interface; every later line with at least
//! eight tab-separated columns describes one peer: public key, preshared
//! key, endpoint, allowed IPs, latest handshake, received bytes, sent bytes,
//! keepalive.

use vstd::prelude::*;
use crate::text::{lemma_push_chars_deep, lemma_push_string_deep, lemma_chars_deep_view, lines, lines_from, split, split_from, strip_cr, parse_u64, str_chars, string_from_chars, parse_u64_chars};
use crate::protocol::{PeerStat, PeerStatView, stats_view};

verus! {

/// The non-empty pieces, in order.
pub open spec fn nonempty_pieces(ps: Seq<Seq<char>>) -> Seq<Seq<char>>
    decreases ps.len(),
{
    if ps.len() == 0 {
        Seq::empty()
    } else {
        let prev = nonempty_pieces(ps.drop_last());
        if ps.last().len() > 0 {
            prev.push(ps.last())
        } else {
            prev
        }
    }
}

/// The peer that a line of at least eight columns describes.
pub open spec fn dump_peer(cols: Seq<Seq<char>>) -> PeerStatView {
    PeerStatView {
        public_key: cols[0],
        endpoint: if cols[2].len() == 0 {
            None
        } else {
            Some(cols[2])
        },
        allowed_ips: nonempty_pieces(split(cols[3], ',')),
        latest_handshake: match parse_u64(cols[4]) {
            Some(x) => if x != 0 {
                Some(x)
            } else {
                None
            },
            None => None,
        },
        rx_bytes: match parse_u64(cols[5]) {
            Some(x) => x,
            None => 0,
        },
        tx_bytes: match parse_u64(cols[6]) {
            Some(x) => x,
            None => 0,
        },
    }
}

/// The peers that the given peer lines describe; lines of fewer than eight
/// columns are skipped.
pub open spec fn dump_rows(ls: Seq<Seq<char>>) -> Seq<PeerStatView>
    decreases ls.len(),
{
    if ls.len() == 0 {
        Seq::empty()
    } else {
        let prev = dump_rows(ls.drop_last());
        let cols = split(ls.last(), '\t');
        if cols.len() >= 8 {
            prev.push(dump_peer(cols))
        } else {
            prev
        }
    }
}

/// The peers of a whole dump: every line after the first.
pub open spec fn dump_peers(dump: Seq<char>) -> Seq<PeerStatView> {
    let ls = lines(dump);
    if ls.len() == 0 {
        Seq::empty()
    } else {
        dump_rows(ls.skip(1))
    }
}

proof fn lemma_lines_step(cur: Seq<char>, v: Seq<char>, i: int)
    requires
        0 <= i < v.len(),
    ensures
        lines_from(cur, v.skip(i)) == if v[i] == '\n' {
            seq![strip_cr(cur)] + lines_from(Seq::empty(), v.skip(i + 1))
        } else {
            lines_from(cur.push(v[i]), v.skip(i + 1))
        },
{
    assert(v.skip(i).drop_first() =~= v.skip(i + 1));
    assert(v.skip(i)[0] == v[i]);
}

proof fn lemma_split_step(cur: Seq<char>, v: Seq<char>, i: int, sep: char)
    requires
        0 <= i < v.len(),
    ensures
        split_from(cur, v.skip(i), sep) == if v[i] == sep {
            seq![cur] + split_from(Seq::empty(), v.skip(i + 1), sep)
        } else {
            split_from(cur.push(v[i]), v.skip(i + 1), sep)
        },
{
    assert(v.skip(i).drop_first() =~= v.skip(i + 1));
    assert(v.skip(i)[0] == v[i]);
}

/// `str::lines` on characters.
pub fn lines_chars(v: &[char]) -> (r: Vec<Vec<char>>)
    ensures
        r.deep_view() == lines(v@),
{
    let mut out: Vec<Vec<char>> = Vec::new();
    let mut cur: Vec<char> = Vec::new();
    let mut i: usize = 0;
    proof {
        assert(v@.skip(0) =~= v@);
    }
    while i < v.len()
        invariant
            i <= v@.len(),
            out.deep_view() + lines_from(cur@, v@.skip(i as int)) == lines(v@),
        decreases v.len() - i,
    {
        proof {
            lemma_lines_step(cur@, v@, i as int);
        }
        if v[i] == '\n' {
            let ghost before = out;
            let mut line = cur;
            if line.len() > 0 && line[line.len() - 1] == '\r' {
                line.pop();
            }
            proof {
                assert(line@ =~= strip_cr(cur@));
            }
            let ghost pushed = line;
            out.push(line);
            cur = Vec::new();
            proof {
                lemma_push_chars_deep(before, out, pushed);
                assert(out.deep_view() =~= before.deep_view() + seq![pushed@]);
                assert(cur@ =~= Seq::<char>::empty());
            }
        } else {
            cur.push(v[i]);
        }
        i = i + 1;
    }
    proof {
        assert(v@.skip(i as int) =~= Seq::<char>::empty());
    }
    if cur.len() > 0 {
        let ghost before = out;
        let ghost pushed = cur;
        out.push(cur);
        proof {
            lemma_push_chars_deep(before, out, pushed);
            assert(out.deep_view() =~= before.deep_view() + lines_from(pushed@, Seq::empty()));
        }
    } else {
        proof {
            assert(out.deep_view() =~= out.deep_view() + lines_from(cur@, Seq::empty()));
        }
    }
    out
}

/// `str::split(sep)` on characters.
pub fn split_chars(v: &[char], sep: char) -> (r: Vec<Vec<char>>)
    ensures
        r.deep_view() == split(v@, sep),
        r@.len() >= 1,
{
    let mut out: Vec<Vec<char>> = Vec::new();
    let mut cur: Vec<char> = Vec::new();
    let mut i: usize = 0;
    proof {
        assert(v@.skip(0) =~= v@);
    }
    while i < v.len()
        invariant
            i <= v@.len(),
            out.deep_view() + split_from(cur@, v@.skip(i as int), sep) == split(v@, sep),
        decreases v.len() - i,
    {
        proof {
            lemma_split_step(cur@, v@, i as int, sep);
        }
        if v[i] == sep {
            let ghost before = out;
            let ghost piece = cur;
            out.push(cur);
            cur = Vec::new();
            proof {
                lemma_push_chars_deep(before, out, piece);
                assert(out.deep_view() =~= before.deep_view() + seq![piece@]);
                assert(cur@ =~= Seq::<char>::empty());
            }
        } else {
            cur.push(v[i]);
        }
        i = i + 1;
    }
    proof {
        assert(v@.skip(i as int) =~= Seq::<char>::empty());
    }
    let ghost before = out;
    let ghost piece = cur;
    out.push(cur);
    proof {
        lemma_push_chars_deep(before, out, piece);
        assert(out.deep_view() =~= before.deep_view() + split_from(piece@, Seq::empty(), sep));
    }
    out
}

/// The non-empty pieces as strings.
fn nonempty_strings(ps: &Vec<Vec<char>>) -> (r: Vec<String>)
    ensures
        r.deep_view() == nonempty_pieces(ps.deep_view()),
{
    let mut out: Vec<String> = Vec::new();
    let mut i: usize = 0;
    while i < ps.len()
        invariant
            i <= ps@.len(),
            out.deep_view() == nonempty_pieces(ps.deep_view().take(i as int)),
        decreases ps.len() - i,
    {
        proof {
            let t = ps.deep_view().take(i + 1);
            assert(t.drop_last() =~= ps.deep_view().take(i as int));
            assert(t.last() == ps@[i as int]@);
        }
        if ps[i].len() > 0 {
            let ghost before = out;
            let s = string_from_chars(&ps[i]);
            let ghost pushed = s;
            out.push(s);
            proof {
                lemma_push_string_deep(before, out, pushed);
                lemma_chars_deep_view(ps@[i as int]);
            }
        }
        i = i + 1;
    }
    proof {
        assert(ps.deep_view().take(ps@.len() as int) =~= ps.deep_view());
    }
    out
}

/// The peer described by the columns of one line.
fn peer_from_columns(cols: &Vec<Vec<char>>) -> (p: PeerStat)
    requires
        cols@.len() >= 8,
    ensures
        p@ == dump_peer(cols.deep_view()),
{
    let ghost cv = cols.deep_view();
    proof {
        assert(cv[0] == cols@[0]@);
        assert(cv[2] == cols@[2]@);
        assert(cv[3] == cols@[3]@);
        assert(cv[4] == cols@[4]@);
        assert(cv[5] == cols@[5]@);
        assert(cv[6] == cols@[6]@);
    }
    let public_key = string_from_chars(&cols[0]);
    let endpoint: Option<String> = if cols[2].len() == 0 {
        None
    } else {
        Some(string_from_chars(&cols[2]))
    };
    let pieces = split_chars(&cols[3], ',');
    let allowed_ips = nonempty_strings(&pieces);
    let latest_handshake: Option<u64> = match parse_u64_chars(&cols[4]) {
        Some(x) => if x != 0 {
            Some(x)
        } else {
            None
        },
        None => None,
    };
    let rx_bytes: u64 = match parse_u64_chars(&cols[5]) {
        Some(x) => x,
        None => 0,
    };
    let tx_bytes: u64 = match parse_u64_chars(&cols[6]) {
        Some(x) => x,
        None => 0,
    };
    let p = PeerStat { public_key, endpoint, allowed_ips, latest_handshake, rx_bytes, tx_bytes };
    proof {
        assert(p@.endpoint == dump_peer(cv).endpoint);
    }
    p
}

/// The peers of a `wg show <interface> dump` output. The interface name
/// plays no part; reading a dump never fails.
pub fn parse_dump(interface: &str, dump: &str) -> (r: Result<Vec<PeerStat>, String>)
    ensures
        r matches Ok(v) && stats_view(v@) == dump_peers(dump@),
{
    let chars = str_chars(dump);
    let ls = lines_chars(&chars);
    let ghost lv = ls.deep_view();
    let mut peers: Vec<PeerStat> = Vec::new();
    if ls.len() == 0 {
        proof {
            assert(stats_view(peers@) =~= dump_peers(dump@));
        }
        return Ok(peers);
    }
    let mut i: usize = 1;
    proof {
        assert(lv.skip(1).take(0) =~= Seq::<Seq<char>>::empty());
        assert(stats_view(peers@) =~= Seq::<PeerStatView>::empty());
    }
    while i < ls.len()
        invariant
            1 <= i <= ls@.len(),
            lv == ls.deep_view(),
            lv == lines(dump@),
            stats_view(peers@) == dump_rows(lv.skip(1).take(i - 1)),
        decreases ls.len() - i,
    {
        let cols = split_chars(&ls[i], '\t');
        proof {
            let t = lv.skip(1).take(i as int);
            assert(t.drop_last() =~= lv.skip(1).take(i - 1));
            assert(t.last() == ls@[i as int]@);
        }
        if cols.len() >= 8 {
            let p = peer_from_columns(&cols);
            let ghost before = peers@;
            peers.push(p);
            proof {
                assert(stats_view(peers@) =~= stats_view(before).push(p@));
            }
        }
        i = i + 1;
    }
    proof {
        assert(lv.skip(1).take(ls@.len() - 1) =~= lv.skip(1));
    }
    Ok(peers)
}

/// Whether a line describes a peer: at least eight tab-separated columns.
pub open spec fn is_peer_line(l: Seq<char>) -> bool {
    split(l, '\t').len() >= 8
}

/// The lines of a dump that describe peers: those after the first with at
/// least eight tab-separated columns, in order.
pub open spec fn peer_lines(dump: Seq<char>) -> Seq<Seq<char>> {
    let ls = lines(dump);
    if ls.len() == 0 {
        Seq::empty()
    } else {
        ls.skip(1).filter(|l: Seq<char>| is_peer_line(l))
    }
}

proof fn lemma_rows_are_filtered_lines(ls: Seq<Seq<char>>)
    ensures
        dump_rows(ls).len() == ls.filter(|l: Seq<char>| is_peer_line(l)).len(),
        forall|i: int|
            0 <= i < dump_rows(ls).len() ==> #[trigger] dump_rows(ls)[i] == dump_peer(
                split(ls.filter(|l: Seq<char>| is_peer_line(l))[i], '\t'),
            ),
    decreases ls.len(),
{
    reveal(Seq::filter);
    if ls.len() > 0 {
        lemma_rows_are_filtered_lines(ls.drop_last());
    }
}

/// Reading a dump yields one peer per line that describes a peer, in the
/// order of the lines: as many peers as such lines, the `i`-th peer read
/// from the `i`-th such line, its public key that line's first column, and
/// its counters and handshake read from the line's columns 5, 6 and 4.
pub proof fn lemma_parse_dump_one_peer_per_line(dump: Seq<char>, peers: Seq<PeerStatView>)
    requires
        peers == dump_peers(dump),
    ensures
        peers.len() == peer_lines(dump).len(),
        forall|i: int|
            0 <= i < peers.len() ==> {
                let cols = split(#[trigger] peer_lines(dump)[i], '\t');
                &&& cols.len() >= 8
                &&& peers[i].public_key == cols[0]
                &&& peers[i].rx_bytes == (match parse_u64(cols[5]) {
                    Some(x) => x,
                    None => 0,
                })
                &&& peers[i].tx_bytes == (match parse_u64(cols[6]) {
                    Some(x) => x,
                    None => 0,
                })
                &&& peers[i].latest_handshake == (match parse_u64(cols[4]) {
                    Some(x) => if x != 0 {
                        Some(x)
                    } else {
                        None
                    },
                    None => None,
                })
            },
{
    let ls = lines(dump);
    if ls.len() > 0 {
        let rest = ls.skip(1);
        lemma_rows_are_filtered_lines(rest);
        let f = rest.filter(|l: Seq<char>| is_peer_line(l));
        broadcast use vstd::seq_lib::group_filter_ensures;
        assert forall|i: int| 0 <= i < peers.len() implies is_peer_line(#[trigger] peer_lines(dump)[i]) by {
            assert(peer_lines(dump) == f);
            assert(f.len() == peers.len());
        }
    }
}

} // verus!
