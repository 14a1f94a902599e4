//! Choosing the address of a new client peer from `client_ip_range`.

use vstd::prelude::*;
use crate::text::{
    all_digits, decimal, digits_value, lemma_decimal_reads_back, lemma_digits_no_dot,
    lemma_split_piece, push_decimal, split, string_from_chars, str_eq, str_result,
};

verus! {

/// What `ipnet` reads from a network in CIDR notation: whether it is IPv4,
/// the address as written (host bits kept), and the prefix length. `None`
/// when the text is no network.
pub uninterp spec fn ipnet_from_str(s: Seq<char>) -> Option<(bool, u128, u8)>;

/// The text of an IPv6 address as `std::net::Ipv6Addr` displays it.
pub uninterp spec fn ipv6_text(addr: u128) -> Seq<char>;

/// A network as `ipnet` parsed it.
pub struct NetParts {
    pub is_v4: bool,
    pub addr: u128,
    pub prefix_len: u8,
}

/// Parses a network in CIDR notation with `ipnet` (`"10.8.0.0/24"`,
/// `"fd00::/64"`). The result is named, not stated; what the contract adds
/// is what `ipnet`'s parser guarantees: an IPv4 address fits in 32 bits
/// and its prefix is at most 32, an IPv6 prefix is at most 128.
#[verifier::external_body]
fn parse_ip_net(s: &str) -> (r: Option<NetParts>)
    ensures
        match ipnet_from_str(s@) {
            Some((v4, a, p)) => r == Some(NetParts { is_v4: v4, addr: a, prefix_len: p }),
            None => r is None,
        },
        r matches Some(np) ==> (np.is_v4 ==> np.addr <= u32::MAX && np.prefix_len <= 32) && (
        !np.is_v4 ==> np.prefix_len <= 128),
{
    match s.parse::<ipnet::IpNet>() {
        Ok(ipnet::IpNet::V4(n)) => Some(
            NetParts { is_v4: true, addr: u32::from(n.addr()) as u128, prefix_len: n.prefix_len() },
        ),
        Ok(ipnet::IpNet::V6(n)) => Some(
            NetParts { is_v4: false, addr: u128::from(n.addr()), prefix_len: n.prefix_len() },
        ),
        Err(_) => None,
    }
}

/// The text of an IPv6 address, from `Ipv6Addr`'s `Display` (the address
/// type of `core`, which `std` re-exports).
#[verifier::external_body]
fn ipv6_to_string(addr: u128) -> (r: String)
    ensures
        r@ == ipv6_text(addr),
{
    core::net::Ipv6Addr::from(addr).to_string()
}

/// The host bits of an IPv4 network with the given prefix.
pub open spec fn hostmask4(p: u8) -> u32 {
    if p == 0 {
        0xffff_ffffu32
    } else {
        !(0xffff_ffffu32 << ((32 - p) as u32))
    }
}

/// The host bits of an IPv6 network with the given prefix.
pub open spec fn hostmask6(p: u8) -> u128 {
    if p == 0 {
        0xffff_ffff_ffff_ffff_ffff_ffff_ffff_ffffu128
    } else {
        !(0xffff_ffff_ffff_ffff_ffff_ffff_ffff_ffffu128 << ((128 - p) as u128))
    }
}

/// The first address that `ipnet`'s `hosts()` yields: the network address,
/// plus one for an IPv4 network with a prefix below 31.
pub open spec fn host_first(n: (bool, u128, u8)) -> int {
    if n.0 {
        let net = (n.1 as u32) & !hostmask4(n.2);
        if n.2 < 31 {
            net + 1
        } else {
            net as int
        }
    } else {
        (n.1 & !hostmask6(n.2)) as int
    }
}

/// The last address that `hosts()` yields: the broadcast address, minus one
/// for an IPv4 network with a prefix below 31.
pub open spec fn host_last(n: (bool, u128, u8)) -> int {
    if n.0 {
        let bc = (n.1 as u32) | hostmask4(n.2);
        if n.2 < 31 {
            bc - 1
        } else {
            bc as int
        }
    } else {
        (n.1 | hostmask6(n.2)) as int
    }
}

/// The dotted-decimal text of an IPv4 address.
pub open spec fn ipv4_text(a: u32) -> Seq<char> {
    decimal((a / 0x100_0000) as nat) + seq!['.'] + decimal(((a / 0x1_0000) % 0x100) as nat)
        + seq!['.'] + decimal(((a / 0x100) % 0x100) as nat) + seq!['.'] + decimal(
        (a % 0x100) as nat,
    )
}

/// The text of the `k`-th host of the network.
pub open spec fn host_text(n: (bool, u128, u8), k: int) -> Seq<char> {
    if n.0 {
        ipv4_text((host_first(n) + k) as u32)
    } else {
        ipv6_text((host_first(n) + k) as u128)
    }
}

/// The number of hosts of the network.
pub open spec fn host_count(n: (bool, u128, u8)) -> int {
    host_last(n) - host_first(n) + 1
}

/// The message when `client_ip_range` is no network.
pub open spec fn bad_range_msg() -> Seq<char> {
    "client_ip_range が不正です"@
}

/// The message when every host of the range is taken.
pub open spec fn no_free_ip_msg() -> Seq<char> {
    "空き IP がありません"@
}

/// The address `allocate_next_ip` hands out: the host after the first
/// (which is kept for the server) that no peer holds yet, the earliest such.
pub open spec fn allocation_ok(n: (bool, u128, u8), used: Seq<Seq<char>>, ip: Seq<char>) -> bool {
    exists|k: int|
        1 <= k < host_count(n) && ip == #[trigger] host_text(n, k) && !used.contains(ip) && forall|
            j: int,
        |
            1 <= j < k ==> used.contains(#[trigger] host_text(n, j))
}

/// What allocating from `cidr` with `used` taken gives: an error when `cidr`
/// is no network; else the address of [`allocation_ok`], or an error when
/// the range is full.
pub open spec fn allocation_outcome(cidr: Seq<char>, used: Seq<Seq<char>>, r: Result<Seq<char>, Seq<char>>) -> bool {
    match ipnet_from_str(cidr) {
        None => r == Err::<Seq<char>, Seq<char>>(bad_range_msg()),
        Some(n) => match r {
            Ok(ip) => allocation_ok(n, used, ip),
            Err(e) => e == no_free_ip_msg() && range_full(n, used),
        },
    }
}

/// Every host after the first is taken.
pub open spec fn range_full(n: (bool, u128, u8), used: Seq<Seq<char>>) -> bool {
    forall|j: int| 1 <= j < host_count(n) ==> used.contains(#[trigger] host_text(n, j))
}

proof fn lemma_v4_bounds(a: u32, p: u8)
    requires
        p <= 32,
    ensures
        (a & !hostmask4(p)) <= (a | hostmask4(p)),
        p < 31 ==> (a & !hostmask4(p)) + 3 <= (a | hostmask4(p)),
{
    let m = hostmask4(p);
    assert((a & !m) <= (a | m)) by (bit_vector);
    if p < 31 {
        if p == 0 {
            assert(m == 0xffff_ffffu32);
            assert((a & !m) + 3 <= (a | m)) by (bit_vector)
                requires
                    m == 0xffff_ffffu32,
            ;
        } else {
            let h: u32 = (32 - p) as u32;
            assert(2 <= h < 32);
            assert(m == !(0xffff_ffffu32 << h));
            assert((a & !m) + 3 <= (a | m)) by (bit_vector)
                requires
                    2 <= h < 32,
                    m == !(0xffff_ffffu32 << h),
            ;
        }
    }
}

proof fn lemma_v6_bounds(a: u128, p: u8)
    ensures
        (a & !hostmask6(p)) <= (a | hostmask6(p)),
{
    let m = hostmask6(p);
    assert((a & !m) <= (a | m)) by (bit_vector);
}

/// The four bytes of an IPv4 address in dotted-decimal notation.
fn ipv4_to_string(a: u32) -> (r: String)
    ensures
        r@ == ipv4_text(a),
{
    let mut v: Vec<char> = Vec::new();
    push_decimal(&mut v, (a / 0x100_0000) as u64);
    v.push('.');
    push_decimal(&mut v, ((a / 0x1_0000) % 0x100) as u64);
    v.push('.');
    push_decimal(&mut v, ((a / 0x100) % 0x100) as u64);
    v.push('.');
    push_decimal(&mut v, (a % 0x100) as u64);
    proof {
        assert(v@ =~= ipv4_text(a));
    }
    string_from_chars(&v)
}

/// Whether `s` is one of `used`.
fn is_used(used: &[String], s: &str) -> (r: bool)
    ensures
        r == used.deep_view().contains(s@),
{
    let mut i: usize = 0;
    while i < used.len()
        invariant
            i <= used@.len(),
            forall|j: int| 0 <= j < i ==> used@[j]@ != s@,
        decreases used.len() - i,
    {
        if str_eq(used[i].as_str(), s) {
            proof {
                assert(used.deep_view()[i as int] == s@);
            }
            return true;
        }
        i = i + 1;
    }
    proof {
        if used.deep_view().contains(s@) {
            let j = choose|j: int| 0 <= j < used.deep_view().len() && used.deep_view()[j] == s@;
            assert(used@[j]@ == s@);
        }
    }
    false
}

/// The address for a new peer: the first host of `cidr` after the first
/// one that is not in `used_ips`. An error when `cidr` is no network or
/// when every such host is taken.
pub fn allocate_next_ip(cidr: &str, used_ips: &[String]) -> (r: Result<String, String>)
    ensures
        allocation_outcome(cidr@, used_ips.deep_view(), str_result(r)),
{
    let net = match parse_ip_net(cidr) {
        Some(n) => n,
        None => {
            return Err("client_ip_range が不正です".to_string());
        },
    };
    let ghost n = (net.is_v4, net.addr, net.prefix_len);
    proof {
        assert(ipnet_from_str(cidr@) == Some(n));
    }
    let ghost used = used_ips.deep_view();
    let (first, last): (u128, u128) = if net.is_v4 {
        let a: u32 = net.addr as u32;
        let m: u32 = if net.prefix_len == 0 {
            0xffff_ffffu32
        } else {
            !(0xffff_ffffu32 << ((32 - net.prefix_len) as u32))
        };
        proof {
            lemma_v4_bounds(a, net.prefix_len);
        }
        let netw: u32 = a & !m;
        let bc: u32 = a | m;
        if net.prefix_len < 31 {
            ((netw + 1) as u128, (bc - 1) as u128)
        } else {
            (netw as u128, bc as u128)
        }
    } else {
        let m: u128 = if net.prefix_len == 0 {
            0xffff_ffff_ffff_ffff_ffff_ffff_ffff_ffffu128
        } else {
            !(0xffff_ffff_ffff_ffff_ffff_ffff_ffff_ffffu128 << ((128 - net.prefix_len) as u128))
        };
        proof {
            lemma_v6_bounds(net.addr, net.prefix_len);
        }
        (net.addr & !m, net.addr | m)
    };
    proof {
        assert(first == host_first(n));
        assert(last == host_last(n));
        assert(first <= last);
    }
    let mut a: u128 = first;
    while a < last
        invariant
            first == host_first(n),
            last == host_last(n),
            first <= a <= last,
            n == (net.is_v4, net.addr, net.prefix_len),
            ipnet_from_str(cidr@) == Some(n),
            net.is_v4 ==> last <= u32::MAX,
            used == used_ips.deep_view(),
            forall|j: int| 1 <= j <= a - first ==> used.contains(#[trigger] host_text(n, j)),
        decreases last - a,
    {
        a = a + 1;
        let text = if net.is_v4 {
            ipv4_to_string(a as u32)
        } else {
            ipv6_to_string(a)
        };
        let ghost k = a - first;
        proof {
            assert(text@ == host_text(n, k));
        }
        if !is_used(used_ips, text.as_str()) {
            proof {
                assert(1 <= k < host_count(n));
                assert(allocation_ok(n, used, text@));
            }
            return Ok(text);
        }
    }
    Err("空き IP がありません".to_string())
}

/// Two allocations in a row never hand out the same address: once the
/// first address is counted as used, the second one differs from it.
pub proof fn lemma_allocations_distinct(
    n: (bool, u128, u8),
    used: Seq<Seq<char>>,
    ip1: Seq<char>,
    ip2: Seq<char>,
)
    requires
        allocation_ok(n, used, ip1),
        allocation_ok(n, used.push(ip1), ip2),
    ensures
        ip1 != ip2,
        !used.contains(ip2),
{
    let k2 = choose|k: int|
        1 <= k < host_count(n) && ip2 == #[trigger] host_text(n, k) && !used.push(ip1).contains(ip2)
            && forall|j: int| 1 <= j < k ==> used.push(ip1).contains(#[trigger] host_text(n, j));
    assert(used.push(ip1)[used.len() as int] == ip1);
    if used.contains(ip2) {
        let i = choose|i: int| 0 <= i < used.len() && used[i] == ip2;
        assert(used.push(ip1)[i] == ip2);
    }
}

/// What reading `s` as a dotted-decimal IPv4 address gives `v`: four
/// parts of decimal digits separated by dots, each below 256, the first the
/// highest byte of `v` and the last the lowest.
pub open spec fn reads_as_ipv4(s: Seq<char>, v: int) -> bool {
    let parts = split(s, '.');
    &&& parts.len() == 4
    &&& forall|i: int|
        0 <= i < 4 ==> (#[trigger] parts[i]).len() > 0 && all_digits(parts[i]) && digits_value(
            parts[i],
        ) < 256
    &&& digits_value(parts[0]) * 0x100_0000 + digits_value(parts[1]) * 0x1_0000 + digits_value(
        parts[2],
    ) * 0x100 + digits_value(parts[3]) == v
}

/// The text of an IPv4 address reads back as that address.
pub proof fn lemma_ipv4_text_reads_back(a: u32)
    ensures
        reads_as_ipv4(ipv4_text(a), a as int),
{
    let o0: nat = (a / 0x100_0000) as nat;
    let o1: nat = ((a / 0x1_0000) % 0x100) as nat;
    let o2: nat = ((a / 0x100) % 0x100) as nat;
    let o3: nat = (a % 0x100) as nat;
    lemma_decimal_reads_back(o0);
    lemma_decimal_reads_back(o1);
    lemma_decimal_reads_back(o2);
    lemma_decimal_reads_back(o3);
    lemma_digits_no_dot(decimal(o0));
    lemma_digits_no_dot(decimal(o1));
    lemma_digits_no_dot(decimal(o2));
    lemma_digits_no_dot(decimal(o3));
    let d0 = decimal(o0);
    let d1 = decimal(o1);
    let d2 = decimal(o2);
    let d3 = decimal(o3);
    let r3 = d3;
    let r2 = d2 + seq!['.'] + r3;
    let r1 = d1 + seq!['.'] + r2;
    assert(ipv4_text(a) =~= d0 + seq!['.'] + r1);
    lemma_split_piece(d3, Seq::<char>::empty(), '.');
    lemma_split_piece(d2, r3, '.');
    lemma_split_piece(d1, r2, '.');
    lemma_split_piece(d0, r1, '.');
    let parts = split(ipv4_text(a), '.');
    assert(parts =~= seq![d0, d1, d2, d3]);
    assert(a < 0x1_0000_0000);
    assert(o0 < 256) by (nonlinear_arith)
        requires
            o0 == a / 0x100_0000,
            a < 0x1_0000_0000,
    ;
    assert(o0 * 0x100_0000 + o1 * 0x1_0000 + o2 * 0x100 + o3 == a) by (nonlinear_arith)
        requires
            o0 == a / 0x100_0000,
            o1 == (a / 0x1_0000) % 0x100,
            o2 == (a / 0x100) % 0x100,
            o3 == a % 0x100,
            a >= 0,
    ;
}

/// An IPv4 address that `allocate_next_ip` hands out reads back as a host
/// of the range after its first one: between the network address plus two
/// and the broadcast address minus one (for a prefix below 31; for /31 and
/// /32, every address of the range counts and the first is still skipped),
/// and no peer holds it yet.
pub proof fn lemma_allocated_ipv4_is_a_free_host(cidr: Seq<char>, used: Seq<Seq<char>>, ip: Seq<char>)
    requires
        allocation_outcome(cidr, used, Ok(ip)),
        ipnet_from_str(cidr) matches Some(n) && n.0,
    ensures
        ({
            let n = ipnet_from_str(cidr)->Some_0;
            let net = (n.1 as u32) & !hostmask4(n.2);
            let bc = (n.1 as u32) | hostmask4(n.2);
            exists|v: int|
                reads_as_ipv4(ip, v) && (n.2 < 31 ==> net + 2 <= v <= bc - 1) && (n.2 >= 31 ==> net
                    + 1 <= v <= bc)
        }),
        !used.contains(ip),
{
    let n = ipnet_from_str(cidr)->Some_0;
    let k = choose|k: int|
        1 <= k < host_count(n) && ip == #[trigger] host_text(n, k) && !used.contains(ip) && forall|
            j: int,
        |
            1 <= j < k ==> used.contains(#[trigger] host_text(n, j));
    let v = host_first(n) + k;
    assert(v <= host_last(n));
    assert(host_last(n) <= u32::MAX);
    assert(v as u32 == v);
    lemma_ipv4_text_reads_back(v as u32);
    assert(reads_as_ipv4(ip, v));
}

} // verus!
