//! IPv4 address arithmetic for managed networks: subnet masks, default
//! gateways, the DHCP range handed to the node, and address allocation.
use vstd::arithmetic::power2::{lemma_pow2_pos, lemma_pow2_strictly_increases, pow2};
use vstd::bits::{
    lemma_u32_low_bits_mask_is_mod, lemma_u32_pow2_no_overflow, lemma_u32_shl_is_mul, low_bits_mask,
};
use vstd::prelude::*;

use crate::text::{
    chars_of, dec, find_char, lemma_find_char, owned, parse_unsigned, parse_unsigned_range,
    push_char, push_chars, push_str, push_u64, split,
};

verus! {

// ---------------------------------------------------------------------------
// Reading addresses
// ---------------------------------------------------------------------------

/// The pieces that parse as a `u8` (as `split('.').filter_map(|o| o.parse().ok())` keeps them).
pub open spec fn keep_octets(parts: Seq<Seq<char>>) -> Seq<u8>
    decreases parts.len(),
{
    if parts.len() == 0 {
        Seq::empty()
    } else {
        keep_octets(parts.drop_last()) + match parse_unsigned(parts.last(), 255) {
            Some(v) => seq![v as u8],
            None => Seq::empty(),
        }
    }
}

/// The octets read from a dotted address.
pub open spec fn octets_of(s: Seq<char>) -> Seq<u8> {
    keep_octets(split(s, '.'))
}

/// The 32-bit value of four octets.
pub open spec fn addr_value(o: Seq<u8>) -> nat {
    (o[0] * 16777216 + o[1] * 65536 + o[2] * 256 + o[3]) as nat
}

/// The address a dotted string names, when exactly four octets parse.
pub open spec fn parse_addr(s: Seq<char>) -> Option<nat> {
    if octets_of(s).len() == 4 {
        Some(addr_value(octets_of(s)))
    } else {
        None
    }
}

/// Dotted rendering of a 32-bit address.
pub open spec fn ip_text(a: nat) -> Seq<char> {
    dec(a / 16777216) + seq!['.'] + dec((a / 65536) % 256) + seq!['.'] + dec((a / 256) % 256)
        + seq!['.'] + dec(a % 256)
}

/// The address and prefix parts of `a.b.c.d/p` (split at the first `/`).
pub open spec fn cidr_parts(s: Seq<char>) -> Option<(Seq<char>, Seq<char>)> {
    match find_char(s, '/') {
        Some(k) => Some((s.take(k as int), s.skip(k + 1 as int))),
        None => None,
    }
}

/// The prefix length, 24 when it does not parse as a `u32`.
pub open spec fn prefix_or_24(p: Seq<char>) -> nat {
    match parse_unsigned(p, 4294967295) {
        Some(v) => v,
        None => 24,
    }
}

/// The first address of the block of `2^host_bits` addresses holding `base`.
pub open spec fn network_addr(base: nat, host_bits: nat) -> nat {
    (base - base % pow2(host_bits)) as nat
}

/// The last address of that block.
pub open spec fn broadcast_addr(base: nat, host_bits: nat) -> nat {
    (network_addr(base, host_bits) + pow2(host_bits) - 1) as nat
}

/// Octets of `v[from..to]` that parse as a `u8`.
fn octets_in(v: &Vec<char>, from: usize, to: usize) -> (r: Vec<u8>)
    requires
        from <= to <= v.len(),
    ensures
        r@ == octets_of(v@.subrange(from as int, to as int)),
{
    let mut r: Vec<u8> = Vec::new();
    let mut start = from;
    let ghost mut done: Seq<Seq<char>> = Seq::empty();
    assert(v@.subrange(from as int, from as int) =~= Seq::<char>::empty());
    assert(split(v@.subrange(from as int, from as int), '.') =~= done.push(v@.subrange(
        start as int,
        from as int,
    )));
    let mut i = from;
    while i < to
        invariant
            from <= start <= i <= to <= v.len(),
            split(v@.subrange(from as int, i as int), '.') == done.push(v@.subrange(start as int, i as int)),
            r@ == keep_octets(done),
        decreases to - i,
    {
        assert(v@.subrange(from as int, i + 1).drop_last() =~= v@.subrange(from as int, i as int));
        assert(v@.subrange(from as int, i + 1).last() == v@[i as int]);
        if v[i] == '.' {
            let ghost part = v@.subrange(start as int, i as int);
            match parse_unsigned_range(v, start, i, 255) {
                Some(x) => {
                    r.push(x as u8);
                },
                None => {},
            }
            proof {
                assert(done.push(part).drop_last() =~= done);
                assert(keep_octets(done.push(part)) =~= r@);
                done = done.push(part);
                assert(v@.subrange(i + 1, i + 1) =~= Seq::<char>::empty());
            }
            start = i + 1;
        } else {
            assert(v@.subrange(start as int, i + 1) =~= v@.subrange(start as int, i as int).push(v@[i as int]));
            assert(done.push(v@.subrange(start as int, i as int)).drop_last() =~= done);
        }
        i = i + 1;
    }
    let ghost last = v@.subrange(start as int, to as int);
    match parse_unsigned_range(v, start, to, 255) {
        Some(x) => {
            r.push(x as u8);
        },
        None => {},
    }
    assert(done.push(last).drop_last() =~= done);
    assert(keep_octets(done.push(last)) =~= r@);
    r
}

/// The 32-bit value of four octets, as the shifts and ors compute it.
fn octets_value(o: &Vec<u8>) -> (r: u32)
    requires
        o.len() == 4,
    ensures
        r as nat == addr_value(o@),
{
    let a = o[0];
    let b = o[1];
    let c = o[2];
    let d = o[3];
    let r = (a as u32) << 24 | (b as u32) << 16 | (c as u32) << 8 | d as u32;
    assert(r == (a as u32) * 16777216 + (b as u32) * 65536 + (c as u32) * 256 + d as u32) by (bit_vector)
        requires
            r == (a as u32) << 24 | (b as u32) << 16 | (c as u32) << 8 | d as u32,
    ;
    r
}

/// Appends the dotted rendering of an address.
fn push_ip(s: &mut String, a: u32)
    ensures
        final(s)@ == old(s)@ + ip_text(a as nat),
{
    let o0 = (a >> 24) & 0xFF;
    let o1 = (a >> 16) & 0xFF;
    let o2 = (a >> 8) & 0xFF;
    let o3 = a & 0xFF;
    assert(o0 == a / 16777216 && o1 == (a / 65536) % 256 && o2 == (a / 256) % 256 && o3 == a % 256)
        by (bit_vector)
        requires
            o0 == (a >> 24) & 0xFF,
            o1 == (a >> 16) & 0xFF,
            o2 == (a >> 8) & 0xFF,
            o3 == a & 0xFF,
    ;
    push_u64(s, o0 as u64);
    push_char(s, '.');
    push_u64(s, o1 as u64);
    push_char(s, '.');
    push_u64(s, o2 as u64);
    push_char(s, '.');
    push_u64(s, o3 as u64);
    assert(final(s)@ =~= old(s)@ + ip_text(a as nat));
}

/// The dotted rendering of an address.
pub fn ip_to_string(a: u32) -> (r: String)
    ensures
        r@ == ip_text(a as nat),
{
    let mut r = String::new();
    push_ip(&mut r, a);
    assert(r@ =~= ip_text(a as nat));
    r
}

/// Splits `a.b.c.d/p` at the first `/`: the end of the address part.
fn slash_index(v: &Vec<char>) -> (k: usize)
    ensures
        k <= v.len(),
        find_char(v@, '/') == (if k < v.len() { Some(k as nat) } else { None::<nat> }),
{
    let mut k: usize = 0;
    while k < v.len() && v[k] != '/'
        invariant
            k <= v.len(),
            forall|j: int| 0 <= j < k ==> v@[j] != '/',
        decreases v.len() - k,
    {
        k = k + 1;
    }
    proof {
        lemma_find_char(v@, '/', k as int);
    }
    k
}

/// `x & (u32::MAX << hb)` is the start of the aligned block of `2^hb`
/// addresses that holds `x`, and or-ing the low mask gives its end.
proof fn lemma_block(x: u32, hb: u32)
    requires
        hb < 32,
    ensures
        (1u32 << hb) >= 1,
        (x & (0xffffffffu32 << hb)) as nat == network_addr(x as nat, hb as nat),
        ((x & (0xffffffffu32 << hb)) | ((1u32 << hb) - 1) as u32) as nat == broadcast_addr(x as nat, hb as nat),
        (1u32 << hb) as nat == pow2(hb as nat),
{
    lemma_u32_pow2_no_overflow(hb as nat);
    lemma_pow2_pos(hb as nat);
    lemma_u32_shl_is_mul(1u32, hb);
    let p = 1u32 << hb;
    let m: u32 = (p - 1) as u32;
    assert(m as nat == low_bits_mask(hb as nat));
    lemma_u32_low_bits_mask_is_mod(x, hb as nat);
    assert(x & m == x % p);
    assert(0xffffffffu32 << hb == !m) by (bit_vector)
        requires
            hb < 32,
            p == 1u32 << hb,
            p >= 1,
            m == p - 1,
    ;
    let lo = x & m;
    let hi = x & !m;
    assert(hi == x - lo && hi | m == hi + m && lo <= x && lo <= m) by (bit_vector)
        requires
            lo == x & m,
            hi == x & !m,
    ;
}

// ---------------------------------------------------------------------------
// Subnet masks and gateways
// ---------------------------------------------------------------------------

/// The dotted netmask of `a.b.c.d/p`: `None` without a `/`, when `p` does
/// not parse as a `u32`, or when `p > 32`.
pub open spec fn subnet_mask_text(subnet: Seq<char>) -> Option<Seq<char>> {
    match cidr_parts(subnet) {
        Some((_, p)) => match parse_unsigned(p, 4294967295) {
            Some(prefix) => if prefix <= 32 {
                Some(ip_text((pow2(32) - pow2((32 - prefix) as nat)) as nat))
            } else {
                None
            },
            None => None,
        },
        None => None,
    }
}

/// The netmask of a CIDR block ("10.0.0.0/24" -> "255.255.255.0").
pub fn subnet_mask_from_cidr(subnet: &str) -> (r: Option<String>)
    ensures
        subnet_mask_text(subnet@) is None ==> r is None,
        subnet_mask_text(subnet@) matches Some(t) ==> (r matches Some(s) && s@ == t),
{
    let v = chars_of(subnet);
    let k = slash_index(&v);
    if k == v.len() {
        return None;
    }
    assert(v@.skip(k + 1) =~= v@.subrange(k + 1, v.len() as int));
    let prefix = match parse_unsigned_range(&v, k + 1, v.len(), 4294967295) {
        Some(p) => p,
        None => return None,
    };
    if prefix > 32 {
        return None;
    }
    proof {
        vstd::arithmetic::power2::lemma2_to64();
    }
    let mask: u32 = if prefix == 0 {
        0
    } else {
        let hb = (32 - prefix) as u32;
        proof {
            lemma_u32_pow2_no_overflow(hb as nat);
            lemma_u32_shl_is_mul(1u32, hb);
        }
        let m = u32::MAX << hb;
        assert(m == 0xffffffffu32 - ((1u32 << hb) - 1)) by (bit_vector)
            requires
                hb < 32,
                m == 0xffffffffu32 << hb,
        ;
        m
    };
    assert(mask as nat == pow2(32) - pow2((32 - prefix) as nat));
    Some(ip_to_string(mask))
}

/// The first usable address of the subnet: the address after its network
/// address (the prefix is 24 when it does not parse). "10.0.0.1" when there
/// is no `/`, the address does not have four octets, the prefix is above 32,
/// or the network address is the top address (`255.255.255.255/32`), which
/// has no address after it.
pub open spec fn default_gateway_text(subnet: Seq<char>) -> Seq<char> {
    match cidr_parts(subnet) {
        Some((base, p)) => match parse_addr(base) {
            Some(a) => if prefix_or_24(p) <= 32 && network_addr(a, (32 - prefix_or_24(p)) as nat) < 4294967295 {
                ip_text(network_addr(a, (32 - prefix_or_24(p)) as nat) + 1)
            } else {
                "10.0.0.1"@
            },
            None => "10.0.0.1"@,
        },
        None => "10.0.0.1"@,
    }
}

/// Compute a default gateway from a CIDR (first usable address).
pub fn default_gateway(subnet: &str) -> (r: String)
    ensures
        r@ == default_gateway_text(subnet@),
{
    match read_subnet(subnet) {
        None => owned("10.0.0.1"),
        Some((base, prefix)) => {
            if prefix > 32 {
                return owned("10.0.0.1");
            }
            let network: u32 = if prefix == 0 {
                proof {
                    vstd::arithmetic::power2::lemma2_to64();
                    assert(base as nat % pow2(32) == base as nat) by {
                        vstd::arithmetic::div_mod::lemma_small_mod(base as nat, pow2(32));
                    }
                }
                0
            } else {
                let hb = (32 - prefix) as u32;
                proof {
                    lemma_block(base, hb);
                }
                base & (u32::MAX << hb)
            };
            if network == u32::MAX {
                return owned("10.0.0.1");
            }
            ip_to_string(network + 1)
        },
    }
}

// ---------------------------------------------------------------------------
// DHCP range and address allocation
// ---------------------------------------------------------------------------

/// The address block a subnet names: (network, broadcast), when the address
/// part has four octets. The prefix defaults to 24 when it does not parse.
pub open spec fn subnet_block(subnet: Seq<char>) -> Option<(nat, nat)> {
    match cidr_parts(subnet) {
        Some((base, p)) => match parse_addr(base) {
            Some(a) => {
                let hb = (32 - prefix_or_24(p)) as nat;
                Some((network_addr(a, hb), broadcast_addr(a, hb)))
            },
            None => None,
        },
        None => None,
    }
}

/// The gateway's address, when it has four octets.
pub open spec fn gateway_addr(gateway: Option<Seq<char>>) -> Option<nat> {
    match gateway {
        Some(g) => parse_addr(g),
        None => None,
    }
}

/// Inputs on which the block arithmetic panics: a prefix of 0 or above 32,
/// an increment past the top address, or a decrement below 0.
pub open spec fn dhcp_range_panics(subnet: Seq<char>, gateway: Option<Seq<char>>) -> bool {
    match cidr_parts(subnet) {
        Some((base, p)) => parse_addr(base) is Some && (prefix_or_24(p) == 0 || prefix_or_24(p) > 32 || {
            let (net, bc) = subnet_block(subnet).unwrap();
            net == 4294967295 || bc == 0 || (gateway_addr(gateway) == Some((net + 1) as nat) && net + 1
                == 4294967295)
        }),
        None => false,
    }
}

/// First address handed out by DHCP: the first after the network address,
/// or the next one when that is the gateway.
pub open spec fn dhcp_start(net: nat, gw: Option<nat>) -> nat {
    if gw == Some((net + 1) as nat) {
        (net + 2) as nat
    } else {
        (net + 1) as nat
    }
}

/// The DHCP range (first and last address) for a subnet: from the first
/// usable address after the gateway to the address before the broadcast;
/// "10.0.0.10"-"10.0.0.254" when the subnet cannot be read.
pub open spec fn dhcp_range_text(subnet: Seq<char>, gateway: Option<Seq<char>>) -> (Seq<char>, Seq<char>) {
    match subnet_block(subnet) {
        Some((net, bc)) => (ip_text(dhcp_start(net, gateway_addr(gateway))), ip_text((bc - 1) as nat)),
        None => ("10.0.0.10"@, "10.0.0.254"@),
    }
}

/// Reads the address of a dotted string, when it has four octets.
fn addr_of_str(s: &str) -> (r: Option<u32>)
    ensures
        parse_addr(s@) is None ==> r is None,
        parse_addr(s@) matches Some(a) ==> (r matches Some(x) && x as nat == a),
{
    let v = chars_of(s);
    let o = octets_in(&v, 0, v.len());
    assert(v@.subrange(0, v.len() as int) =~= s@);
    if o.len() == 4 {
        Some(octets_value(&o))
    } else {
        None
    }
}

/// The subnet's base address and prefix length (24 when unreadable), when
/// it has a `/` and four octets.
fn read_subnet(subnet: &str) -> (r: Option<(u32, u64)>)
    ensures
        r is None <==> subnet_block(subnet@) is None,
        r matches Some((a, p)) ==> cidr_parts(subnet@) matches Some((base, ps)) && parse_addr(base) == Some(
            a as nat,
        ) && p as nat == prefix_or_24(ps),
{
    let v = chars_of(subnet);
    let k = slash_index(&v);
    if k == v.len() {
        return None;
    }
    assert(v@.take(k as int) =~= v@.subrange(0, k as int));
    assert(v@.skip(k + 1) =~= v@.subrange(k + 1, v.len() as int));
    let o = octets_in(&v, 0, k);
    if o.len() != 4 {
        return None;
    }
    let base = octets_value(&o);
    let prefix = match parse_unsigned_range(&v, k + 1, v.len(), 4294967295) {
        Some(p) => p,
        None => 24,
    };
    Some((base, prefix))
}

/// Compute DHCP range: start at the first usable host after the gateway, end at broadcast-1.
/// The start aligns with `next_available_ip` (which also starts at network_addr+1 and
/// skips the gateway) so the API-allocated IP matches what the DHCP server hands out.
pub fn compute_dhcp_range(subnet: &str, gateway: Option<&str>) -> (r: (String, String))
    requires
        !dhcp_range_panics(subnet@, match gateway {
            Some(g) => Some(g@),
            None => None,
        }),
    ensures
        (r.0@, r.1@) == dhcp_range_text(subnet@, match gateway {
            Some(g) => Some(g@),
            None => None,
        }),
{
    let ghost gw_view = match gateway {
        Some(g) => Some(g@),
        None => None::<Seq<char>>,
    };
    match read_subnet(subnet) {
        None => (owned("10.0.0.10"), owned("10.0.0.254")),
        Some((base, prefix)) => {
            let hb = (32 - prefix) as u32;
            proof {
                lemma_block(base, hb);
            }
            let network = base & (u32::MAX << hb);
            let broadcast = network | ((1u32 << hb) - 1);
            let gw = match gateway {
                Some(g) => addr_of_str(g),
                None => None,
            };
            assert(gw matches Some(x) ==> gateway_addr(gw_view) == Some(x as nat));
            assert(gw is None ==> gateway_addr(gw_view) is None);
            let mut start = network + 1;
            if gw == Some(start) {
                start = start + 1;
            }
            let end = broadcast - 1;
            (ip_to_string(start), ip_to_string(end))
        },
    }
}

/// Whether `ip` (or `ip/32`, as PostgreSQL may print it) is already allocated.
pub open spec fn is_allocated(allocated: Seq<Seq<char>>, ip: Seq<char>) -> bool {
    allocated.contains(ip) || allocated.contains(ip + "/32"@)
}

/// The first address in `[a, end)` that is neither the gateway nor allocated.
pub open spec fn first_free(a: int, end: int, gw: Option<nat>, allocated: Seq<Seq<char>>) -> Option<nat>
    decreases end - a,
{
    if a >= end {
        None
    } else if gw == Some(a as nat) || is_allocated(allocated, ip_text(a as nat)) {
        first_free(a + 1, end, gw, allocated)
    } else {
        Some(a as nat)
    }
}

/// The next address to allocate in a subnet: the first after the network
/// address and before the broadcast address that is neither the gateway nor
/// already allocated. `None` without a `/`, when the address part does not
/// have four octets, or when the subnet is full.
pub open spec fn next_available_addr(
    subnet: Seq<char>,
    gateway: Option<Seq<char>>,
    allocated: Seq<Seq<char>>,
) -> Option<nat> {
    match subnet_block(subnet) {
        Some((net, bc)) => first_free(net + 1 as int, bc as int, gateway_addr(gateway), allocated),
        None => None,
    }
}

/// Inputs on which `next_available_ip` panics: a prefix of 0 or above 32,
/// or a network address at the very top.
pub open spec fn next_ip_panics(subnet: Seq<char>) -> bool {
    match cidr_parts(subnet) {
        Some((base, p)) => parse_addr(base) is Some && (prefix_or_24(p) == 0 || prefix_or_24(p) > 32
            || subnet_block(subnet).unwrap().0 == 4294967295),
        None => false,
    }
}

fn contains_string(v: &Vec<String>, s: &String) -> (r: bool)
    ensures
        r == crate::text::views(v@).contains(s@),
{
    let mut i: usize = 0;
    while i < v.len()
        invariant
            i <= v.len(),
            forall|j: int| 0 <= j < i ==> v@[j]@ != s@,
        decreases v.len() - i,
    {
        if v[i].eq(s) {
            assert(crate::text::views(v@)[i as int] == s@);
            return true;
        }
        i = i + 1;
    }
    assert forall|j: int| 0 <= j < crate::text::views(v@).len() implies crate::text::views(v@)[j] != s@ by {
        assert(crate::text::views(v@)[j] == v@[j]@);
    }
    false
}

/// Find the next available IP in the network's subnet, given the addresses
/// already allocated in it. Skips the network address, the gateway, and the
/// broadcast address.
pub fn next_available_ip(subnet: &str, gateway: Option<&str>, allocated: &Vec<String>) -> (r: Option<String>)
    requires
        !next_ip_panics(subnet@),
    ensures
        next_available_addr(subnet@, match gateway {
            Some(g) => Some(g@),
            None => None,
        }, crate::text::views(allocated@)) matches Some(a) ==> (r matches Some(s) && s@ == ip_text(a)),
        next_available_addr(subnet@, match gateway {
            Some(g) => Some(g@),
            None => None,
        }, crate::text::views(allocated@)) is None ==> r is None,
{
    let ghost gw_view = match gateway {
        Some(g) => Some(g@),
        None => None::<Seq<char>>,
    };
    let ghost alloc = crate::text::views(allocated@);
    let (base, prefix) = match read_subnet(subnet) {
        None => return None,
        Some(bp) => bp,
    };
    let hb = (32 - prefix) as u32;
    proof {
        lemma_block(base, hb);
    }
    let network = base & (u32::MAX << hb);
    let broadcast = network | ((1u32 << hb) - 1);
    let gw = match gateway {
        Some(g) => addr_of_str(g),
        None => None,
    };
    let ghost gwa = gateway_addr(gw_view);
    assert(subnet_block(subnet@) == Some((network as nat, broadcast as nat)));
    assert(next_available_addr(subnet@, gw_view, alloc) == first_free(network + 1, broadcast as int, gwa, alloc));
    assert(gw matches Some(x) ==> gwa == Some(x as nat));
    assert(gw is None ==> gwa is None);
    let mut addr = network + 1;
    while addr < broadcast
        invariant
            network < addr,
            first_free(network + 1, broadcast as int, gwa, alloc) == first_free(addr as int, broadcast as int, gwa, alloc),
            gw matches Some(x) ==> gwa == Some(x as nat),
            gw is None ==> gwa is None,
            alloc == crate::text::views(allocated@),
            gw_view == (match gateway {
                Some(g) => Some(g@),
                None => None::<Seq<char>>,
            }),
            next_available_addr(subnet@, gw_view, alloc) == first_free(network + 1, broadcast as int, gwa, alloc),
        decreases broadcast - addr,
    {
        if gw == Some(addr) {
            addr = addr + 1;
            continue;
        }
        let ip = ip_to_string(addr);
        let mut ip32 = ip_to_string(addr);
        push_str(&mut ip32, "/32");
        let taken = contains_string(allocated, &ip) || contains_string(allocated, &ip32);
        if !taken {
            assert(ip32@ == ip_text(addr as nat) + "/32"@);
            assert(!is_allocated(alloc, ip_text(addr as nat)));
            assert(first_free(addr as int, broadcast as int, gwa, alloc) == Some(addr as nat));
            return Some(ip);
        }
        addr = addr + 1;
    }
    None
}

/// With nothing allocated yet, the address `next_available_ip` hands out is
/// the first address of the DHCP range, whenever that range starts before
/// the broadcast address.
pub proof fn lemma_dhcp_start_is_first_allocation(subnet: Seq<char>, gateway: Option<Seq<char>>)
    requires
        subnet_block(subnet) matches Some((net, bc)) && dhcp_start(net, gateway_addr(gateway)) < bc,
    ensures
        next_available_addr(subnet, gateway, Seq::empty()) == Some(
            dhcp_start(subnet_block(subnet).unwrap().0, gateway_addr(gateway)),
        ),
        ip_text(next_available_addr(subnet, gateway, Seq::empty()).unwrap()) == dhcp_range_text(
            subnet,
            gateway,
        ).0,
{
    let (net, bc) = subnet_block(subnet).unwrap();
    let gw = gateway_addr(gateway);
    let e: Seq<Seq<char>> = Seq::empty();
    assert(!is_allocated(e, ip_text((net + 1) as nat)));
    assert(!is_allocated(e, ip_text((net + 2) as nat)));
    if gw == Some((net + 1) as nat) {
        assert(first_free(net + 1 as int, bc as int, gw, e) == first_free(net + 2 as int, bc as int, gw, e));
    }
}

/// The part of an address before any `/len` suffix (PostgreSQL `inet` text).
pub open spec fn before_slash(s: Seq<char>) -> Seq<char> {
    match find_char(s, '/') {
        Some(k) => s.take(k as int),
        None => s,
    }
}

/// Drops the `/len` suffix PostgreSQL prints on `inet` values.
pub fn normalize_inet(value: Option<String>) -> (r: Option<String>)
    ensures
        value is None ==> r is None,
        value matches Some(v) ==> (r matches Some(s) && s@ == before_slash(v@)),
{
    match value {
        None => None,
        Some(v) => {
            let c = chars_of(v.as_str());
            let k = slash_index(&c);
            let mut s = String::new();
            push_chars(&mut s, &c, 0, k);
            assert(c@.subrange(0, k as int) =~= before_slash(v@));
            Some(s)
        },
    }
}

// ---------------------------------------------------------------------------
// Attaching a network to a host
// ---------------------------------------------------------------------------

/// What a host's node is given to serve a network: its gateway, DNS server
/// and DHCP range.
#[derive(Debug)]
pub struct NetworkAttachment {
    pub gateway: String,
    pub dns: String,
    pub dhcp_start: String,
    pub dhcp_end: String,
}

/// Plans attaching a network to a host. A passt-backed network needs no
/// bridge, DHCP or NAT on the node: none. Otherwise the gateway is the
/// stored one or the subnet's default, the DNS server the stored one or the
/// gateway, and the DHCP range is computed with the stored gateway (so a
/// network without one may hand out its default gateway's address).
pub fn network_attachment(
    network_type: Option<&str>,
    subnet: &str,
    gateway: Option<&str>,
    dns: Option<&str>,
) -> (r: Option<NetworkAttachment>)
    requires
        !(network_type matches Some(t) && t@ == "passt"@) ==> !dhcp_range_panics(subnet@, match gateway {
            Some(g) => Some(g@),
            None => None,
        }),
    ensures
        network_type matches Some(t) && t@ == "passt"@ ==> r is None,
        !(network_type matches Some(t) && t@ == "passt"@) ==> (r matches Some(a) && {
            let range = dhcp_range_text(subnet@, match gateway {
                Some(g) => Some(g@),
                None => None,
            });
            let gw = match gateway {
                Some(g) => g@,
                None => default_gateway_text(subnet@),
            };
            &&& a.gateway@ == gw
            &&& a.dns@ == match dns {
                Some(d) => d@,
                None => gw,
            }
            &&& a.dhcp_start@ == range.0
            &&& a.dhcp_end@ == range.1
        }),
{
    if let Some(t) = network_type {
        if crate::text::str_eq(t, "passt") {
            return None;
        }
    }
    let (dhcp_start, dhcp_end) = compute_dhcp_range(subnet, gateway);
    let gw = match gateway {
        Some(g) => owned(g),
        None => default_gateway(subnet),
    };
    let dns_server = match dns {
        Some(d) => owned(d),
        None => gw.clone(),
    };
    Some(NetworkAttachment { gateway: gw, dns: dns_server, dhcp_start, dhcp_end })
}

/// The answer when the node could not attach the network.
pub fn attach_network_failure(error: &str) -> (e: crate::errors::Error)
    ensures
        crate::errors::is_unprocessable(e, "Failed to attach network to node: "@ + error@),
{
    let mut m = owned("Failed to attach network to node: ");
    crate::text::push_str(&mut m, error);
    crate::errors::Error::UnprocessableEntity(m)
}

} // verus!
