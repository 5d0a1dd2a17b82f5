//! IP addresses and networks.

use crate::text;
use vstd::arithmetic::power2;
use vstd::prelude::*;

verus! {

/// An IP address. The number is read from the address' bytes, most significant first.
#[derive(Clone, Copy, Debug, PartialEq, Eq, Structural)]
pub enum IpAddr {
    V4(u32),
    V6(u128),
}

/// The number that bytes stand for, most significant first.
pub open spec fn be_value(bytes: Seq<u8>) -> nat
    decreases bytes.len(),
{
    if bytes.len() == 0 {
        0
    } else {
        be_value(bytes.drop_last()) * 256 + bytes.last() as nat
    }
}

/// Different strings of bytes of one length stand for different numbers.
pub proof fn be_value_is_injective(a: Seq<u8>, b: Seq<u8>)
    requires
        a.len() == b.len(),
        be_value(a) == be_value(b),
    ensures
        a == b,
    decreases a.len(),
{
    if a.len() > 0 {
        be_value_is_injective(a.drop_last(), b.drop_last());
        assert(a == a.drop_last().push(a.last()));
        assert(b == b.drop_last().push(b.last()));
    } else {
        assert(a == b);
    }
}

impl IpAddr {
    /// How many bits an address of this family has.
    pub open spec fn bits(self) -> nat {
        match self {
            IpAddr::V4(_) => 32,
            IpAddr::V6(_) => 128,
        }
    }

    /// The address as a number.
    pub open spec fn value(self) -> nat {
        match self {
            IpAddr::V4(a) => a as nat,
            IpAddr::V6(a) => a as nat,
        }
    }

    /// The name of the address' family, under which metrics are recorded.
    pub open spec fn family(self) -> Seq<char> {
        match self {
            IpAddr::V4(_) => "v4"@,
            IpAddr::V6(_) => "v6"@,
        }
    }

    /// Gives the name of the address' family.
    pub fn family_label(&self) -> (r: &'static str)
        ensures
            r@ == self.family(),
            self is V4 ==> r@ == "v4"@,
            self is V6 ==> r@ == "v6"@,
    {
        match self {
            IpAddr::V4(_) => "v4",
            IpAddr::V6(_) => "v6",
        }
    }

    /// The length of the prefix of the network that holds just this address.
    pub fn host_prefix_len(&self) -> (r: u8)
        ensures
            r == self.bits(),
            self is V4 ==> r == 32,
            self is V6 ==> r == 128,
    {
        match self {
            IpAddr::V4(_) => 32,
            IpAddr::V6(_) => 128,
        }
    }
}

/// An IPv6 address, as text.
pub uninterp spec fn v6_text(addr: u128) -> Seq<char>;

/// Formats the `std` address that `ipnet::Ipv6Net::addr` gives back with `Display`. The text depends
/// on the address alone.
#[verifier::external_body]
fn show_v6(addr: u128) -> (r: String)
    ensures
        r@ == v6_text(addr),
{
    ipnet::Ipv6Net::new_assert(addr.into(), 128).addr().to_string()
}

/// An IPv4 address, as text: its bytes in decimal.
pub open spec fn v4_text(addr: u32) -> Seq<char> {
    text::decimal(addr as nat / 0x100_0000) + "."@ + text::decimal(addr as nat / 0x1_0000 % 0x100)
        + "."@ + text::decimal(addr as nat / 0x100 % 0x100) + "."@ + text::decimal(
        addr as nat % 0x100,
    )
}

/// Writes an IPv4 address.
pub fn show_ipv4(addr: u32) -> (r: String)
    ensures
        r@ == v4_text(addr),
{
    let mut shown = text::decimal_text((addr / 0x100_0000) as usize);
    shown.append(".");
    shown.append(text::decimal_text((addr / 0x1_0000 % 0x100) as usize).as_str());
    shown.append(".");
    shown.append(text::decimal_text((addr / 0x100 % 0x100) as usize).as_str());
    shown.append(".");
    shown.append(text::decimal_text((addr % 0x100) as usize).as_str());
    shown
}

/// An IPv4 address is written as its four bytes, from the most significant one on, with dots between
/// them.
pub proof fn bytes_are_written_in_order(addr: u32, a: u8, b: u8, c: u8, d: u8)
    requires
        be_value(seq![a, b, c, d]) == addr,
    ensures
        v4_text(addr) == text::decimal(a as nat) + "."@ + text::decimal(b as nat) + "."@
            + text::decimal(c as nat) + "."@ + text::decimal(d as nat),
{
    let all = seq![a, b, c, d];
    reveal_with_fuel(be_value, 5);
    assert(all.drop_last() == seq![a, b, c]);
    assert(seq![a, b, c].drop_last() == seq![a, b]);
    assert(seq![a, b].drop_last() == seq![a]);
    assert(seq![a].drop_last() == Seq::<u8>::empty());
    assert(addr == 0x100_0000 * a + 0x1_0000 * b + 0x100 * c + d);
}

/// Writes an IPv6 address.
pub fn show_ipv6(addr: u128) -> (r: String)
    ensures
        r@ == v6_text(addr),
{
    show_v6(addr)
}

/// A network: all addresses that share their first `prefix_len` bits with `addr`. The remaining
/// bits of `addr` need not be 0.
#[derive(Clone, Copy, Debug, PartialEq, Eq, Structural)]
pub struct IpNet {
    pub addr: IpAddr,
    pub prefix_len: u8,
}

/// The network that a text stands for, as `address/prefix length`; none if it is malformed.
pub uninterp spec fn net_of_text(text: Seq<char>) -> Option<IpNet>;

/// Calls `ipnet::IpNet::from_str`. The result depends on the text alone, and the prefix of a
/// network that it gives is no longer than an address of its family.
#[verifier::external_body]
fn parse_net(text: &str) -> (r: Option<IpNet>)
    ensures
        r == net_of_text(text@),
        r is Some ==> r->0.wf(),
{
    match text.parse::<ipnet::IpNet>() {
        Ok(ipnet::IpNet::V4(n)) => {
            Some(IpNet { addr: IpAddr::V4(n.addr().into()), prefix_len: n.prefix_len() })
        },
        Ok(ipnet::IpNet::V6(n)) => {
            Some(IpNet { addr: IpAddr::V6(n.addr().into()), prefix_len: n.prefix_len() })
        },
        Err(_) => None,
    }
}

/// Calls `ipnet::Ipv4Net::contains`. A network contains another if it starts no later than the
/// other and ends no earlier.
#[verifier::external_body]
fn v4_contains(outer: u32, outer_len: u8, inner: u32, inner_len: u8) -> (r: bool)
    requires
        outer_len <= 32,
        inner_len <= 32,
    ensures
        r <==> spans(32, outer as nat, outer_len as nat, inner as nat, inner_len as nat),
{
    ipnet::Ipv4Net::new_assert(outer.into(), outer_len).contains(
        &ipnet::Ipv4Net::new_assert(inner.into(), inner_len),
    )
}

/// Calls `ipnet::Ipv6Net::contains`. A network contains another if it starts no later than the
/// other and ends no earlier.
#[verifier::external_body]
fn v6_contains(outer: u128, outer_len: u8, inner: u128, inner_len: u8) -> (r: bool)
    requires
        outer_len <= 128,
        inner_len <= 128,
    ensures
        r <==> spans(128, outer as nat, outer_len as nat, inner as nat, inner_len as nat),
{
    ipnet::Ipv6Net::new_assert(outer.into(), outer_len).contains(
        &ipnet::Ipv6Net::new_assert(inner.into(), inner_len),
    )
}

/// The first address of the network of `addr`, among addresses of the given number of bits: its
/// bits after the prefix are 0.
pub open spec fn first_address(bits: nat, addr: nat, prefix_len: nat) -> int {
    addr - addr % power2::pow2((bits - prefix_len) as nat)
}

/// The last address of the network of `addr`: its bits after the prefix are 1.
pub open spec fn last_address(bits: nat, addr: nat, prefix_len: nat) -> int {
    first_address(bits, addr, prefix_len) + power2::pow2((bits - prefix_len) as nat) - 1
}

/// Whether the addresses of the first network span those of the second.
pub open spec fn spans(bits: nat, outer: nat, outer_len: nat, inner: nat, inner_len: nat) -> bool {
    &&& first_address(bits, outer, outer_len) <= first_address(bits, inner, inner_len)
    &&& last_address(bits, inner, inner_len) <= last_address(bits, outer, outer_len)
}

impl IpNet {
    /// The prefix is no longer than the address.
    pub open spec fn wf(self) -> bool {
        self.prefix_len <= self.addr.bits()
    }

    /// Whether an address belongs to this network.
    pub open spec fn has(self, addr: IpAddr) -> bool {
        let bits = self.addr.bits();
        let len = self.prefix_len as nat;
        &&& addr.bits() == bits
        &&& first_address(bits, self.addr.value(), len) <= addr.value() <= last_address(
            bits,
            self.addr.value(),
            len,
        )
    }

    /// Whether this network contains another one: both are of one family, and the addresses of this
    /// one span those of the other.
    pub open spec fn covers(self, other: IpNet) -> bool {
        &&& self.addr.bits() == other.addr.bits()
        &&& spans(
            self.addr.bits(),
            self.addr.value(),
            self.prefix_len as nat,
            other.addr.value(),
            other.prefix_len as nat,
        )
    }

    /// Parses `address/prefix length`.
    pub fn parse(text: &str) -> (r: Option<IpNet>)
        ensures
            r == net_of_text(text@),
            r is Some ==> r->0.wf(),
    {
        parse_net(text)
    }

    /// Whether this network contains `other`.
    pub fn contains(&self, other: &IpNet) -> (r: bool)
        requires
            self.wf(),
            other.wf(),
        ensures
            r <==> self.covers(*other),
            r ==> (self.addr is V4 <==> other.addr is V4),
    {
        match (self.addr, other.addr) {
            (IpAddr::V4(a), IpAddr::V4(b)) => v4_contains(
                a,
                self.prefix_len,
                b,
                other.prefix_len,
            ),
            (IpAddr::V6(a), IpAddr::V6(b)) => v6_contains(
                a,
                self.prefix_len,
                b,
                other.prefix_len,
            ),
            _ => false,
        }
    }
}

/// The address with which a network was written belongs to the network.
pub proof fn net_has_its_address(net: IpNet)
    requires
        net.wf(),
    ensures
        net.has(net.addr),
{
    let span = power2::pow2((net.addr.bits() - net.prefix_len) as nat);
    power2::lemma_pow2_pos((net.addr.bits() - net.prefix_len) as nat);
    vstd::arithmetic::div_mod::lemma_mod_bound(net.addr.value() as int, span as int);
}

/// The last address of a network is an address: it fits in the bits of the family.
pub proof fn last_address_fits(bits: nat, addr: nat, prefix_len: nat)
    requires
        addr < power2::pow2(bits),
        prefix_len <= bits,
    ensures
        0 <= first_address(bits, addr, prefix_len) <= addr,
        addr <= last_address(bits, addr, prefix_len) < power2::pow2(bits),
{
    let span = power2::pow2((bits - prefix_len) as nat);
    let count = power2::pow2(prefix_len);
    power2::lemma_pow2_pos((bits - prefix_len) as nat);
    power2::lemma_pow2_adds((bits - prefix_len) as nat, prefix_len);
    vstd::arithmetic::div_mod::lemma_mod_bound(addr as int, span as int);
    vstd::arithmetic::div_mod::lemma_fundamental_div_mod(addr as int, span as int);
    let q = addr as int / span as int;
    assert(q < count) by (nonlinear_arith)
        requires
            addr == span * q + addr % span,
            0 <= addr % span,
            addr < span * count,
            span > 0,
    ;
    assert(0 <= q) by (nonlinear_arith)
        requires
            addr == span * q + addr % span,
            addr % span < span,
            addr >= 0,
            span > 0,
    ;
    assert(span * q + span <= span * count && 0 <= span * q) by (nonlinear_arith)
        requires
            0 <= q < count,
            span > 0,
    ;
}

/// An address belongs to a network exactly if it is of the same family and shares the bits of the
/// prefix: what is left of both numbers without the bits after the prefix is the same.
pub proof fn addresses_belong_by_their_prefix(net: IpNet, addr: IpAddr)
    requires
        net.wf(),
    ensures
        net.has(addr) <==> {
            &&& net.addr is V4 <==> addr is V4
            &&& addr.value() / power2::pow2((net.addr.bits() - net.prefix_len) as nat)
                == net.addr.value() / power2::pow2((net.addr.bits() - net.prefix_len) as nat)
        },
        net.addr is V4 ==> net.addr.bits() == 32,
        net.addr is V6 ==> net.addr.bits() == 128,
{
    let span = power2::pow2((net.addr.bits() - net.prefix_len) as nat) as int;
    let a = addr.value() as int;
    let b = net.addr.value() as int;
    power2::lemma_pow2_pos((net.addr.bits() - net.prefix_len) as nat);
    vstd::arithmetic::div_mod::lemma_fundamental_div_mod(a, span);
    vstd::arithmetic::div_mod::lemma_fundamental_div_mod(b, span);
    vstd::arithmetic::div_mod::lemma_mod_bound(a, span);
    vstd::arithmetic::div_mod::lemma_mod_bound(b, span);
    let first = b - b % span;
    assert(first == span * (b / span));
    if a / span == b / span {
        assert(first <= a <= first + span - 1);
    }
    if first <= a <= first + span - 1 {
        assert(a / span == b / span) by (nonlinear_arith)
            requires
                span > 0,
                a == span * (a / span) + a % span,
                0 <= a % span < span,
                span * (b / span) <= a <= span * (b / span) + span - 1,
        ;
    }
}

/// A network contains another one exactly if every address of the other one belongs to it.
pub proof fn covers_iff_every_address_belongs(outer: IpNet, inner: IpNet)
    requires
        outer.wf(),
        inner.wf(),
    ensures
        outer.covers(inner) <==> (forall|addr: IpAddr| inner.has(addr) ==> outer.has(addr)),
{
    let bits = inner.addr.bits();
    let first = first_address(bits, inner.addr.value(), inner.prefix_len as nat);
    let last = last_address(bits, inner.addr.value(), inner.prefix_len as nat);
    net_has_its_address(inner);
    if forall|addr: IpAddr| inner.has(addr) ==> outer.has(addr) {
        assert(outer.has(inner.addr));
        power2::lemma2_to64();
        power2::lemma_pow2_adds(64, 64);
        assert(power2::pow2(64) * power2::pow2(64) == 0x1_0000_0000_0000_0000_0000_0000_0000_0000) by {
            assert(power2::pow2(64) == 0x1_0000_0000_0000_0000);
        }
        last_address_fits(bits, inner.addr.value(), inner.prefix_len as nat);
        if inner.addr is V4 {
            assert(inner.has(IpAddr::V4(first as u32)));
            assert(inner.has(IpAddr::V4(last as u32)));
        } else {
            assert(inner.has(IpAddr::V6(first as u128)));
            assert(inner.has(IpAddr::V6(last as u128)));
        }
    }
}

} // verus!
