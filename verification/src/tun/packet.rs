//! IP packets, and the ICMP packets that answer them.

use crate::buffer_pool::PooledSlice;
use crate::net;
use crate::net::IpAddr;
use crate::text;
use etherparse::icmpv4::DestUnreachableHeader;
use etherparse::icmpv6::DestUnreachableCode;
use etherparse::{IpHeaders, Ipv4Header, NetSlice, PacketBuilder, SlicedPacket};
use pretty_hex::PrettyHex;
use vstd::prelude::*;

verus! {

/// The addresses of an IP packet.
#[allow(inconsistent_fields)]
#[derive(Clone, Copy, Debug, PartialEq, Eq, Structural)]
pub enum InternetSlice {
    Ipv4 { source: u32, destination: u32 },
    Ipv6 { source: u128, destination: u128 },
}

impl InternetSlice {
    /// Where the packet comes from.
    pub open spec fn source(self) -> IpAddr {
        match self {
            InternetSlice::Ipv4 { source, .. } => IpAddr::V4(source),
            InternetSlice::Ipv6 { source, .. } => IpAddr::V6(source),
        }
    }

    /// Whether these are the addresses that the bytes of a packet hold, in a header of the version
    /// that its first half byte tells.
    pub open spec fn is_header_of(self, packet: Seq<u8>) -> bool {
        match self {
            InternetSlice::Ipv4 { source, destination } => {
                &&& packet.len() >= 20
                &&& packet[0] as int / 16 == 4
                &&& source == net::be_value(packet.subrange(12, 16))
                &&& destination == net::be_value(packet.subrange(16, 20))
            },
            InternetSlice::Ipv6 { source, destination } => {
                &&& packet.len() >= 40
                &&& packet[0] as int / 16 == 6
                &&& source == net::be_value(packet.subrange(8, 24))
                &&& destination == net::be_value(packet.subrange(24, 40))
            },
        }
    }
}

/// What the parser finds in a packet: the addresses, or none if there is no IP header, or, if the
/// headers are malformed, the texts that tell why, each one caused by the next.
pub uninterp spec fn addresses_of(packet: Seq<u8>) -> Result<Option<InternetSlice>, Seq<Seq<char>>>;

/// Calls `etherparse::SlicedPacket::from_ip`, and takes the addresses from the IP header that it
/// gives, or the texts of its error and of what `anyhow::Error::chain` finds below it. The result
/// depends on the packet alone. The addresses are those that the header holds. Which headers are
/// malformed, down to the transport layer, and how the error reads, is not stated.
#[verifier::external_body]
fn slice_packet(packet: &[u8]) -> (r: Result<Option<InternetSlice>, Vec<String>>)
    ensures
        match r {
            Ok(addresses) => addresses_of(packet@) == Ok::<Option<InternetSlice>, Seq<Seq<char>>>(
                addresses,
            ),
            Err(causes) => addresses_of(packet@) == Err::<Option<InternetSlice>, Seq<Seq<char>>>(
                text::texts(causes@),
            ),
        },
        r is Ok && r->Ok_0 is Some ==> r->Ok_0->0.is_header_of(packet@),
{
    let sliced = SlicedPacket::from_ip(packet)
        .map_err(|e| anyhow::Error::new(e).chain().map(|e| e.to_string()).collect::<Vec<_>>())?;
    Ok(match sliced.net {
        Some(NetSlice::Ipv4(ip)) => Some(InternetSlice::Ipv4 {
            source: ip.header().source_addr().into(),
            destination: ip.header().destination_addr().into(),
        }),
        Some(NetSlice::Ipv6(ip)) => Some(InternetSlice::Ipv6 {
            source: ip.header().source_addr().into(),
            destination: ip.header().destination_addr().into(),
        }),
        Some(NetSlice::Arp(_)) | None => None,
    })
}

/// The text that shows what the parser finds in a packet, with all its bytes; none if it finds no IP
/// header, or if the headers are malformed.
pub uninterp spec fn slice_text(packet: Seq<u8>) -> Option<Seq<char>>;

/// Formats with `Debug` the `etherparse::NetSlice` that `etherparse::SlicedPacket::from_ip` gives. The
/// text depends on the packet alone. There is one for every packet whose addresses are found.
#[verifier::external_body]
fn show_slice(packet: &[u8]) -> (r: Option<String>)
    ensures
        match r {
            Some(text) => slice_text(packet@) == Some(text@),
            None => slice_text(packet@) is None,
        },
        addresses_of(packet@) is Ok && addresses_of(packet@)->Ok_0 is Some ==> r is Some,
{
    SlicedPacket::from_ip(packet).ok()?.net.map(|net| format!("{:?}", net))
}

/// Why a packet could not be handled.
#[derive(Debug, PartialEq, Eq)]
pub enum PacketError {
    Empty,
    /// The headers could not be parsed, and why.
    Parse(Vec<String>),
    /// There is no IP header.
    NoNetwork,
    /// The gateway has no address configured for the protocol of the packet, which the text shows.
    NoAddress(String, IcmpGateway),
    /// The packet to send, of the given version, could not be built, and why.
    BuildIcmpv4(Vec<String>),
    BuildIcmpv6(Vec<String>),
}

impl PacketError {
    /// The message of an error, with its causes.
    pub open spec fn text(self) -> Seq<char> {
        match self {
            PacketError::Empty => "Empty packet"@,
            PacketError::Parse(causes) => text::caused_by(
                "parsing packet IP addresses"@,
                text::texts(causes@),
            ),
            PacketError::NoNetwork => "no network information in packet"@,
            PacketError::NoAddress(packet, gateway) => {
                "No address configured/available for protocol "@ + packet@ + ": "@ + gateway.text()
            },
            PacketError::BuildIcmpv4(causes) => text::caused_by(
                "building ICMPv4 packet"@,
                text::texts(causes@),
            ),
            PacketError::BuildIcmpv6(causes) => text::caused_by(
                "building ICMPv6 packet"@,
                text::texts(causes@),
            ),
        }
    }

    /// Gives the message of an error, with its causes.
    pub fn message(&self) -> (r: String)
        ensures
            r@ == self.text(),
            self is Empty ==> r@ == "Empty packet"@,
            self is NoNetwork ==> r@ == "no network information in packet"@,
            self is Parse ==> r@ == text::caused_by(
                "parsing packet IP addresses"@,
                text::texts(self->Parse_0@),
            ),
            self is NoAddress ==> r@ == "No address configured/available for protocol "@
                + self->NoAddress_0@ + ": "@ + self->NoAddress_1.text(),
            self is BuildIcmpv4 ==> r@ == text::caused_by(
                "building ICMPv4 packet"@,
                text::texts(self->BuildIcmpv4_0@),
            ),
            self is BuildIcmpv6 ==> r@ == text::caused_by(
                "building ICMPv6 packet"@,
                text::texts(self->BuildIcmpv6_0@),
            ),
    {
        match self {
            PacketError::Empty => "Empty packet".to_owned(),
            PacketError::Parse(causes) => text::with_causes(
                "parsing packet IP addresses",
                causes.as_slice(),
            ),
            PacketError::NoNetwork => "no network information in packet".to_owned(),
            PacketError::NoAddress(packet, gateway) => {
                let mut message = "No address configured/available for protocol ".to_owned();
                message.append(packet.as_str());
                message.append(": ");
                message.append(gateway.show().as_str());
                message
            },
            PacketError::BuildIcmpv4(causes) => text::with_causes(
                "building ICMPv4 packet",
                causes.as_slice(),
            ),
            PacketError::BuildIcmpv6(causes) => text::with_causes(
                "building ICMPv6 packet",
                causes.as_slice(),
            ),
        }
    }
}

/// Whether this is the error for a packet of which the addresses are not found.
pub open spec fn has_no_addresses(packet: Seq<u8>, error: PacketError) -> bool {
    match addresses_of(packet) {
        Ok(Some(_)) => false,
        Ok(None) => error == PacketError::NoNetwork,
        Err(causes) => error is Parse && text::texts(error->Parse_0@) == causes,
    }
}

/// Extracts the source and the destination addresses.
pub fn inet_slice(slice: &[u8]) -> (r: Result<InternetSlice, PacketError>)
    ensures
        match addresses_of(slice@) {
            Ok(Some(addresses)) => r == Ok::<InternetSlice, PacketError>(addresses)
                && addresses.is_header_of(slice@),
            _ => r is Err && has_no_addresses(slice@, r->Err_0),
        },
        r is Ok <==> addresses_of(slice@) is Ok && addresses_of(slice@)->Ok_0 is Some,
        r is Ok ==> addresses_of(slice@)->Ok_0->0 == r->Ok_0,
        r is Err ==> (r->Err_0 is NoNetwork <==> addresses_of(slice@) is Ok),
        r is Err ==> (r->Err_0 is Parse <==> addresses_of(slice@) is Err),
        r is Err && r->Err_0 is Parse ==> text::texts(r->Err_0->Parse_0@)
            == addresses_of(slice@)->Err_0,
{
    match slice_packet(slice) {
        Ok(Some(addresses)) => Ok(addresses),
        Ok(None) => Err(PacketError::NoNetwork),
        Err(causes) => Err(PacketError::Parse(causes)),
    }
}

/// The ICMPv4 messages that are sent. All of them say that a destination is unreachable.
#[derive(Clone, Copy, Debug, PartialEq, Eq, Structural)]
pub enum Icmpv4Type {
    NetworkUnknown,
    Host,
    FragmentationNeeded { next_hop_mtu: u16 },
}

impl Icmpv4Type {
    /// The code of the message.
    pub open spec fn code(self) -> u8 {
        match self {
            Icmpv4Type::NetworkUnknown => 6,
            Icmpv4Type::Host => 1,
            Icmpv4Type::FragmentationNeeded { .. } => 4,
        }
    }

    /// The number in the last four bytes of the header.
    pub open spec fn rest(self) -> u16 {
        match self {
            Icmpv4Type::FragmentationNeeded { next_hop_mtu } => next_hop_mtu,
            _ => 0,
        }
    }
}

/// The ICMPv6 messages that are sent.
#[derive(Clone, Copy, Debug, PartialEq, Eq, Structural)]
pub enum Icmpv6Type {
    NoRoute,
    Address,
    PacketTooBig { mtu: u32 },
}

impl Icmpv6Type {
    /// The type of the message.
    pub open spec fn number(self) -> u8 {
        match self {
            Icmpv6Type::PacketTooBig { .. } => 2,
            _ => 1,
        }
    }

    /// The code of the message.
    pub open spec fn code(self) -> u8 {
        match self {
            Icmpv6Type::Address => 3,
            _ => 0,
        }
    }

    /// The number in the last four bytes of the header.
    pub open spec fn rest(self) -> u32 {
        match self {
            Icmpv6Type::PacketTooBig { mtu } => mtu,
            _ => 0,
        }
    }
}

/// The number that the bytes from `from` up to `to` hold, most significant byte first.
pub open spec fn number_at(packet: Seq<u8>, from: int, to: int) -> nat {
    net::be_value(packet.subrange(from, to))
}

/// The sum of the words of two bytes each, most significant byte first, that bytes consist of. A last
/// byte that is left over is the more significant one of a word.
pub open spec fn word_sum(bytes: Seq<u8>) -> nat
    decreases bytes.len(),
{
    if bytes.len() == 0 {
        0
    } else if bytes.len() == 1 {
        0x100 * bytes[0] as nat
    } else {
        0x100 * bytes[0] as nat + bytes[1] as nat + word_sum(bytes.skip(2))
    }
}

/// Whether a sum of words, of which one is a checksum, is that of a packet that arrived intact. In the
/// arithmetic of one's complement it is zero. Of the two ways to write zero there, as a checksum the
/// one without any bit set is used.
pub open spec fn checks(sum: nat, checksum: nat) -> bool {
    sum % 0xffff == 0 && checksum != 0xffff
}

/// Whether a packet consists of an IPv4 header without options, an ICMP header and a payload. The
/// checksum of the IPv4 header is at 10, that of the ICMP header and the payload at 22.
pub open spec fn is_icmpv4(
    packet: Seq<u8>,
    source: u32,
    destination: u32,
    ttl: u8,
    dont_fragment: bool,
    icmp: Icmpv4Type,
    payload: Seq<u8>,
) -> bool {
    &&& packet.len() == 28 + payload.len()
    &&& packet[0] == 0x45
    &&& packet[1] == 0
    &&& number_at(packet, 2, 4) == packet.len()
    &&& number_at(packet, 4, 6) == 0
    &&& packet[6] == (if dont_fragment {
        0x40u8
    } else {
        0
    })
    &&& packet[7] == 0
    &&& packet[8] == ttl
    &&& packet[9] == 1
    &&& checks(word_sum(packet.take(20)), number_at(packet, 10, 12))
    &&& number_at(packet, 12, 16) == source
    &&& number_at(packet, 16, 20) == destination
    &&& packet[20] == 3
    &&& packet[21] == icmp.code()
    &&& checks(word_sum(packet.skip(20)), number_at(packet, 22, 24))
    &&& number_at(packet, 24, 28) == icmp.rest()
    &&& packet.skip(28) == payload
}

/// Whether a packet consists of an IPv6 header, an ICMPv6 header and a payload. The checksum is at 42.
/// It is that of the addresses, the number of the protocol, the length of the ICMPv6 header and the
/// payload, and these two.
pub open spec fn is_icmpv6(
    packet: Seq<u8>,
    source: u128,
    destination: u128,
    hop_limit: u8,
    icmp: Icmpv6Type,
    payload: Seq<u8>,
) -> bool {
    &&& packet.len() == 48 + payload.len()
    &&& packet[0] == 0x60
    &&& number_at(packet, 1, 4) == 0
    &&& number_at(packet, 4, 6) == 8 + payload.len()
    &&& packet[6] == 58
    &&& packet[7] == hop_limit
    &&& number_at(packet, 8, 24) == source
    &&& number_at(packet, 24, 40) == destination
    &&& packet[40] == icmp.number()
    &&& packet[41] == icmp.code()
    &&& checks(word_sum(packet.skip(8)) + 58 + 8 + payload.len(), number_at(packet, 42, 44))
    &&& number_at(packet, 44, 48) == icmp.rest()
    &&& packet.skip(48) == payload
}

/// Builds a packet with `etherparse::PacketBuilder`: an IPv4 header, an ICMPv4 header and a payload.
/// The bytes are those that `is_icmpv4` tells. It fails exactly if the packet does not fit in the
/// length that an IPv4 header can tell; how the error reads is not stated.
#[verifier::external_body]
fn build_icmpv4(
    source: u32,
    destination: u32,
    time_to_live: u8,
    dont_fragment: bool,
    icmp: Icmpv4Type,
    payload: &[u8],
) -> (r: Result<Vec<u8>, Vec<String>>)
    ensures
        r is Ok <==> payload@.len() <= 65507,
        r is Ok ==> is_icmpv4(
            r->Ok_0@,
            source,
            destination,
            time_to_live,
            dont_fragment,
            icmp,
            payload@,
        ),
{
    let (source, destination) = (source.to_be_bytes(), destination.to_be_bytes());
    let header = Ipv4Header { dont_fragment, time_to_live, source, destination, ..Default::default() };
    let reason = match icmp {
        Icmpv4Type::NetworkUnknown => DestUnreachableHeader::NetworkUnknown,
        Icmpv4Type::Host => DestUnreachableHeader::Host,
        Icmpv4Type::FragmentationNeeded { next_hop_mtu } => DestUnreachableHeader::FragmentationNeeded {
            next_hop_mtu,
        },
    };
    let mut packet = Vec::new();
    let builder = PacketBuilder::ip(IpHeaders::Ipv4(header, Default::default()));
    let icmp = etherparse::Icmpv4Type::DestinationUnreachable(reason);
    let built = builder.icmpv4(icmp).write(&mut packet, payload).map(|_| packet);
    built.map_err(|e| anyhow::Error::new(e).chain().map(|e| e.to_string()).collect())
}

/// Builds a packet with `etherparse::PacketBuilder`: an IPv6 header, an ICMPv6 header and a payload.
/// The bytes are those that `is_icmpv6` tells. It fails exactly if the packet does not fit in the
/// length that an IPv6 header can tell; how the error reads is not stated.
#[verifier::external_body]
fn build_icmpv6(
    source: u128,
    destination: u128,
    hop_limit: u8,
    icmp: Icmpv6Type,
    payload: &[u8],
) -> (r: Result<Vec<u8>, Vec<String>>)
    ensures
        r is Ok <==> payload@.len() <= 65527,
        r is Ok ==> is_icmpv6(r->Ok_0@, source, destination, hop_limit, icmp, payload@),
{
    let icmp = match icmp {
        Icmpv6Type::NoRoute => {
            etherparse::Icmpv6Type::DestinationUnreachable(DestUnreachableCode::NoRoute)
        },
        Icmpv6Type::Address => {
            etherparse::Icmpv6Type::DestinationUnreachable(DestUnreachableCode::Address)
        },
        Icmpv6Type::PacketTooBig { mtu } => etherparse::Icmpv6Type::PacketTooBig { mtu },
    };
    let mut packet = Vec::new();
    let builder = PacketBuilder::ipv6(source.to_be_bytes(), destination.to_be_bytes(), hop_limit);
    let built = builder.icmpv6(icmp).write(&mut packet, payload).map(|_| packet);
    built.map_err(|e| anyhow::Error::new(e).chain().map(|e| e.to_string()).collect())
}

/// The message to send, for either version of the protocol.
#[derive(Clone, Copy, Debug, PartialEq, Eq, Structural)]
pub struct IcmpType {
    pub v4: Icmpv4Type,
    pub v6: Icmpv6Type,
}

impl IcmpType {
    /// The message that a packet does not fit in the given number of bytes.
    pub open spec fn too_big(mtu: u16) -> IcmpType {
        IcmpType {
            v4: Icmpv4Type::FragmentationNeeded { next_hop_mtu: mtu },
            v6: Icmpv6Type::PacketTooBig { mtu: wide(mtu) },
        }
    }

    /// There is no route to the network.
    pub fn unreachable_net() -> (r: IcmpType)
        ensures
            r.v4 == Icmpv4Type::NetworkUnknown,
            r.v6 == Icmpv6Type::NoRoute,
    {
        IcmpType { v4: Icmpv4Type::NetworkUnknown, v6: Icmpv6Type::NoRoute }
    }

    /// The host cannot be reached.
    pub fn unreachable_host() -> (r: IcmpType)
        ensures
            r.v4 == Icmpv4Type::Host,
            r.v6 == Icmpv6Type::Address,
    {
        IcmpType { v4: Icmpv4Type::Host, v6: Icmpv6Type::Address }
    }

    /// The packet does not fit in the given number of bytes.
    pub fn packet_too_big(mtu: u16) -> (r: IcmpType)
        ensures
            r == IcmpType::too_big(mtu),
            r.v4 == (Icmpv4Type::FragmentationNeeded { next_hop_mtu: mtu }),
            r.v6 is PacketTooBig,
            r.v6->mtu == mtu,
    {
        IcmpType {
            v4: Icmpv4Type::FragmentationNeeded { next_hop_mtu: mtu },
            v6: Icmpv6Type::PacketTooBig { mtu: widened(mtu) },
        }
    }
}

/// A number, in a wider type.
pub open spec fn wide(n: u16) -> u32 {
    n as u32
}

fn widened(n: u16) -> (r: u32)
    ensures
        r == wide(n),
{
    n as u32
}

/// How many bytes of a packet the answer to it quotes at most.
pub const QUOTED: usize = 64;

/// How many hops an answer travels at most.
pub const HOP_LIMIT: u8 = 64;

/// The part of a packet that the answer to it quotes.
pub open spec fn quoted(packet: Seq<u8>) -> Seq<u8> {
    packet.take(if packet.len() < QUOTED {
        packet.len() as int
    } else {
        QUOTED as int
    })
}

/// What was appended to bytes.
pub open spec fn appended(before: Seq<u8>, after: Seq<u8>) -> Seq<u8> {
    after.skip(before.len() as int)
}

/// Answers packets on behalf of the local addresses.
#[derive(Clone, Copy, Debug, PartialEq, Eq, PartialOrd, Ord, Hash, Structural)]
pub struct IcmpGateway {
    pub own_ipv4: Option<u32>,
    pub own_ipv6: Option<u128>,
}

impl Default for IcmpGateway {
    /// A gateway that answers nothing.
    fn default() -> (r: IcmpGateway)
        ensures
            r.own_ipv4 is None,
            r.own_ipv6 is None,
    {
        IcmpGateway { own_ipv4: None, own_ipv6: None }
    }
}

impl IcmpGateway {
    /// Whether there is a local address of the version of a packet.
    pub open spec fn can_answer(self, addresses: InternetSlice) -> bool {
        match addresses {
            InternetSlice::Ipv4 { .. } => self.own_ipv4 is Some,
            InternetSlice::Ipv6 { .. } => self.own_ipv6 is Some,
        }
    }

    /// The text that shows a gateway.
    pub open spec fn text(self) -> Seq<char> {
        "IcmpGateway { own_ipv4: "@ + (match self.own_ipv4 {
            Some(ip) => "Some("@ + net::v4_text(ip) + ")"@,
            None => "None"@,
        }) + ", own_ipv6: "@ + (match self.own_ipv6 {
            Some(ip) => "Some("@ + net::v6_text(ip) + ")"@,
            None => "None"@,
        }) + " }"@
    }

    /// Shows a gateway.
    pub fn show(&self) -> (r: String)
        ensures
            r@ == self.text(),
    {
        let own_ipv4 = match self.own_ipv4 {
            Some(ip) => {
                let mut shown = "Some(".to_owned();
                shown.append(net::show_ipv4(ip).as_str());
                shown.append(")");
                shown
            },
            None => "None".to_owned(),
        };
        let own_ipv6 = match self.own_ipv6 {
            Some(ip) => {
                let mut shown = "Some(".to_owned();
                shown.append(net::show_ipv6(ip).as_str());
                shown.append(")");
                shown
            },
            None => "None".to_owned(),
        };
        let mut shown = "IcmpGateway { own_ipv4: ".to_owned();
        shown.append(own_ipv4.as_str());
        shown.append(", own_ipv6: ");
        shown.append(own_ipv6.as_str());
        shown.append(" }");
        shown
    }

    /// Whether a packet is the answer to another one, from the local address to the source of the
    /// other.
    pub open spec fn is_reply(
        self,
        packet: Seq<u8>,
        addresses: InternetSlice,
        original: Seq<u8>,
        icmp_type: IcmpType,
    ) -> bool {
        match addresses {
            InternetSlice::Ipv4 { source, .. } => is_icmpv4(
                packet,
                self.own_ipv4->0,
                source,
                HOP_LIMIT,
                false,
                icmp_type.v4,
                quoted(original),
            ),
            InternetSlice::Ipv6 { source, .. } => is_icmpv6(
                packet,
                self.own_ipv6->0,
                source,
                HOP_LIMIT,
                icmp_type.v6,
                quoted(original),
            ),
        }
    }

    /// What `generate_reply` does: it gives the address to send the answer to, and appends the answer
    /// to the buffer; or it tells why there is none, and leaves the buffer as it is.
    pub open spec fn generates(
        self,
        before: Seq<u8>,
        original: Seq<u8>,
        icmp_type: IcmpType,
        r: Result<IpAddr, PacketError>,
        after: Seq<u8>,
    ) -> bool {
        if original.len() == 0 {
            r == Err::<IpAddr, PacketError>(PacketError::Empty) && after == before
        } else {
            match addresses_of(original) {
                Ok(Some(addresses)) => if self.can_answer(addresses) {
                    let reply = appended(before, after);
                    &&& r == Ok::<IpAddr, PacketError>(addresses.source())
                    &&& after == before + reply
                    &&& self.is_reply(reply, addresses, original, icmp_type)
                    &&& goes_back(reply, original)
                } else {
                    &&& r is Err
                    &&& r->Err_0 is NoAddress
                    &&& slice_text(original) == Some(r->Err_0->NoAddress_0@)
                    &&& r->Err_0->NoAddress_1 == self
                    &&& after == before
                },
                _ => r is Err && has_no_addresses(original, r->Err_0) && after == before,
            }
        }
    }

    /// A gateway with one address.
    pub fn from_addr(addr: IpAddr) -> (r: IcmpGateway)
        ensures
            r.own_ipv4 == (match addr {
                IpAddr::V4(ip) => Some(ip),
                IpAddr::V6(_) => None,
            }),
            r.own_ipv6 == (match addr {
                IpAddr::V4(_) => None,
                IpAddr::V6(ip) => Some(ip),
            }),
    {
        let mut gateway: IcmpGateway = Default::default();
        match addr {
            IpAddr::V4(ip) => {
                gateway.own_ipv4 = Some(ip);
            },
            IpAddr::V6(ip) => {
                gateway.own_ipv6 = Some(ip);
            },
        }
        gateway
    }

    /// Appends to `buffer` the ICMP packet that answers `original_packet`, of which the addresses
    /// are known. Gives the address to send it to, that is, the source of `original_packet`; none if
    /// there is no local address of its version.
    pub fn reply_to(
        &self,
        buffer: &mut Vec<u8>,
        original_packet: &[u8],
        addresses: InternetSlice,
        icmp_type: IcmpType,
    ) -> (r: Result<Option<IpAddr>, PacketError>)
        ensures
            self.can_answer(addresses) ==> {
                let reply = appended(old(buffer)@, final(buffer)@);
                &&& r == Ok::<Option<IpAddr>, PacketError>(Some(addresses.source()))
                &&& final(buffer)@ == old(buffer)@ + reply
                &&& self.is_reply(reply, addresses, original_packet@, icmp_type)
            },
            !self.can_answer(addresses) ==> {
                &&& r == Ok::<Option<IpAddr>, PacketError>(None)
                &&& final(buffer)@ == old(buffer)@
            },
    {
        let len: usize = if original_packet.len() < QUOTED {
            original_packet.len()
        } else {
            QUOTED
        };
        let payload = vstd::slice::slice_subrange(original_packet, 0, len);
        assert(payload@ == quoted(original_packet@));
        match (addresses, self.own_ipv4, self.own_ipv6) {
            (InternetSlice::Ipv4 { source, .. }, Some(gateway), _) => {
                // An answer may be fragmented, or it could itself be too big and cause another one.
                match build_icmpv4(gateway, source, HOP_LIMIT, false, icmp_type.v4, payload) {
                    Ok(mut packet) => {
                        let ghost reply = packet@;
                        buffer.append(&mut packet);
                        assert(appended(old(buffer)@, buffer@) == reply);
                        Ok(Some(IpAddr::V4(source)))
                    },
                    Err(causes) => Err(PacketError::BuildIcmpv4(causes)),
                }
            },
            (InternetSlice::Ipv6 { source, .. }, _, Some(gateway)) => {
                match build_icmpv6(gateway, source, HOP_LIMIT, icmp_type.v6, payload) {
                    Ok(mut packet) => {
                        let ghost reply = packet@;
                        buffer.append(&mut packet);
                        assert(appended(old(buffer)@, buffer@) == reply);
                        Ok(Some(IpAddr::V6(source)))
                    },
                    Err(causes) => Err(PacketError::BuildIcmpv6(causes)),
                }
            },
            _ => Ok(None),
        }
    }

    /// Appends to `buffer` the ICMP packet that answers `original_packet`. Gives the address to send
    /// it to, that is, the source of `original_packet`. On failure, `buffer` stays as it is.
    pub fn generate_reply(
        &self,
        buffer: &mut Vec<u8>,
        original_packet: &[u8],
        icmp_type: IcmpType,
    ) -> (r: Result<IpAddr, PacketError>)
        ensures
            self.generates(old(buffer)@, original_packet@, icmp_type, r, final(buffer)@),
            r is Err ==> final(buffer)@ == old(buffer)@,
            r is Ok ==> final(buffer)@.len() > old(buffer)@.len() && old(buffer)@.is_prefix_of(
                final(buffer)@,
            ),
    {
        if original_packet.len() == 0 {
            return Err(PacketError::Empty);
        }
        match inet_slice(original_packet) {
            Ok(addresses) => {
                match self.reply_to(buffer, original_packet, addresses, icmp_type) {
                    Ok(Some(to)) => {
                        proof {
                            let reply = appended(old(buffer)@, buffer@);
                            replies_go_back(*self, reply, addresses, original_packet@, icmp_type);
                        }
                        Ok(to)
                    },
                    Ok(None) => {
                        let shown = show_slice(original_packet).unwrap();
                        Err(PacketError::NoAddress(shown, *self))
                    },
                    Err(error) => Err(error),
                }
            },
            Err(error) => Err(error),
        }
    }
}

/// Whether a packet is of the version of another one, and is sent to the address that the other one
/// comes from.
pub open spec fn goes_back(reply: Seq<u8>, original: Seq<u8>) -> bool {
    &&& reply[0] as int / 16 == original[0] as int / 16
    &&& if original[0] as int / 16 == 4 {
        reply.subrange(16, 20) == original.subrange(12, 16)
    } else {
        reply.subrange(24, 40) == original.subrange(8, 24)
    }
}

/// The answer to a packet is sent to where the packet comes from: the bytes of its destination are
/// those of the source of the packet.
pub proof fn replies_go_back(
    gateway: IcmpGateway,
    reply: Seq<u8>,
    addresses: InternetSlice,
    original: Seq<u8>,
    icmp_type: IcmpType,
)
    requires
        addresses.is_header_of(original),
        gateway.is_reply(reply, addresses, original, icmp_type),
    ensures
        goes_back(reply, original),
{
    match addresses {
        InternetSlice::Ipv4 { .. } => {
            net::be_value_is_injective(reply.subrange(16, 20), original.subrange(12, 16));
        },
        InternetSlice::Ipv6 { .. } => {
            net::be_value_is_injective(reply.subrange(24, 40), original.subrange(8, 24));
        },
    }
}

/// What the messages say, by the types and the codes of ICMPv4 and ICMPv6, and what the last four bytes
/// of their headers hold.
pub proof fn messages_have_their_numbers(v4: Icmpv4Type, v6: Icmpv6Type)
    ensures
        v4 is NetworkUnknown <==> v4.code() == 6,
        v4 is Host <==> v4.code() == 1,
        v4 is FragmentationNeeded <==> v4.code() == 4,
        v4 is FragmentationNeeded ==> v4.rest() == v4->next_hop_mtu,
        !(v4 is FragmentationNeeded) ==> v4.rest() == 0,
        v6 is NoRoute <==> v6.number() == 1 && v6.code() == 0,
        v6 is Address <==> v6.number() == 1 && v6.code() == 3,
        v6 is PacketTooBig <==> v6.number() == 2 && v6.code() == 0,
        v6 is PacketTooBig ==> v6.rest() == v6->mtu,
        !(v6 is PacketTooBig) ==> v6.rest() == 0,
{
}

/// That a packet is too big is told with the size to keep to, for either version of the protocol.
pub proof fn the_size_is_told_for_both_versions(mtu: u16)
    ensures
        IcmpType::too_big(mtu).v4 is FragmentationNeeded,
        IcmpType::too_big(mtu).v4->next_hop_mtu == mtu,
        IcmpType::too_big(mtu).v6 is PacketTooBig,
        IcmpType::too_big(mtu).v6->mtu == mtu,
{
}

/// An answer quotes a packet whole if it has no more than 64 bytes, and else its first 64 bytes.
pub proof fn answers_quote_the_first_bytes(packet: Seq<u8>)
    ensures
        packet.len() <= 64 ==> quoted(packet) == packet,
        packet.len() > 64 ==> quoted(packet) == packet.take(64),
{
    if packet.len() <= 64 {
        assert(quoted(packet) == packet);
    }
}

/// What `generate_reply` gives, from the packet and the local addresses alone: an empty packet and one
/// whose addresses are not found are refused, and so is one of a version of which there is no local
/// address. Any other packet is answered, to its source and from the local address, with the message
/// for its version and the first bytes of the packet; at most 64 hops away.
pub proof fn every_packet_is_answered_or_refused(
    gateway: IcmpGateway,
    before: Seq<u8>,
    original: Seq<u8>,
    icmp_type: IcmpType,
    r: Result<IpAddr, PacketError>,
    after: Seq<u8>,
)
    requires
        gateway.generates(before, original, icmp_type, r, after),
    ensures
        r is Err ==> after == before,
        original.len() == 0 ==> r is Err && r->Err_0 is Empty,
        original.len() > 0 && addresses_of(original) is Err ==> r is Err && r->Err_0 is Parse
            && text::texts(r->Err_0->Parse_0@) == addresses_of(original)->Err_0,
        original.len() > 0 && addresses_of(original) is Ok && addresses_of(original)->Ok_0 is None
            ==> r is Err && r->Err_0 is NoNetwork,
        original.len() > 0 && addresses_of(original) is Ok && addresses_of(original)->Ok_0 is Some
            ==> match addresses_of(original)->Ok_0->0 {
            InternetSlice::Ipv4 { source, .. } => if gateway.own_ipv4 is Some {
                let reply = after.skip(length(before));
                &&& r == Ok::<IpAddr, PacketError>(IpAddr::V4(source))
                &&& after == before + reply
                &&& reply[0] == 0x45 && reply[8] == 64 && reply[9] == 1 && reply[20] == 3
                &&& reply[6] == 0 && reply[7] == 0
                &&& reply[21] == icmp_type.v4.code()
                &&& net::be_value(reply.subrange(12, 16)) == gateway.own_ipv4->0
                &&& net::be_value(reply.subrange(16, 20)) == source
                &&& net::be_value(reply.subrange(24, 28)) == icmp_type.v4.rest()
                &&& original.len() <= 64 ==> reply.skip(28) == original
                &&& original.len() > 64 ==> reply.skip(28) == original.take(64)
            } else {
                r is Err && r->Err_0 is NoAddress && r->Err_0->NoAddress_1 == gateway && Some(
                    r->Err_0->NoAddress_0@,
                ) == slice_text(original)
            },
            InternetSlice::Ipv6 { source, .. } => if gateway.own_ipv6 is Some {
                let reply = after.skip(length(before));
                &&& r == Ok::<IpAddr, PacketError>(IpAddr::V6(source))
                &&& after == before + reply
                &&& reply[0] == 0x60 && reply[6] == 58 && reply[7] == 64
                &&& reply[40] == icmp_type.v6.number() && reply[41] == icmp_type.v6.code()
                &&& net::be_value(reply.subrange(8, 24)) == gateway.own_ipv6->0
                &&& net::be_value(reply.subrange(24, 40)) == source
                &&& net::be_value(reply.subrange(44, 48)) == icmp_type.v6.rest()
                &&& original.len() <= 64 ==> reply.skip(48) == original
                &&& original.len() > 64 ==> reply.skip(48) == original.take(64)
            } else {
                r is Err && r->Err_0 is NoAddress && r->Err_0->NoAddress_1 == gateway && Some(
                    r->Err_0->NoAddress_0@,
                ) == slice_text(original)
            },
        },
{
    answers_quote_the_first_bytes(original);
}

/// The length of a sequence, as an integer.
pub open spec fn length(bytes: Seq<u8>) -> int {
    bytes.len() as int
}

/// Bytes that hold the same numbers are the same.
proof fn same_numbers(a: Seq<u8>, b: Seq<u8>, from: int, to: int)
    requires
        0 <= from <= to <= a.len(),
        to <= b.len(),
        number_at(a, from, to) == number_at(b, from, to),
    ensures
        forall|i: int| from <= i < to ==> a[i] == b[i],
{
    net::be_value_is_injective(a.subrange(from, to), b.subrange(from, to));
    assert forall|i: int| from <= i < to implies a[i] == b[i] by {
        assert(a.subrange(from, to)[i - from] == a[i]);
        assert(b.subrange(from, to)[i - from] == b[i]);
    }
}

/// A number of two bytes is their word.
proof fn word_at(packet: Seq<u8>, from: int)
    requires
        0 <= from,
        from + 2 <= packet.len(),
    ensures
        number_at(packet, from, from + 2) == 0x100 * packet[from] as nat + packet[from + 1] as nat,
{
    let bytes = packet.subrange(from, from + 2);
    reveal_with_fuel(net::be_value, 3);
    assert(bytes.len() == 2);
}

/// The sum of the words from `from` on begins with the word there.
proof fn word_sum_from(packet: Seq<u8>, from: int)
    requires
        0 <= from,
        from + 2 <= packet.len(),
    ensures
        word_sum(packet.skip(from)) == 0x100 * packet[from] as nat + packet[from + 1] as nat
            + word_sum(packet.skip(from + 2)),
{
    assert(packet.skip(from).skip(2) == packet.skip(from + 2));
}

/// Bytes that differ at most in a checksum do not differ.
proof fn checksum_is_determined(a: Seq<u8>, b: Seq<u8>, at: int, rest: nat)
    requires
        0 <= at,
        at % 2 == 0,
        at + 2 <= a.len(),
        a.len() == b.len(),
        forall|i: int| 0 <= i < a.len() && i != at && i != at + 1 ==> a[i] == b[i],
        checks(word_sum(a) + rest, number_at(a, at, at + 2)),
        checks(word_sum(b) + rest, number_at(b, at, at + 2)),
    ensures
        a == b,
{
    word_at(a, at);
    word_at(b, at);
    word_sums_differ(a, b, at, 0);
    assert(a.skip(0) == a);
    assert(b.skip(0) == b);
    let x = number_at(a, at, at + 2);
    let y = number_at(b, at, at + 2);
    assert(x == y) by {
        assert(word_sum(a) - word_sum(b) == x - y);
        let p = (word_sum(a) + rest) / 0xffff;
        let q = (word_sum(b) + rest) / 0xffff;
        assert(x - y == 0xffff * (p - q));
    }
    same_numbers(a, b, at, at + 2);
    assert(a == b);
}

/// The sums of words of bytes that differ at most in one word differ as this word does.
proof fn word_sums_differ(a: Seq<u8>, b: Seq<u8>, at: int, from: int)
    requires
        0 <= from <= at,
        from % 2 == 0,
        at % 2 == 0,
        at + 2 <= a.len(),
        a.len() == b.len(),
        forall|i: int| 0 <= i < a.len() && i != at && i != at + 1 ==> a[i] == b[i],
    ensures
        word_sum(a.skip(from)) - word_sum(b.skip(from)) == (0x100 * a[at] + a[at + 1]) - (0x100
            * b[at] + b[at + 1]),
    decreases at - from,
{
    word_sum_from(a, from);
    word_sum_from(b, from);
    if from == at {
        assert(a.skip(at + 2) == b.skip(at + 2));
    } else {
        word_sums_differ(a, b, at, from + 2);
    }
}

/// There is only one packet that is the answer to another one: its length and each of its bytes,
/// the checksums included, are determined.
pub proof fn replies_are_determined(
    gateway: IcmpGateway,
    reply: Seq<u8>,
    other: Seq<u8>,
    addresses: InternetSlice,
    original: Seq<u8>,
    icmp_type: IcmpType,
)
    requires
        gateway.is_reply(reply, addresses, original, icmp_type),
        gateway.is_reply(other, addresses, original, icmp_type),
    ensures
        reply == other,
{
    let payload = quoted(original);
    match addresses {
        InternetSlice::Ipv4 { .. } => {
            same_numbers(reply, other, 2, 4);
            same_numbers(reply, other, 4, 6);
            same_numbers(reply, other, 12, 16);
            same_numbers(reply, other, 16, 20);
            same_numbers(reply, other, 24, 28);
            assert forall|i: int| 28 <= i < reply.len() implies reply[i] == other[i] by {
                assert(reply.skip(28)[i - 28] == other.skip(28)[i - 28]);
            }
            assert(reply.take(20).subrange(10, 12) == reply.subrange(10, 12));
            assert(other.take(20).subrange(10, 12) == other.subrange(10, 12));
            checksum_is_determined(reply.take(20), other.take(20), 10, 0);
            assert(reply.skip(20).subrange(2, 4) == reply.subrange(22, 24));
            assert(other.skip(20).subrange(2, 4) == other.subrange(22, 24));
            checksum_is_determined(reply.skip(20), other.skip(20), 2, 0);
            assert(reply == reply.take(20) + reply.skip(20));
            assert(other == other.take(20) + other.skip(20));
        },
        InternetSlice::Ipv6 { .. } => {
            same_numbers(reply, other, 1, 4);
            same_numbers(reply, other, 4, 6);
            same_numbers(reply, other, 8, 24);
            same_numbers(reply, other, 24, 40);
            same_numbers(reply, other, 44, 48);
            assert forall|i: int| 48 <= i < reply.len() implies reply[i] == other[i] by {
                assert(reply.skip(48)[i - 48] == other.skip(48)[i - 48]);
            }
            assert(reply.skip(8).subrange(34, 36) == reply.subrange(42, 44));
            assert(other.skip(8).subrange(34, 36) == other.subrange(42, 44));
            checksum_is_determined(reply.skip(8), other.skip(8), 34, 66 + payload.len());
            assert(reply == reply.take(8) + reply.skip(8));
            assert(other == other.take(8) + other.skip(8));
            assert(reply.take(8) == other.take(8));
        },
    }
}

/// The text that shows the headers of a packet; none if they are malformed.
pub uninterp spec fn headers_text(packet: Seq<u8>) -> Option<Seq<char>>;

/// The text that shows the bytes of a packet in hexadecimal.
pub uninterp spec fn hex_text(packet: Seq<u8>) -> Seq<char>;

/// Formats with `Debug` what `etherparse::PacketHeaders::from_ip_slice` gives, if it gives anything.
/// The text depends on the packet alone.
#[verifier::external_body]
fn show_headers(packet: &[u8]) -> (r: Option<String>)
    ensures
        match r {
            Some(text) => headers_text(packet@) == Some(text@),
            None => headers_text(packet@) is None,
        },
{
    etherparse::PacketHeaders::from_ip_slice(packet).ok().map(|headers| format!("{:?}", headers))
}

/// Formats with `Debug` what `pretty_hex::PrettyHex::hex_dump` gives. The text depends on the packet
/// alone.
#[verifier::external_body]
fn show_bytes(packet: &[u8]) -> (r: String)
    ensures
        r@ == hex_text(packet@),
{
    format!("{:?}", packet.hex_dump())
}

/// The text that shows a packet: its headers, unless they are malformed, and its bytes.
pub open spec fn packet_text(headers: Option<Seq<char>>, bytes: Seq<char>) -> Seq<char> {
    match headers {
        Some(headers) => "TxPacket { sliced: "@ + headers + ", payload: "@ + bytes + " }"@,
        None => "TxPacket { payload: "@ + bytes + " }"@,
    }
}

/// Puts together the text that shows a packet.
pub fn join_packet_text(headers: Option<&str>, bytes: &str) -> (r: String)
    ensures
        r@ == packet_text(
            match headers {
                Some(headers) => Some(headers@),
                None => None,
            },
            bytes@,
        ),
        headers is Some ==> r@ == "TxPacket { sliced: "@ + headers->0@ + ", payload: "@ + bytes@
            + " }"@,
        headers is None ==> r@ == "TxPacket { payload: "@ + bytes@ + " }"@,
{
    let mut text = match headers {
        Some(headers) => {
            let mut text = "TxPacket { sliced: ".to_owned();
            text.append(headers);
            text.append(", payload: ");
            text
        },
        None => "TxPacket { payload: ".to_owned(),
    };
    text.append(bytes);
    text.append(" }");
    text
}

/// Shows a packet.
pub fn format_packet(packet: &[u8]) -> (r: String)
    ensures
        r@ == packet_text(headers_text(packet@), hex_text(packet@)),
{
    let bytes = show_bytes(packet);
    match show_headers(packet) {
        Some(headers) => join_packet_text(Some(headers.as_str()), bytes.as_str()),
        None => join_packet_text(None, bytes.as_str()),
    }
}

/// A packet that was received from the TUN device.
pub struct RxPacket {
    pub data: PooledSlice,
}

impl RxPacket {
    pub fn new(data: PooledSlice) -> (r: RxPacket)
        ensures
            r.data == data,
    {
        RxPacket { data }
    }

    /// The bytes of the packet.
    pub fn as_slice(&self) -> (r: &[u8])
        requires
            self.data.wf(),
        ensures
            r@ == self.data.owned().filled(),
    {
        self.data.as_slice()
    }
}

/// A packet to be sent to the TUN device.
pub struct TxPacket {
    pub data: Vec<u8>,
}

impl TxPacket {
    pub fn new(data: Vec<u8>) -> (r: TxPacket)
        ensures
            r.data == data,
    {
        TxPacket { data }
    }

    /// The bytes of the packet.
    pub fn as_slice(&self) -> (r: &[u8])
        ensures
            r@ == self.data@,
    {
        self.data.as_slice()
    }
}

} // verus!
