//! Fixed-layout protocol headers, read from raw bytes through pnet's packet
//! views. Each header is described here as a function of the bytes.

use pnet::packet::arp::ArpPacket;
use pnet::packet::ethernet::EthernetPacket;
use pnet::packet::icmp::echo_reply::EchoReplyPacket;
use pnet::packet::icmp::echo_request::EchoRequestPacket;
use pnet::packet::icmp::IcmpPacket;
use pnet::packet::ipv4::Ipv4Packet;
use pnet::packet::tcp::TcpPacket;
use pnet::packet::udp::UdpPacket;
use vstd::prelude::*;

verus! {

/// Size in bytes of an Ethernet header.
pub const ETHERNET_HEADER_LEN: usize = 14;

/// Size in bytes of an ARP packet for IPv4 over Ethernet.
pub const ARP_PACKET_LEN: usize = 28;

/// Size in bytes of an IPv4 header without options.
pub const IPV4_HEADER_LEN: usize = 20;

/// Size in bytes of a TCP header without options.
pub const TCP_HEADER_LEN: usize = 20;

/// Size in bytes of a UDP header.
pub const UDP_HEADER_LEN: usize = 8;

/// Size in bytes of the ICMP header common to all messages.
pub const ICMP_HEADER_LEN: usize = 4;

/// Size in bytes of an ICMP echo header (common header, identifier, sequence).
pub const ICMP_ECHO_HEADER_LEN: usize = 8;

/// A 48-bit link-layer address, octets in wire order.
#[derive(Clone, Copy, Debug, PartialEq, Eq)]
pub struct MacAddress(pub u8, pub u8, pub u8, pub u8, pub u8, pub u8);

/// An IPv4 address, octets in wire order.
#[derive(Clone, Copy, Debug, PartialEq, Eq)]
pub struct Ipv4Address(pub u8, pub u8, pub u8, pub u8);

/// The link-layer address stored in `b[i..i + 6]`.
pub open spec fn mac_at(b: Seq<u8>, i: int) -> MacAddress {
    MacAddress(b[i], b[i + 1], b[i + 2], b[i + 3], b[i + 4], b[i + 5])
}

/// The IPv4 address stored in `b[i..i + 4]`.
pub open spec fn ipv4_at(b: Seq<u8>, i: int) -> Ipv4Address {
    Ipv4Address(b[i], b[i + 1], b[i + 2], b[i + 3])
}

/// The big-endian 16-bit value stored at `b[i]`, `b[i + 1]`.
pub open spec fn be16(b: Seq<u8>, i: int) -> u16 {
    (b[i] as int * 256 + b[i + 1] as int) as u16
}

/// Fields of an Ethernet header.
#[derive(Clone, Copy, Debug, PartialEq, Eq)]
pub struct EthernetHeader {
    pub destination: MacAddress,
    pub source: MacAddress,
    pub ethertype: u16,
}

/// The Ethernet header held in the first bytes of `b`.
pub open spec fn ethernet_header_of(b: Seq<u8>) -> EthernetHeader {
    EthernetHeader { destination: mac_at(b, 0), source: mac_at(b, 6), ethertype: be16(b, 12) }
}

/// Relies on pnet's `EthernetPacket::new` (a view exists exactly when the
/// buffer holds at least 14 bytes) and on its `get_destination`, `get_source`
/// and `get_ethertype` accessors (offsets 0, 6 and 12, the last big-endian).
#[verifier::external_body]
pub(crate) fn read_ethernet_header(b: &[u8]) -> (r: Option<EthernetHeader>)
    ensures
        r == (if b@.len() >= ETHERNET_HEADER_LEN {
            Some(ethernet_header_of(b@))
        } else {
            None::<EthernetHeader>
        }),
{
    match EthernetPacket::new(b) {
        Some(p) => {
            let d = p.get_destination();
            let s = p.get_source();
            Some(EthernetHeader {
                destination: MacAddress(d.0, d.1, d.2, d.3, d.4, d.5),
                source: MacAddress(s.0, s.1, s.2, s.3, s.4, s.5),
                ethertype: p.get_ethertype().0,
            })
        },
        None => None,
    }
}

/// Fields of an ARP packet that describe the resolution it carries.
#[derive(Clone, Copy, Debug, PartialEq, Eq)]
pub struct ArpHeader {
    pub operation: u16,
    pub sender_protocol_address: Ipv4Address,
    pub target_protocol_address: Ipv4Address,
}

/// The ARP fields held in the first bytes of `b`.
pub open spec fn arp_header_of(b: Seq<u8>) -> ArpHeader {
    ArpHeader {
        operation: be16(b, 6),
        sender_protocol_address: ipv4_at(b, 14),
        target_protocol_address: ipv4_at(b, 24),
    }
}

/// Relies on pnet's `ArpPacket::new` (a view exists exactly when the buffer
/// holds at least 28 bytes) and on its `get_operation`,
/// `get_sender_proto_addr` and `get_target_proto_addr` accessors (offsets 6,
/// 14 and 24).
#[verifier::external_body]
pub(crate) fn read_arp_header(b: &[u8]) -> (r: Option<ArpHeader>)
    ensures
        r == (if b@.len() >= ARP_PACKET_LEN { Some(arp_header_of(b@)) } else { None::<ArpHeader> }),
{
    match ArpPacket::new(b) {
        Some(p) => {
            let s = p.get_sender_proto_addr().octets();
            let t = p.get_target_proto_addr().octets();
            Some(ArpHeader {
                operation: p.get_operation().0,
                sender_protocol_address: Ipv4Address(s[0], s[1], s[2], s[3]),
                target_protocol_address: Ipv4Address(t[0], t[1], t[2], t[3]),
            })
        },
        None => None,
    }
}

/// Fields of an IPv4 header. `header_length` counts 32-bit words.
#[derive(Clone, Copy, Debug, PartialEq, Eq)]
pub struct Ipv4Header {
    pub header_length: u8,
    pub total_length: u16,
    pub protocol: u8,
    pub source: Ipv4Address,
    pub destination: Ipv4Address,
}

/// The IPv4 header held in the first bytes of `b`.
pub open spec fn ipv4_header_of(b: Seq<u8>) -> Ipv4Header {
    Ipv4Header {
        header_length: b[0] % 16,
        total_length: be16(b, 2),
        protocol: b[9],
        source: ipv4_at(b, 12),
        destination: ipv4_at(b, 16),
    }
}

/// Relies on pnet's `Ipv4Packet::new` (a view exists exactly when the buffer
/// holds at least 20 bytes) and on its `get_header_length` (low nibble of the
/// first byte), `get_total_length`, `get_next_level_protocol`, `get_source`
/// and `get_destination` accessors (offsets 2, 9, 12 and 16).
#[verifier::external_body]
pub(crate) fn read_ipv4_header(b: &[u8]) -> (r: Option<Ipv4Header>)
    ensures
        r == (if b@.len() >= IPV4_HEADER_LEN { Some(ipv4_header_of(b@)) } else { None::<Ipv4Header> }),
{
    match Ipv4Packet::new(b) {
        Some(p) => {
            let s = p.get_source().octets();
            let d = p.get_destination().octets();
            Some(Ipv4Header {
                header_length: p.get_header_length(),
                total_length: p.get_total_length(),
                protocol: p.get_next_level_protocol().0,
                source: Ipv4Address(s[0], s[1], s[2], s[3]),
                destination: Ipv4Address(d[0], d[1], d[2], d[3]),
            })
        },
        None => None,
    }
}

/// Source and destination ports of a TCP header.
#[derive(Clone, Copy, Debug, PartialEq, Eq)]
pub struct TcpPorts {
    pub source_port: u16,
    pub destination_port: u16,
}

/// The TCP ports held in the first bytes of `b`.
pub open spec fn tcp_ports_of(b: Seq<u8>) -> TcpPorts {
    TcpPorts { source_port: be16(b, 0), destination_port: be16(b, 2) }
}

/// Relies on pnet's `TcpPacket::new` (a view exists exactly when the buffer
/// holds at least 20 bytes) and on its `get_source` and `get_destination`
/// accessors (big-endian reads at offsets 0 and 2).
#[verifier::external_body]
pub(crate) fn read_tcp_ports(b: &[u8]) -> (r: Option<TcpPorts>)
    ensures
        r == (if b@.len() >= TCP_HEADER_LEN { Some(tcp_ports_of(b@)) } else { None::<TcpPorts> }),
{
    match TcpPacket::new(b) {
        Some(p) => Some(
            TcpPorts { source_port: p.get_source(), destination_port: p.get_destination() },
        ),
        None => None,
    }
}

/// Type and code of an ICMP message.
#[derive(Clone, Copy, Debug, PartialEq, Eq)]
pub struct IcmpHeader {
    pub icmp_type: u8,
    pub code: u8,
}

/// The ICMP type and code held in the first bytes of `b`.
pub open spec fn icmp_header_of(b: Seq<u8>) -> IcmpHeader {
    IcmpHeader { icmp_type: b[0], code: b[1] }
}

/// Relies on pnet's `IcmpPacket::new` (a view exists exactly when the buffer
/// holds at least 4 bytes) and on its `get_icmp_type` and `get_icmp_code`
/// accessors (offsets 0 and 1).
#[verifier::external_body]
pub(crate) fn read_icmp_header(b: &[u8]) -> (r: Option<IcmpHeader>)
    ensures
        r == (if b@.len() >= ICMP_HEADER_LEN { Some(icmp_header_of(b@)) } else { None::<IcmpHeader> }),
{
    match IcmpPacket::new(b) {
        Some(p) => Some(IcmpHeader { icmp_type: p.get_icmp_type().0, code: p.get_icmp_code().0 }),
        None => None,
    }
}

/// Identifier and sequence number of an ICMP echo message.
#[derive(Clone, Copy, Debug, PartialEq, Eq)]
pub struct EchoHeader {
    pub identifier: u16,
    pub sequence: u16,
}

/// The echo identifier and sequence number held in the first bytes of `b`.
pub open spec fn echo_header_of(b: Seq<u8>) -> EchoHeader {
    EchoHeader { identifier: be16(b, 4), sequence: be16(b, 6) }
}

/// Relies on pnet's `EchoReplyPacket::new` (a view exists exactly when the
/// buffer holds at least 8 bytes) and on its `get_identifier` and
/// `get_sequence_number` accessors (big-endian reads at offsets 4 and 6).
#[verifier::external_body]
pub(crate) fn read_echo_reply(b: &[u8]) -> (r: Option<EchoHeader>)
    ensures
        r == (if b@.len() >= ICMP_ECHO_HEADER_LEN { Some(echo_header_of(b@)) } else { None::<EchoHeader> }),
{
    match EchoReplyPacket::new(b) {
        Some(p) => Some(EchoHeader { identifier: p.get_identifier(), sequence: p.get_sequence_number() }),
        None => None,
    }
}

/// Relies on pnet's `EchoRequestPacket::new` (a view exists exactly when the
/// buffer holds at least 8 bytes) and on its `get_identifier` and
/// `get_sequence_number` accessors (big-endian reads at offsets 4 and 6).
#[verifier::external_body]
pub(crate) fn read_echo_request(b: &[u8]) -> (r: Option<EchoHeader>)
    ensures
        r == (if b@.len() >= ICMP_ECHO_HEADER_LEN { Some(echo_header_of(b@)) } else { None::<EchoHeader> }),
{
    match EchoRequestPacket::new(b) {
        Some(p) => Some(EchoHeader { identifier: p.get_identifier(), sequence: p.get_sequence_number() }),
        None => None,
    }
}

/// Fields of a UDP header.
#[derive(Clone, Copy, Debug, PartialEq, Eq)]
pub struct UdpHeader {
    pub source_port: u16,
    pub destination_port: u16,
    pub length: u16,
}

/// The UDP header held in the first bytes of `b`.
pub open spec fn udp_header_of(b: Seq<u8>) -> UdpHeader {
    UdpHeader { source_port: be16(b, 0), destination_port: be16(b, 2), length: be16(b, 4) }
}

/// Relies on pnet's `UdpPacket::new` (a view exists exactly when the buffer
/// holds at least 8 bytes) and on its `get_source`, `get_destination` and
/// `get_length` accessors (big-endian reads at offsets 0, 2 and 4).
#[verifier::external_body]
pub(crate) fn read_udp_header(b: &[u8]) -> (r: Option<UdpHeader>)
    ensures
        r == (if b@.len() >= UDP_HEADER_LEN { Some(udp_header_of(b@)) } else { None::<UdpHeader> }),
{
    match UdpPacket::new(b) {
        Some(p) => Some(
            UdpHeader {
                source_port: p.get_source(),
                destination_port: p.get_destination(),
                length: p.get_length(),
            },
        ),
        None => None,
    }
}

} // verus!
