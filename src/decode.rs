//! The decoding chain: Ethernet, then ARP or IPv4, then TCP, UDP or ICMP.
//! Each decoder checks its own minimum length before it reads, hands the
//! next decoder the exact suffix after its header, and maps every selector
//! value either to a decoder or to an unclassified outcome.

use crate::outcome::{
    DecodeOutcome, FrameRecord, FrameReport, IcmpMessage, Layer, LinkContext, NetworkContext,
    NetworkReport, Record,
};
use crate::wire::{
    arp_header_of, echo_header_of, ethernet_header_of, icmp_header_of, ipv4_header_of,
    read_arp_header, read_echo_reply, read_echo_request, read_ethernet_header, read_icmp_header,
    read_ipv4_header, read_tcp_ports, read_udp_header, tcp_ports_of, udp_header_of,
    ARP_PACKET_LEN, ETHERNET_HEADER_LEN, ICMP_ECHO_HEADER_LEN, ICMP_HEADER_LEN, IPV4_HEADER_LEN,
    TCP_HEADER_LEN, UDP_HEADER_LEN,
};
use vstd::prelude::*;
use vstd::slice::slice_subrange;

verus! {

/// Ethertype of an IPv4 payload.
pub const ETHERTYPE_IPV4: u16 = 0x0800;

/// Ethertype of an ARP payload.
pub const ETHERTYPE_ARP: u16 = 0x0806;

/// IPv4 protocol number of ICMP.
pub const PROTOCOL_ICMP: u8 = 1;

/// IPv4 protocol number of TCP.
pub const PROTOCOL_TCP: u8 = 6;

/// IPv4 protocol number of UDP.
pub const PROTOCOL_UDP: u8 = 17;

/// ICMP type of an echo reply.
pub const ICMP_ECHO_REPLY: u8 = 0;

/// ICMP type of an echo request.
pub const ICMP_ECHO_REQUEST: u8 = 8;

/// Outcome of decoding `b` as a UDP datagram.
pub open spec fn udp_outcome(b: Seq<u8>) -> DecodeOutcome {
    if b.len() >= UDP_HEADER_LEN {
        DecodeOutcome::Decoded(Record::Udp(udp_header_of(b)))
    } else {
        DecodeOutcome::Malformed(Layer::Udp)
    }
}

/// Outcome of decoding `b` as a TCP segment: its ports, and as its length
/// the number of bytes in `b`.
pub open spec fn tcp_outcome(b: Seq<u8>) -> DecodeOutcome {
    if b.len() >= TCP_HEADER_LEN {
        DecodeOutcome::Decoded(
            Record::Tcp {
                source_port: tcp_ports_of(b).source_port,
                destination_port: tcp_ports_of(b).destination_port,
                length: b.len() as usize,
            },
        )
    } else {
        DecodeOutcome::Malformed(Layer::Tcp)
    }
}

/// Outcome of decoding `b` as an ICMP message. An echo message too short
/// for its identifier and sequence number is malformed.
pub open spec fn icmp_outcome(b: Seq<u8>) -> DecodeOutcome {
    if b.len() < ICMP_HEADER_LEN {
        DecodeOutcome::Malformed(Layer::Icmp)
    } else {
        let h = icmp_header_of(b);
        let e = echo_header_of(b);
        if h.icmp_type == ICMP_ECHO_REPLY || h.icmp_type == ICMP_ECHO_REQUEST {
            if b.len() < ICMP_ECHO_HEADER_LEN {
                DecodeOutcome::Malformed(Layer::Icmp)
            } else if h.icmp_type == ICMP_ECHO_REPLY {
                DecodeOutcome::Decoded(
                    Record::Icmp(
                        IcmpMessage::EchoReply { identifier: e.identifier, sequence: e.sequence },
                    ),
                )
            } else {
                DecodeOutcome::Decoded(
                    Record::Icmp(
                        IcmpMessage::EchoRequest { identifier: e.identifier, sequence: e.sequence },
                    ),
                )
            }
        } else {
            DecodeOutcome::Decoded(
                Record::Icmp(IcmpMessage::Other { icmp_type: h.icmp_type, code: h.code }),
            )
        }
    }
}

/// Outcome of decoding `b` as the payload of an IPv4 packet whose protocol
/// number is `protocol`.
pub open spec fn transport_outcome(protocol: u8, b: Seq<u8>) -> DecodeOutcome {
    if protocol == PROTOCOL_UDP {
        udp_outcome(b)
    } else if protocol == PROTOCOL_TCP {
        tcp_outcome(b)
    } else if protocol == PROTOCOL_ICMP {
        icmp_outcome(b)
    } else {
        DecodeOutcome::Unclassified(Layer::Ipv4, protocol as u16)
    }
}

/// Length in bytes that an IPv4 header declares for itself.
pub open spec fn ipv4_header_bytes(b: Seq<u8>) -> int {
    ipv4_header_of(b).header_length as int * 4
}

/// Whether `b` starts with an IPv4 header that fits in it: at least the
/// minimum size, and a declared length of at least that size and at most
/// the length of `b`.
pub open spec fn ipv4_well_formed(b: Seq<u8>) -> bool {
    &&& b.len() >= IPV4_HEADER_LEN
    &&& IPV4_HEADER_LEN <= ipv4_header_bytes(b) <= b.len()
}

/// Report of decoding `b` as an IPv4 packet: the transport layer gets the
/// bytes after the declared header length.
pub open spec fn ipv4_report(b: Seq<u8>) -> NetworkReport {
    if ipv4_well_formed(b) {
        let hl = ipv4_header_bytes(b);
        NetworkReport {
            network: Some(
                NetworkContext { header: ipv4_header_of(b), payload_len: (b.len() - hl) as usize },
            ),
            outcome: transport_outcome(ipv4_header_of(b).protocol, b.subrange(hl, b.len() as int)),
        }
    } else {
        NetworkReport { network: None, outcome: DecodeOutcome::Malformed(Layer::Ipv4) }
    }
}

/// Outcome of decoding `b` as an ARP packet. Every operation code is
/// reported as it stands.
pub open spec fn arp_outcome(b: Seq<u8>) -> DecodeOutcome {
    if b.len() >= ARP_PACKET_LEN {
        DecodeOutcome::Decoded(Record::Arp(arp_header_of(b)))
    } else {
        DecodeOutcome::Malformed(Layer::Arp)
    }
}

/// The bytes after the Ethernet header of `b`.
pub open spec fn link_payload(b: Seq<u8>) -> Seq<u8> {
    b.subrange(ETHERNET_HEADER_LEN as int, b.len() as int)
}

/// Report of decoding `b` as an Ethernet frame.
pub open spec fn frame_report(b: Seq<u8>) -> FrameReport {
    if b.len() < ETHERNET_HEADER_LEN {
        FrameReport { link: None, network: None, outcome: DecodeOutcome::Malformed(Layer::Frame) }
    } else {
        let h = ethernet_header_of(b);
        let p = link_payload(b);
        let link = Some(LinkContext { header: h, payload_len: p.len() as usize });
        if h.ethertype == ETHERTYPE_IPV4 {
            FrameReport { link, network: ipv4_report(p).network, outcome: ipv4_report(p).outcome }
        } else if h.ethertype == ETHERTYPE_ARP {
            FrameReport { link, network: None, outcome: arp_outcome(p) }
        } else {
            FrameReport {
                link,
                network: None,
                outcome: DecodeOutcome::Unclassified(Layer::Frame, h.ethertype),
            }
        }
    }
}

/// Decodes a UDP datagram.
pub fn decode_udp(b: &[u8]) -> (r: DecodeOutcome)
    ensures
        r == udp_outcome(b@),
{
    match read_udp_header(b) {
        Some(h) => DecodeOutcome::Decoded(Record::Udp(h)),
        None => DecodeOutcome::Malformed(Layer::Udp),
    }
}

/// Decodes a TCP segment.
pub fn decode_tcp(b: &[u8]) -> (r: DecodeOutcome)
    ensures
        r == tcp_outcome(b@),
{
    match read_tcp_ports(b) {
        Some(p) => DecodeOutcome::Decoded(
            Record::Tcp {
                source_port: p.source_port,
                destination_port: p.destination_port,
                length: b.len(),
            },
        ),
        None => DecodeOutcome::Malformed(Layer::Tcp),
    }
}

/// Decodes an ICMP message.
pub fn decode_icmp(b: &[u8]) -> (r: DecodeOutcome)
    ensures
        r == icmp_outcome(b@),
{
    let h = match read_icmp_header(b) {
        Some(h) => h,
        None => return DecodeOutcome::Malformed(Layer::Icmp),
    };
    if h.icmp_type == ICMP_ECHO_REPLY {
        match read_echo_reply(b) {
            Some(e) => DecodeOutcome::Decoded(
                Record::Icmp(IcmpMessage::EchoReply { identifier: e.identifier, sequence: e.sequence }),
            ),
            None => DecodeOutcome::Malformed(Layer::Icmp),
        }
    } else if h.icmp_type == ICMP_ECHO_REQUEST {
        match read_echo_request(b) {
            Some(e) => DecodeOutcome::Decoded(
                Record::Icmp(
                    IcmpMessage::EchoRequest { identifier: e.identifier, sequence: e.sequence },
                ),
            ),
            None => DecodeOutcome::Malformed(Layer::Icmp),
        }
    } else {
        DecodeOutcome::Decoded(Record::Icmp(IcmpMessage::Other { icmp_type: h.icmp_type, code: h.code }))
    }
}

/// Dispatches an IPv4 payload on its protocol number.
pub fn decode_transport(protocol: u8, b: &[u8]) -> (r: DecodeOutcome)
    ensures
        r == transport_outcome(protocol, b@),
{
    if protocol == PROTOCOL_UDP {
        decode_udp(b)
    } else if protocol == PROTOCOL_TCP {
        decode_tcp(b)
    } else if protocol == PROTOCOL_ICMP {
        decode_icmp(b)
    } else {
        DecodeOutcome::Unclassified(Layer::Ipv4, protocol as u16)
    }
}

/// Decodes an IPv4 packet and the transport layer it carries.
pub fn decode_ipv4(b: &[u8]) -> (r: NetworkReport)
    ensures
        r == ipv4_report(b@),
{
    let malformed = NetworkReport { network: None, outcome: DecodeOutcome::Malformed(Layer::Ipv4) };
    let h = match read_ipv4_header(b) {
        Some(h) => h,
        None => return malformed,
    };
    let hl = h.header_length as usize * 4;
    if hl < IPV4_HEADER_LEN || hl > b.len() {
        return malformed;
    }
    let payload = slice_subrange(b, hl, b.len());
    NetworkReport {
        network: Some(NetworkContext { header: h, payload_len: payload.len() }),
        outcome: decode_transport(h.protocol, payload),
    }
}

/// Decodes an ARP packet.
pub fn decode_arp(b: &[u8]) -> (r: DecodeOutcome)
    ensures
        r == arp_outcome(b@),
{
    match read_arp_header(b) {
        Some(h) => DecodeOutcome::Decoded(Record::Arp(h)),
        None => DecodeOutcome::Malformed(Layer::Arp),
    }
}

/// Decodes one captured frame from the interface `interface`.
pub fn decode_frame(interface: String, b: &[u8]) -> (r: FrameRecord)
    ensures
        r.interface == interface,
        r.report == frame_report(b@),
{
    let h = match read_ethernet_header(b) {
        Some(h) => h,
        None => {
            let report = FrameReport {
                link: None,
                network: None,
                outcome: DecodeOutcome::Malformed(Layer::Frame),
            };
            return FrameRecord { interface, report };
        },
    };
    let payload = slice_subrange(b, ETHERNET_HEADER_LEN, b.len());
    let link = Some(LinkContext { header: h, payload_len: payload.len() });
    let report = if h.ethertype == ETHERTYPE_IPV4 {
        let n = decode_ipv4(payload);
        FrameReport { link, network: n.network, outcome: n.outcome }
    } else if h.ethertype == ETHERTYPE_ARP {
        FrameReport { link, network: None, outcome: decode_arp(payload) }
    } else {
        FrameReport {
            link,
            network: None,
            outcome: DecodeOutcome::Unclassified(Layer::Frame, h.ethertype),
        }
    };
    FrameRecord { interface, report }
}

} // verus!
