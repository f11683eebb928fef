//! Properties of the decoding chain as a whole, proved over the spec
//! functions in which the decoders' contracts are stated.

use crate::decode::{
    arp_outcome, frame_report, icmp_outcome, ipv4_report, link_payload, tcp_outcome, udp_outcome,
    ETHERTYPE_ARP, ETHERTYPE_IPV4, PROTOCOL_UDP,
};
use crate::outcome::{DecodeOutcome, FrameReport, Layer, LinkContext, NetworkContext, Record};
use crate::wire::{
    be16, ethernet_header_of, ipv4_header_of, udp_header_of, EthernetHeader, Ipv4Address, Ipv4Header, MacAddress, UdpHeader, ARP_PACKET_LEN,
    ETHERNET_HEADER_LEN, ICMP_HEADER_LEN, IPV4_HEADER_LEN, TCP_HEADER_LEN, UDP_HEADER_LEN,
};
use vstd::prelude::*;

verus! {

/// A buffer too short for a layer's fixed header is reported as malformed at
/// that layer.
pub proof fn lemma_short_buffer_is_malformed(b: Seq<u8>)
    ensures
        b.len() < ETHERNET_HEADER_LEN ==> frame_report(b).outcome == DecodeOutcome::Malformed(
            Layer::Frame,
        ),
        b.len() < ARP_PACKET_LEN ==> arp_outcome(b) == DecodeOutcome::Malformed(Layer::Arp),
        b.len() < IPV4_HEADER_LEN ==> ipv4_report(b).outcome == DecodeOutcome::Malformed(
            Layer::Ipv4,
        ),
        b.len() < TCP_HEADER_LEN ==> tcp_outcome(b) == DecodeOutcome::Malformed(Layer::Tcp),
        b.len() < UDP_HEADER_LEN ==> udp_outcome(b) == DecodeOutcome::Malformed(Layer::Udp),
        b.len() < ICMP_HEADER_LEN ==> icmp_outcome(b) == DecodeOutcome::Malformed(Layer::Icmp),
{
}

/// A frame with a full Ethernet header and an ethertype that is neither IPv4
/// nor ARP is unclassified at the link layer, with that ethertype, and its
/// payload length is the buffer length less the header.
pub proof fn lemma_unknown_ethertype_is_unclassified(b: Seq<u8>)
    requires
        ETHERNET_HEADER_LEN <= b.len() <= usize::MAX,
        be16(b, 12) != ETHERTYPE_IPV4,
        be16(b, 12) != ETHERTYPE_ARP,
    ensures
        frame_report(b).outcome == DecodeOutcome::Unclassified(Layer::Frame, be16(b, 12)),
        frame_report(b).link is Some,
        frame_report(b).link.unwrap().payload_len == b.len() - ETHERNET_HEADER_LEN,
{
}

/// An IPv4 header of 20 bytes carrying UDP hands the UDP decoder exactly the
/// bytes from offset 20 on.
pub proof fn lemma_ipv4_udp_payload_starts_after_header(b: Seq<u8>)
    requires
        IPV4_HEADER_LEN <= b.len() <= usize::MAX,
        b[0] % 16 == 5,
        b[9] == PROTOCOL_UDP,
    ensures
        ipv4_report(b).outcome == udp_outcome(b.subrange(20, b.len() as int)),
        ipv4_report(b).network is Some,
        ipv4_report(b).network.unwrap().payload_len == b.len() - 20,
{
}

/// Decoding depends on the bytes alone: equal buffers give equal reports.
pub proof fn lemma_decode_is_deterministic(b1: Seq<u8>, b2: Seq<u8>)
    requires
        b1 == b2,
    ensures
        frame_report(b1) == frame_report(b2),
{
}

/// The two bytes of `v`, most significant first.
pub open spec fn be16_bytes(v: u16) -> Seq<u8> {
    seq![(v / 256) as u8, (v % 256) as u8]
}

/// The six octets of a link-layer address.
pub open spec fn mac_bytes(m: MacAddress) -> Seq<u8> {
    seq![m.0, m.1, m.2, m.3, m.4, m.5]
}

/// The four octets of an IPv4 address.
pub open spec fn ipv4_bytes(a: Ipv4Address) -> Seq<u8> {
    seq![a.0, a.1, a.2, a.3]
}

/// An Ethernet header carrying IPv4.
pub open spec fn ethernet_ipv4_bytes(destination: MacAddress, source: MacAddress) -> Seq<u8> {
    mac_bytes(destination) + mac_bytes(source) + be16_bytes(ETHERTYPE_IPV4)
}

/// A 20-byte IPv4 header carrying UDP, with time to live 64 and every other
/// field zero.
pub open spec fn ipv4_udp_header_bytes(
    source: Ipv4Address,
    destination: Ipv4Address,
    total_length: u16,
) -> Seq<u8> {
    seq![0x45u8, 0u8] + be16_bytes(total_length)
        + seq![0u8, 0u8, 0u8, 0u8, 64u8, PROTOCOL_UDP, 0u8, 0u8]
        + ipv4_bytes(source) + ipv4_bytes(destination)
}

/// A UDP header with a zero checksum.
pub open spec fn udp_header_bytes(h: UdpHeader) -> Seq<u8> {
    be16_bytes(h.source_port) + be16_bytes(h.destination_port) + be16_bytes(h.length) + seq![
        0u8,
        0u8,
    ]
}

/// An Ethernet frame holding an IPv4 packet holding a UDP datagram whose
/// payload is `data`.
pub open spec fn udp_frame(
    link_source: MacAddress,
    link_destination: MacAddress,
    source: Ipv4Address,
    destination: Ipv4Address,
    source_port: u16,
    destination_port: u16,
    data: Seq<u8>,
) -> Seq<u8> {
    let udp = UdpHeader {
        source_port,
        destination_port,
        length: (UDP_HEADER_LEN + data.len()) as u16,
    };
    ethernet_ipv4_bytes(link_destination, link_source) + ipv4_udp_header_bytes(
        source,
        destination,
        (IPV4_HEADER_LEN + UDP_HEADER_LEN + data.len()) as u16,
    ) + udp_header_bytes(udp) + data
}

proof fn lemma_be16_bytes(v: u16)
    ensures
        be16(be16_bytes(v), 0) == v,
{
}

/// A UDP frame built from addresses, ports and a payload decodes to exactly
/// those addresses and ports.
pub proof fn lemma_udp_frame_round_trip(
    link_source: MacAddress,
    link_destination: MacAddress,
    source: Ipv4Address,
    destination: Ipv4Address,
    source_port: u16,
    destination_port: u16,
    data: Seq<u8>,
)
    requires
        IPV4_HEADER_LEN + UDP_HEADER_LEN + data.len() <= u16::MAX,
    ensures
        ({
            let f = udp_frame(
                link_source,
                link_destination,
                source,
                destination,
                source_port,
                destination_port,
                data,
            );
            let ip_length = (IPV4_HEADER_LEN + UDP_HEADER_LEN + data.len()) as u16;
            let udp_length = (UDP_HEADER_LEN + data.len()) as u16;
            frame_report(f) == FrameReport {
                link: Some(
                    LinkContext {
                        header: EthernetHeader {
                            destination: link_destination,
                            source: link_source,
                            ethertype: ETHERTYPE_IPV4,
                        },
                        payload_len: ip_length as usize,
                    },
                ),
                network: Some(
                    NetworkContext {
                        header: Ipv4Header {
                            header_length: 5,
                            total_length: ip_length,
                            protocol: PROTOCOL_UDP,
                            source,
                            destination,
                        },
                        payload_len: udp_length as usize,
                    },
                ),
                outcome: DecodeOutcome::Decoded(
                    Record::Udp(UdpHeader { source_port, destination_port, length: udp_length }),
                ),
            }
        }),
{
    let ip_length = (IPV4_HEADER_LEN + UDP_HEADER_LEN + data.len()) as u16;
    let udp_length = (UDP_HEADER_LEN + data.len()) as u16;
    let udp = UdpHeader { source_port, destination_port, length: udp_length };
    let ip = ipv4_udp_header_bytes(source, destination, ip_length);
    let u = udp_header_bytes(udp);
    let f = ethernet_ipv4_bytes(link_destination, link_source) + (ip + u + data);
    assert(udp_frame(
        link_source,
        link_destination,
        source,
        destination,
        source_port,
        destination_port,
        data,
    ) =~= f);
    lemma_ethernet_bytes(link_destination, link_source, ip + u + data);
    lemma_ipv4_bytes(source, destination, ip_length, u + data);
    assert(ip + u + data =~= ip + (u + data));
    lemma_udp_bytes(udp, data);
}

proof fn lemma_ethernet_bytes(destination: MacAddress, source: MacAddress, rest: Seq<u8>)
    ensures
        ({
            let f = ethernet_ipv4_bytes(destination, source) + rest;
            &&& f.len() == ETHERNET_HEADER_LEN + rest.len()
            &&& ethernet_header_of(f) == EthernetHeader {
                destination,
                source,
                ethertype: ETHERTYPE_IPV4,
            }
            &&& link_payload(f) == rest
        }),
{
    let f = ethernet_ipv4_bytes(destination, source) + rest;
    lemma_be16_bytes(ETHERTYPE_IPV4);
    assert(link_payload(f) =~= rest);
}

proof fn lemma_ipv4_bytes(
    source: Ipv4Address,
    destination: Ipv4Address,
    total_length: u16,
    rest: Seq<u8>,
)
    ensures
        ({
            let p = ipv4_udp_header_bytes(source, destination, total_length) + rest;
            &&& p.len() == IPV4_HEADER_LEN + rest.len()
            &&& ipv4_header_of(p) == Ipv4Header {
                header_length: 5,
                total_length,
                protocol: PROTOCOL_UDP,
                source,
                destination,
            }
            &&& p.subrange(20, p.len() as int) == rest
        }),
{
    let p = ipv4_udp_header_bytes(source, destination, total_length) + rest;
    lemma_be16_bytes(total_length);
    assert(p.subrange(20, p.len() as int) =~= rest);
}

proof fn lemma_udp_bytes(h: UdpHeader, data: Seq<u8>)
    ensures
        ({
            let t = udp_header_bytes(h) + data;
            &&& t.len() == UDP_HEADER_LEN + data.len()
            &&& udp_header_of(t) == h
        }),
{
    lemma_be16_bytes(h.source_port);
    lemma_be16_bytes(h.destination_port);
    lemma_be16_bytes(h.length);
}

} // verus!
