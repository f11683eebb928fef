//! What a decoder reports: a decoded record, a malformed layer, or a
//! recognised header whose next-layer selector is not handled.

use crate::wire::{ArpHeader, EthernetHeader, Ipv4Header, UdpHeader};
use vstd::prelude::*;

verus! {

/// A protocol layer of the decoding chain.
#[derive(Clone, Copy, Debug, PartialEq, Eq)]
pub enum Layer {
    Frame,
    Arp,
    Ipv4,
    Tcp,
    Udp,
    Icmp,
}

/// An ICMP message, as far as it is decoded.
#[derive(Clone, Copy, Debug, PartialEq, Eq)]
pub enum IcmpMessage {
    EchoReply { identifier: u16, sequence: u16 },
    EchoRequest { identifier: u16, sequence: u16 },
    /// Any other ICMP type: only the common header is read.
    Other { icmp_type: u8, code: u8 },
}

/// The record of the innermost layer that was decoded.
#[derive(Clone, Copy, Debug, PartialEq, Eq)]
pub enum Record {
    Arp(ArpHeader),
    /// `length` is the number of bytes handed to the TCP decoder.
    Tcp { source_port: u16, destination_port: u16, length: usize },
    Udp(UdpHeader),
    Icmp(IcmpMessage),
}

/// The result of one decode: exactly one of these, never a panic.
#[derive(Clone, Copy, Debug, PartialEq, Eq)]
pub enum DecodeOutcome {
    Decoded(Record),
    /// The buffer cannot hold the layer's header.
    Malformed(Layer),
    /// A well-formed header whose selector value (ethertype or protocol
    /// number) names no decoder here.
    Unclassified(Layer, u16),
}

/// An Ethernet header together with the length of the payload after it.
#[derive(Clone, Copy, Debug, PartialEq, Eq)]
pub struct LinkContext {
    pub header: EthernetHeader,
    pub payload_len: usize,
}

/// An IPv4 header together with the length of the payload after it.
#[derive(Clone, Copy, Debug, PartialEq, Eq)]
pub struct NetworkContext {
    pub header: Ipv4Header,
    pub payload_len: usize,
}

/// What the network decoder reports: its header, when one was read, and the
/// outcome of the chain below it.
#[derive(Clone, Copy, Debug, PartialEq, Eq)]
pub struct NetworkReport {
    pub network: Option<NetworkContext>,
    pub outcome: DecodeOutcome,
}

/// What the frame decoder reports for one buffer: each header that was read
/// on the way down, and the final outcome.
#[derive(Clone, Copy, Debug, PartialEq, Eq)]
pub struct FrameReport {
    pub link: Option<LinkContext>,
    pub network: Option<NetworkContext>,
    pub outcome: DecodeOutcome,
}

/// A frame report tagged with the interface that produced the frame.
#[derive(Debug, PartialEq, Eq)]
pub struct FrameRecord {
    pub interface: String,
    pub report: FrameReport,
}

} // verus!
