//! Layered decoding of captured Ethernet frames: link layer, then ARP or
//! IPv4, then TCP, UDP or ICMP. Every decoder is a total function of the
//! bytes it is given and never reads past them.

pub mod wire;
pub mod outcome;
pub mod decode;
pub mod laws;
