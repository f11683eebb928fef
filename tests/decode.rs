use capture::decode::{
    decode_arp, decode_frame, decode_icmp, decode_ipv4, decode_tcp, decode_transport, decode_udp,
};
use capture::outcome::{DecodeOutcome, IcmpMessage, Layer, Record};
use capture::wire::{ArpHeader, EthernetHeader, Ipv4Address, Ipv4Header, MacAddress, UdpHeader};

const SRC_MAC: [u8; 6] = [0x02, 0x11, 0x22, 0x33, 0x44, 0x55];
const DST_MAC: [u8; 6] = [0xff, 0xee, 0xdd, 0xcc, 0xbb, 0xaa];

fn ethernet(ethertype: u16, payload: &[u8]) -> Vec<u8> {
    let mut f = Vec::new();
    f.extend_from_slice(&DST_MAC);
    f.extend_from_slice(&SRC_MAC);
    f.extend_from_slice(&ethertype.to_be_bytes());
    f.extend_from_slice(payload);
    f
}

fn ipv4(protocol: u8, src: [u8; 4], dst: [u8; 4], payload: &[u8]) -> Vec<u8> {
    let total = (20 + payload.len()) as u16;
    let mut p = vec![0x45, 0];
    p.extend_from_slice(&total.to_be_bytes());
    p.extend_from_slice(&[0, 0, 0, 0, 64, protocol, 0, 0]);
    p.extend_from_slice(&src);
    p.extend_from_slice(&dst);
    p.extend_from_slice(payload);
    p
}

fn udp(src_port: u16, dst_port: u16, data: &[u8]) -> Vec<u8> {
    let mut u = Vec::new();
    u.extend_from_slice(&src_port.to_be_bytes());
    u.extend_from_slice(&dst_port.to_be_bytes());
    u.extend_from_slice(&((8 + data.len()) as u16).to_be_bytes());
    u.extend_from_slice(&[0, 0]);
    u.extend_from_slice(data);
    u
}

fn echo(icmp_type: u8, identifier: u16, sequence: u16) -> Vec<u8> {
    let mut e = vec![icmp_type, 0, 0, 0];
    e.extend_from_slice(&identifier.to_be_bytes());
    e.extend_from_slice(&sequence.to_be_bytes());
    e.extend_from_slice(b"ping");
    e
}

#[test]
fn short_buffers_are_malformed_at_each_layer() {
    let zeros = [0u8; 40];
    for n in 0..14 {
        let r = decode_frame("eth0".to_string(), &zeros[..n]);
        assert_eq!(r.report.outcome, DecodeOutcome::Malformed(Layer::Frame));
        assert_eq!(r.report.link, None);
    }
    for n in 0..28 {
        assert_eq!(decode_arp(&zeros[..n]), DecodeOutcome::Malformed(Layer::Arp));
    }
    for n in 0..20 {
        assert_eq!(decode_ipv4(&zeros[..n]).outcome, DecodeOutcome::Malformed(Layer::Ipv4));
        assert_eq!(decode_tcp(&zeros[..n]), DecodeOutcome::Malformed(Layer::Tcp));
    }
    for n in 0..8 {
        assert_eq!(decode_udp(&zeros[..n]), DecodeOutcome::Malformed(Layer::Udp));
    }
    for n in 0..4 {
        assert_eq!(decode_icmp(&zeros[..n]), DecodeOutcome::Malformed(Layer::Icmp));
    }
}

#[test]
fn unknown_ethertype_is_unclassified_with_payload_length() {
    let f = ethernet(0x86dd, &[1, 2, 3, 4, 5]);
    let r = decode_frame("eth0".to_string(), &f);
    assert_eq!(r.report.outcome, DecodeOutcome::Unclassified(Layer::Frame, 0x86dd));
    let link = r.report.link.unwrap();
    assert_eq!(link.payload_len, f.len() - 14);
    assert_eq!(link.payload_len, 5);
    assert_eq!(link.header.source, MacAddress(0x02, 0x11, 0x22, 0x33, 0x44, 0x55));
    assert_eq!(link.header.destination, MacAddress(0xff, 0xee, 0xdd, 0xcc, 0xbb, 0xaa));
    assert_eq!(r.report.network, None);
}

#[test]
fn ipv4_with_twenty_byte_header_hands_udp_the_rest() {
    let payload = udp(5353, 53, &[9, 8, 7]);
    let p = ipv4(17, [10, 0, 0, 1], [10, 0, 0, 2], &payload);
    let r = decode_ipv4(&p);
    assert_eq!(r.outcome, decode_udp(&p[20..]));
    assert_eq!(
        r.outcome,
        DecodeOutcome::Decoded(Record::Udp(UdpHeader {
            source_port: 5353,
            destination_port: 53,
            length: 11,
        }))
    );
    assert_eq!(r.network.unwrap().payload_len, p.len() - 20);
}

#[test]
fn udp_frame_round_trip_keeps_every_field() {
    let data = b"hello";
    let f = ethernet(0x0800, &ipv4(17, [192, 168, 1, 10], [8, 8, 4, 4], &udp(40000, 53, data)));
    let r = decode_frame("wlan0".to_string(), &f);
    assert_eq!(r.interface, "wlan0");
    let link = r.report.link.unwrap();
    assert_eq!(
        link.header,
        EthernetHeader {
            destination: MacAddress(0xff, 0xee, 0xdd, 0xcc, 0xbb, 0xaa),
            source: MacAddress(0x02, 0x11, 0x22, 0x33, 0x44, 0x55),
            ethertype: 0x0800,
        }
    );
    assert_eq!(link.payload_len, 20 + 8 + 5);
    let net = r.report.network.unwrap();
    assert_eq!(
        net.header,
        Ipv4Header {
            header_length: 5,
            total_length: 33,
            protocol: 17,
            source: Ipv4Address(192, 168, 1, 10),
            destination: Ipv4Address(8, 8, 4, 4),
        }
    );
    assert_eq!(net.payload_len, 13);
    assert_eq!(
        r.report.outcome,
        DecodeOutcome::Decoded(Record::Udp(UdpHeader {
            source_port: 40000,
            destination_port: 53,
            length: 13,
        }))
    );
}

#[test]
fn decoding_twice_gives_the_same_report() {
    let f = ethernet(0x0800, &ipv4(6, [1, 2, 3, 4], [5, 6, 7, 8], &[0u8; 24]));
    let a = decode_frame("eth0".to_string(), &f);
    let b = decode_frame("eth0".to_string(), &f);
    assert_eq!(a, b);
}

#[test]
fn header_only_ipv4_frame_is_malformed_at_ipv4() {
    let f = ethernet(0x0800, &[]);
    assert_eq!(f.len(), 14);
    let r = decode_frame("eth0".to_string(), &f);
    assert_eq!(r.report.link.unwrap().payload_len, 0);
    assert_eq!(r.report.network, None);
    assert_eq!(r.report.outcome, DecodeOutcome::Malformed(Layer::Ipv4));
}

#[test]
fn icmp_echo_request_reports_sequence_and_identifier() {
    let e = echo(8, 42, 7);
    assert_eq!(
        decode_icmp(&e),
        DecodeOutcome::Decoded(Record::Icmp(IcmpMessage::EchoRequest { identifier: 42, sequence: 7 }))
    );
    let f = ethernet(0x0800, &ipv4(1, [10, 0, 0, 1], [10, 0, 0, 2], &e));
    assert_eq!(
        decode_frame("eth0".to_string(), &f).report.outcome,
        DecodeOutcome::Decoded(Record::Icmp(IcmpMessage::EchoRequest { identifier: 42, sequence: 7 }))
    );
}

#[test]
fn icmp_echo_reply_and_other_types() {
    assert_eq!(
        decode_icmp(&echo(0, 0x1234, 0x0102)),
        DecodeOutcome::Decoded(Record::Icmp(IcmpMessage::EchoReply { identifier: 0x1234, sequence: 0x0102 }))
    );
    assert_eq!(
        decode_icmp(&[3, 1, 0, 0]),
        DecodeOutcome::Decoded(Record::Icmp(IcmpMessage::Other { icmp_type: 3, code: 1 }))
    );
}

#[test]
fn icmp_echo_without_room_for_its_fields_is_malformed() {
    assert_eq!(decode_icmp(&[8, 0, 0, 0, 0, 42, 0]), DecodeOutcome::Malformed(Layer::Icmp));
    assert_eq!(decode_icmp(&[0, 0, 0, 0]), DecodeOutcome::Malformed(Layer::Icmp));
}

#[test]
fn tcp_reports_ports_and_bytes_handed_in() {
    let mut t = vec![0u8; 32];
    t[0..2].copy_from_slice(&443u16.to_be_bytes());
    t[2..4].copy_from_slice(&51000u16.to_be_bytes());
    assert_eq!(
        decode_tcp(&t),
        DecodeOutcome::Decoded(Record::Tcp { source_port: 443, destination_port: 51000, length: 32 })
    );
    assert_eq!(decode_transport(6, &t), decode_tcp(&t));
}

#[test]
fn unknown_protocol_is_unclassified_at_ipv4() {
    let p = ipv4(47, [1, 1, 1, 1], [2, 2, 2, 2], &[0u8; 10]);
    let r = decode_ipv4(&p);
    assert_eq!(r.outcome, DecodeOutcome::Unclassified(Layer::Ipv4, 47));
    assert_eq!(r.network.unwrap().payload_len, 10);
    assert_eq!(decode_transport(47, &[]), DecodeOutcome::Unclassified(Layer::Ipv4, 47));
}

#[test]
fn ipv4_options_move_the_payload() {
    let payload = udp(1, 2, &[]);
    let mut p = ipv4(17, [1, 1, 1, 1], [2, 2, 2, 2], &[]);
    p[0] = 0x46;
    p.extend_from_slice(&[1, 1, 1, 1]);
    p.extend_from_slice(&payload);
    let r = decode_ipv4(&p);
    assert_eq!(r.outcome, decode_udp(&p[24..]));
    assert_eq!(
        r.outcome,
        DecodeOutcome::Decoded(Record::Udp(UdpHeader { source_port: 1, destination_port: 2, length: 8 }))
    );
    assert_eq!(r.network.unwrap().header.header_length, 6);
}

#[test]
fn ipv4_header_length_out_of_range_is_malformed() {
    let mut p = ipv4(17, [1, 1, 1, 1], [2, 2, 2, 2], &[0u8; 8]);
    p[0] = 0x4f;
    assert_eq!(decode_ipv4(&p).outcome, DecodeOutcome::Malformed(Layer::Ipv4));
    p[0] = 0x44;
    assert_eq!(decode_ipv4(&p).outcome, DecodeOutcome::Malformed(Layer::Ipv4));
    assert_eq!(decode_ipv4(&p).network, None);
}

#[test]
fn arp_request_is_decoded() {
    let mut a = vec![0, 1, 0x08, 0x00, 6, 4, 0, 1];
    a.extend_from_slice(&SRC_MAC);
    a.extend_from_slice(&[192, 168, 0, 1]);
    a.extend_from_slice(&[0; 6]);
    a.extend_from_slice(&[192, 168, 0, 7]);
    let expected = DecodeOutcome::Decoded(Record::Arp(ArpHeader {
        operation: 1,
        sender_protocol_address: Ipv4Address(192, 168, 0, 1),
        target_protocol_address: Ipv4Address(192, 168, 0, 7),
    }));
    assert_eq!(decode_arp(&a), expected);
    let f = ethernet(0x0806, &a);
    let r = decode_frame("eth1".to_string(), &f);
    assert_eq!(r.report.outcome, expected);
    assert_eq!(r.interface, "eth1");
}

#[test]
fn arp_unknown_operation_is_still_decoded() {
    let mut a = vec![0u8; 28];
    a[6] = 0x12;
    a[7] = 0x34;
    match decode_arp(&a) {
        DecodeOutcome::Decoded(Record::Arp(h)) => assert_eq!(h.operation, 0x1234),
        other => panic!("unexpected outcome {:?}", other),
    }
}

#[test]
fn udp_declared_length_is_reported_as_read() {
    let u = [0x00, 0x35, 0xc3, 0x50, 0x01, 0x00, 0, 0];
    assert_eq!(
        decode_udp(&u),
        DecodeOutcome::Decoded(Record::Udp(UdpHeader { source_port: 53, destination_port: 50000, length: 256 }))
    );
}
