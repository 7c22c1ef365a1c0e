use cross_socket::packet::arp::{ArpOperation, ArpPacket, ArpPacketBuilder};
use cross_socket::packet::builder::PacketBuilder;
use cross_socket::packet::checksum::checksum;
use cross_socket::packet::dhcp::{DhcpOperation, DhcpPacket, DhcpPacketBuilder};
use cross_socket::packet::ethernet::{EtherType, EthernetPacket, EthernetPacketBuilder, MacAddr};
use cross_socket::packet::gre::{GrePacket, GrePacketBuilder};
use cross_socket::packet::icmp::{IcmpPacket, IcmpPacketBuilder, IcmpType};
use cross_socket::packet::icmpv6::{Icmpv6Packet, Icmpv6PacketBuilder, Icmpv6Type};
use cross_socket::packet::ip::{IpAddress, IpNextLevelProtocol, Ipv4Address, Ipv6Address};
use cross_socket::packet::ipv4::{Ipv4Packet, Ipv4PacketBuilder};
use cross_socket::packet::ipv6::{Ipv6Packet, Ipv6PacketBuilder};
use cross_socket::packet::tcp::{TcpFlag, TcpOption, TcpPacket, TcpPacketBuilder};
use cross_socket::packet::udp::{UdpPacket, UdpPacketBuilder};

#[test]
fn checksum_rfc_example() {
    // Classic worked example: bytes 00 01 f2 03 f4 f5 f6 f7.
    let data = vec![0x00u8, 0x01, 0xf2, 0x03, 0xf4, 0xf5, 0xf6, 0xf7];
    assert_eq!(checksum(&data), 0x220d);
}

#[test]
fn checksum_empty_and_odd() {
    assert_eq!(checksum(&vec![]), 0xffff);
    // A lone byte is the high half of its word: sum = 0xab00.
    assert_eq!(checksum(&vec![0xab]), !0xab00u16);
}

#[test]
fn ethernet_round_trip() {
    let mut b = EthernetPacketBuilder::new();
    b.dst_mac = MacAddr::new(0x00, 0x11, 0x22, 0x33, 0x44, 0x55);
    b.src_mac = MacAddr::new(0x66, 0x77, 0x88, 0x99, 0xaa, 0xbb);
    b.ether_type = EtherType::Arp;
    b.payload = vec![1, 2, 3];
    let bytes = b.build();
    assert_eq!(bytes.len(), 17);
    assert_eq!(&bytes[..6], &[0x00, 0x11, 0x22, 0x33, 0x44, 0x55]);
    assert_eq!(&bytes[12..14], &[0x08, 0x06]);
    let p = EthernetPacket::from_bytes(&bytes);
    assert_eq!(p.dst_mac, b.dst_mac);
    assert_eq!(p.src_mac, b.src_mac);
    assert_eq!(p.ethertype, EtherType::Arp);
    assert_eq!(p.payload, vec![1, 2, 3]);
}

#[test]
fn ethernet_unknown_type_preserved() {
    let mut b = EthernetPacketBuilder::new();
    b.ether_type = EtherType::Unknown(0x1234);
    let bytes = b.build();
    assert_eq!(&bytes[12..14], &[0x12, 0x34]);
    let p = EthernetPacket::from_bytes(&bytes);
    assert_eq!(p.ethertype, EtherType::Unknown(0x1234));
    assert_eq!(p.ethertype.number(), 0x1234);
}

#[test]
fn ether_type_numbers() {
    assert_eq!(EtherType::Ipv4.number(), 0x0800);
    assert_eq!(EtherType::Ipv6.number(), 0x86dd);
    assert_eq!(EtherType::Arp.number(), 0x0806);
    assert_eq!(EtherType::from_number(0x0800), EtherType::Ipv4);
    assert_eq!(EtherType::from_number(0x86dd), EtherType::Ipv6);
    assert_eq!(EtherType::from_number(0xbeef), EtherType::Unknown(0xbeef));
}

#[test]
fn ipv4_round_trip_and_checksum() {
    let b = Ipv4PacketBuilder::new(
        Ipv4Address::new(10, 0, 0, 1),
        Ipv4Address::new(1, 1, 1, 1),
        IpNextLevelProtocol::Tcp,
    );
    let bytes = b.build();
    assert_eq!(bytes.len(), 20);
    assert_eq!(bytes[0], 0x45);
    // Header checksum computed independently for this header.
    assert_eq!(&bytes[10..12], &[0x6e, 0xe2]);
    let p = Ipv4Packet::from_bytes(&bytes);
    assert_eq!(p.version, 4);
    assert_eq!(p.header_length, 5);
    assert_eq!(p.total_length, 20);
    assert_eq!(p.ttl, 64);
    assert_eq!(p.next_level_protocol, IpNextLevelProtocol::Tcp);
    assert_eq!(p.checksum, 0x6ee2);
    assert_eq!(p.source, Ipv4Address::new(10, 0, 0, 1));
    assert_eq!(p.destination, Ipv4Address::new(1, 1, 1, 1));
    assert!(p.payload.is_empty());
}

#[test]
fn ipv4_payload_and_length() {
    let mut b = Ipv4PacketBuilder::new(
        Ipv4Address::new(192, 168, 0, 1),
        Ipv4Address::new(192, 168, 0, 2),
        IpNextLevelProtocol::Udp,
    );
    b.payload = vec![9, 8, 7, 6];
    let bytes = b.build();
    assert_eq!(bytes.len(), 24);
    let p = Ipv4Packet::from_bytes(&bytes);
    assert_eq!(p.total_length, 24);
    assert_eq!(p.payload, vec![9, 8, 7, 6]);
}

#[test]
fn ipv4_options_passed_through() {
    // Hand-built header with IHL = 6: four option bytes before the payload.
    let mut bytes = vec![
        0x46, 0x00, 0x00, 0x1a, // version/IHL, DSCP/ECN, total length 26
        0x00, 0x00, 0x00, 0x00, // identification, flags/offset
        0x40, 0x11, 0x00, 0x00, // ttl, protocol UDP, checksum 0
        10, 0, 0, 1, // source
        10, 0, 0, 2, // destination
    ];
    bytes.extend_from_slice(&[0x94, 0x04, 0x00, 0x00]); // router-alert option
    bytes.extend_from_slice(&[0xaa, 0xbb]); // payload
    let p = Ipv4Packet::from_bytes(&bytes);
    assert_eq!(p.header_length, 6);
    assert_eq!(p.options, vec![0x94, 0x04, 0x00, 0x00]);
    assert_eq!(p.payload, vec![0xaa, 0xbb]);
}

#[test]
fn ipv4_unknown_protocol_preserved() {
    let b = Ipv4PacketBuilder::new(
        Ipv4Address::new(10, 0, 0, 1),
        Ipv4Address::new(10, 0, 0, 2),
        IpNextLevelProtocol::Unknown(200),
    );
    let bytes = b.build();
    assert_eq!(bytes[9], 200);
    let p = Ipv4Packet::from_bytes(&bytes);
    assert_eq!(p.next_level_protocol, IpNextLevelProtocol::Unknown(200));
}

#[test]
fn protocol_numbers() {
    assert_eq!(IpNextLevelProtocol::Icmp.number(), 1);
    assert_eq!(IpNextLevelProtocol::Tcp.number(), 6);
    assert_eq!(IpNextLevelProtocol::Udp.number(), 17);
    assert_eq!(IpNextLevelProtocol::Gre.number(), 47);
    assert_eq!(IpNextLevelProtocol::Icmpv6.number(), 58);
    assert_eq!(IpNextLevelProtocol::from_number(6), IpNextLevelProtocol::Tcp);
    assert_eq!(IpNextLevelProtocol::from_number(99), IpNextLevelProtocol::Unknown(99));
}

#[test]
fn udp_round_trip_and_checksum() {
    let b = UdpPacketBuilder::new(
        Ipv4Address::new(10, 0, 0, 1),
        1234,
        Ipv4Address::new(10, 0, 0, 2),
        5678,
    );
    let bytes = b.build();
    assert_eq!(bytes.len(), 8);
    let p = UdpPacket::from_bytes(&bytes);
    assert_eq!(p.source, 1234);
    assert_eq!(p.destination, 5678);
    assert_eq!(p.length, 8);
    // Pseudo-header checksum computed independently for this datagram.
    assert_eq!(p.checksum, 0xd0db);
    assert!(p.payload.is_empty());
}

#[test]
fn udp_largest_payload() {
    let mut b = UdpPacketBuilder::new(
        Ipv4Address::new(10, 0, 0, 1),
        1,
        Ipv4Address::new(10, 0, 0, 2),
        2,
    );
    b.payload = vec![0u8; 65527];
    let bytes = b.build();
    assert_eq!(bytes.len(), 65535);
    let p = UdpPacket::from_bytes(&bytes);
    assert_eq!(p.length, 65535);

    // One byte more no longer fits the 16-bit length field.
    let mut over = PacketBuilder::new();
    let mut too_big = UdpPacketBuilder::new(
        Ipv4Address::new(10, 0, 0, 1),
        1,
        Ipv4Address::new(10, 0, 0, 2),
        2,
    );
    too_big.payload = vec![0u8; 65528];
    over.set_udp(too_big);
    assert!(over.try_packet().is_none());
}

#[test]
fn tcp_syn_checksum_fixture() {
    // Empty-payload SYN from 10.0.0.1:53443 to 1.1.1.1:80; the checksum
    // was computed by hand from the RFC 1071 algorithm.
    let mut b = TcpPacketBuilder::new(
        Ipv4Address::new(10, 0, 0, 1),
        53443,
        Ipv4Address::new(1, 1, 1, 1),
        80,
    );
    b.flags = vec![TcpFlag::Syn];
    let bytes = b.build();
    assert_eq!(bytes.len(), 20);
    let p = TcpPacket::from_bytes(&bytes);
    assert_eq!(p.source, 53443);
    assert_eq!(p.destination, 80);
    assert_eq!(p.data_offset, 5);
    assert_eq!(p.flags, 2);
    assert_eq!(p.window, 65535);
    assert_eq!(p.checksum, 0xd2cc);
    assert!(p.options.is_empty());
    assert!(p.payload.is_empty());
}

#[test]
fn tcp_options_round_trip_in_order() {
    let mut b = TcpPacketBuilder::new(
        Ipv4Address::new(10, 0, 0, 1),
        40000,
        Ipv4Address::new(10, 0, 0, 2),
        443,
    );
    b.flags = vec![TcpFlag::Syn, TcpFlag::Ack];
    b.options = vec![
        TcpOption::Mss(1460),
        TcpOption::SackPermitted,
        TcpOption::Nop,
        TcpOption::Wscale(7),
        TcpOption::Timestamp(12345, 67890),
    ];
    b.payload = vec![0xde, 0xad];
    let bytes = b.build();
    // 4 + 2 + 1 + 3 + 10 = 20 option bytes, already a multiple of 4.
    assert_eq!(bytes.len(), 20 + 20 + 2);
    let p = TcpPacket::from_bytes(&bytes);
    assert_eq!(p.data_offset, 10);
    assert_eq!(p.flags, 2 | 16);
    assert_eq!(
        p.options,
        vec![
            TcpOption::Mss(1460),
            TcpOption::SackPermitted,
            TcpOption::Nop,
            TcpOption::Wscale(7),
            TcpOption::Timestamp(12345, 67890),
        ]
    );
    assert_eq!(p.payload, vec![0xde, 0xad]);
}

#[test]
fn tcp_ns_flag_round_trip() {
    let mut b = TcpPacketBuilder::new(
        Ipv4Address::new(10, 0, 0, 1),
        1,
        Ipv4Address::new(10, 0, 0, 2),
        2,
    );
    b.flags = vec![TcpFlag::Syn, TcpFlag::Ns];
    let bytes = b.build();
    let p = TcpPacket::from_bytes(&bytes);
    assert_eq!(p.flags, 2 | 256);
}

#[test]
fn icmp_type_values() {
    assert_eq!(IcmpType::EchoReply.number(), 0);
    assert_eq!(IcmpType::EchoRequest.number(), 8);
    assert_eq!(IcmpType::Photuris.number(), 40);
    assert_eq!(IcmpType::Unknown(77).number(), 77);
    assert_eq!(IcmpType::from_number(8), IcmpType::EchoRequest);
    assert_eq!(IcmpType::from_number(30), IcmpType::Traceroute);
    assert_eq!(IcmpType::from_number(200), IcmpType::Unknown(200));
}

#[test]
fn icmp_type_strings() {
    assert_eq!(IcmpType::EchoReply.id().as_str(), "echo_reply");
    assert_eq!(IcmpType::DestinationUnreachable.id().as_str(), "destination_unreachable");
    assert_eq!(IcmpType::SKIP.id().as_str(), "skip");
    assert_eq!(IcmpType::Unknown(42).id().as_str(), "unknown_42");
    assert_eq!(IcmpType::Unknown(7).id().as_str(), "unknown_7");
    assert_eq!(IcmpType::Unknown(255).id().as_str(), "unknown_255");
    assert_eq!(IcmpType::EchoRequest.name().as_str(), "Echo Request");
    assert_eq!(IcmpType::IPv6WhereAreYou.name().as_str(), "IPv6 Where Are You");
    assert_eq!(IcmpType::Unknown(42).name().as_str(), "Unknown (42)");
}

#[test]
fn icmp_echo_build_and_decode() {
    let mut b = IcmpPacketBuilder::new();
    b.identifier = Some(0x1234);
    b.sequence_number = Some(0x0001);
    let bytes = b.build();
    assert_eq!(bytes.len(), 8);
    assert_eq!(bytes[0], 8);
    assert_eq!(bytes[1], 0);
    // Checksum computed independently for type 8, id 0x1234, seq 1.
    assert_eq!(&bytes[2..4], &[0xe5, 0xca]);
    let p = IcmpPacket::from_bytes(&bytes);
    assert_eq!(p.icmp_type, IcmpType::EchoRequest);
    assert_eq!(p.icmp_code, 0);
    assert_eq!(p.checksum, 0xe5ca);
    assert_eq!(p.payload, vec![0x12, 0x34, 0x00, 0x01]);
}

#[test]
fn icmp_random_fields_have_fixed_shape() {
    // Identifier and sequence number left unset: drawn at random, but the
    // message shape and the explicit fields stay fixed.
    let b = IcmpPacketBuilder::new();
    let bytes = b.build();
    assert_eq!(bytes.len(), 8);
    assert_eq!(bytes[0], 8);
    assert_eq!(bytes[1], 0);
    let p = IcmpPacket::from_bytes(&bytes);
    assert_eq!(p.icmp_type, IcmpType::EchoRequest);
}

#[test]
fn icmpv6_echo_build_and_decode() {
    let mut b = Icmpv6PacketBuilder::new();
    b.src_ip = Ipv6Address::new(0xfe80, 0, 0, 0, 0, 0, 0, 1);
    b.dst_ip = Ipv6Address::new(0xfe80, 0, 0, 0, 0, 0, 0, 2);
    b.identifier = Some(7);
    b.sequence_number = Some(9);
    let bytes = b.build();
    assert_eq!(bytes.len(), 8);
    assert_eq!(bytes[0], 128);
    let p = Icmpv6Packet::from_bytes(&bytes);
    assert_eq!(p.icmpv6_type, Icmpv6Type::EchoRequest);
    assert_eq!(p.icmpv6_code, 0);
    assert_eq!(p.payload, vec![0, 7, 0, 9]);
}

#[test]
fn icmpv6_type_values() {
    assert_eq!(Icmpv6Type::EchoRequest.number(), 128);
    assert_eq!(Icmpv6Type::EchoReply.number(), 129);
    assert_eq!(Icmpv6Type::from_number(135), Icmpv6Type::NeighborSolicitation);
    assert_eq!(Icmpv6Type::from_number(250), Icmpv6Type::Unknown(250));
}

#[test]
fn arp_round_trip() {
    let mut b = ArpPacketBuilder::new();
    b.operation = ArpOperation::Reply;
    b.sender_mac = MacAddr::new(1, 2, 3, 4, 5, 6);
    b.sender_ip = Ipv4Address::new(192, 168, 1, 10);
    b.target_mac = MacAddr::new(7, 8, 9, 10, 11, 12);
    b.target_ip = Ipv4Address::new(192, 168, 1, 1);
    let bytes = b.build();
    assert_eq!(bytes.len(), 28);
    let p = ArpPacket::from_bytes(&bytes);
    assert_eq!(p.hardware_type, 1);
    assert_eq!(p.protocol_type, EtherType::Ipv4);
    assert_eq!(p.hw_addr_len, 6);
    assert_eq!(p.proto_addr_len, 4);
    assert_eq!(p.operation, ArpOperation::Reply);
    assert_eq!(p.sender_hw_addr, b.sender_mac);
    assert_eq!(p.sender_proto_addr, b.sender_ip);
    assert_eq!(p.target_hw_addr, b.target_mac);
    assert_eq!(p.target_proto_addr, b.target_ip);
}

#[test]
fn ipv6_round_trip() {
    let mut b = Ipv6PacketBuilder::new(
        Ipv6Address::new(0xfe80, 0, 0, 0, 0, 0, 0, 1),
        Ipv6Address::new(0x2001, 0xdb8, 0, 0, 0, 0, 0, 5),
        IpNextLevelProtocol::Udp,
    );
    b.traffic_class = 0xa5;
    b.flow_label = 0xabcde;
    b.payload = vec![1, 2, 3, 4, 5];
    let bytes = b.build();
    assert_eq!(bytes.len(), 45);
    let p = Ipv6Packet::from_bytes(&bytes);
    assert_eq!(p.version, 6);
    assert_eq!(p.traffic_class, 0xa5);
    assert_eq!(p.flow_label, 0xabcde);
    assert_eq!(p.payload_length, 5);
    assert_eq!(p.next_header, IpNextLevelProtocol::Udp);
    assert_eq!(p.hop_limit, 64);
    assert_eq!(p.source, b.src_ip);
    assert_eq!(p.destination, b.dst_ip);
    assert_eq!(p.payload, vec![1, 2, 3, 4, 5]);
}

#[test]
fn gre_round_trip() {
    let mut b = GrePacketBuilder::new();
    b.payload = vec![0x45, 0x00];
    let bytes = b.build();
    assert_eq!(bytes.len(), 6);
    let p = GrePacket::from_bytes(&bytes);
    assert!(!p.checksum_present);
    assert!(!p.key_present);
    assert!(!p.sequence_present);
    assert_eq!(p.version, 0);
    assert_eq!(p.protocol_type, EtherType::Ipv4);
    assert_eq!(p.checksum, None);
    assert_eq!(p.key, None);
    assert_eq!(p.sequence_number, None);
    assert_eq!(p.payload, vec![0x45, 0x00]);
}

#[test]
fn gre_optional_fields_decoded() {
    // Key and sequence number present: flags 0b0011_0000.
    let bytes = vec![
        0x30, 0x00, 0x08, 0x00, // base header, protocol IPv4
        0x00, 0x00, 0x00, 0x2a, // key = 42
        0x00, 0x00, 0x00, 0x07, // sequence = 7
        0xaa,
    ];
    let p = GrePacket::from_bytes(&bytes);
    assert!(!p.checksum_present);
    assert!(p.key_present);
    assert!(p.sequence_present);
    assert_eq!(p.key, Some(42));
    assert_eq!(p.sequence_number, Some(7));
    assert_eq!(p.payload, vec![0xaa]);
}

#[test]
fn dhcp_round_trip() {
    let mut b = DhcpPacketBuilder::new();
    b.xid = 0xdeadbeef;
    b.secs = 3;
    b.flags = 0x8000;
    b.ciaddr = Ipv4Address::new(0, 0, 0, 0);
    b.yiaddr = Ipv4Address::new(192, 168, 0, 50);
    b.chaddr = MacAddr::new(2, 4, 6, 8, 10, 12);
    b.options = vec![53, 1, 1, 255];
    let bytes = b.build();
    assert_eq!(bytes.len(), 244);
    assert_eq!(&bytes[236..240], &[99, 130, 83, 99]);
    let p = DhcpPacket::from_bytes(&bytes);
    assert_eq!(p.op, DhcpOperation::BootRequest);
    assert_eq!(p.htype, 1);
    assert_eq!(p.hlen, 6);
    assert_eq!(p.xid, 0xdeadbeef);
    assert_eq!(p.secs, 3);
    assert_eq!(p.flags, 0x8000);
    assert_eq!(p.yiaddr, Ipv4Address::new(192, 168, 0, 50));
    assert_eq!(p.chaddr, MacAddr::new(2, 4, 6, 8, 10, 12));
    assert_eq!(p.options, vec![53, 1, 1, 255]);
}

#[test]
fn packet_builder_concatenates_layers() {
    let mut eth = EthernetPacketBuilder::new();
    eth.dst_mac = MacAddr::new(0xff, 0xff, 0xff, 0xff, 0xff, 0xff);
    eth.ether_type = EtherType::Ipv4;
    let ip = Ipv4PacketBuilder::new(
        Ipv4Address::new(10, 0, 0, 1),
        Ipv4Address::new(10, 0, 0, 2),
        IpNextLevelProtocol::Udp,
    );
    let udp = UdpPacketBuilder::new(
        Ipv4Address::new(10, 0, 0, 1),
        1111,
        Ipv4Address::new(10, 0, 0, 2),
        2222,
    );
    let mut pb = PacketBuilder::new();
    pb.set_ethernet(eth.clone());
    pb.set_ipv4(ip.clone());
    pb.set_udp(udp.clone());
    pb.set_payload(vec![0x55]);
    let bytes = pb.packet();
    let mut expected = eth.build();
    expected.extend_from_slice(&ip.build());
    expected.extend_from_slice(&udp.build());
    expected.push(0x55);
    assert_eq!(bytes, expected);
    // The builder stays reusable and the last write wins per layer.
    let tcp = TcpPacketBuilder::new(
        Ipv4Address::new(10, 0, 0, 1),
        1111,
        Ipv4Address::new(10, 0, 0, 2),
        2222,
    );
    pb.set_tcp(tcp.clone());
    let bytes2 = pb.packet();
    let mut expected2 = eth.build();
    expected2.extend_from_slice(&ip.build());
    expected2.extend_from_slice(&tcp.build());
    expected2.push(0x55);
    assert_eq!(bytes2, expected2);
}

#[test]
fn packet_builder_flat_fields_promoted() {
    let mut pb = PacketBuilder::new();
    pb.src_ip = Some(IpAddress::V4(Ipv4Address::new(10, 0, 0, 1)));
    pb.dst_ip = Some(IpAddress::V4(Ipv4Address::new(10, 0, 0, 2)));
    pb.ip_protocol = Some(IpNextLevelProtocol::Udp);
    pb.src_port = Some(1111);
    pb.dst_port = Some(2222);
    let bytes = pb.packet();
    let ip = Ipv4PacketBuilder::new(
        Ipv4Address::new(10, 0, 0, 1),
        Ipv4Address::new(10, 0, 0, 2),
        IpNextLevelProtocol::Udp,
    );
    let udp = UdpPacketBuilder::new(
        Ipv4Address::new(10, 0, 0, 1),
        1111,
        Ipv4Address::new(10, 0, 0, 2),
        2222,
    );
    let mut expected = ip.build();
    expected.extend_from_slice(&udp.build());
    assert_eq!(bytes, expected);
    // An explicit builder takes precedence over the flat fields.
    let other = Ipv4PacketBuilder::new(
        Ipv4Address::new(9, 9, 9, 9),
        Ipv4Address::new(8, 8, 8, 8),
        IpNextLevelProtocol::Udp,
    );
    pb.set_ipv4(other.clone());
    let bytes2 = pb.packet();
    let mut expected2 = other.build();
    expected2.extend_from_slice(&udp.build());
    assert_eq!(bytes2, expected2);
}

#[test]
fn packet_builder_try_packet_checks_bounds() {
    let mut pb = PacketBuilder::new();
    let mut tcp = TcpPacketBuilder::new(
        Ipv4Address::new(10, 0, 0, 1),
        1,
        Ipv4Address::new(10, 0, 0, 2),
        2,
    );
    // Five timestamp options encode to 50 bytes, past the 40-byte options
    // area.
    tcp.options = vec![TcpOption::Timestamp(0, 0); 5];
    pb.set_tcp(tcp);
    assert!(pb.try_packet().is_none());

    let mut ok = PacketBuilder::new();
    ok.set_udp(UdpPacketBuilder::new(
        Ipv4Address::new(10, 0, 0, 1),
        1,
        Ipv4Address::new(10, 0, 0, 2),
        2,
    ));
    assert!(ok.try_packet().is_some());
}

#[test]
fn packet_builder_without_ethernet() {
    let ip = Ipv4PacketBuilder::new(
        Ipv4Address::new(10, 0, 0, 1),
        Ipv4Address::new(10, 0, 0, 2),
        IpNextLevelProtocol::Tcp,
    );
    let mut pb = PacketBuilder::new();
    pb.set_ipv4(ip.clone());
    let bytes = pb.packet();
    assert_eq!(bytes, ip.build());
}
