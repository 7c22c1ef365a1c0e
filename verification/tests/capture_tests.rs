use cross_socket::packet::CaptureInfo;
use cross_socket::packet::ethernet::{EtherType, EthernetPacketBuilder, MacAddr};
use cross_socket::packet::ip::{IpAddress, IpNextLevelProtocol, Ipv4Address};
use cross_socket::packet::ipv4::Ipv4PacketBuilder;
use cross_socket::packet::tcp::{TcpFlag, TcpPacketBuilder};
use cross_socket::packet::udp::UdpPacketBuilder;
use cross_socket::pcap::{CaptureSession, PacketCaptureOptions, filter_match, parse_frame};

fn info() -> CaptureInfo {
    CaptureInfo {
        capture_no: 0,
        datatime: String::from("2024-01-01 00:00:00"),
        capture_len: 0,
        interface_index: 1,
        interface_name: String::from("eth0"),
    }
}

/// A complete Ethernet/IPv4/TCP frame to the given destination port.
fn tcp_frame(dst_port: u16) -> Vec<u8> {
    let mut tcp = TcpPacketBuilder::new(
        Ipv4Address::new(10, 0, 0, 1),
        40000,
        Ipv4Address::new(10, 0, 0, 2),
        dst_port,
    );
    tcp.flags = vec![TcpFlag::Syn];
    let mut ip = Ipv4PacketBuilder::new(
        Ipv4Address::new(10, 0, 0, 1),
        Ipv4Address::new(10, 0, 0, 2),
        IpNextLevelProtocol::Tcp,
    );
    ip.payload = tcp.build();
    let mut eth = EthernetPacketBuilder::new();
    eth.dst_mac = MacAddr::new(2, 2, 2, 2, 2, 2);
    eth.src_mac = MacAddr::new(1, 1, 1, 1, 1, 1);
    eth.ether_type = EtherType::Ipv4;
    eth.payload = ip.build();
    eth.build()
}

/// A complete Ethernet/IPv4/UDP frame to the given destination port.
fn udp_frame(dst_port: u16) -> Vec<u8> {
    let udp = UdpPacketBuilder::new(
        Ipv4Address::new(10, 0, 0, 1),
        40000,
        Ipv4Address::new(10, 0, 0, 2),
        dst_port,
    );
    let mut ip = Ipv4PacketBuilder::new(
        Ipv4Address::new(10, 0, 0, 1),
        Ipv4Address::new(10, 0, 0, 2),
        IpNextLevelProtocol::Udp,
    );
    ip.payload = udp.build();
    let mut eth = EthernetPacketBuilder::new();
    eth.ether_type = EtherType::Ipv4;
    eth.payload = ip.build();
    eth.build()
}

#[test]
fn parse_frame_layers() {
    let bytes = tcp_frame(80);
    let f = parse_frame(&bytes, info());
    assert!(f.ethernet_packet.is_some());
    assert!(f.ipv4_packet.is_some());
    assert!(f.tcp_packet.is_some());
    assert!(f.udp_packet.is_none());
    assert!(f.arp_packet.is_none());
    assert!(f.icmp_packet.is_none());
    let eth = f.ethernet_packet.unwrap();
    assert_eq!(eth.ethertype, EtherType::Ipv4);
    let ip = f.ipv4_packet.unwrap();
    assert_eq!(ip.source, Ipv4Address::new(10, 0, 0, 1));
    assert_eq!(ip.destination, Ipv4Address::new(10, 0, 0, 2));
    let tcp = f.tcp_packet.unwrap();
    assert_eq!(tcp.source, 40000);
    assert_eq!(tcp.destination, 80);
}

#[test]
fn parse_frame_short_buffer() {
    let f = parse_frame(&[1, 2, 3], info());
    assert!(f.ethernet_packet.is_none());
    assert!(f.ipv4_packet.is_none());
    assert!(f.tcp_packet.is_none());
}

#[test]
fn filter_only_matching_frames_published() {
    // dst_ports = {80}, ip_protocols = {Tcp}: of TCP/80, TCP/443 and
    // UDP/80 only the first is published.
    let mut options = PacketCaptureOptions::new();
    options.dst_ports = vec![80];
    options.ip_protocols = vec![IpNextLevelProtocol::Tcp];
    let mut session = CaptureSession::new(options);
    let published = session.publish(parse_frame(&tcp_frame(80), info()));
    assert!(published.is_some());
    assert!(session.publish(parse_frame(&tcp_frame(443), info())).is_none());
    assert!(session.publish(parse_frame(&udp_frame(80), info())).is_none());
    assert_eq!(session.capture_no, 1);
    assert_eq!(published.unwrap().capture_info.capture_no, 1);
}

#[test]
fn filter_src_ip_dimension() {
    let mut options = PacketCaptureOptions::new();
    options.src_ips = vec![IpAddress::V4(Ipv4Address::new(10, 0, 0, 1))];
    let f = parse_frame(&tcp_frame(80), info());
    assert!(filter_match(&options, &f));
    let mut other = PacketCaptureOptions::new();
    other.src_ips = vec![IpAddress::V4(Ipv4Address::new(9, 9, 9, 9))];
    assert!(!filter_match(&other, &f));
}

#[test]
fn filter_empty_options_match_all() {
    let options = PacketCaptureOptions::new();
    assert!(filter_match(&options, &parse_frame(&tcp_frame(80), info())));
    assert!(filter_match(&options, &parse_frame(&udp_frame(53), info())));
}

#[test]
fn filter_undefined_frames_follow_receive_undefined() {
    // An IPv4 frame with an unknown protocol classifies into no known
    // upper layer.
    let ip = Ipv4PacketBuilder::new(
        Ipv4Address::new(10, 0, 0, 1),
        Ipv4Address::new(10, 0, 0, 2),
        IpNextLevelProtocol::Unknown(123),
    );
    let mut eth = EthernetPacketBuilder::new();
    eth.ether_type = EtherType::Ipv4;
    eth.payload = ip.build();
    let bytes = eth.build();
    let f = parse_frame(&bytes, info());
    assert!(f.ipv4_packet.is_some());
    assert!(f.tcp_packet.is_none());
    let mut options = PacketCaptureOptions::new();
    options.receive_undefined = true;
    assert!(filter_match(&options, &f));
    options.receive_undefined = false;
    assert!(!filter_match(&options, &f));
}

#[test]
fn store_limit_retains_first_three_of_five() {
    let mut options = PacketCaptureOptions::new();
    options.store = true;
    options.store_limit = 3;
    let mut session = CaptureSession::new(options);
    let mut published_nos = Vec::new();
    for _ in 0..5 {
        let out = session.publish(parse_frame(&tcp_frame(80), info())).unwrap();
        published_nos.push(out.capture_info.capture_no);
    }
    assert_eq!(published_nos, vec![1, 2, 3, 4, 5]);
    assert_eq!(session.stored.len(), 3);
    for (i, stored) in session.stored.iter().enumerate() {
        assert_eq!(stored.capture_info.capture_no, i + 1);
    }
}

#[test]
fn should_stop_on_flag_duration_and_store_limit() {
    let mut options = PacketCaptureOptions::new();
    options.duration_ms = 200;
    let session = CaptureSession::new(options);
    assert!(!session.should_stop(false, 0));
    assert!(session.should_stop(true, 0));
    assert!(!session.should_stop(false, 199));
    assert!(session.should_stop(false, 200));
    assert!(session.should_stop(false, 250));

    let mut store_options = PacketCaptureOptions::new();
    store_options.store = true;
    store_options.store_limit = 1;
    let mut store_session = CaptureSession::new(store_options);
    assert!(!store_session.should_stop(false, 0));
    store_session.publish(parse_frame(&tcp_frame(80), info()));
    assert!(store_session.should_stop(false, 0));
}

#[test]
fn unmatched_frames_do_not_advance_capture_no() {
    let mut options = PacketCaptureOptions::new();
    options.dst_ports = vec![80];
    let mut session = CaptureSession::new(options);
    assert!(session.publish(parse_frame(&tcp_frame(443), info())).is_none());
    assert_eq!(session.capture_no, 0);
    assert!(session.publish(parse_frame(&tcp_frame(80), info())).is_some());
    assert_eq!(session.capture_no, 1);
}
