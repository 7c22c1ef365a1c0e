use vstd::prelude::*;
use crate::packet::{CaptureInfo, PacketFrame};
use crate::packet::arp::ArpPacket;
use crate::packet::ethernet::{
    EthernetPacket,
    EtherType,
    ethernet_type_spec,
    ethernet_payload_spec,
};
use crate::packet::icmp::IcmpPacket;
use crate::packet::icmpv6::Icmpv6Packet;
use crate::packet::ip::{IpAddress, IpNextLevelProtocol, protocol_from_number_spec};
use crate::packet::ipv4::{Ipv4Packet, ipv4_payload_start_spec};
use crate::packet::ipv6::Ipv6Packet;
use crate::packet::tcp::TcpPacket;
use crate::packet::udp::UdpPacket;

verus! {

/// Filter specification of a capture session.  An empty set means no
/// filter on that dimension; a frame is published only if it satisfies
/// every non-empty dimension.
#[derive(Clone, Debug)]
pub struct PacketCaptureOptions {
    /// Source IP addresses to match.
    pub src_ips: Vec<IpAddress>,
    /// Destination IP addresses to match.
    pub dst_ips: Vec<IpAddress>,
    /// Source ports to match.
    pub src_ports: Vec<u16>,
    /// Destination ports to match.
    pub dst_ports: Vec<u16>,
    /// EtherTypes to match.
    pub ether_types: Vec<EtherType>,
    /// IP protocols to match.
    pub ip_protocols: Vec<IpNextLevelProtocol>,
    /// Hard capture-time ceiling in milliseconds.
    pub duration_ms: u64,
    /// Whether the capture socket is opened in promiscuous mode.
    pub promiscuous: bool,
    /// Whether matching frames are retained in the session's buffer.
    pub store: bool,
    /// Upper bound on the retained-frame buffer.
    pub store_limit: usize,
    /// Whether frames that no known upper layer classifies are published.
    pub receive_undefined: bool,
}

impl PacketCaptureOptions {
    /// Options that match every frame: every filter set empty, no time
    /// ceiling in practice, nothing retained, unclassified frames
    /// published.
    pub fn new() -> (r: PacketCaptureOptions)
        ensures
            r.src_ips@.len() == 0,
            r.dst_ips@.len() == 0,
            r.src_ports@.len() == 0,
            r.dst_ports@.len() == 0,
            r.ether_types@.len() == 0,
            r.ip_protocols@.len() == 0,
            r.duration_ms == u64::MAX,
            r.promiscuous == false,
            r.store == false,
            r.store_limit == 0,
            r.receive_undefined == true,
    {
        PacketCaptureOptions {
            src_ips: Vec::new(),
            dst_ips: Vec::new(),
            src_ports: Vec::new(),
            dst_ports: Vec::new(),
            ether_types: Vec::new(),
            ip_protocols: Vec::new(),
            duration_ms: u64::MAX,
            promiscuous: false,
            store: false,
            store_limit: 0,
            receive_undefined: true,
        }
    }
}

/// The bytes after the Ethernet header.
pub open spec fn frame_l3_spec(b: Seq<u8>) -> Seq<u8> {
    ethernet_payload_spec(b)
}

/// Whether the buffer holds an Ethernet header.
pub open spec fn frame_has_ethernet_spec(b: Seq<u8>) -> bool {
    b.len() >= 14
}

/// Whether the frame classifies as ARP: EtherType ARP and a full ARP body.
pub open spec fn frame_has_arp_spec(b: Seq<u8>) -> bool {
    b.len() >= 14 && ethernet_type_spec(b) == EtherType::Arp && frame_l3_spec(b).len() >= 28
}

/// Whether the frame classifies as IPv4: EtherType IPv4 and a minimum IPv4
/// header.
pub open spec fn frame_has_ipv4_spec(b: Seq<u8>) -> bool {
    b.len() >= 14 && ethernet_type_spec(b) == EtherType::Ipv4 && frame_l3_spec(b).len() >= 20
}

/// Whether the frame classifies as IPv6: EtherType IPv6 and a full fixed
/// header.
pub open spec fn frame_has_ipv6_spec(b: Seq<u8>) -> bool {
    b.len() >= 14 && ethernet_type_spec(b) == EtherType::Ipv6 && frame_l3_spec(b).len() >= 40
}

/// The transport-layer bytes of an IPv4 frame.
pub open spec fn frame_v4_l4_spec(b: Seq<u8>) -> Seq<u8> {
    let p = frame_l3_spec(b);
    p.subrange(ipv4_payload_start_spec(p), p.len() as int)
}

/// The transport-layer bytes of an IPv6 frame.
pub open spec fn frame_v6_l4_spec(b: Seq<u8>) -> Seq<u8> {
    let p = frame_l3_spec(b);
    p.subrange(40, p.len() as int)
}

/// The IP protocol number field of the frame's network layer.
pub open spec fn frame_ip_protocol_spec(b: Seq<u8>) -> IpNextLevelProtocol {
    if frame_has_ipv4_spec(b) {
        protocol_from_number_spec(frame_l3_spec(b)[9])
    } else {
        protocol_from_number_spec(frame_l3_spec(b)[6])
    }
}

/// The transport-layer bytes of the frame, whichever IP version carries
/// them.
pub open spec fn frame_l4_spec(b: Seq<u8>) -> Seq<u8> {
    if frame_has_ipv4_spec(b) {
        frame_v4_l4_spec(b)
    } else {
        frame_v6_l4_spec(b)
    }
}

/// Whether the frame carries a TCP segment of at least the minimum header.
pub open spec fn frame_has_tcp_spec(b: Seq<u8>) -> bool {
    (frame_has_ipv4_spec(b) || frame_has_ipv6_spec(b)) && frame_ip_protocol_spec(b)
        == IpNextLevelProtocol::Tcp && frame_l4_spec(b).len() >= 20
}

/// Whether the frame carries a UDP datagram of at least the full header.
pub open spec fn frame_has_udp_spec(b: Seq<u8>) -> bool {
    (frame_has_ipv4_spec(b) || frame_has_ipv6_spec(b)) && frame_ip_protocol_spec(b)
        == IpNextLevelProtocol::Udp && frame_l4_spec(b).len() >= 8
}

/// Whether the frame carries an ICMP message (IPv4 only).
pub open spec fn frame_has_icmp_spec(b: Seq<u8>) -> bool {
    frame_has_ipv4_spec(b) && frame_ip_protocol_spec(b) == IpNextLevelProtocol::Icmp
        && frame_l4_spec(b).len() >= 4
}

/// Whether the frame carries an ICMPv6 message (IPv6 only).
pub open spec fn frame_has_icmpv6_spec(b: Seq<u8>) -> bool {
    frame_has_ipv6_spec(b) && frame_ip_protocol_spec(b) == IpNextLevelProtocol::Icmpv6
        && frame_l4_spec(b).len() >= 4
}

/// Decode one captured buffer into a typed frame: the Ethernet layer when
/// the buffer holds one, then by EtherType the ARP or IP layer, then by IP
/// protocol number the ICMP, ICMPv6, TCP or UDP layer.  A layer whose
/// bytes fall short is left unset; a too-short buffer yields a frame with
/// every layer unset.
pub fn parse_frame(bytes: &[u8], capture_info: CaptureInfo) -> (r: PacketFrame)
    ensures
        r.capture_info == capture_info,
        r.ethernet_packet is Some <==> frame_has_ethernet_spec(bytes@),
        r.arp_packet is Some <==> frame_has_arp_spec(bytes@),
        r.ipv4_packet is Some <==> frame_has_ipv4_spec(bytes@),
        r.ipv6_packet is Some <==> frame_has_ipv6_spec(bytes@),
        r.tcp_packet is Some <==> frame_has_tcp_spec(bytes@),
        r.udp_packet is Some <==> frame_has_udp_spec(bytes@),
        r.icmp_packet is Some <==> frame_has_icmp_spec(bytes@),
        r.icmpv6_packet is Some <==> frame_has_icmpv6_spec(bytes@),
        r.ethernet_packet is Some ==> {
            let e = r.ethernet_packet->0;
            &&& e.dst_mac == crate::packet::ethernet::ethernet_dst_spec(bytes@)
            &&& e.src_mac == crate::packet::ethernet::ethernet_src_spec(bytes@)
            &&& e.ethertype == ethernet_type_spec(bytes@)
            &&& e.payload@ == frame_l3_spec(bytes@)
        },
        r.ipv4_packet is Some ==> {
            let p = r.ipv4_packet->0;
            let l3 = frame_l3_spec(bytes@);
            &&& p.source@ == l3.subrange(12, 16)
            &&& p.destination@ == l3.subrange(16, 20)
            &&& p.next_level_protocol == protocol_from_number_spec(l3[9])
            &&& p.payload@ == frame_v4_l4_spec(bytes@)
        },
        r.ipv6_packet is Some ==> {
            let p = r.ipv6_packet->0;
            let l3 = frame_l3_spec(bytes@);
            &&& p.source@ == l3.subrange(8, 24)
            &&& p.destination@ == l3.subrange(24, 40)
            &&& p.next_header == protocol_from_number_spec(l3[6])
            &&& p.payload@ == frame_v6_l4_spec(bytes@)
        },
        r.tcp_packet is Some ==> {
            let t = r.tcp_packet->0;
            let l4 = frame_l4_spec(bytes@);
            &&& t.source == crate::packet::bytes::be16(l4[0], l4[1])
            &&& t.destination == crate::packet::bytes::be16(l4[2], l4[3])
        },
        r.udp_packet is Some ==> {
            let u = r.udp_packet->0;
            let l4 = frame_l4_spec(bytes@);
            &&& u.source == crate::packet::bytes::be16(l4[0], l4[1])
            &&& u.destination == crate::packet::bytes::be16(l4[2], l4[3])
        },
        r.icmp_packet is Some ==> r.icmp_packet->0.icmp_type
            == crate::packet::icmp::icmp_type_from_number_spec(frame_l4_spec(bytes@)[0]),
        r.icmpv6_packet is Some ==> r.icmpv6_packet->0.icmpv6_type
            == crate::packet::icmpv6::icmpv6_type_from_number_spec(frame_l4_spec(bytes@)[0]),
{
    let mut ethernet_packet: Option<EthernetPacket> = None;
    let mut arp_packet: Option<ArpPacket> = None;
    let mut ipv4_packet: Option<Ipv4Packet> = None;
    let mut ipv6_packet: Option<Ipv6Packet> = None;
    let mut icmp_packet: Option<IcmpPacket> = None;
    let mut icmpv6_packet: Option<Icmpv6Packet> = None;
    let mut tcp_packet: Option<TcpPacket> = None;
    let mut udp_packet: Option<UdpPacket> = None;
    if bytes.len() >= 14 {
        let eth = EthernetPacket::from_bytes(bytes);
        match eth.ethertype {
            EtherType::Arp => {
                if eth.payload.len() >= 28 {
                    arp_packet = Some(ArpPacket::from_bytes(eth.payload.as_slice()));
                }
            },
            EtherType::Ipv4 => {
                if eth.payload.len() >= 20 {
                    let ip4 = Ipv4Packet::from_bytes(eth.payload.as_slice());
                    match ip4.next_level_protocol {
                        IpNextLevelProtocol::Tcp => {
                            if ip4.payload.len() >= 20 {
                                tcp_packet = Some(TcpPacket::from_bytes(ip4.payload.as_slice()));
                            }
                        },
                        IpNextLevelProtocol::Udp => {
                            if ip4.payload.len() >= 8 {
                                udp_packet = Some(UdpPacket::from_bytes(ip4.payload.as_slice()));
                            }
                        },
                        IpNextLevelProtocol::Icmp => {
                            if ip4.payload.len() >= 4 {
                                icmp_packet = Some(IcmpPacket::from_bytes(ip4.payload.as_slice()));
                            }
                        },
                        _ => {},
                    }
                    ipv4_packet = Some(ip4);
                }
            },
            EtherType::Ipv6 => {
                if eth.payload.len() >= 40 {
                    let ip6 = Ipv6Packet::from_bytes(eth.payload.as_slice());
                    match ip6.next_header {
                        IpNextLevelProtocol::Tcp => {
                            if ip6.payload.len() >= 20 {
                                tcp_packet = Some(TcpPacket::from_bytes(ip6.payload.as_slice()));
                            }
                        },
                        IpNextLevelProtocol::Udp => {
                            if ip6.payload.len() >= 8 {
                                udp_packet = Some(UdpPacket::from_bytes(ip6.payload.as_slice()));
                            }
                        },
                        IpNextLevelProtocol::Icmpv6 => {
                            if ip6.payload.len() >= 4 {
                                icmpv6_packet = Some(Icmpv6Packet::from_bytes(ip6.payload.as_slice()));
                            }
                        },
                        _ => {},
                    }
                    ipv6_packet = Some(ip6);
                }
            },
            _ => {},
        }
        ethernet_packet = Some(eth);
    }
    PacketFrame {
        capture_info,
        ethernet_packet,
        arp_packet,
        ipv4_packet,
        ipv6_packet,
        icmp_packet,
        icmpv6_packet,
        tcp_packet,
        udp_packet,
    }
}

/// Source IP address of a decoded frame, from whichever IP layer it holds.
pub open spec fn frame_src_ip_spec(f: PacketFrame) -> Option<IpAddress> {
    if f.ipv4_packet is Some {
        Some(IpAddress::V4(f.ipv4_packet->0.source))
    } else if f.ipv6_packet is Some {
        Some(IpAddress::V6(f.ipv6_packet->0.source))
    } else {
        None
    }
}

/// Destination IP address of a decoded frame.
pub open spec fn frame_dst_ip_spec(f: PacketFrame) -> Option<IpAddress> {
    if f.ipv4_packet is Some {
        Some(IpAddress::V4(f.ipv4_packet->0.destination))
    } else if f.ipv6_packet is Some {
        Some(IpAddress::V6(f.ipv6_packet->0.destination))
    } else {
        None
    }
}

/// Source port of a decoded frame, from whichever transport layer it holds.
pub open spec fn frame_src_port_spec(f: PacketFrame) -> Option<u16> {
    if f.tcp_packet is Some {
        Some(f.tcp_packet->0.source)
    } else if f.udp_packet is Some {
        Some(f.udp_packet->0.source)
    } else {
        None
    }
}

/// Destination port of a decoded frame.
pub open spec fn frame_dst_port_spec(f: PacketFrame) -> Option<u16> {
    if f.tcp_packet is Some {
        Some(f.tcp_packet->0.destination)
    } else if f.udp_packet is Some {
        Some(f.udp_packet->0.destination)
    } else {
        None
    }
}

/// EtherType of a decoded frame.
pub open spec fn frame_ether_type_spec(f: PacketFrame) -> Option<EtherType> {
    if f.ethernet_packet is Some {
        Some(f.ethernet_packet->0.ethertype)
    } else {
        None
    }
}

/// IP protocol of a decoded frame.
pub open spec fn frame_protocol_spec(f: PacketFrame) -> Option<IpNextLevelProtocol> {
    if f.ipv4_packet is Some {
        Some(f.ipv4_packet->0.next_level_protocol)
    } else if f.ipv6_packet is Some {
        Some(f.ipv6_packet->0.next_header)
    } else {
        None
    }
}

/// Whether some known layer above Ethernet and IP classified the frame.
pub open spec fn frame_defined_spec(f: PacketFrame) -> bool {
    f.arp_packet is Some || f.icmp_packet is Some || f.icmpv6_packet is Some || f.tcp_packet
        is Some || f.udp_packet is Some
}

/// Whether a frame passes the filter: every non-empty dimension must hold
/// of the frame (a frame without the layer a dimension reads fails that
/// dimension), and a frame that no known upper layer classifies passes
/// only when `receive_undefined` is set.
pub open spec fn filter_matches_spec(o: PacketCaptureOptions, f: PacketFrame) -> bool {
    &&& (o.src_ips@.len() == 0 || (frame_src_ip_spec(f) is Some && o.src_ips@.contains(
        frame_src_ip_spec(f)->0,
    )))
    &&& (o.dst_ips@.len() == 0 || (frame_dst_ip_spec(f) is Some && o.dst_ips@.contains(
        frame_dst_ip_spec(f)->0,
    )))
    &&& (o.src_ports@.len() == 0 || (frame_src_port_spec(f) is Some && o.src_ports@.contains(
        frame_src_port_spec(f)->0,
    )))
    &&& (o.dst_ports@.len() == 0 || (frame_dst_port_spec(f) is Some && o.dst_ports@.contains(
        frame_dst_port_spec(f)->0,
    )))
    &&& (o.ether_types@.len() == 0 || (frame_ether_type_spec(f) is Some && o.ether_types@.contains(
        frame_ether_type_spec(f)->0,
    )))
    &&& (o.ip_protocols@.len() == 0 || (frame_protocol_spec(f) is Some && o.ip_protocols@.contains(
        frame_protocol_spec(f)->0,
    )))
    &&& (frame_defined_spec(f) || o.receive_undefined)
}

/// Whether `v` occurs in `list`.
fn contains_ip(list: &Vec<IpAddress>, v: IpAddress) -> (r: bool)
    ensures
        r == list@.contains(v),
{
    let n = list.len();
    let mut i: usize = 0;
    while i < n
        invariant
            i <= n,
            n == list@.len(),
            forall|j: int| 0 <= j < i ==> list@[j] != v,
        decreases n - i,
    {
        if list[i] == v {
            return true;
        }
        i = i + 1;
    }
    false
}

/// Whether `v` occurs in `list`.
fn contains_port(list: &Vec<u16>, v: u16) -> (r: bool)
    ensures
        r == list@.contains(v),
{
    let n = list.len();
    let mut i: usize = 0;
    while i < n
        invariant
            i <= n,
            n == list@.len(),
            forall|j: int| 0 <= j < i ==> list@[j] != v,
        decreases n - i,
    {
        if list[i] == v {
            return true;
        }
        i = i + 1;
    }
    false
}

/// Whether `v` occurs in `list`.
fn contains_ether_type(list: &Vec<EtherType>, v: EtherType) -> (r: bool)
    ensures
        r == list@.contains(v),
{
    let n = list.len();
    let mut i: usize = 0;
    while i < n
        invariant
            i <= n,
            n == list@.len(),
            forall|j: int| 0 <= j < i ==> list@[j] != v,
        decreases n - i,
    {
        if list[i] == v {
            return true;
        }
        i = i + 1;
    }
    false
}

/// Whether `v` occurs in `list`.
fn contains_protocol(list: &Vec<IpNextLevelProtocol>, v: IpNextLevelProtocol) -> (r: bool)
    ensures
        r == list@.contains(v),
{
    let n = list.len();
    let mut i: usize = 0;
    while i < n
        invariant
            i <= n,
            n == list@.len(),
            forall|j: int| 0 <= j < i ==> list@[j] != v,
        decreases n - i,
    {
        if list[i] == v {
            return true;
        }
        i = i + 1;
    }
    false
}

/// Decide whether a decoded frame passes the filter.
pub fn filter_match(options: &PacketCaptureOptions, frame: &PacketFrame) -> (r: bool)
    ensures
        r == filter_matches_spec(*options, *frame),
{
    if options.src_ips.len() > 0 {
        let ok = match &frame.ipv4_packet {
            Some(p) => contains_ip(&options.src_ips, IpAddress::V4(p.source)),
            None => match &frame.ipv6_packet {
                Some(p) => contains_ip(&options.src_ips, IpAddress::V6(p.source)),
                None => false,
            },
        };
        if !ok {
            return false;
        }
    }
    if options.dst_ips.len() > 0 {
        let ok = match &frame.ipv4_packet {
            Some(p) => contains_ip(&options.dst_ips, IpAddress::V4(p.destination)),
            None => match &frame.ipv6_packet {
                Some(p) => contains_ip(&options.dst_ips, IpAddress::V6(p.destination)),
                None => false,
            },
        };
        if !ok {
            return false;
        }
    }
    if options.src_ports.len() > 0 {
        let ok = match &frame.tcp_packet {
            Some(t) => contains_port(&options.src_ports, t.source),
            None => match &frame.udp_packet {
                Some(u) => contains_port(&options.src_ports, u.source),
                None => false,
            },
        };
        if !ok {
            return false;
        }
    }
    if options.dst_ports.len() > 0 {
        let ok = match &frame.tcp_packet {
            Some(t) => contains_port(&options.dst_ports, t.destination),
            None => match &frame.udp_packet {
                Some(u) => contains_port(&options.dst_ports, u.destination),
                None => false,
            },
        };
        if !ok {
            return false;
        }
    }
    if options.ether_types.len() > 0 {
        let ok = match &frame.ethernet_packet {
            Some(e) => contains_ether_type(&options.ether_types, e.ethertype),
            None => false,
        };
        if !ok {
            return false;
        }
    }
    if options.ip_protocols.len() > 0 {
        let ok = match &frame.ipv4_packet {
            Some(p) => contains_protocol(&options.ip_protocols, p.next_level_protocol),
            None => match &frame.ipv6_packet {
                Some(p) => contains_protocol(&options.ip_protocols, p.next_header),
                None => false,
            },
        };
        if !ok {
            return false;
        }
    }
    let defined = frame.arp_packet.is_some() || frame.icmp_packet.is_some()
        || frame.icmpv6_packet.is_some() || frame.tcp_packet.is_some()
        || frame.udp_packet.is_some();
    if !defined && !options.receive_undefined {
        return false;
    }
    true
}

/// Whether two frames carry the same set of decoded layers.
pub open spec fn same_layers_spec(a: PacketFrame, b: PacketFrame) -> bool {
    &&& (a.ethernet_packet is Some <==> b.ethernet_packet is Some)
    &&& (a.arp_packet is Some <==> b.arp_packet is Some)
    &&& (a.ipv4_packet is Some <==> b.ipv4_packet is Some)
    &&& (a.ipv6_packet is Some <==> b.ipv6_packet is Some)
    &&& (a.icmp_packet is Some <==> b.icmp_packet is Some)
    &&& (a.icmpv6_packet is Some <==> b.icmpv6_packet is Some)
    &&& (a.tcp_packet is Some <==> b.tcp_packet is Some)
    &&& (a.udp_packet is Some <==> b.udp_packet is Some)
}

/// Whether a running capture must stop: the cooperative stop flag is set,
/// the configured duration has elapsed, or the retained buffer has reached
/// its configured limit.
pub open spec fn should_stop_spec(s: CaptureSession, stop_flag: bool, elapsed_ms: u64) -> bool {
    ||| stop_flag
    ||| elapsed_ms >= s.options.duration_ms
    ||| (s.options.store && s.stored@.len() >= s.options.store_limit)
}

/// The pure state of a capture session: its immutable options, the number
/// of frames published so far, and the retained-frame buffer.  The I/O
/// loop around it receives raw buffers, hands them to `publish` and
/// forwards what comes back.
#[derive(Debug)]
pub struct CaptureSession {
    /// The filter and retention configuration, fixed at construction.
    pub options: PacketCaptureOptions,
    /// Number of frames published so far; the next published frame gets
    /// this plus one.
    pub capture_no: usize,
    /// The retained copies of published frames, capped at
    /// `options.store_limit`.
    pub stored: Vec<PacketFrame>,
}

/// Copy a frame for retention: the capture information is reproduced
/// field by field and each layer slot of the copy is populated exactly
/// when the frame's is.
fn clone_frame(f: &PacketFrame) -> (r: PacketFrame)
    ensures
        r.capture_info.capture_no == f.capture_info.capture_no,
        r.capture_info.datatime@ == f.capture_info.datatime@,
        r.capture_info.capture_len == f.capture_info.capture_len,
        r.capture_info.interface_index == f.capture_info.interface_index,
        r.capture_info.interface_name@ == f.capture_info.interface_name@,
        r.ethernet_packet is Some <==> f.ethernet_packet is Some,
        r.arp_packet is Some <==> f.arp_packet is Some,
        r.ipv4_packet is Some <==> f.ipv4_packet is Some,
        r.ipv6_packet is Some <==> f.ipv6_packet is Some,
        r.icmp_packet is Some <==> f.icmp_packet is Some,
        r.icmpv6_packet is Some <==> f.icmpv6_packet is Some,
        r.tcp_packet is Some <==> f.tcp_packet is Some,
        r.udp_packet is Some <==> f.udp_packet is Some,
{
    PacketFrame {
        capture_info: CaptureInfo {
            capture_no: f.capture_info.capture_no,
            datatime: f.capture_info.datatime.clone(),
            capture_len: f.capture_info.capture_len,
            interface_index: f.capture_info.interface_index,
            interface_name: f.capture_info.interface_name.clone(),
        },
        ethernet_packet: match &f.ethernet_packet {
            Some(p) => Some(p.clone()),
            None => None,
        },
        arp_packet: match &f.arp_packet {
            Some(p) => Some(p.clone()),
            None => None,
        },
        ipv4_packet: match &f.ipv4_packet {
            Some(p) => Some(p.clone()),
            None => None,
        },
        ipv6_packet: match &f.ipv6_packet {
            Some(p) => Some(p.clone()),
            None => None,
        },
        icmp_packet: match &f.icmp_packet {
            Some(p) => Some(p.clone()),
            None => None,
        },
        icmpv6_packet: match &f.icmpv6_packet {
            Some(p) => Some(p.clone()),
            None => None,
        },
        tcp_packet: match &f.tcp_packet {
            Some(p) => Some(p.clone()),
            None => None,
        },
        udp_packet: match &f.udp_packet {
            Some(p) => Some(p.clone()),
            None => None,
        },
    }
}

impl CaptureSession {
    /// A fresh session with the given options: nothing published, nothing
    /// retained.
    pub fn new(options: PacketCaptureOptions) -> (r: CaptureSession)
        ensures
            r.options == options,
            r.capture_no == 0,
            r.stored@.len() == 0,
    {
        CaptureSession { options, capture_no: 0, stored: Vec::new() }
    }

    /// Decide whether the receive loop must exit, from the cooperative
    /// stop flag and the time elapsed since the loop started.
    pub fn should_stop(&self, stop_flag: bool, elapsed_ms: u64) -> (r: bool)
        ensures
            r == should_stop_spec(*self, stop_flag, elapsed_ms),
    {
        stop_flag || elapsed_ms >= self.options.duration_ms || (self.options.store
            && self.stored.len() >= self.options.store_limit)
    }

    /// Publish one decoded frame if it passes the filter: the frame gets
    /// the next capture number, is retained while the store has room, and
    /// is returned for the channel.  A frame the filter rejects changes
    /// nothing and returns nothing.
    pub fn publish(&mut self, frame: PacketFrame) -> (r: Option<PacketFrame>)
        requires
            old(self).capture_no < usize::MAX,
        ensures
            final(self).options == old(self).options,
            r is Some <==> filter_matches_spec(old(self).options, frame),
            r is None ==> final(self).capture_no == old(self).capture_no && final(self).stored@
                == old(self).stored@,
            r is Some ==> {
                let out = r->0;
                &&& final(self).capture_no == old(self).capture_no + 1
                &&& out.capture_info.capture_no == final(self).capture_no
                &&& out.capture_info.datatime == frame.capture_info.datatime
                &&& out.capture_info.capture_len == frame.capture_info.capture_len
                &&& out.capture_info.interface_index == frame.capture_info.interface_index
                &&& out.capture_info.interface_name == frame.capture_info.interface_name
                &&& out.ethernet_packet == frame.ethernet_packet
                &&& out.arp_packet == frame.arp_packet
                &&& out.ipv4_packet == frame.ipv4_packet
                &&& out.ipv6_packet == frame.ipv6_packet
                &&& out.icmp_packet == frame.icmp_packet
                &&& out.icmpv6_packet == frame.icmpv6_packet
                &&& out.tcp_packet == frame.tcp_packet
                &&& out.udp_packet == frame.udp_packet
            },
            r is Some && old(self).options.store && old(self).stored@.len() < old(
                self,
            ).options.store_limit ==> {
                &&& final(self).stored@.len() == old(self).stored@.len() + 1
                &&& final(self).stored@.last().capture_info.capture_no == final(self).capture_no
                &&& same_layers_spec(final(self).stored@.last(), frame)
                &&& final(self).stored@.take(old(self).stored@.len() as int) == old(self).stored@
            },
            r is Some && !(old(self).options.store && old(self).stored@.len() < old(
                self,
            ).options.store_limit) ==> final(self).stored@ == old(self).stored@,
            old(self).stored@.len() <= old(self).options.store_limit ==> final(self).stored@.len()
                <= old(self).options.store_limit,
    {
        if !filter_match(&self.options, &frame) {
            return None;
        }
        let mut frame = frame;
        let no = self.capture_no + 1;
        self.capture_no = no;
        frame.capture_info.capture_no = no;
        if self.options.store && self.stored.len() < self.options.store_limit {
            let copy = clone_frame(&frame);
            let ghost before = self.stored@;
            self.stored.push(copy);
            proof {
                assert(self.stored@.take(before.len() as int) =~= before);
            }
        }
        Some(frame)
    }
}

/// Cooperative termination: a set stop flag stops the loop at its next
/// check whatever else holds; so does an elapsed time at or past the
/// configured duration; and so does a full retained buffer when retention
/// is on.  With none of the three the loop carries on.
pub proof fn lemma_stop_conditions(s: CaptureSession, stop_flag: bool, elapsed_ms: u64)
    ensures
        stop_flag ==> should_stop_spec(s, stop_flag, elapsed_ms),
        elapsed_ms >= s.options.duration_ms ==> should_stop_spec(s, stop_flag, elapsed_ms),
        s.options.store && s.stored@.len() >= s.options.store_limit ==> should_stop_spec(
            s,
            stop_flag,
            elapsed_ms,
        ),
        !stop_flag && elapsed_ms < s.options.duration_ms && !(s.options.store && s.stored@.len()
            >= s.options.store_limit) ==> !should_stop_spec(s, stop_flag, elapsed_ms),
{
}

} // verus!
