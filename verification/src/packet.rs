//! Typed header values, their byte codecs, and the capture-side frame
//! aggregate.

/// ARP packet codec.
pub mod arp;
/// The multi-layer packet builder.
pub mod builder;
/// Network-byte-order helpers shared by the codecs.
pub mod bytes;
/// The ones'-complement checksum shared by the IPv4, ICMP, TCP and UDP codecs.
pub mod checksum;
/// DHCP message codec.
pub mod dhcp;
/// Ethernet frame codec, MAC addresses and EtherTypes.
pub mod ethernet;
/// GRE packet codec.
pub mod gre;
/// ICMP codec and type registry.
pub mod icmp;
/// ICMPv6 codec and type registry.
pub mod icmpv6;
/// IP next-level protocol numbers and address types.
pub mod ip;
/// IPv4 packet codec.
pub mod ipv4;
/// IPv6 packet codec.
pub mod ipv6;
/// TCP segment codec, flags and options.
pub mod tcp;
/// UDP datagram codec.
pub mod udp;

use vstd::prelude::*;

verus! {

/// Packet Capture information
#[derive(Clone, Debug, PartialEq)]
pub struct CaptureInfo {
    /// Capture number
    pub capture_no: usize,
    /// Capture datetime
    pub datatime: String,
    /// Capture length
    pub capture_len: usize,
    /// interface index
    pub interface_index: u32,
    /// Interface name
    pub interface_name: String,
}

/// Packet Frame. Contains all the possible packet types
#[derive(Clone, Debug)]
pub struct PacketFrame {
    pub capture_info: CaptureInfo,
    pub ethernet_packet: Option<ethernet::EthernetPacket>,
    pub arp_packet: Option<arp::ArpPacket>,
    pub ipv4_packet: Option<ipv4::Ipv4Packet>,
    pub ipv6_packet: Option<ipv6::Ipv6Packet>,
    pub icmp_packet: Option<icmp::IcmpPacket>,
    pub icmpv6_packet: Option<icmpv6::Icmpv6Packet>,
    pub tcp_packet: Option<tcp::TcpPacket>,
    pub udp_packet: Option<udp::UdpPacket>,
}

} // verus!
