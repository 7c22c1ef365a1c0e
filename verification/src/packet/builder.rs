use vstd::prelude::*;
use crate::packet::arp::{ArpPacketBuilder, arp_encode_spec};
use crate::packet::bytes::push_bytes;
use crate::packet::ethernet::{EthernetPacketBuilder, EtherType, MacAddr, ethernet_encode_spec};
use crate::packet::icmp::{IcmpPacketBuilder, icmp_echo_encode_spec};
use crate::packet::icmpv6::{Icmpv6PacketBuilder, icmpv6_echo_encode_spec};
use crate::packet::ip::{IpAddress, IpNextLevelProtocol};
use crate::packet::ipv4::{Ipv4PacketBuilder, ipv4_encode_spec};
use crate::packet::ipv6::{Ipv6PacketBuilder, ipv6_encode_spec};
use crate::packet::tcp::{TcpPacketBuilder, build_tcp_options, tcp_encode_v4_spec, tcp_options_encode_spec};
use crate::packet::udp::{UdpPacketBuilder, udp_encode_v4_spec};

verus! {

/// The one network-layer builder a packet can carry: ARP or one IP
/// version.  Holding the alternatives in one sum makes the layers mutually
/// exclusive by construction.
#[derive(Clone, Debug)]
pub enum NetworkLayerBuilder {
    Arp(ArpPacketBuilder),
    Ipv4(Ipv4PacketBuilder),
    Ipv6(Ipv6PacketBuilder),
}

/// The one transport-layer builder a packet can carry.
#[derive(Clone, Debug)]
pub enum TransportLayerBuilder {
    Icmp(IcmpPacketBuilder),
    Icmpv6(Icmpv6PacketBuilder),
    Tcp(TcpPacketBuilder),
    Udp(UdpPacketBuilder),
}

/// Composes at most one builder per layer plus a raw payload into a single
/// frame, serialized Ethernet first, then the network layer, then the
/// transport layer, then the payload.  Setting a layer replaces whatever
/// builder that layer held before.
///
/// The flat convenience fields are promoted into per-layer builders at
/// serialization time, under one precedence rule: an explicit per-layer
/// builder always wins, and a layer without one is promoted only when the
/// flat fields suffice for it (an EtherType for the Ethernet layer; both
/// addresses of one IP version plus a protocol for the network layer; a
/// matching IPv4 pair, TCP or UDP protocol and both ports for the
/// transport layer), every other field of the promoted layer keeping its
/// builder's default.
#[derive(Clone, Debug)]
pub struct PacketBuilder {
    pub ethernet: Option<EthernetPacketBuilder>,
    pub network: Option<NetworkLayerBuilder>,
    pub transport: Option<TransportLayerBuilder>,
    pub src_mac: Option<MacAddr>,
    pub dst_mac: Option<MacAddr>,
    pub ether_type: Option<EtherType>,
    pub src_ip: Option<IpAddress>,
    pub dst_ip: Option<IpAddress>,
    pub ip_protocol: Option<IpNextLevelProtocol>,
    pub src_port: Option<u16>,
    pub dst_port: Option<u16>,
    pub payload: Vec<u8>,
}

/// The address a flat MAC field contributes: the zero address when unset.
pub open spec fn mac_or_zero_spec(m: Option<MacAddr>) -> MacAddr {
    match m {
        Some(a) => a,
        None => MacAddr(0, 0, 0, 0, 0, 0),
    }
}

/// The Ethernet bytes the builder resolves to: the explicit builder when
/// one is set, else a header promoted from the flat EtherType and MAC
/// fields, else nothing.
pub open spec fn resolved_ethernet_bytes_spec(p: PacketBuilder) -> Seq<u8> {
    if p.ethernet is Some {
        ethernet_layer_bytes_spec(p.ethernet)
    } else {
        match p.ether_type {
            Some(et) => ethernet_encode_spec(
                mac_or_zero_spec(p.dst_mac),
                mac_or_zero_spec(p.src_mac),
                et,
                Seq::empty(),
            ),
            None => Seq::empty(),
        }
    }
}

/// The network-layer bytes the builder resolves to: the explicit builder
/// when one is set, else a header promoted from a matching flat address
/// pair and protocol, else nothing.
pub open spec fn resolved_network_bytes_spec(p: PacketBuilder) -> Seq<u8> {
    if p.network is Some {
        network_layer_bytes_spec(p.network)
    } else {
        match (p.src_ip, p.dst_ip, p.ip_protocol) {
            (Some(IpAddress::V4(a)), Some(IpAddress::V4(b)), Some(pr)) => ipv4_encode_spec(
                a,
                b,
                pr,
                64,
                0,
                Seq::empty(),
            ),
            (Some(IpAddress::V6(a)), Some(IpAddress::V6(b)), Some(pr)) => ipv6_encode_spec(
                a,
                b,
                pr,
                64,
                0,
                0,
                Seq::empty(),
            ),
            _ => Seq::empty(),
        }
    }
}

/// Whether `b` is a serialization the resolved transport layer allows: the
/// explicit builder's encoding when one is set, else a segment promoted
/// from the flat IPv4 pair, ports and a TCP or UDP protocol, else nothing.
pub open spec fn resolved_transport_bytes_ok(p: PacketBuilder, b: Seq<u8>) -> bool {
    if p.transport is Some {
        transport_layer_bytes_ok(p.transport, b)
    } else {
        match (p.src_ip, p.dst_ip, p.ip_protocol, p.src_port, p.dst_port) {
            (
                Some(IpAddress::V4(sa)),
                Some(IpAddress::V4(da)),
                Some(IpNextLevelProtocol::Tcp),
                Some(sp),
                Some(dp),
            ) => b == tcp_encode_v4_spec(
                sa,
                da,
                sp,
                dp,
                0,
                0,
                Seq::empty(),
                65535,
                0,
                Seq::empty(),
                Seq::empty(),
            ),
            (
                Some(IpAddress::V4(sa)),
                Some(IpAddress::V4(da)),
                Some(IpNextLevelProtocol::Udp),
                Some(sp),
                Some(dp),
            ) => b == udp_encode_v4_spec(sa, da, sp, dp, Seq::empty()),
            _ => b == Seq::<u8>::empty(),
        }
    }
}

/// The flat MAC field's address, the zero address when unset.
fn mac_or_zero(m: Option<MacAddr>) -> (r: MacAddr)
    ensures
        r == mac_or_zero_spec(m),
{
    match m {
        Some(a) => a,
        None => MacAddr(0, 0, 0, 0, 0, 0),
    }
}

/// The bytes the Ethernet slot contributes: the encoded frame, or nothing
/// when the slot is empty.
pub open spec fn ethernet_layer_bytes_spec(e: Option<EthernetPacketBuilder>) -> Seq<u8> {
    match e {
        Some(b) => ethernet_encode_spec(b.dst_mac, b.src_mac, b.ether_type, b.payload@),
        None => Seq::empty(),
    }
}

/// The bytes the network slot contributes.
pub open spec fn network_layer_bytes_spec(n: Option<NetworkLayerBuilder>) -> Seq<u8> {
    match n {
        Some(NetworkLayerBuilder::Arp(b)) => arp_encode_spec(
            b.operation,
            b.sender_mac,
            b.sender_ip,
            b.target_mac,
            b.target_ip,
        ),
        Some(NetworkLayerBuilder::Ipv4(b)) => ipv4_encode_spec(
            b.src_ip,
            b.dst_ip,
            b.protocol,
            b.ttl,
            b.identification,
            b.payload@,
        ),
        Some(NetworkLayerBuilder::Ipv6(b)) => ipv6_encode_spec(
            b.src_ip,
            b.dst_ip,
            b.next_header,
            b.hop_limit,
            b.traffic_class,
            b.flow_label,
            b.payload@,
        ),
        None => Seq::empty(),
    }
}

/// Whether `b` is a serialization the transport slot allows: the encoded
/// segment for the deterministic builders, and for an echo builder any
/// message whose identifier and sequence number agree with the fields that
/// were set (an unset one is drawn at random at build time).
pub open spec fn transport_layer_bytes_ok(t: Option<TransportLayerBuilder>, b: Seq<u8>) -> bool {
    match t {
        Some(TransportLayerBuilder::Icmp(ib)) => exists|ident: u16, seqn: u16|
            {
                &&& b == icmp_echo_encode_spec(ib.icmp_type, ident, seqn)
                &&& (ib.identifier is Some ==> ident == ib.identifier->0)
                &&& (ib.sequence_number is Some ==> seqn == ib.sequence_number->0)
            },
        Some(TransportLayerBuilder::Icmpv6(ib)) => exists|ident: u16, seqn: u16|
            {
                &&& b == icmpv6_echo_encode_spec(ib.src_ip, ib.dst_ip, ib.icmpv6_type, ident, seqn)
                &&& (ib.identifier is Some ==> ident == ib.identifier->0)
                &&& (ib.sequence_number is Some ==> seqn == ib.sequence_number->0)
            },
        Some(TransportLayerBuilder::Tcp(tb)) => b == tcp_encode_v4_spec(
            tb.src_ip,
            tb.dst_ip,
            tb.src_port,
            tb.dst_port,
            tb.sequence,
            tb.acknowledgement,
            tb.flags@,
            tb.window,
            tb.urgent_ptr,
            tb.options@,
            tb.payload@,
        ),
        Some(TransportLayerBuilder::Udp(ub)) => b == udp_encode_v4_spec(
            ub.src_ip,
            ub.dst_ip,
            ub.src_port,
            ub.dst_port,
            ub.payload@,
        ),
        None => b == Seq::<u8>::empty(),
    }
}

/// The size bounds serialization needs of each populated layer.
pub open spec fn packet_builder_wf(p: PacketBuilder) -> bool {
    &&& match p.network {
        Some(NetworkLayerBuilder::Ipv4(b)) => b.payload@.len() <= 65515,
        Some(NetworkLayerBuilder::Ipv6(b)) => b.flow_label < 0x10_0000 && b.payload@.len()
            <= 65535,
        _ => true,
    }
    &&& match p.transport {
        Some(TransportLayerBuilder::Tcp(tb)) => tcp_options_encode_spec(tb.options@).len() <= 40
            && tb.payload@.len() <= 65475,
        Some(TransportLayerBuilder::Udp(ub)) => ub.payload@.len() <= 65527,
        _ => true,
    }
}

/// Whether the flat convenience fields of two builder states agree.
pub open spec fn same_flat_fields(a: PacketBuilder, b: PacketBuilder) -> bool {
    &&& a.src_mac == b.src_mac
    &&& a.dst_mac == b.dst_mac
    &&& a.ether_type == b.ether_type
    &&& a.src_ip == b.src_ip
    &&& a.dst_ip == b.dst_ip
    &&& a.ip_protocol == b.ip_protocol
    &&& a.src_port == b.src_port
    &&& a.dst_port == b.dst_port
}

impl PacketBuilder {
    /// An empty builder: no layer set, no flat field set, no raw payload.
    pub fn new() -> (r: PacketBuilder)
        ensures
            r.ethernet is None,
            r.network is None,
            r.transport is None,
            r.src_mac is None,
            r.dst_mac is None,
            r.ether_type is None,
            r.src_ip is None,
            r.dst_ip is None,
            r.ip_protocol is None,
            r.src_port is None,
            r.dst_port is None,
            r.payload@ == Seq::<u8>::empty(),
    {
        PacketBuilder {
            ethernet: None,
            network: None,
            transport: None,
            src_mac: None,
            dst_mac: None,
            ether_type: None,
            src_ip: None,
            dst_ip: None,
            ip_protocol: None,
            src_port: None,
            dst_port: None,
            payload: Vec::new(),
        }
    }

    /// Set or replace the Ethernet layer.
    pub fn set_ethernet(&mut self, b: EthernetPacketBuilder)
        ensures
            final(self).ethernet == Some(b),
            final(self).network == old(self).network,
            final(self).transport == old(self).transport,
            final(self).payload == old(self).payload,
            same_flat_fields(*old(self), *final(self)),
    {
        self.ethernet = Some(b);
    }

    /// Set the ARP network layer, replacing any other network layer.
    pub fn set_arp(&mut self, b: ArpPacketBuilder)
        ensures
            final(self).network == Some(NetworkLayerBuilder::Arp(b)),
            final(self).ethernet == old(self).ethernet,
            final(self).transport == old(self).transport,
            final(self).payload == old(self).payload,
            same_flat_fields(*old(self), *final(self)),
    {
        self.network = Some(NetworkLayerBuilder::Arp(b));
    }

    /// Set the IPv4 network layer, replacing any other network layer.
    pub fn set_ipv4(&mut self, b: Ipv4PacketBuilder)
        ensures
            final(self).network == Some(NetworkLayerBuilder::Ipv4(b)),
            final(self).ethernet == old(self).ethernet,
            final(self).transport == old(self).transport,
            final(self).payload == old(self).payload,
            same_flat_fields(*old(self), *final(self)),
    {
        self.network = Some(NetworkLayerBuilder::Ipv4(b));
    }

    /// Set the IPv6 network layer, replacing any other network layer.
    pub fn set_ipv6(&mut self, b: Ipv6PacketBuilder)
        ensures
            final(self).network == Some(NetworkLayerBuilder::Ipv6(b)),
            final(self).ethernet == old(self).ethernet,
            final(self).transport == old(self).transport,
            final(self).payload == old(self).payload,
            same_flat_fields(*old(self), *final(self)),
    {
        self.network = Some(NetworkLayerBuilder::Ipv6(b));
    }

    /// Set the ICMP transport layer, replacing any other transport layer.
    pub fn set_icmp(&mut self, b: IcmpPacketBuilder)
        ensures
            final(self).transport == Some(TransportLayerBuilder::Icmp(b)),
            final(self).ethernet == old(self).ethernet,
            final(self).network == old(self).network,
            final(self).payload == old(self).payload,
            same_flat_fields(*old(self), *final(self)),
    {
        self.transport = Some(TransportLayerBuilder::Icmp(b));
    }

    /// Set the ICMPv6 transport layer, replacing any other transport layer.
    pub fn set_icmpv6(&mut self, b: Icmpv6PacketBuilder)
        ensures
            final(self).transport == Some(TransportLayerBuilder::Icmpv6(b)),
            final(self).ethernet == old(self).ethernet,
            final(self).network == old(self).network,
            final(self).payload == old(self).payload,
            same_flat_fields(*old(self), *final(self)),
    {
        self.transport = Some(TransportLayerBuilder::Icmpv6(b));
    }

    /// Set the TCP transport layer, replacing any other transport layer.
    pub fn set_tcp(&mut self, b: TcpPacketBuilder)
        ensures
            final(self).transport == Some(TransportLayerBuilder::Tcp(b)),
            final(self).ethernet == old(self).ethernet,
            final(self).network == old(self).network,
            final(self).payload == old(self).payload,
            same_flat_fields(*old(self), *final(self)),
    {
        self.transport = Some(TransportLayerBuilder::Tcp(b));
    }

    /// Set the UDP transport layer, replacing any other transport layer.
    pub fn set_udp(&mut self, b: UdpPacketBuilder)
        ensures
            final(self).transport == Some(TransportLayerBuilder::Udp(b)),
            final(self).ethernet == old(self).ethernet,
            final(self).network == old(self).network,
            final(self).payload == old(self).payload,
            same_flat_fields(*old(self), *final(self)),
    {
        self.transport = Some(TransportLayerBuilder::Udp(b));
    }

    /// Set the raw payload appended after the last layer.
    pub fn set_payload(&mut self, payload: Vec<u8>)
        ensures
            final(self).payload == payload,
            final(self).ethernet == old(self).ethernet,
            final(self).network == old(self).network,
            final(self).transport == old(self).transport,
            same_flat_fields(*old(self), *final(self)),
    {
        self.payload = payload;
    }

    /// Serialize the whole stack: Ethernet bytes first, then the network
    /// layer, then the transport layer, then the raw payload, each layer
    /// encoded by its own codec, an absent layer promoted from the flat
    /// fields where they suffice.  The builder stays reusable.
    pub fn packet(&self) -> (r: Vec<u8>)
        requires
            packet_builder_wf(*self),
        ensures
            exists|tb: Seq<u8>|
                {
                    &&& r@ == resolved_ethernet_bytes_spec(*self) + resolved_network_bytes_spec(
                        *self,
                    ) + tb + self.payload@
                    &&& resolved_transport_bytes_ok(*self, tb)
                },
    {
        let mut out: Vec<u8> = Vec::new();
        match &self.ethernet {
            Some(b) => {
                let bytes = b.build();
                push_bytes(&mut out, bytes.as_slice());
            },
            None => match self.ether_type {
                Some(et) => {
                    let promoted = EthernetPacketBuilder {
                        dst_mac: mac_or_zero(self.dst_mac),
                        src_mac: mac_or_zero(self.src_mac),
                        ether_type: et,
                        payload: Vec::new(),
                    };
                    let bytes = promoted.build();
                    push_bytes(&mut out, bytes.as_slice());
                },
                None => {},
            },
        }
        assert(out@ =~= resolved_ethernet_bytes_spec(*self));
        match &self.network {
            Some(NetworkLayerBuilder::Arp(b)) => {
                let bytes = b.build();
                push_bytes(&mut out, bytes.as_slice());
            },
            Some(NetworkLayerBuilder::Ipv4(b)) => {
                let bytes = b.build();
                push_bytes(&mut out, bytes.as_slice());
            },
            Some(NetworkLayerBuilder::Ipv6(b)) => {
                let bytes = b.build();
                push_bytes(&mut out, bytes.as_slice());
            },
            None => match (self.src_ip, self.dst_ip, self.ip_protocol) {
                (Some(IpAddress::V4(a)), Some(IpAddress::V4(b)), Some(pr)) => {
                    let promoted = Ipv4PacketBuilder::new(a, b, pr);
                    let bytes = promoted.build();
                    push_bytes(&mut out, bytes.as_slice());
                },
                (Some(IpAddress::V6(a)), Some(IpAddress::V6(b)), Some(pr)) => {
                    let promoted = Ipv6PacketBuilder::new(a, b, pr);
                    let bytes = promoted.build();
                    push_bytes(&mut out, bytes.as_slice());
                },
                _ => {},
            },
        }
        let ghost eth_net: Seq<u8> = resolved_ethernet_bytes_spec(*self)
            + resolved_network_bytes_spec(*self);
        assert(out@ =~= eth_net);
        let ghost tbytes: Seq<u8>;
        match &self.transport {
            Some(TransportLayerBuilder::Icmp(b)) => {
                let bytes = b.build();
                push_bytes(&mut out, bytes.as_slice());
                proof {
                    tbytes = bytes@;
                }
            },
            Some(TransportLayerBuilder::Icmpv6(b)) => {
                let bytes = b.build();
                push_bytes(&mut out, bytes.as_slice());
                proof {
                    tbytes = bytes@;
                }
            },
            Some(TransportLayerBuilder::Tcp(b)) => {
                let bytes = b.build();
                push_bytes(&mut out, bytes.as_slice());
                proof {
                    tbytes = bytes@;
                }
            },
            Some(TransportLayerBuilder::Udp(b)) => {
                let bytes = b.build();
                push_bytes(&mut out, bytes.as_slice());
                proof {
                    tbytes = bytes@;
                }
            },
            None => match (self.src_ip, self.dst_ip, self.ip_protocol, self.src_port, self.dst_port) {
                (
                    Some(IpAddress::V4(sa)),
                    Some(IpAddress::V4(da)),
                    Some(IpNextLevelProtocol::Tcp),
                    Some(sp),
                    Some(dp),
                ) => {
                    let promoted = TcpPacketBuilder::new(sa, sp, da, dp);
                    let bytes = promoted.build();
                    push_bytes(&mut out, bytes.as_slice());
                    proof {
                        tbytes = bytes@;
                    }
                },
                (
                    Some(IpAddress::V4(sa)),
                    Some(IpAddress::V4(da)),
                    Some(IpNextLevelProtocol::Udp),
                    Some(sp),
                    Some(dp),
                ) => {
                    let promoted = UdpPacketBuilder::new(sa, sp, da, dp);
                    let bytes = promoted.build();
                    push_bytes(&mut out, bytes.as_slice());
                    proof {
                        tbytes = bytes@;
                    }
                },
                _ => {
                    proof {
                        tbytes = Seq::<u8>::empty();
                    }
                },
            },
        }
        assert(out@ =~= eth_net + tbytes);
        assert(resolved_transport_bytes_ok(*self, tbytes));
        push_bytes(&mut out, self.payload.as_slice());
        assert(out@ =~= resolved_ethernet_bytes_spec(*self) + resolved_network_bytes_spec(*self)
            + tbytes + self.payload@);
        out
    }

    /// Serialize the stack when every populated layer is within its size
    /// bounds, and report an oversize layer as `None` instead of building
    /// anything.
    pub fn try_packet(&self) -> (r: Option<Vec<u8>>)
        ensures
            r is Some <==> packet_builder_wf(*self),
            r is Some ==> exists|tb: Seq<u8>|
                {
                    &&& r->0@ == resolved_ethernet_bytes_spec(*self) + resolved_network_bytes_spec(
                        *self,
                    ) + tb + self.payload@
                    &&& resolved_transport_bytes_ok(*self, tb)
                },
    {
        let network_ok = match &self.network {
            Some(NetworkLayerBuilder::Ipv4(b)) => b.payload.len() <= 65515,
            Some(NetworkLayerBuilder::Ipv6(b)) => b.flow_label < 0x10_0000 && b.payload.len()
                <= 65535,
            _ => true,
        };
        let transport_ok = match &self.transport {
            Some(TransportLayerBuilder::Tcp(tb)) => {
                let encoded = build_tcp_options(&tb.options);
                encoded.len() <= 40 && tb.payload.len() <= 65475
            },
            Some(TransportLayerBuilder::Udp(ub)) => ub.payload.len() <= 65527,
            _ => true,
        };
        if network_ok && transport_ok {
            Some(self.packet())
        } else {
            None
        }
    }
}

} // verus!
