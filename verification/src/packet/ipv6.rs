use vstd::prelude::*;
use crate::packet::bytes::{be16, be16_hi, be16_lo, push_be16, push_bytes, copy_range, read_be16};
use crate::packet::ip::{IpNextLevelProtocol, Ipv6Address, protocol_number_spec, protocol_from_number_spec};

verus! {

/// Length of an IPv6 fixed header in bytes.
pub const IPV6_HEADER_LEN: usize = 40;

/// A decoded IPv6 packet (fixed header only; extension headers count as
/// payload).
#[derive(Clone, Debug, PartialEq)]
pub struct Ipv6Packet {
    pub version: u8,
    pub traffic_class: u8,
    pub flow_label: u32,
    pub payload_length: u16,
    pub next_header: IpNextLevelProtocol,
    pub hop_limit: u8,
    pub source: Ipv6Address,
    pub destination: Ipv6Address,
    pub payload: Vec<u8>,
}

/// The on-wire bytes of an IPv6 packet: version 6, traffic class and
/// 20-bit flow label packed into the first four bytes, the payload length,
/// next header and hop limit, both addresses, then the payload.
pub open spec fn ipv6_encode_spec(
    src: Ipv6Address,
    dst: Ipv6Address,
    next_header: IpNextLevelProtocol,
    hop_limit: u8,
    traffic_class: u8,
    flow_label: u32,
    payload: Seq<u8>,
) -> Seq<u8> {
    let len = payload.len() as u16;
    seq![
        (96 + traffic_class / 16) as u8,
        ((traffic_class % 16) * 16 + flow_label / 0x1_0000) as u8,
        ((flow_label / 256) % 256) as u8,
        (flow_label % 256) as u8,
        be16_hi(len),
        be16_lo(len),
        protocol_number_spec(next_header),
        hop_limit,
    ] + src@ + dst@ + payload
}

impl Ipv6Packet {
    /// Decode an IPv6 packet.  The buffer must hold at least the 40-byte
    /// fixed header; the remainder becomes the payload.
    pub fn from_bytes(packet: &[u8]) -> (r: Ipv6Packet)
        requires
            packet@.len() >= 40,
        ensures
            r.version == packet@[0] / 16,
            r.traffic_class == (packet@[0] % 16) * 16 + packet@[1] / 16,
            r.flow_label == (packet@[1] % 16) as int * 0x1_0000 + packet@[2] * 256 + packet@[3],
            r.payload_length == be16(packet@[4], packet@[5]),
            r.next_header == protocol_from_number_spec(packet@[6]),
            r.hop_limit == packet@[7],
            r.source@ == packet@.subrange(8, 24),
            r.destination@ == packet@.subrange(24, 40),
            r.payload@ == packet@.subrange(40, packet@.len() as int),
    {
        let source = Ipv6Address(
            read_be16(packet, 8),
            read_be16(packet, 10),
            read_be16(packet, 12),
            read_be16(packet, 14),
            read_be16(packet, 16),
            read_be16(packet, 18),
            read_be16(packet, 20),
            read_be16(packet, 22),
        );
        let destination = Ipv6Address(
            read_be16(packet, 24),
            read_be16(packet, 26),
            read_be16(packet, 28),
            read_be16(packet, 30),
            read_be16(packet, 32),
            read_be16(packet, 34),
            read_be16(packet, 36),
            read_be16(packet, 38),
        );
        proof {
            crate::packet::bytes::lemma_be16_round_trip(0, packet@[8], packet@[9]);
            assert forall|i: int| 0 <= i < 16 implies source@[i] == packet@.subrange(8, 24)[i] by {
                crate::packet::bytes::lemma_be16_round_trip(0, packet@[8 + 2 * (i / 2)], packet@[9 + 2 * (i / 2)]);
            }
            assert(source@ =~= packet@.subrange(8, 24));
            assert forall|i: int| 0 <= i < 16 implies destination@[i] == packet@.subrange(24, 40)[i] by {
                crate::packet::bytes::lemma_be16_round_trip(0, packet@[24 + 2 * (i / 2)], packet@[25 + 2 * (i / 2)]);
            }
            assert(destination@ =~= packet@.subrange(24, 40));
        }
        let flow_label: u32 = ((packet[1] % 16) as u32) * 0x1_0000 + (packet[2] as u32) * 256 + (
        packet[3] as u32);
        Ipv6Packet {
            version: packet[0] / 16,
            traffic_class: (packet[0] % 16) * 16 + packet[1] / 16,
            flow_label,
            payload_length: read_be16(packet, 4),
            next_header: IpNextLevelProtocol::from_number(packet[6]),
            hop_limit: packet[7],
            source,
            destination,
            payload: copy_range(packet, 40, packet.len()),
        }
    }
}

/// Caller-populated fields of an IPv6 packet, consumed by `build` to
/// produce the on-wire bytes.  Version is fixed at 6.
#[derive(Clone, Debug)]
pub struct Ipv6PacketBuilder {
    pub src_ip: Ipv6Address,
    pub dst_ip: Ipv6Address,
    pub next_header: IpNextLevelProtocol,
    pub hop_limit: u8,
    pub traffic_class: u8,
    pub flow_label: u32,
    pub payload: Vec<u8>,
}

impl Ipv6PacketBuilder {
    /// A builder for a packet from `src_ip` to `dst_ip` carrying
    /// `next_header`, with hop limit 64, traffic class 0, flow label 0 and
    /// no payload.
    pub fn new(src_ip: Ipv6Address, dst_ip: Ipv6Address, next_header: IpNextLevelProtocol) -> (r:
        Ipv6PacketBuilder)
        ensures
            r.src_ip == src_ip,
            r.dst_ip == dst_ip,
            r.next_header == next_header,
            r.hop_limit == 64,
            r.traffic_class == 0,
            r.flow_label == 0,
            r.payload@ == Seq::<u8>::empty(),
    {
        Ipv6PacketBuilder {
            src_ip,
            dst_ip,
            next_header,
            hop_limit: 64,
            traffic_class: 0,
            flow_label: 0,
            payload: Vec::new(),
        }
    }

    /// Serialize the packet: 40-byte fixed header with the computed payload
    /// length, then the payload.
    pub fn build(&self) -> (r: Vec<u8>)
        requires
            self.flow_label < 0x10_0000,
            self.payload@.len() <= 65535,
        ensures
            r@ == ipv6_encode_spec(
                self.src_ip,
                self.dst_ip,
                self.next_header,
                self.hop_limit,
                self.traffic_class,
                self.flow_label,
                self.payload@,
            ),
            r@.len() == 40 + self.payload@.len(),
    {
        let len: u16 = self.payload.len() as u16;
        let mut buf: Vec<u8> = Vec::new();
        buf.push(96 + self.traffic_class / 16);
        buf.push((self.traffic_class % 16) * 16 + ((self.flow_label / 0x1_0000) as u8));
        buf.push(((self.flow_label / 256) % 256) as u8);
        buf.push((self.flow_label % 256) as u8);
        push_be16(&mut buf, len);
        buf.push(self.next_header.number());
        buf.push(self.hop_limit);
        push_be16(&mut buf, self.src_ip.0);
        push_be16(&mut buf, self.src_ip.1);
        push_be16(&mut buf, self.src_ip.2);
        push_be16(&mut buf, self.src_ip.3);
        push_be16(&mut buf, self.src_ip.4);
        push_be16(&mut buf, self.src_ip.5);
        push_be16(&mut buf, self.src_ip.6);
        push_be16(&mut buf, self.src_ip.7);
        push_be16(&mut buf, self.dst_ip.0);
        push_be16(&mut buf, self.dst_ip.1);
        push_be16(&mut buf, self.dst_ip.2);
        push_be16(&mut buf, self.dst_ip.3);
        push_be16(&mut buf, self.dst_ip.4);
        push_be16(&mut buf, self.dst_ip.5);
        push_be16(&mut buf, self.dst_ip.6);
        push_be16(&mut buf, self.dst_ip.7);
        push_bytes(&mut buf, self.payload.as_slice());
        assert(buf@ =~= ipv6_encode_spec(
            self.src_ip,
            self.dst_ip,
            self.next_header,
            self.hop_limit,
            self.traffic_class,
            self.flow_label,
            self.payload@,
        ));
        buf
    }
}

/// Round trip: decoding an encoded IPv6 packet reproduces version 6, the
/// traffic class, flow label, computed payload length, next header (its
/// number preserved even when unknown), hop limit, both addresses and the
/// payload.
pub proof fn lemma_ipv6_round_trip(
    src: Ipv6Address,
    dst: Ipv6Address,
    next_header: IpNextLevelProtocol,
    hop_limit: u8,
    traffic_class: u8,
    flow_label: u32,
    payload: Seq<u8>,
)
    requires
        flow_label < 0x10_0000,
        payload.len() <= 65535,
    ensures
        ({
            let b = ipv6_encode_spec(src, dst, next_header, hop_limit, traffic_class, flow_label, payload);
            &&& b[0] / 16 == 6
            &&& (b[0] % 16) * 16 + b[1] / 16 == traffic_class
            &&& (b[1] % 16) as int * 0x1_0000 + b[2] * 256 + b[3] == flow_label
            &&& be16(b[4], b[5]) == payload.len() as u16
            &&& protocol_number_spec(protocol_from_number_spec(b[6])) == protocol_number_spec(next_header)
            &&& !(next_header is Unknown) ==> protocol_from_number_spec(b[6]) == next_header
            &&& b[7] == hop_limit
            &&& b.subrange(8, 24) == src@
            &&& b.subrange(24, 40) == dst@
            &&& b.subrange(40, b.len() as int) == payload
        }),
{
    let b = ipv6_encode_spec(src, dst, next_header, hop_limit, traffic_class, flow_label, payload);
    let len = payload.len() as u16;
    crate::packet::bytes::lemma_be16_round_trip(len, 0, 0);
    crate::packet::ip::lemma_protocol_round_trip(next_header);
    crate::packet::ip::lemma_protocol_number_preserved(protocol_number_spec(next_header));
    assert(((flow_label / 0x1_0000) * 0x1_0000 + ((flow_label / 256) % 256) * 256 + (flow_label
        % 256)) == flow_label) by (bit_vector);
    assert(b.subrange(8, 24) =~= src@);
    assert(b.subrange(24, 40) =~= dst@);
    assert(b.subrange(40, b.len() as int) =~= payload);
}

} // verus!
