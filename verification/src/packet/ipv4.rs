use vstd::prelude::*;
use crate::packet::bytes::{be16, be16_hi, be16_lo, push_be16, push_bytes, copy_range, read_be16};
use crate::packet::checksum::{checksum, internet_checksum};
use crate::packet::ip::{IpNextLevelProtocol, Ipv4Address, protocol_number_spec, protocol_from_number_spec};

verus! {

/// Length of an IPv4 header without options, in bytes.
pub const IPV4_HEADER_LEN: usize = 20;

/// A decoded IPv4 packet.
#[derive(Clone, Debug, PartialEq)]
pub struct Ipv4Packet {
    pub version: u8,
    pub header_length: u8,
    pub dscp: u8,
    pub ecn: u8,
    pub total_length: u16,
    pub identification: u16,
    pub flags: u8,
    pub fragment_offset: u16,
    pub ttl: u8,
    pub next_level_protocol: IpNextLevelProtocol,
    pub checksum: u16,
    pub source: Ipv4Address,
    pub destination: Ipv4Address,
    pub options: Vec<u8>,
    pub payload: Vec<u8>,
}

/// The 20 header bytes of an options-free IPv4 packet with the given fields
/// and the given value in the checksum slot.
pub open spec fn ipv4_header_spec(
    src: Ipv4Address,
    dst: Ipv4Address,
    protocol: IpNextLevelProtocol,
    ttl: u8,
    identification: u16,
    total_length: u16,
    ck: u16,
) -> Seq<u8> {
    seq![
        0x45u8,
        0u8,
        be16_hi(total_length),
        be16_lo(total_length),
        be16_hi(identification),
        be16_lo(identification),
        0u8,
        0u8,
        ttl,
        protocol_number_spec(protocol),
        be16_hi(ck),
        be16_lo(ck),
    ] + src@ + dst@
}

/// The on-wire bytes of an options-free IPv4 packet: the header with its
/// checksum computed over the checksum-zeroed header, then the payload.
/// The total length field covers header and payload.
pub open spec fn ipv4_encode_spec(
    src: Ipv4Address,
    dst: Ipv4Address,
    protocol: IpNextLevelProtocol,
    ttl: u8,
    identification: u16,
    payload: Seq<u8>,
) -> Seq<u8> {
    let total_length = (20 + payload.len()) as u16;
    let ck = internet_checksum(ipv4_header_spec(src, dst, protocol, ttl, identification, total_length, 0));
    ipv4_header_spec(src, dst, protocol, ttl, identification, total_length, ck) + payload
}

/// Index of the first payload byte of an encoded IPv4 packet: where the
/// header length field points, clamped to the buffer.
pub open spec fn ipv4_payload_start_spec(b: Seq<u8>) -> int {
    let hl = 4 * (b[0] as int % 16);
    if 20 <= hl <= b.len() {
        hl
    } else {
        20
    }
}

impl Ipv4Packet {
    /// Decode an IPv4 packet.  The buffer must hold at least the 20-byte
    /// minimum header; the payload starts where the header length field
    /// points (or right after the minimum header if that field is invalid)
    /// and runs to the end of the buffer, and the bytes between the
    /// minimum header and the payload pass through as the options.
    pub fn from_bytes(packet: &[u8]) -> (r: Ipv4Packet)
        requires
            packet@.len() >= 20,
        ensures
            r.version == packet@[0] / 16,
            r.header_length == packet@[0] % 16,
            r.dscp == packet@[1] / 4,
            r.ecn == packet@[1] % 4,
            r.total_length == be16(packet@[2], packet@[3]),
            r.identification == be16(packet@[4], packet@[5]),
            r.flags == packet@[6] / 32,
            r.fragment_offset == be16(packet@[6], packet@[7]) % 8192,
            r.ttl == packet@[8],
            r.next_level_protocol == protocol_from_number_spec(packet@[9]),
            r.checksum == be16(packet@[10], packet@[11]),
            r.source@ == packet@.subrange(12, 16),
            r.destination@ == packet@.subrange(16, 20),
            r.options@ == packet@.subrange(20, ipv4_payload_start_spec(packet@)),
            r.payload@ == packet@.subrange(ipv4_payload_start_spec(packet@), packet@.len() as int),
    {
        let header_length = packet[0] % 16;
        let hl_bytes: usize = 4 * (header_length as usize);
        let start: usize = if 20 <= hl_bytes && hl_bytes <= packet.len() {
            hl_bytes
        } else {
            20
        };
        let source = Ipv4Address(packet[12], packet[13], packet[14], packet[15]);
        let destination = Ipv4Address(packet[16], packet[17], packet[18], packet[19]);
        assert(source@ =~= packet@.subrange(12, 16));
        assert(destination@ =~= packet@.subrange(16, 20));
        Ipv4Packet {
            version: packet[0] / 16,
            header_length,
            dscp: packet[1] / 4,
            ecn: packet[1] % 4,
            total_length: read_be16(packet, 2),
            identification: read_be16(packet, 4),
            flags: packet[6] / 32,
            fragment_offset: read_be16(packet, 6) % 8192,
            ttl: packet[8],
            next_level_protocol: IpNextLevelProtocol::from_number(packet[9]),
            checksum: read_be16(packet, 10),
            source,
            destination,
            options: copy_range(packet, 20, start),
            payload: copy_range(packet, start, packet.len()),
        }
    }
}

/// Caller-populated fields of an options-free IPv4 packet, consumed by
/// `build` to produce the on-wire bytes.  Version, header length, DSCP,
/// ECN, flags and fragment offset are fixed at 4, 5, 0, 0, 0 and 0.
#[derive(Clone, Debug)]
pub struct Ipv4PacketBuilder {
    pub src_ip: Ipv4Address,
    pub dst_ip: Ipv4Address,
    pub protocol: IpNextLevelProtocol,
    pub ttl: u8,
    pub identification: u16,
    pub payload: Vec<u8>,
}

impl Ipv4PacketBuilder {
    /// A builder for a packet from `src_ip` to `dst_ip` carrying `protocol`,
    /// with a time-to-live of 64, identification 0 and no payload.
    pub fn new(src_ip: Ipv4Address, dst_ip: Ipv4Address, protocol: IpNextLevelProtocol) -> (r:
        Ipv4PacketBuilder)
        ensures
            r.src_ip == src_ip,
            r.dst_ip == dst_ip,
            r.protocol == protocol,
            r.ttl == 64,
            r.identification == 0,
            r.payload@ == Seq::<u8>::empty(),
    {
        Ipv4PacketBuilder { src_ip, dst_ip, protocol, ttl: 64, identification: 0, payload: Vec::new() }
    }

    /// Serialize the packet: 20-byte header with the computed total length
    /// and header checksum, then the payload.
    pub fn build(&self) -> (r: Vec<u8>)
        requires
            self.payload@.len() <= 65515,
        ensures
            r@ == ipv4_encode_spec(
                self.src_ip,
                self.dst_ip,
                self.protocol,
                self.ttl,
                self.identification,
                self.payload@,
            ),
            r@.len() == 20 + self.payload@.len(),
    {
        let total_length: u16 = 20 + (self.payload.len() as u16);
        let mut buf: Vec<u8> = Vec::new();
        buf.push(0x45);
        buf.push(0);
        push_be16(&mut buf, total_length);
        push_be16(&mut buf, self.identification);
        buf.push(0);
        buf.push(0);
        buf.push(self.ttl);
        buf.push(self.protocol.number());
        buf.push(0);
        buf.push(0);
        buf.push(self.src_ip.0);
        buf.push(self.src_ip.1);
        buf.push(self.src_ip.2);
        buf.push(self.src_ip.3);
        buf.push(self.dst_ip.0);
        buf.push(self.dst_ip.1);
        buf.push(self.dst_ip.2);
        buf.push(self.dst_ip.3);
        assert(buf@ =~= ipv4_header_spec(
            self.src_ip,
            self.dst_ip,
            self.protocol,
            self.ttl,
            self.identification,
            total_length,
            0,
        ));
        let ck = checksum(&buf);
        buf[10] = (ck / 256) as u8;
        buf[11] = (ck % 256) as u8;
        assert(buf@ =~= ipv4_header_spec(
            self.src_ip,
            self.dst_ip,
            self.protocol,
            self.ttl,
            self.identification,
            total_length,
            ck,
        ));
        push_bytes(&mut buf, self.payload.as_slice());
        buf
    }
}

/// Round trip: decoding an encoded options-free IPv4 packet reproduces every
/// field that was set, the fixed fields with their fixed values, the
/// computed total length, and the header checksum of the checksum-zeroed
/// header; the protocol number is preserved even for an unknown protocol.
pub proof fn lemma_ipv4_round_trip(
    src: Ipv4Address,
    dst: Ipv4Address,
    protocol: IpNextLevelProtocol,
    ttl: u8,
    identification: u16,
    payload: Seq<u8>,
)
    requires
        payload.len() <= 65515,
    ensures
        ({
            let b = ipv4_encode_spec(src, dst, protocol, ttl, identification, payload);
            let total_length = (20 + payload.len()) as u16;
            let ck = internet_checksum(
                ipv4_header_spec(src, dst, protocol, ttl, identification, total_length, 0),
            );
            &&& b[0] / 16 == 4
            &&& b[0] % 16 == 5
            &&& be16(b[2], b[3]) == total_length
            &&& be16(b[4], b[5]) == identification
            &&& b[8] == ttl
            &&& protocol_from_number_spec(b[9]) == protocol_from_number_spec(
                protocol_number_spec(protocol),
            )
            &&& !(protocol is Unknown) ==> protocol_from_number_spec(b[9]) == protocol
            &&& be16(b[10], b[11]) == ck
            &&& b.subrange(12, 16) == src@
            &&& b.subrange(16, 20) == dst@
            &&& ipv4_payload_start_spec(b) == 20
            &&& b.subrange(ipv4_payload_start_spec(b), b.len() as int) == payload
        }),
{
    let total_length = (20 + payload.len()) as u16;
    let ck = internet_checksum(
        ipv4_header_spec(src, dst, protocol, ttl, identification, total_length, 0),
    );
    let b = ipv4_encode_spec(src, dst, protocol, ttl, identification, payload);
    crate::packet::bytes::lemma_be16_round_trip(total_length, 0, 0);
    crate::packet::bytes::lemma_be16_round_trip(identification, 0, 0);
    crate::packet::bytes::lemma_be16_round_trip(ck, 0, 0);
    crate::packet::ip::lemma_protocol_round_trip(protocol);
    assert(b.subrange(12, 16) =~= src@);
    assert(b.subrange(16, 20) =~= dst@);
    assert(b.subrange(20, b.len() as int) =~= payload);
}

} // verus!
