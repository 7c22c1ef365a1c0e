use vstd::prelude::*;
use crate::packet::bytes::{be16, be16_hi, be16_lo, push_be16, push_bytes, copy_range, read_be16};
use crate::packet::checksum::{checksum, internet_checksum};
use crate::packet::ip::Ipv4Address;

verus! {

/// Length of a UDP header in bytes.
pub const UDP_HEADER_LEN: usize = 8;

/// A decoded UDP datagram.
#[derive(Clone, Debug, PartialEq)]
pub struct UdpPacket {
    pub source: u16,
    pub destination: u16,
    pub length: u16,
    pub checksum: u16,
    pub payload: Vec<u8>,
}

/// The eight header bytes of a UDP datagram with the given ports, length
/// field and checksum slot.
pub open spec fn udp_header_spec(sp: u16, dp: u16, len: u16, ck: u16) -> Seq<u8> {
    seq![
        be16_hi(sp),
        be16_lo(sp),
        be16_hi(dp),
        be16_lo(dp),
        be16_hi(len),
        be16_lo(len),
        be16_hi(ck),
        be16_lo(ck),
    ]
}

/// The IPv4 pseudo-header the UDP and TCP checksums are computed over:
/// source address, destination address, a zero byte, the protocol number,
/// and the upper-layer length.
pub open spec fn pseudo_header_v4_spec(src_ip: Ipv4Address, dst_ip: Ipv4Address, protocol: u8, len: u16) -> Seq<u8> {
    src_ip@ + dst_ip@ + seq![0u8, protocol, be16_hi(len), be16_lo(len)]
}

/// The on-wire bytes of a UDP datagram over IPv4: the header whose length
/// field covers header and payload and whose checksum is computed over the
/// pseudo-header, the checksum-zeroed header and the payload.
pub open spec fn udp_encode_v4_spec(
    src_ip: Ipv4Address,
    dst_ip: Ipv4Address,
    sp: u16,
    dp: u16,
    payload: Seq<u8>,
) -> Seq<u8> {
    let len = (8 + payload.len()) as u16;
    let ck = internet_checksum(
        pseudo_header_v4_spec(src_ip, dst_ip, 17, len) + udp_header_spec(sp, dp, len, 0) + payload,
    );
    udp_header_spec(sp, dp, len, ck) + payload
}

impl UdpPacket {
    /// Decode a UDP datagram.  The buffer must hold at least the 8-byte
    /// header; the remainder becomes the payload.
    pub fn from_bytes(packet: &[u8]) -> (r: UdpPacket)
        requires
            packet@.len() >= 8,
        ensures
            r.source == be16(packet@[0], packet@[1]),
            r.destination == be16(packet@[2], packet@[3]),
            r.length == be16(packet@[4], packet@[5]),
            r.checksum == be16(packet@[6], packet@[7]),
            r.payload@ == packet@.subrange(8, packet@.len() as int),
    {
        UdpPacket {
            source: read_be16(packet, 0),
            destination: read_be16(packet, 2),
            length: read_be16(packet, 4),
            checksum: read_be16(packet, 6),
            payload: copy_range(packet, 8, packet.len()),
        }
    }
}

/// Caller-populated fields of a UDP datagram over IPv4, consumed by `build`
/// to produce the on-wire bytes.  The addresses only enter the checksum's
/// pseudo-header.
#[derive(Clone, Debug)]
pub struct UdpPacketBuilder {
    pub src_ip: Ipv4Address,
    pub dst_ip: Ipv4Address,
    pub src_port: u16,
    pub dst_port: u16,
    pub payload: Vec<u8>,
}

impl UdpPacketBuilder {
    /// A builder for a datagram between the given socket pairs, with no
    /// payload.
    pub fn new(src_ip: Ipv4Address, src_port: u16, dst_ip: Ipv4Address, dst_port: u16) -> (r:
        UdpPacketBuilder)
        ensures
            r.src_ip == src_ip,
            r.dst_ip == dst_ip,
            r.src_port == src_port,
            r.dst_port == dst_port,
            r.payload@ == Seq::<u8>::empty(),
    {
        UdpPacketBuilder { src_ip, dst_ip, src_port, dst_port, payload: Vec::new() }
    }

    /// Serialize the datagram: 8-byte header with computed length and
    /// pseudo-header checksum, then the payload.
    pub fn build(&self) -> (r: Vec<u8>)
        requires
            self.payload@.len() <= 65527,
        ensures
            r@ == udp_encode_v4_spec(
                self.src_ip,
                self.dst_ip,
                self.src_port,
                self.dst_port,
                self.payload@,
            ),
            r@.len() == 8 + self.payload@.len(),
    {
        let len: u16 = 8 + (self.payload.len() as u16);
        let mut ckbuf: Vec<u8> = Vec::new();
        ckbuf.push(self.src_ip.0);
        ckbuf.push(self.src_ip.1);
        ckbuf.push(self.src_ip.2);
        ckbuf.push(self.src_ip.3);
        ckbuf.push(self.dst_ip.0);
        ckbuf.push(self.dst_ip.1);
        ckbuf.push(self.dst_ip.2);
        ckbuf.push(self.dst_ip.3);
        ckbuf.push(0);
        ckbuf.push(17);
        push_be16(&mut ckbuf, len);
        push_be16(&mut ckbuf, self.src_port);
        push_be16(&mut ckbuf, self.dst_port);
        push_be16(&mut ckbuf, len);
        push_be16(&mut ckbuf, 0);
        push_bytes(&mut ckbuf, self.payload.as_slice());
        assert(ckbuf@ =~= pseudo_header_v4_spec(self.src_ip, self.dst_ip, 17, len)
            + udp_header_spec(self.src_port, self.dst_port, len, 0) + self.payload@);
        let ck = checksum(&ckbuf);
        let mut out: Vec<u8> = Vec::new();
        push_be16(&mut out, self.src_port);
        push_be16(&mut out, self.dst_port);
        push_be16(&mut out, len);
        push_be16(&mut out, ck);
        push_bytes(&mut out, self.payload.as_slice());
        assert(out@ =~= udp_encode_v4_spec(
            self.src_ip,
            self.dst_ip,
            self.src_port,
            self.dst_port,
            self.payload@,
        ));
        out
    }
}

/// Round trip: decoding an encoded UDP datagram reproduces both ports, the
/// computed length field, the pseudo-header checksum and the payload.
pub proof fn lemma_udp_round_trip(
    src_ip: Ipv4Address,
    dst_ip: Ipv4Address,
    sp: u16,
    dp: u16,
    payload: Seq<u8>,
)
    requires
        payload.len() <= 65527,
    ensures
        ({
            let b = udp_encode_v4_spec(src_ip, dst_ip, sp, dp, payload);
            let len = (8 + payload.len()) as u16;
            let ck = internet_checksum(
                pseudo_header_v4_spec(src_ip, dst_ip, 17, len) + udp_header_spec(sp, dp, len, 0)
                    + payload,
            );
            &&& be16(b[0], b[1]) == sp
            &&& be16(b[2], b[3]) == dp
            &&& be16(b[4], b[5]) == len
            &&& be16(b[6], b[7]) == ck
            &&& b.subrange(8, b.len() as int) == payload
        }),
{
    let b = udp_encode_v4_spec(src_ip, dst_ip, sp, dp, payload);
    let len = (8 + payload.len()) as u16;
    let ck = internet_checksum(
        pseudo_header_v4_spec(src_ip, dst_ip, 17, len) + udp_header_spec(sp, dp, len, 0) + payload,
    );
    crate::packet::bytes::lemma_be16_round_trip(sp, 0, 0);
    crate::packet::bytes::lemma_be16_round_trip(dp, 0, 0);
    crate::packet::bytes::lemma_be16_round_trip(len, 0, 0);
    crate::packet::bytes::lemma_be16_round_trip(ck, 0, 0);
    assert(b.subrange(8, b.len() as int) =~= payload);
}

} // verus!
