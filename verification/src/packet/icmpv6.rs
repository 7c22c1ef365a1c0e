use vstd::prelude::*;
use crate::packet::bytes::{be16, be16_hi, be16_lo, copy_range, read_be16};
use crate::packet::checksum::{checksum, internet_checksum};
use crate::packet::icmp::random_u16;
use crate::packet::ip::Ipv6Address;

verus! {

/// Length in bytes of an ICMPv6 echo request packet without extra payload.
pub const ICMPV6_HEADER_LEN: usize = 8;

/// ICMPv6 message types of the IANA registry, with `Unknown` keeping any
/// unassigned numeric value verbatim.
#[derive(Clone, Copy, Debug, PartialEq, Eq, Structural)]
pub enum Icmpv6Type {
    DestinationUnreachable,
    PacketTooBig,
    TimeExceeded,
    ParameterProblem,
    EchoRequest,
    EchoReply,
    RouterSolicitation,
    RouterAdvertisement,
    NeighborSolicitation,
    NeighborAdvertisement,
    RedirectMessage,
    Unknown(u8),
}

/// IANA number of each ICMPv6 type.
pub open spec fn icmpv6_type_number_spec(t: Icmpv6Type) -> u8 {
    match t {
        Icmpv6Type::DestinationUnreachable => 1,
        Icmpv6Type::PacketTooBig => 2,
        Icmpv6Type::TimeExceeded => 3,
        Icmpv6Type::ParameterProblem => 4,
        Icmpv6Type::EchoRequest => 128,
        Icmpv6Type::EchoReply => 129,
        Icmpv6Type::RouterSolicitation => 133,
        Icmpv6Type::RouterAdvertisement => 134,
        Icmpv6Type::NeighborSolicitation => 135,
        Icmpv6Type::NeighborAdvertisement => 136,
        Icmpv6Type::RedirectMessage => 137,
        Icmpv6Type::Unknown(n) => n,
    }
}

/// The variant an ICMPv6 type number decodes to.
pub open spec fn icmpv6_type_from_number_spec(n: u8) -> Icmpv6Type {
    if n == 1 {
        Icmpv6Type::DestinationUnreachable
    } else if n == 2 {
        Icmpv6Type::PacketTooBig
    } else if n == 3 {
        Icmpv6Type::TimeExceeded
    } else if n == 4 {
        Icmpv6Type::ParameterProblem
    } else if n == 128 {
        Icmpv6Type::EchoRequest
    } else if n == 129 {
        Icmpv6Type::EchoReply
    } else if n == 133 {
        Icmpv6Type::RouterSolicitation
    } else if n == 134 {
        Icmpv6Type::RouterAdvertisement
    } else if n == 135 {
        Icmpv6Type::NeighborSolicitation
    } else if n == 136 {
        Icmpv6Type::NeighborAdvertisement
    } else if n == 137 {
        Icmpv6Type::RedirectMessage
    } else {
        Icmpv6Type::Unknown(n)
    }
}

impl Icmpv6Type {
    /// Get the IANA number of the ICMPv6 type.
    pub fn number(&self) -> (r: u8)
        ensures
            r == icmpv6_type_number_spec(*self),
    {
        match *self {
            Icmpv6Type::DestinationUnreachable => 1,
            Icmpv6Type::PacketTooBig => 2,
            Icmpv6Type::TimeExceeded => 3,
            Icmpv6Type::ParameterProblem => 4,
            Icmpv6Type::EchoRequest => 128,
            Icmpv6Type::EchoReply => 129,
            Icmpv6Type::RouterSolicitation => 133,
            Icmpv6Type::RouterAdvertisement => 134,
            Icmpv6Type::NeighborSolicitation => 135,
            Icmpv6Type::NeighborAdvertisement => 136,
            Icmpv6Type::RedirectMessage => 137,
            Icmpv6Type::Unknown(n) => n,
        }
    }

    /// Decode an ICMPv6 type number, falling back to `Unknown` on an
    /// unassigned value.
    pub fn from_number(n: u8) -> (r: Icmpv6Type)
        ensures
            r == icmpv6_type_from_number_spec(n),
    {
        match n {
            1 => Icmpv6Type::DestinationUnreachable,
            2 => Icmpv6Type::PacketTooBig,
            3 => Icmpv6Type::TimeExceeded,
            4 => Icmpv6Type::ParameterProblem,
            128 => Icmpv6Type::EchoRequest,
            129 => Icmpv6Type::EchoReply,
            133 => Icmpv6Type::RouterSolicitation,
            134 => Icmpv6Type::RouterAdvertisement,
            135 => Icmpv6Type::NeighborSolicitation,
            136 => Icmpv6Type::NeighborAdvertisement,
            137 => Icmpv6Type::RedirectMessage,
            _ => Icmpv6Type::Unknown(n),
        }
    }
}

/// Decoding the number of a known variant gives that variant back, and
/// re-encoding whatever a number decoded to reproduces that same number.
pub proof fn lemma_icmpv6_type_round_trip(t: Icmpv6Type, n: u8)
    ensures
        !(t is Unknown) ==> icmpv6_type_from_number_spec(icmpv6_type_number_spec(t)) == t,
        icmpv6_type_number_spec(icmpv6_type_from_number_spec(n)) == n,
{
}

/// Represents an ICMPv6 packet.
#[derive(Clone, Debug, PartialEq)]
pub struct Icmpv6Packet {
    pub icmpv6_type: Icmpv6Type,
    pub icmpv6_code: u8,
    pub checksum: u16,
    pub payload: Vec<u8>,
}

impl Icmpv6Packet {
    /// Decode an ICMPv6 packet.  The buffer must hold at least the four
    /// fixed header bytes; the remainder becomes the payload.
    pub fn from_bytes(packet: &[u8]) -> (r: Icmpv6Packet)
        requires
            packet@.len() >= 4,
        ensures
            r.icmpv6_type == icmpv6_type_from_number_spec(packet@[0]),
            r.icmpv6_code == packet@[1],
            r.checksum == be16(packet@[2], packet@[3]),
            r.payload@ == packet@.subrange(4, packet@.len() as int),
    {
        Icmpv6Packet {
            icmpv6_type: Icmpv6Type::from_number(packet[0]),
            icmpv6_code: packet[1],
            checksum: read_be16(packet, 2),
            payload: copy_range(packet, 4, packet.len()),
        }
    }
}

/// The IPv6 pseudo-header an ICMPv6 checksum is computed over: both
/// addresses, the upper-layer length as four network-order bytes, three
/// zero bytes and the ICMPv6 protocol number 58.
pub open spec fn pseudo_header_v6_spec(src: Ipv6Address, dst: Ipv6Address, len: u16) -> Seq<u8> {
    src@ + dst@ + seq![0u8, 0u8, be16_hi(len), be16_lo(len), 0u8, 0u8, 0u8, 58u8]
}

/// The eight bytes of an ICMPv6 echo message with the given type,
/// identifier and sequence number, code 0, and its checksum computed over
/// the IPv6 pseudo-header and the checksum-zeroed message.
pub open spec fn icmpv6_echo_encode_spec(
    src: Ipv6Address,
    dst: Ipv6Address,
    t: Icmpv6Type,
    ident: u16,
    seqn: u16,
) -> Seq<u8> {
    let tn = icmpv6_type_number_spec(t);
    let zeroed = seq![
        tn,
        0u8,
        0u8,
        0u8,
        be16_hi(ident),
        be16_lo(ident),
        be16_hi(seqn),
        be16_lo(seqn),
    ];
    let ck = internet_checksum(pseudo_header_v6_spec(src, dst, 8) + zeroed);
    seq![
        tn,
        0u8,
        be16_hi(ck),
        be16_lo(ck),
        be16_hi(ident),
        be16_lo(ident),
        be16_hi(seqn),
        be16_lo(seqn),
    ]
}

/// ICMPv6 Packet Builder.
#[derive(Clone, Debug)]
pub struct Icmpv6PacketBuilder {
    pub src_ip: Ipv6Address,
    pub dst_ip: Ipv6Address,
    pub icmpv6_type: Icmpv6Type,
    pub sequence_number: Option<u16>,
    pub identifier: Option<u16>,
}

impl Icmpv6PacketBuilder {
    /// A builder for an echo request between the loopback addresses, with
    /// the identifier and sequence number left to be drawn at build time.
    pub fn new() -> (r: Icmpv6PacketBuilder)
        ensures
            r.src_ip == Ipv6Address(0, 0, 0, 0, 0, 0, 0, 1),
            r.dst_ip == Ipv6Address(0, 0, 0, 0, 0, 0, 0, 1),
            r.icmpv6_type == Icmpv6Type::EchoRequest,
            r.sequence_number is None,
            r.identifier is None,
    {
        Icmpv6PacketBuilder {
            src_ip: Ipv6Address(0, 0, 0, 0, 0, 0, 0, 1),
            dst_ip: Ipv6Address(0, 0, 0, 0, 0, 0, 0, 1),
            icmpv6_type: Icmpv6Type::EchoRequest,
            sequence_number: None,
            identifier: None,
        }
    }

    /// Serialize an eight-byte echo message carrying the builder's type,
    /// its checksum computed over the IPv6 pseudo-header.  An explicitly
    /// set identifier or sequence number is used as given; an unset one is
    /// drawn at random, so of those only the shape of the message is
    /// promised.
    pub fn build(&self) -> (r: Vec<u8>)
        ensures
            r@.len() == 8,
            exists|ident: u16, seqn: u16|
                {
                    &&& r@ == icmpv6_echo_encode_spec(self.src_ip, self.dst_ip, self.icmpv6_type, ident, seqn)
                    &&& (self.identifier is Some ==> ident == self.identifier->0)
                    &&& (self.sequence_number is Some ==> seqn == self.sequence_number->0)
                },
            (self.identifier is Some && self.sequence_number is Some) ==> r@
                == icmpv6_echo_encode_spec(
                self.src_ip,
                self.dst_ip,
                self.icmpv6_type,
                self.identifier->0,
                self.sequence_number->0,
            ),
    {
        let ident: u16 = match self.identifier {
            Some(v) => v,
            None => random_u16(),
        };
        let seqn: u16 = match self.sequence_number {
            Some(v) => v,
            None => random_u16(),
        };
        let tn = self.icmpv6_type.number();
        let mut ckbuf: Vec<u8> = Vec::new();
        crate::packet::bytes::push_be16(&mut ckbuf, self.src_ip.0);
        crate::packet::bytes::push_be16(&mut ckbuf, self.src_ip.1);
        crate::packet::bytes::push_be16(&mut ckbuf, self.src_ip.2);
        crate::packet::bytes::push_be16(&mut ckbuf, self.src_ip.3);
        crate::packet::bytes::push_be16(&mut ckbuf, self.src_ip.4);
        crate::packet::bytes::push_be16(&mut ckbuf, self.src_ip.5);
        crate::packet::bytes::push_be16(&mut ckbuf, self.src_ip.6);
        crate::packet::bytes::push_be16(&mut ckbuf, self.src_ip.7);
        crate::packet::bytes::push_be16(&mut ckbuf, self.dst_ip.0);
        crate::packet::bytes::push_be16(&mut ckbuf, self.dst_ip.1);
        crate::packet::bytes::push_be16(&mut ckbuf, self.dst_ip.2);
        crate::packet::bytes::push_be16(&mut ckbuf, self.dst_ip.3);
        crate::packet::bytes::push_be16(&mut ckbuf, self.dst_ip.4);
        crate::packet::bytes::push_be16(&mut ckbuf, self.dst_ip.5);
        crate::packet::bytes::push_be16(&mut ckbuf, self.dst_ip.6);
        crate::packet::bytes::push_be16(&mut ckbuf, self.dst_ip.7);
        ckbuf.push(0);
        ckbuf.push(0);
        ckbuf.push(0);
        ckbuf.push(8);
        ckbuf.push(0);
        ckbuf.push(0);
        ckbuf.push(0);
        ckbuf.push(58);
        ckbuf.push(tn);
        ckbuf.push(0);
        ckbuf.push(0);
        ckbuf.push(0);
        ckbuf.push((ident / 256) as u8);
        ckbuf.push((ident % 256) as u8);
        ckbuf.push((seqn / 256) as u8);
        ckbuf.push((seqn % 256) as u8);
        assert(ckbuf@ =~= pseudo_header_v6_spec(self.src_ip, self.dst_ip, 8) + seq![
            icmpv6_type_number_spec(self.icmpv6_type),
            0u8,
            0u8,
            0u8,
            be16_hi(ident),
            be16_lo(ident),
            be16_hi(seqn),
            be16_lo(seqn),
        ]);
        let ck = checksum(&ckbuf);
        let mut buf: Vec<u8> = Vec::new();
        buf.push(tn);
        buf.push(0);
        buf.push((ck / 256) as u8);
        buf.push((ck % 256) as u8);
        buf.push((ident / 256) as u8);
        buf.push((ident % 256) as u8);
        buf.push((seqn / 256) as u8);
        buf.push((seqn % 256) as u8);
        assert(buf@ =~= icmpv6_echo_encode_spec(self.src_ip, self.dst_ip, self.icmpv6_type, ident, seqn));
        assert((self.identifier is Some ==> ident == self.identifier->0)
            && (self.sequence_number is Some ==> seqn == self.sequence_number->0));
        buf
    }
}

/// Round trip: an encoded ICMPv6 echo message decodes to the type it was
/// built with (its number preserved even for an unknown type), code 0, and
/// a payload whose four bytes are the identifier and sequence number in
/// network order.
pub proof fn lemma_icmpv6_echo_round_trip(
    src: Ipv6Address,
    dst: Ipv6Address,
    t: Icmpv6Type,
    ident: u16,
    seqn: u16,
)
    ensures
        ({
            let b = icmpv6_echo_encode_spec(src, dst, t, ident, seqn);
            let zeroed = seq![
                icmpv6_type_number_spec(t),
                0u8,
                0u8,
                0u8,
                be16_hi(ident),
                be16_lo(ident),
                be16_hi(seqn),
                be16_lo(seqn),
            ];
            &&& b.len() == 8
            &&& icmpv6_type_number_spec(icmpv6_type_from_number_spec(b[0]))
                == icmpv6_type_number_spec(t)
            &&& !(t is Unknown) ==> icmpv6_type_from_number_spec(b[0]) == t
            &&& b[1] == 0
            &&& be16(b[2], b[3]) == internet_checksum(pseudo_header_v6_spec(src, dst, 8) + zeroed)
            &&& be16(b[4], b[5]) == ident
            &&& be16(b[6], b[7]) == seqn
        }),
{
    crate::packet::bytes::lemma_be16_round_trip(ident, 0, 0);
    crate::packet::bytes::lemma_be16_round_trip(seqn, 0, 0);
    let zeroed = seq![
        icmpv6_type_number_spec(t),
        0u8,
        0u8,
        0u8,
        be16_hi(ident),
        be16_lo(ident),
        be16_hi(seqn),
        be16_lo(seqn),
    ];
    crate::packet::bytes::lemma_be16_round_trip(
        internet_checksum(pseudo_header_v6_spec(src, dst, 8) + zeroed),
        0,
        0,
    );
    lemma_icmpv6_type_round_trip(t, icmpv6_type_number_spec(t));
}

} // verus!
