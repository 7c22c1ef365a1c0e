use vstd::prelude::*;
use crate::packet::bytes::{be16, be16_hi, be16_lo, push_be16, push_bytes, copy_range, read_be16};

verus! {

/// Length of an Ethernet II header in bytes.
pub const ETHERNET_HEADER_LEN: usize = 14;

/// A 48-bit hardware address, most significant octet first.
#[derive(Clone, Copy, Debug, PartialEq, Eq, Structural)]
pub struct MacAddr(pub u8, pub u8, pub u8, pub u8, pub u8, pub u8);

impl View for MacAddr {
    type V = Seq<u8>;

    open spec fn view(&self) -> Seq<u8> {
        seq![self.0, self.1, self.2, self.3, self.4, self.5]
    }
}

impl MacAddr {
    /// Construct an address from its six octets.
    pub fn new(a: u8, b: u8, c: u8, d: u8, e: u8, f: u8) -> (r: MacAddr)
        ensures
            r@ == seq![a, b, c, d, e, f],
    {
        MacAddr(a, b, c, d, e, f)
    }

    /// The all-zero address.
    pub fn zero() -> (r: MacAddr)
        ensures
            r@ == seq![0u8, 0u8, 0u8, 0u8, 0u8, 0u8],
    {
        MacAddr(0, 0, 0, 0, 0, 0)
    }
}

/// EtherType of an Ethernet frame, identified by its IEEE-assigned 16-bit
/// number.  An unassigned number is kept verbatim in `Unknown`.
#[derive(Clone, Copy, Debug, PartialEq, Eq, Structural)]
pub enum EtherType {
    Ipv4,
    Arp,
    Rarp,
    Vlan,
    Ipv6,
    Unknown(u16),
}

/// IEEE number of each EtherType variant.
pub open spec fn ether_type_number_spec(t: EtherType) -> u16 {
    match t {
        EtherType::Ipv4 => 0x0800,
        EtherType::Arp => 0x0806,
        EtherType::Rarp => 0x8035,
        EtherType::Vlan => 0x8100,
        EtherType::Ipv6 => 0x86dd,
        EtherType::Unknown(n) => n,
    }
}

/// The variant an EtherType number decodes to: the known variant where one
/// carries that number, `Unknown` otherwise.
pub open spec fn ether_type_from_number_spec(n: u16) -> EtherType {
    if n == 0x0800 {
        EtherType::Ipv4
    } else if n == 0x0806 {
        EtherType::Arp
    } else if n == 0x8035 {
        EtherType::Rarp
    } else if n == 0x8100 {
        EtherType::Vlan
    } else if n == 0x86dd {
        EtherType::Ipv6
    } else {
        EtherType::Unknown(n)
    }
}

impl EtherType {
    /// Get the IEEE number of the EtherType.
    pub fn number(&self) -> (r: u16)
        ensures
            r == ether_type_number_spec(*self),
    {
        match *self {
            EtherType::Ipv4 => 0x0800,
            EtherType::Arp => 0x0806,
            EtherType::Rarp => 0x8035,
            EtherType::Vlan => 0x8100,
            EtherType::Ipv6 => 0x86dd,
            EtherType::Unknown(n) => n,
        }
    }

    /// Decode an EtherType number, falling back to `Unknown` on an
    /// unassigned value.
    pub fn from_number(n: u16) -> (r: EtherType)
        ensures
            r == ether_type_from_number_spec(n),
    {
        match n {
            0x0800 => EtherType::Ipv4,
            0x0806 => EtherType::Arp,
            0x8035 => EtherType::Rarp,
            0x8100 => EtherType::Vlan,
            0x86dd => EtherType::Ipv6,
            _ => EtherType::Unknown(n),
        }
    }
}

/// Decoding the number of a known variant gives that variant back, and
/// re-encoding whatever a number decoded to reproduces that same number.
pub proof fn lemma_ether_type_round_trip(t: EtherType, n: u16)
    ensures
        !(t is Unknown) ==> ether_type_from_number_spec(ether_type_number_spec(t)) == t,
        ether_type_number_spec(ether_type_from_number_spec(n)) == n,
{
}

/// A decoded Ethernet II frame: destination and source address, EtherType,
/// and the payload that followed the 14-byte header.
#[derive(Clone, Debug, PartialEq)]
pub struct EthernetPacket {
    pub dst_mac: MacAddr,
    pub src_mac: MacAddr,
    pub ethertype: EtherType,
    pub payload: Vec<u8>,
}

/// The on-wire bytes of an Ethernet II frame with the given fields:
/// destination octets, source octets, EtherType in network order, payload.
pub open spec fn ethernet_encode_spec(dst: MacAddr, src: MacAddr, et: EtherType, payload: Seq<u8>) -> Seq<u8> {
    dst@ + src@ + seq![
        be16_hi(ether_type_number_spec(et)),
        be16_lo(ether_type_number_spec(et)),
    ] + payload
}

/// Destination address of an encoded frame.
pub open spec fn ethernet_dst_spec(b: Seq<u8>) -> MacAddr {
    MacAddr(b[0], b[1], b[2], b[3], b[4], b[5])
}

/// Source address of an encoded frame.
pub open spec fn ethernet_src_spec(b: Seq<u8>) -> MacAddr {
    MacAddr(b[6], b[7], b[8], b[9], b[10], b[11])
}

/// EtherType of an encoded frame.
pub open spec fn ethernet_type_spec(b: Seq<u8>) -> EtherType {
    ether_type_from_number_spec(be16(b[12], b[13]))
}

/// Payload of an encoded frame: everything after the 14-byte header.
pub open spec fn ethernet_payload_spec(b: Seq<u8>) -> Seq<u8> {
    b.subrange(14, b.len() as int)
}

impl EthernetPacket {
    /// Decode an Ethernet II frame.  The buffer must hold at least the
    /// 14-byte header; the remainder becomes the payload.
    pub fn from_bytes(packet: &[u8]) -> (r: EthernetPacket)
        requires
            packet@.len() >= 14,
        ensures
            r.dst_mac == ethernet_dst_spec(packet@),
            r.src_mac == ethernet_src_spec(packet@),
            r.ethertype == ethernet_type_spec(packet@),
            r.payload@ == ethernet_payload_spec(packet@),
    {
        let dst_mac = MacAddr(packet[0], packet[1], packet[2], packet[3], packet[4], packet[5]);
        let src_mac = MacAddr(packet[6], packet[7], packet[8], packet[9], packet[10], packet[11]);
        let ethertype = EtherType::from_number(read_be16(packet, 12));
        let payload = copy_range(packet, 14, packet.len());
        EthernetPacket { dst_mac, src_mac, ethertype, payload }
    }
}

/// Caller-populated fields of an Ethernet frame, consumed by `build` to
/// produce the on-wire bytes.
#[derive(Clone, Debug)]
pub struct EthernetPacketBuilder {
    pub dst_mac: MacAddr,
    pub src_mac: MacAddr,
    pub ether_type: EtherType,
    pub payload: Vec<u8>,
}

impl EthernetPacketBuilder {
    /// A builder with zeroed addresses, EtherType IPv4 and no payload.
    pub fn new() -> (r: EthernetPacketBuilder)
        ensures
            r.dst_mac@ == seq![0u8, 0u8, 0u8, 0u8, 0u8, 0u8],
            r.src_mac@ == seq![0u8, 0u8, 0u8, 0u8, 0u8, 0u8],
            r.ether_type == EtherType::Ipv4,
            r.payload@ == Seq::<u8>::empty(),
    {
        EthernetPacketBuilder {
            dst_mac: MacAddr::zero(),
            src_mac: MacAddr::zero(),
            ether_type: EtherType::Ipv4,
            payload: Vec::new(),
        }
    }

    /// Serialize the frame: 14-byte header followed by the payload.
    pub fn build(&self) -> (r: Vec<u8>)
        ensures
            r@ == ethernet_encode_spec(self.dst_mac, self.src_mac, self.ether_type, self.payload@),
            r@.len() == 14 + self.payload@.len(),
    {
        let mut buf: Vec<u8> = Vec::new();
        buf.push(self.dst_mac.0);
        buf.push(self.dst_mac.1);
        buf.push(self.dst_mac.2);
        buf.push(self.dst_mac.3);
        buf.push(self.dst_mac.4);
        buf.push(self.dst_mac.5);
        buf.push(self.src_mac.0);
        buf.push(self.src_mac.1);
        buf.push(self.src_mac.2);
        buf.push(self.src_mac.3);
        buf.push(self.src_mac.4);
        buf.push(self.src_mac.5);
        push_be16(&mut buf, self.ether_type.number());
        push_bytes(&mut buf, self.payload.as_slice());
        assert(buf@ =~= ethernet_encode_spec(self.dst_mac, self.src_mac, self.ether_type, self.payload@));
        buf
    }
}

/// Round trip: decoding an encoded frame reproduces the destination, source
/// and payload exactly, reproduces a known EtherType variant, and preserves
/// the numeric EtherType value even for an unknown one.
pub proof fn lemma_ethernet_round_trip(dst: MacAddr, src: MacAddr, et: EtherType, payload: Seq<u8>)
    ensures
        ethernet_dst_spec(ethernet_encode_spec(dst, src, et, payload)) == dst,
        ethernet_src_spec(ethernet_encode_spec(dst, src, et, payload)) == src,
        ethernet_payload_spec(ethernet_encode_spec(dst, src, et, payload)) == payload,
        !(et is Unknown) ==> ethernet_type_spec(ethernet_encode_spec(dst, src, et, payload)) == et,
        ether_type_number_spec(ethernet_type_spec(ethernet_encode_spec(dst, src, et, payload)))
            == ether_type_number_spec(et),
{
    let b = ethernet_encode_spec(dst, src, et, payload);
    assert(ethernet_payload_spec(b) =~= payload);
    let n = ether_type_number_spec(et);
    crate::packet::bytes::lemma_be16_round_trip(n, 0, 0);
    assert(b[12] == be16_hi(n) && b[13] == be16_lo(n));
    lemma_ether_type_round_trip(et, n);
}

} // verus!
