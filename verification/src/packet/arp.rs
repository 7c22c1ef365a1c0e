use vstd::prelude::*;
use crate::packet::bytes::{be16, be16_hi, be16_lo, push_be16, read_be16};
use crate::packet::ethernet::{MacAddr, EtherType, ether_type_from_number_spec, ether_type_number_spec};
use crate::packet::ip::Ipv4Address;

verus! {

/// Length of an ARP packet for IPv4 over Ethernet, in bytes.
pub const ARP_PACKET_LEN: usize = 28;

/// ARP operation code, with `Unknown` keeping any other numeric value
/// verbatim.
#[derive(Clone, Copy, Debug, PartialEq, Eq, Structural)]
pub enum ArpOperation {
    Request,
    Reply,
    Unknown(u16),
}

/// Numeric code of each ARP operation.
pub open spec fn arp_operation_number_spec(o: ArpOperation) -> u16 {
    match o {
        ArpOperation::Request => 1,
        ArpOperation::Reply => 2,
        ArpOperation::Unknown(n) => n,
    }
}

/// The operation an ARP code decodes to.
pub open spec fn arp_operation_from_number_spec(n: u16) -> ArpOperation {
    if n == 1 {
        ArpOperation::Request
    } else if n == 2 {
        ArpOperation::Reply
    } else {
        ArpOperation::Unknown(n)
    }
}

impl ArpOperation {
    /// Numeric code of the operation.
    pub fn number(&self) -> (r: u16)
        ensures
            r == arp_operation_number_spec(*self),
    {
        match *self {
            ArpOperation::Request => 1,
            ArpOperation::Reply => 2,
            ArpOperation::Unknown(n) => n,
        }
    }

    /// Decode an operation code, falling back to `Unknown`.
    pub fn from_number(n: u16) -> (r: ArpOperation)
        ensures
            r == arp_operation_from_number_spec(n),
    {
        match n {
            1 => ArpOperation::Request,
            2 => ArpOperation::Reply,
            _ => ArpOperation::Unknown(n),
        }
    }
}

/// A decoded ARP packet for IPv4 over Ethernet.
#[derive(Clone, Debug, PartialEq)]
pub struct ArpPacket {
    pub hardware_type: u16,
    pub protocol_type: EtherType,
    pub hw_addr_len: u8,
    pub proto_addr_len: u8,
    pub operation: ArpOperation,
    pub sender_hw_addr: MacAddr,
    pub sender_proto_addr: Ipv4Address,
    pub target_hw_addr: MacAddr,
    pub target_proto_addr: Ipv4Address,
}

/// The 28 on-wire bytes of an IPv4-over-Ethernet ARP packet: hardware type
/// 1, protocol type IPv4, address lengths 6 and 4, then the operation and
/// the two address pairs.
pub open spec fn arp_encode_spec(
    op: ArpOperation,
    sender_mac: MacAddr,
    sender_ip: Ipv4Address,
    target_mac: MacAddr,
    target_ip: Ipv4Address,
) -> Seq<u8> {
    seq![
        0u8,
        1u8,
        8u8,
        0u8,
        6u8,
        4u8,
        be16_hi(arp_operation_number_spec(op)),
        be16_lo(arp_operation_number_spec(op)),
    ] + sender_mac@ + sender_ip@ + target_mac@ + target_ip@
}

impl ArpPacket {
    /// Decode an ARP packet.  The buffer must hold the 28 bytes of an
    /// IPv4-over-Ethernet ARP message.
    pub fn from_bytes(packet: &[u8]) -> (r: ArpPacket)
        requires
            packet@.len() >= 28,
        ensures
            r.hardware_type == be16(packet@[0], packet@[1]),
            r.protocol_type == ether_type_from_number_spec(be16(packet@[2], packet@[3])),
            r.hw_addr_len == packet@[4],
            r.proto_addr_len == packet@[5],
            r.operation == arp_operation_from_number_spec(be16(packet@[6], packet@[7])),
            r.sender_hw_addr@ == packet@.subrange(8, 14),
            r.sender_proto_addr@ == packet@.subrange(14, 18),
            r.target_hw_addr@ == packet@.subrange(18, 24),
            r.target_proto_addr@ == packet@.subrange(24, 28),
    {
        let sender_hw_addr = MacAddr(packet[8], packet[9], packet[10], packet[11], packet[12], packet[13]);
        let sender_proto_addr = Ipv4Address(packet[14], packet[15], packet[16], packet[17]);
        let target_hw_addr = MacAddr(
            packet[18],
            packet[19],
            packet[20],
            packet[21],
            packet[22],
            packet[23],
        );
        let target_proto_addr = Ipv4Address(packet[24], packet[25], packet[26], packet[27]);
        assert(sender_hw_addr@ =~= packet@.subrange(8, 14));
        assert(sender_proto_addr@ =~= packet@.subrange(14, 18));
        assert(target_hw_addr@ =~= packet@.subrange(18, 24));
        assert(target_proto_addr@ =~= packet@.subrange(24, 28));
        ArpPacket {
            hardware_type: read_be16(packet, 0),
            protocol_type: EtherType::from_number(read_be16(packet, 2)),
            hw_addr_len: packet[4],
            proto_addr_len: packet[5],
            operation: ArpOperation::from_number(read_be16(packet, 6)),
            sender_hw_addr,
            sender_proto_addr,
            target_hw_addr,
            target_proto_addr,
        }
    }
}

/// Caller-populated fields of an IPv4-over-Ethernet ARP packet, consumed by
/// `build` to produce the on-wire bytes.
#[derive(Clone, Debug)]
pub struct ArpPacketBuilder {
    pub operation: ArpOperation,
    pub sender_mac: MacAddr,
    pub sender_ip: Ipv4Address,
    pub target_mac: MacAddr,
    pub target_ip: Ipv4Address,
}

impl ArpPacketBuilder {
    /// A builder for an ARP request with zeroed addresses.
    pub fn new() -> (r: ArpPacketBuilder)
        ensures
            r.operation == ArpOperation::Request,
            r.sender_mac@ == seq![0u8, 0u8, 0u8, 0u8, 0u8, 0u8],
            r.sender_ip@ == seq![0u8, 0u8, 0u8, 0u8],
            r.target_mac@ == seq![0u8, 0u8, 0u8, 0u8, 0u8, 0u8],
            r.target_ip@ == seq![0u8, 0u8, 0u8, 0u8],
    {
        ArpPacketBuilder {
            operation: ArpOperation::Request,
            sender_mac: MacAddr::zero(),
            sender_ip: Ipv4Address(0, 0, 0, 0),
            target_mac: MacAddr::zero(),
            target_ip: Ipv4Address(0, 0, 0, 0),
        }
    }

    /// Serialize the 28-byte ARP packet.
    pub fn build(&self) -> (r: Vec<u8>)
        ensures
            r@ == arp_encode_spec(
                self.operation,
                self.sender_mac,
                self.sender_ip,
                self.target_mac,
                self.target_ip,
            ),
            r@.len() == 28,
    {
        let mut buf: Vec<u8> = Vec::new();
        buf.push(0);
        buf.push(1);
        buf.push(8);
        buf.push(0);
        buf.push(6);
        buf.push(4);
        push_be16(&mut buf, self.operation.number());
        buf.push(self.sender_mac.0);
        buf.push(self.sender_mac.1);
        buf.push(self.sender_mac.2);
        buf.push(self.sender_mac.3);
        buf.push(self.sender_mac.4);
        buf.push(self.sender_mac.5);
        buf.push(self.sender_ip.0);
        buf.push(self.sender_ip.1);
        buf.push(self.sender_ip.2);
        buf.push(self.sender_ip.3);
        buf.push(self.target_mac.0);
        buf.push(self.target_mac.1);
        buf.push(self.target_mac.2);
        buf.push(self.target_mac.3);
        buf.push(self.target_mac.4);
        buf.push(self.target_mac.5);
        buf.push(self.target_ip.0);
        buf.push(self.target_ip.1);
        buf.push(self.target_ip.2);
        buf.push(self.target_ip.3);
        assert(buf@ =~= arp_encode_spec(
            self.operation,
            self.sender_mac,
            self.sender_ip,
            self.target_mac,
            self.target_ip,
        ));
        buf
    }
}

/// Round trip: decoding an encoded ARP packet reproduces the fixed type and
/// length fields, the operation (its code preserved even when unknown) and
/// all four addresses.
pub proof fn lemma_arp_round_trip(
    op: ArpOperation,
    sender_mac: MacAddr,
    sender_ip: Ipv4Address,
    target_mac: MacAddr,
    target_ip: Ipv4Address,
)
    ensures
        ({
            let b = arp_encode_spec(op, sender_mac, sender_ip, target_mac, target_ip);
            &&& be16(b[0], b[1]) == 1
            &&& ether_type_from_number_spec(be16(b[2], b[3])) == EtherType::Ipv4
            &&& b[4] == 6
            &&& b[5] == 4
            &&& !(op is Unknown) ==> arp_operation_from_number_spec(be16(b[6], b[7])) == op
            &&& arp_operation_number_spec(arp_operation_from_number_spec(be16(b[6], b[7])))
                == arp_operation_number_spec(op)
            &&& b.subrange(8, 14) == sender_mac@
            &&& b.subrange(14, 18) == sender_ip@
            &&& b.subrange(18, 24) == target_mac@
            &&& b.subrange(24, 28) == target_ip@
        }),
{
    let b = arp_encode_spec(op, sender_mac, sender_ip, target_mac, target_ip);
    let n = arp_operation_number_spec(op);
    crate::packet::bytes::lemma_be16_round_trip(n, 0, 0);
    assert(b.subrange(8, 14) =~= sender_mac@);
    assert(b.subrange(14, 18) =~= sender_ip@);
    assert(b.subrange(18, 24) =~= target_mac@);
    assert(b.subrange(24, 28) =~= target_ip@);
}

} // verus!
