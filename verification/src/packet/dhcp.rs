use vstd::prelude::*;
use crate::packet::bytes::{
    be16,
    be16_hi,
    be16_lo,
    be32,
    be32_byte,
    push_be16,
    push_be32,
    push_bytes,
    push_zeros,
    copy_range,
    read_be16,
    read_be32,
};
use crate::packet::ethernet::MacAddr;
use crate::packet::ip::Ipv4Address;

verus! {

/// Length of the fixed DHCP/BOOTP region up to and including the magic
/// cookie, in bytes.
pub const DHCP_FIXED_LEN: usize = 240;

/// DHCP message operation, with `Unknown` keeping any other numeric value
/// verbatim.
#[derive(Clone, Copy, Debug, PartialEq, Eq, Structural)]
pub enum DhcpOperation {
    BootRequest,
    BootReply,
    Unknown(u8),
}

/// Numeric code of each DHCP operation.
pub open spec fn dhcp_operation_number_spec(o: DhcpOperation) -> u8 {
    match o {
        DhcpOperation::BootRequest => 1,
        DhcpOperation::BootReply => 2,
        DhcpOperation::Unknown(n) => n,
    }
}

/// The operation a DHCP op code decodes to.
pub open spec fn dhcp_operation_from_number_spec(n: u8) -> DhcpOperation {
    if n == 1 {
        DhcpOperation::BootRequest
    } else if n == 2 {
        DhcpOperation::BootReply
    } else {
        DhcpOperation::Unknown(n)
    }
}

impl DhcpOperation {
    /// Numeric code of the operation.
    pub fn number(&self) -> (r: u8)
        ensures
            r == dhcp_operation_number_spec(*self),
    {
        match *self {
            DhcpOperation::BootRequest => 1,
            DhcpOperation::BootReply => 2,
            DhcpOperation::Unknown(n) => n,
        }
    }

    /// Decode an op code, falling back to `Unknown`.
    pub fn from_number(n: u8) -> (r: DhcpOperation)
        ensures
            r == dhcp_operation_from_number_spec(n),
    {
        match n {
            1 => DhcpOperation::BootRequest,
            2 => DhcpOperation::BootReply,
            _ => DhcpOperation::Unknown(n),
        }
    }
}

/// A decoded DHCP message over Ethernet: the fixed BOOTP fields, the
/// client hardware address, and the raw options that follow the magic
/// cookie.
#[derive(Clone, Debug, PartialEq)]
pub struct DhcpPacket {
    pub op: DhcpOperation,
    pub htype: u8,
    pub hlen: u8,
    pub hops: u8,
    pub xid: u32,
    pub secs: u16,
    pub flags: u16,
    pub ciaddr: Ipv4Address,
    pub yiaddr: Ipv4Address,
    pub siaddr: Ipv4Address,
    pub giaddr: Ipv4Address,
    pub chaddr: MacAddr,
    pub options: Vec<u8>,
}

/// The on-wire bytes of a DHCP message over Ethernet: the fixed BOOTP
/// fields with hardware type 1 and address length 6, the client hardware
/// address padded to 16 bytes, zeroed server-name and boot-file regions,
/// the magic cookie, then the raw options.
pub open spec fn dhcp_encode_spec(
    op: DhcpOperation,
    hops: u8,
    xid: u32,
    secs: u16,
    flags: u16,
    ciaddr: Ipv4Address,
    yiaddr: Ipv4Address,
    siaddr: Ipv4Address,
    giaddr: Ipv4Address,
    chaddr: MacAddr,
    options: Seq<u8>,
) -> Seq<u8> {
    seq![
        dhcp_operation_number_spec(op),
        1u8,
        6u8,
        hops,
        be32_byte(xid, 0),
        be32_byte(xid, 1),
        be32_byte(xid, 2),
        be32_byte(xid, 3),
        be16_hi(secs),
        be16_lo(secs),
        be16_hi(flags),
        be16_lo(flags),
    ] + ciaddr@ + yiaddr@ + siaddr@ + giaddr@ + chaddr@ + Seq::new(10nat, |i: int| 0u8)
        + Seq::new(64nat, |i: int| 0u8) + Seq::new(128nat, |i: int| 0u8)
        + seq![99u8, 130u8, 83u8, 99u8] + options
}

impl DhcpPacket {
    /// Decode a DHCP message.  The buffer must hold the whole 240-byte
    /// fixed region; everything after it becomes the raw options.
    pub fn from_bytes(packet: &[u8]) -> (r: DhcpPacket)
        requires
            packet@.len() >= 240,
        ensures
            r.op == dhcp_operation_from_number_spec(packet@[0]),
            r.htype == packet@[1],
            r.hlen == packet@[2],
            r.hops == packet@[3],
            r.xid == be32(packet@[4], packet@[5], packet@[6], packet@[7]),
            r.secs == be16(packet@[8], packet@[9]),
            r.flags == be16(packet@[10], packet@[11]),
            r.ciaddr@ == packet@.subrange(12, 16),
            r.yiaddr@ == packet@.subrange(16, 20),
            r.siaddr@ == packet@.subrange(20, 24),
            r.giaddr@ == packet@.subrange(24, 28),
            r.chaddr@ == packet@.subrange(28, 34),
            r.options@ == packet@.subrange(240, packet@.len() as int),
    {
        let ciaddr = Ipv4Address(packet[12], packet[13], packet[14], packet[15]);
        let yiaddr = Ipv4Address(packet[16], packet[17], packet[18], packet[19]);
        let siaddr = Ipv4Address(packet[20], packet[21], packet[22], packet[23]);
        let giaddr = Ipv4Address(packet[24], packet[25], packet[26], packet[27]);
        let chaddr = MacAddr(packet[28], packet[29], packet[30], packet[31], packet[32], packet[33]);
        assert(ciaddr@ =~= packet@.subrange(12, 16));
        assert(yiaddr@ =~= packet@.subrange(16, 20));
        assert(siaddr@ =~= packet@.subrange(20, 24));
        assert(giaddr@ =~= packet@.subrange(24, 28));
        assert(chaddr@ =~= packet@.subrange(28, 34));
        DhcpPacket {
            op: DhcpOperation::from_number(packet[0]),
            htype: packet[1],
            hlen: packet[2],
            hops: packet[3],
            xid: read_be32(packet, 4),
            secs: read_be16(packet, 8),
            flags: read_be16(packet, 10),
            ciaddr,
            yiaddr,
            siaddr,
            giaddr,
            chaddr,
            options: copy_range(packet, 240, packet.len()),
        }
    }
}

/// Caller-populated fields of a DHCP message, consumed by `build` to
/// produce the on-wire bytes.  Hardware type, address length and the
/// server-name and boot-file regions are fixed.
#[derive(Clone, Debug)]
pub struct DhcpPacketBuilder {
    pub op: DhcpOperation,
    pub hops: u8,
    pub xid: u32,
    pub secs: u16,
    pub flags: u16,
    pub ciaddr: Ipv4Address,
    pub yiaddr: Ipv4Address,
    pub siaddr: Ipv4Address,
    pub giaddr: Ipv4Address,
    pub chaddr: MacAddr,
    pub options: Vec<u8>,
}

impl DhcpPacketBuilder {
    /// A builder for a boot request with zeroed addresses and no option.
    pub fn new() -> (r: DhcpPacketBuilder)
        ensures
            r.op == DhcpOperation::BootRequest,
            r.hops == 0,
            r.xid == 0,
            r.secs == 0,
            r.flags == 0,
            r.ciaddr@ == seq![0u8, 0u8, 0u8, 0u8],
            r.yiaddr@ == seq![0u8, 0u8, 0u8, 0u8],
            r.siaddr@ == seq![0u8, 0u8, 0u8, 0u8],
            r.giaddr@ == seq![0u8, 0u8, 0u8, 0u8],
            r.chaddr@ == seq![0u8, 0u8, 0u8, 0u8, 0u8, 0u8],
            r.options@ == Seq::<u8>::empty(),
    {
        DhcpPacketBuilder {
            op: DhcpOperation::BootRequest,
            hops: 0,
            xid: 0,
            secs: 0,
            flags: 0,
            ciaddr: Ipv4Address(0, 0, 0, 0),
            yiaddr: Ipv4Address(0, 0, 0, 0),
            siaddr: Ipv4Address(0, 0, 0, 0),
            giaddr: Ipv4Address(0, 0, 0, 0),
            chaddr: MacAddr::zero(),
            options: Vec::new(),
        }
    }

    /// Serialize the message: 240-byte fixed region, then the options.
    pub fn build(&self) -> (r: Vec<u8>)
        ensures
            r@ == dhcp_encode_spec(
                self.op,
                self.hops,
                self.xid,
                self.secs,
                self.flags,
                self.ciaddr,
                self.yiaddr,
                self.siaddr,
                self.giaddr,
                self.chaddr,
                self.options@,
            ),
            r@.len() == 240 + self.options@.len(),
    {
        let mut buf: Vec<u8> = Vec::new();
        buf.push(self.op.number());
        buf.push(1);
        buf.push(6);
        buf.push(self.hops);
        push_be32(&mut buf, self.xid);
        push_be16(&mut buf, self.secs);
        push_be16(&mut buf, self.flags);
        buf.push(self.ciaddr.0);
        buf.push(self.ciaddr.1);
        buf.push(self.ciaddr.2);
        buf.push(self.ciaddr.3);
        buf.push(self.yiaddr.0);
        buf.push(self.yiaddr.1);
        buf.push(self.yiaddr.2);
        buf.push(self.yiaddr.3);
        buf.push(self.siaddr.0);
        buf.push(self.siaddr.1);
        buf.push(self.siaddr.2);
        buf.push(self.siaddr.3);
        buf.push(self.giaddr.0);
        buf.push(self.giaddr.1);
        buf.push(self.giaddr.2);
        buf.push(self.giaddr.3);
        buf.push(self.chaddr.0);
        buf.push(self.chaddr.1);
        buf.push(self.chaddr.2);
        buf.push(self.chaddr.3);
        buf.push(self.chaddr.4);
        buf.push(self.chaddr.5);
        push_zeros(&mut buf, 10);
        push_zeros(&mut buf, 64);
        push_zeros(&mut buf, 128);
        buf.push(99);
        buf.push(130);
        buf.push(83);
        buf.push(99);
        push_bytes(&mut buf, self.options.as_slice());
        assert(buf@ =~= dhcp_encode_spec(
            self.op,
            self.hops,
            self.xid,
            self.secs,
            self.flags,
            self.ciaddr,
            self.yiaddr,
            self.siaddr,
            self.giaddr,
            self.chaddr,
            self.options@,
        ));
        buf
    }
}

/// Round trip: decoding an encoded DHCP message reproduces the operation
/// (its code preserved even when unknown), the fixed hardware fields, all
/// counters and addresses, the client hardware address and the options.
pub proof fn lemma_dhcp_round_trip(
    op: DhcpOperation,
    hops: u8,
    xid: u32,
    secs: u16,
    flags: u16,
    ciaddr: Ipv4Address,
    yiaddr: Ipv4Address,
    siaddr: Ipv4Address,
    giaddr: Ipv4Address,
    chaddr: MacAddr,
    options: Seq<u8>,
)
    ensures
        ({
            let b = dhcp_encode_spec(
                op,
                hops,
                xid,
                secs,
                flags,
                ciaddr,
                yiaddr,
                siaddr,
                giaddr,
                chaddr,
                options,
            );
            &&& b.len() == 240 + options.len()
            &&& !(op is Unknown) ==> dhcp_operation_from_number_spec(b[0]) == op
            &&& dhcp_operation_number_spec(dhcp_operation_from_number_spec(b[0]))
                == dhcp_operation_number_spec(op)
            &&& b[1] == 1
            &&& b[2] == 6
            &&& b[3] == hops
            &&& be32(b[4], b[5], b[6], b[7]) == xid
            &&& be16(b[8], b[9]) == secs
            &&& be16(b[10], b[11]) == flags
            &&& b.subrange(12, 16) == ciaddr@
            &&& b.subrange(16, 20) == yiaddr@
            &&& b.subrange(20, 24) == siaddr@
            &&& b.subrange(24, 28) == giaddr@
            &&& b.subrange(28, 34) == chaddr@
            &&& b.subrange(236, 240) == seq![99u8, 130u8, 83u8, 99u8]
            &&& b.subrange(240, b.len() as int) == options
        }),
{
    let b = dhcp_encode_spec(op, hops, xid, secs, flags, ciaddr, yiaddr, siaddr, giaddr, chaddr, options);
    crate::packet::bytes::lemma_be32_round_trip(xid, 0, 0, 0, 0);
    crate::packet::bytes::lemma_be16_round_trip(secs, 0, 0);
    crate::packet::bytes::lemma_be16_round_trip(flags, 0, 0);
    assert(b.subrange(12, 16) =~= ciaddr@);
    assert(b.subrange(16, 20) =~= yiaddr@);
    assert(b.subrange(20, 24) =~= siaddr@);
    assert(b.subrange(24, 28) =~= giaddr@);
    assert(b.subrange(28, 34) =~= chaddr@);
    assert(b.subrange(236, 240) =~= seq![99u8, 130u8, 83u8, 99u8]);
    assert(b.subrange(240, b.len() as int) =~= options);
}

} // verus!
