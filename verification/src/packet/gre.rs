use vstd::prelude::*;
use crate::packet::bytes::{be16, be16_hi, be16_lo, be32, push_be16, push_bytes, copy_range, read_be16, read_be32};
use crate::packet::ethernet::{EtherType, ether_type_from_number_spec, ether_type_number_spec};

verus! {

/// Length of a GRE base header in bytes.
pub const GRE_HEADER_LEN: usize = 4;

/// A decoded GRE packet: the base header's flag bits and version, the
/// encapsulated protocol, the optional fields that the flags announce, and
/// the encapsulated payload.
#[derive(Clone, Debug, PartialEq)]
pub struct GrePacket {
    pub checksum_present: bool,
    pub key_present: bool,
    pub sequence_present: bool,
    pub version: u8,
    pub protocol_type: EtherType,
    pub checksum: Option<u16>,
    pub key: Option<u32>,
    pub sequence_number: Option<u32>,
    pub payload: Vec<u8>,
}

/// Number of header bytes the flag bits of `b` announce: the 4-byte base,
/// plus 4 for each of checksum, key and sequence number.
pub open spec fn gre_needed_spec(b: Seq<u8>) -> int {
    4 + 4 * (b[0] as int / 128) + 4 * ((b[0] as int / 32) % 2) + 4 * ((b[0] as int / 16) % 2)
}

/// Index of the first payload byte: past the announced optional fields
/// when the buffer holds them, past the base header otherwise.
pub open spec fn gre_payload_start_spec(b: Seq<u8>) -> int {
    if gre_needed_spec(b) <= b.len() {
        gre_needed_spec(b)
    } else {
        4
    }
}

impl GrePacket {
    /// Decode a GRE packet.  The buffer must hold at least the 4-byte base
    /// header; an optional field announced by a flag is only decoded when
    /// the buffer holds every announced field, and the payload follows the
    /// fields that were read.
    pub fn from_bytes(packet: &[u8]) -> (r: GrePacket)
        requires
            packet@.len() >= 4,
        ensures
            r.checksum_present == (packet@[0] / 128 == 1),
            r.key_present == ((packet@[0] / 32) % 2 == 1),
            r.sequence_present == ((packet@[0] / 16) % 2 == 1),
            r.version == packet@[1] % 8,
            r.protocol_type == ether_type_from_number_spec(be16(packet@[2], packet@[3])),
            r.checksum == (if packet@[0] / 128 == 1 && gre_needed_spec(packet@) <= packet@.len() {
                Some(be16(packet@[4], packet@[5]))
            } else {
                None::<u16>
            }),
            r.key == (if (packet@[0] / 32) % 2 == 1 && gre_needed_spec(packet@) <= packet@.len() {
                let at = 4 + 4 * (packet@[0] as int / 128);
                Some(be32(packet@[at], packet@[at + 1], packet@[at + 2], packet@[at + 3]))
            } else {
                None::<u32>
            }),
            r.sequence_number == (if (packet@[0] / 16) % 2 == 1 && gre_needed_spec(packet@)
                <= packet@.len() {
                let at = 4 + 4 * (packet@[0] as int / 128) + 4 * ((packet@[0] as int / 32) % 2);
                Some(be32(packet@[at], packet@[at + 1], packet@[at + 2], packet@[at + 3]))
            } else {
                None::<u32>
            }),
            r.payload@ == packet@.subrange(gre_payload_start_spec(packet@), packet@.len() as int),
    {
        let b0 = packet[0];
        let c = b0 / 128 == 1;
        let k = (b0 / 32) % 2 == 1;
        let s = (b0 / 16) % 2 == 1;
        let needed: usize = 4 + (if c { 4 } else { 0 }) + (if k { 4 } else { 0 }) + (if s { 4 } else { 0 });
        let have_opts = needed <= packet.len();
        let checksum: Option<u16> = if c && have_opts {
            Some(read_be16(packet, 4))
        } else {
            None
        };
        let key: Option<u32> = if k && have_opts {
            Some(read_be32(packet, if c { 8 } else { 4 }))
        } else {
            None
        };
        let seq_at: usize = 4 + (if c { 4 } else { 0 }) + (if k { 4 } else { 0 });
        let sequence_number: Option<u32> = if s && have_opts {
            Some(read_be32(packet, seq_at))
        } else {
            None
        };
        let start: usize = if have_opts {
            needed
        } else {
            4
        };
        GrePacket {
            checksum_present: c,
            key_present: k,
            sequence_present: s,
            version: packet[1] % 8,
            protocol_type: EtherType::from_number(read_be16(packet, 2)),
            checksum,
            key,
            sequence_number,
            payload: copy_range(packet, start, packet.len()),
        }
    }
}

/// The on-wire bytes of a basic GRE packet: no optional field, version 0,
/// the protocol type in network order, then the payload.
pub open spec fn gre_encode_spec(protocol_type: EtherType, payload: Seq<u8>) -> Seq<u8> {
    seq![
        0u8,
        0u8,
        be16_hi(ether_type_number_spec(protocol_type)),
        be16_lo(ether_type_number_spec(protocol_type)),
    ] + payload
}

/// Caller-populated fields of a basic GRE packet (no optional field,
/// version 0), consumed by `build` to produce the on-wire bytes.
#[derive(Clone, Debug)]
pub struct GrePacketBuilder {
    pub protocol_type: EtherType,
    pub payload: Vec<u8>,
}

impl GrePacketBuilder {
    /// A builder for a GRE packet encapsulating IPv4, with no payload.
    pub fn new() -> (r: GrePacketBuilder)
        ensures
            r.protocol_type == EtherType::Ipv4,
            r.payload@ == Seq::<u8>::empty(),
    {
        GrePacketBuilder { protocol_type: EtherType::Ipv4, payload: Vec::new() }
    }

    /// Serialize the packet: 4-byte base header, then the payload.
    pub fn build(&self) -> (r: Vec<u8>)
        ensures
            r@ == gre_encode_spec(self.protocol_type, self.payload@),
            r@.len() == 4 + self.payload@.len(),
    {
        let mut buf: Vec<u8> = Vec::new();
        buf.push(0);
        buf.push(0);
        push_be16(&mut buf, self.protocol_type.number());
        push_bytes(&mut buf, self.payload.as_slice());
        assert(buf@ =~= gre_encode_spec(self.protocol_type, self.payload@));
        buf
    }
}

/// Round trip: decoding an encoded basic GRE packet reproduces the cleared
/// flags, version 0, the protocol type (its number preserved even when
/// unknown) and the payload.
pub proof fn lemma_gre_round_trip(protocol_type: EtherType, payload: Seq<u8>)
    ensures
        ({
            let b = gre_encode_spec(protocol_type, payload);
            &&& b[0] / 128 == 0
            &&& (b[0] / 32) % 2 == 0
            &&& (b[0] / 16) % 2 == 0
            &&& b[1] % 8 == 0
            &&& ether_type_number_spec(ether_type_from_number_spec(be16(b[2], b[3])))
                == ether_type_number_spec(protocol_type)
            &&& !(protocol_type is Unknown) ==> ether_type_from_number_spec(be16(b[2], b[3]))
                == protocol_type
            &&& gre_payload_start_spec(b) == 4
            &&& b.subrange(4, b.len() as int) == payload
        }),
{
    let b = gre_encode_spec(protocol_type, payload);
    let n = ether_type_number_spec(protocol_type);
    crate::packet::bytes::lemma_be16_round_trip(n, 0, 0);
    crate::packet::ethernet::lemma_ether_type_round_trip(protocol_type, n);
    assert(b.subrange(4, b.len() as int) =~= payload);
}

} // verus!
