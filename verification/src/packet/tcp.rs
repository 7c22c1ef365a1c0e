use vstd::prelude::*;
use crate::packet::bytes::{
    be16,
    be16_hi,
    be16_lo,
    be32,
    be32_byte,
    push_be16,
    push_be32,
    push_bytes,
    copy_range,
    read_be16,
    read_be32,
};
use crate::packet::checksum::{checksum, internet_checksum};
use crate::packet::ip::Ipv4Address;
use crate::packet::udp::pseudo_header_v4_spec;

verus! {

/// Length of a TCP header without options, in bytes.
pub const TCP_HEADER_LEN: usize = 20;

/// A TCP control flag, named after the bit it occupies in the nine-bit
/// flags field (NS is the ninth bit, carried in the data-offset byte).
#[derive(Clone, Copy, Debug, PartialEq, Eq, Structural)]
pub enum TcpFlag {
    Fin,
    Syn,
    Rst,
    Psh,
    Ack,
    Urg,
    Ece,
    Cwr,
    Ns,
}

/// The bit each flag occupies in the nine-bit flags field.
pub open spec fn tcp_flag_bit_spec(f: TcpFlag) -> u16 {
    match f {
        TcpFlag::Fin => 1,
        TcpFlag::Syn => 2,
        TcpFlag::Rst => 4,
        TcpFlag::Psh => 8,
        TcpFlag::Ack => 16,
        TcpFlag::Urg => 32,
        TcpFlag::Ece => 64,
        TcpFlag::Cwr => 128,
        TcpFlag::Ns => 256,
    }
}

impl TcpFlag {
    /// The bit of the flag in the nine-bit flags field.
    pub fn number(&self) -> (r: u16)
        ensures
            r == tcp_flag_bit_spec(*self),
    {
        match *self {
            TcpFlag::Fin => 1,
            TcpFlag::Syn => 2,
            TcpFlag::Rst => 4,
            TcpFlag::Psh => 8,
            TcpFlag::Ack => 16,
            TcpFlag::Urg => 32,
            TcpFlag::Ece => 64,
            TcpFlag::Cwr => 128,
            TcpFlag::Ns => 256,
        }
    }
}

/// The nine-bit value the listed flags OR into.
pub open spec fn tcp_flags_value_spec(flags: Seq<TcpFlag>) -> u16
    decreases flags.len(),
{
    if flags.len() == 0 {
        0
    } else {
        tcp_flags_value_spec(flags.drop_last()) | tcp_flag_bit_spec(flags.last())
    }
}

/// The OR of flag bits stays below the tenth bit.
pub proof fn lemma_tcp_flags_value_bound(flags: Seq<TcpFlag>)
    ensures
        tcp_flags_value_spec(flags) < 512,
    decreases flags.len(),
{
    if flags.len() > 0 {
        lemma_tcp_flags_value_bound(flags.drop_last());
        let a = tcp_flags_value_spec(flags.drop_last());
        let b = tcp_flag_bit_spec(flags.last());
        assert((a | b) < 512) by (bit_vector)
            requires a < 512 && b < 512;
    }
}

/// OR the listed flags into their nine-bit field value.
fn tcp_flags_value(flags: &Vec<TcpFlag>) -> (r: u16)
    ensures
        r == tcp_flags_value_spec(flags@),
{
    let n = flags.len();
    let mut v: u16 = 0;
    let mut i: usize = 0;
    while i < n
        invariant
            i <= n,
            n == flags@.len(),
            v == tcp_flags_value_spec(flags@.take(i as int)),
        decreases n - i,
    {
        v = v | flags[i].number();
        i = i + 1;
        proof {
            let t = flags@.take(i as int);
            assert(t.drop_last() =~= flags@.take(i as int - 1));
            assert(t.last() == flags@[i as int - 1]);
        }
    }
    assert(flags@.take(n as int) =~= flags@);
    v
}

/// A TCP option as a caller states it; encoded in IANA kind-byte order,
/// each with its fixed length.
#[derive(Clone, Copy, Debug, PartialEq, Eq, Structural)]
pub enum TcpOption {
    Nop,
    Mss(u16),
    Wscale(u8),
    SackPermitted,
    Timestamp(u32, u32),
}

/// The bytes of one TCP option: kind byte, length byte where the kind has
/// one, then the fixed-size value.
pub open spec fn tcp_option_encode_spec(o: TcpOption) -> Seq<u8> {
    match o {
        TcpOption::Nop => seq![1u8],
        TcpOption::Mss(v) => seq![2u8, 4u8, be16_hi(v), be16_lo(v)],
        TcpOption::Wscale(v) => seq![3u8, 3u8, v],
        TcpOption::SackPermitted => seq![4u8, 2u8],
        TcpOption::Timestamp(a, b) => seq![
            8u8,
            10u8,
            be32_byte(a, 0),
            be32_byte(a, 1),
            be32_byte(a, 2),
            be32_byte(a, 3),
            be32_byte(b, 0),
            be32_byte(b, 1),
            be32_byte(b, 2),
            be32_byte(b, 3),
        ],
    }
}

/// The bytes of an option list, each option encoded in the order listed.
pub open spec fn tcp_options_encode_spec(opts: Seq<TcpOption>) -> Seq<u8>
    decreases opts.len(),
{
    if opts.len() == 0 {
        Seq::empty()
    } else {
        tcp_option_encode_spec(opts[0]) + tcp_options_encode_spec(opts.skip(1))
    }
}

/// The encoded option list padded with end-of-option-list zeros to the next
/// 32-bit boundary.
pub open spec fn tcp_options_padded_spec(opts: Seq<TcpOption>) -> Seq<u8> {
    let e = tcp_options_encode_spec(opts);
    e + Seq::new(((4 - e.len() % 4) % 4) as nat, |i: int| 0u8)
}

/// The option list an options area decodes to: options are read in order
/// until the area is exhausted, an end-of-option-list byte, an unknown
/// kind, or a malformed length stops the read.
pub open spec fn tcp_options_parse_spec(b: Seq<u8>) -> Seq<TcpOption>
    decreases b.len(),
{
    if b.len() == 0 {
        Seq::empty()
    } else if b[0] == 1 {
        seq![TcpOption::Nop] + tcp_options_parse_spec(b.skip(1))
    } else if b[0] == 2 {
        if b.len() >= 4 && b[1] == 4 {
            seq![TcpOption::Mss(be16(b[2], b[3]))] + tcp_options_parse_spec(b.skip(4))
        } else {
            Seq::empty()
        }
    } else if b[0] == 3 {
        if b.len() >= 3 && b[1] == 3 {
            seq![TcpOption::Wscale(b[2])] + tcp_options_parse_spec(b.skip(3))
        } else {
            Seq::empty()
        }
    } else if b[0] == 4 {
        if b.len() >= 2 && b[1] == 2 {
            seq![TcpOption::SackPermitted] + tcp_options_parse_spec(b.skip(2))
        } else {
            Seq::empty()
        }
    } else if b[0] == 8 {
        if b.len() >= 10 && b[1] == 10 {
            seq![
                TcpOption::Timestamp(be32(b[2], b[3], b[4], b[5]), be32(b[6], b[7], b[8], b[9])),
            ] + tcp_options_parse_spec(b.skip(10))
        } else {
            Seq::empty()
        }
    } else {
        Seq::empty()
    }
}

/// Parsing an encoded option list followed by nothing or by padding that
/// starts with an end-of-option-list byte gives the list back.
pub proof fn lemma_tcp_options_parse_encode(opts: Seq<TcpOption>, tail: Seq<u8>)
    requires
        tail.len() == 0 || tail[0] == 0,
    ensures
        tcp_options_parse_spec(tcp_options_encode_spec(opts) + tail) == opts,
    decreases opts.len(),
{
    let b = tcp_options_encode_spec(opts) + tail;
    if opts.len() == 0 {
        assert(b =~= tail);
        assert(tcp_options_parse_spec(tail) =~= Seq::<TcpOption>::empty());
    } else {
        let o = opts[0];
        let rest = opts.skip(1);
        lemma_tcp_options_parse_encode(rest, tail);
        let k = tcp_option_encode_spec(o).len() as int;
        assert(b.skip(k) =~= tcp_options_encode_spec(rest) + tail);
        match o {
            TcpOption::Nop => {},
            TcpOption::Mss(v) => {
                crate::packet::bytes::lemma_be16_round_trip(v, 0, 0);
            },
            TcpOption::Wscale(v) => {},
            TcpOption::SackPermitted => {},
            TcpOption::Timestamp(x, y) => {
                crate::packet::bytes::lemma_be32_round_trip(x, 0, 0, 0, 0);
                crate::packet::bytes::lemma_be32_round_trip(y, 0, 0, 0, 0);
            },
        }
        assert(tcp_options_parse_spec(b) =~= opts);
    }
}

/// A decoded TCP segment.  The flags field carries the nine flag bits; the
/// options are those read from the options area in order.
#[derive(Clone, Debug, PartialEq)]
pub struct TcpPacket {
    pub source: u16,
    pub destination: u16,
    pub sequence: u32,
    pub acknowledgement: u32,
    pub data_offset: u8,
    pub flags: u16,
    pub window: u16,
    pub checksum: u16,
    pub urgent_ptr: u16,
    pub options: Vec<TcpOption>,
    pub payload: Vec<u8>,
}

/// Index of the first payload byte of an encoded TCP segment: where the
/// data offset field points, clamped to the buffer.
pub open spec fn tcp_payload_start_spec(b: Seq<u8>) -> int {
    let hl = 4 * (b[12] as int / 16);
    if 20 <= hl <= b.len() {
        hl
    } else {
        20
    }
}

/// Read the options area of a TCP segment into the option list it holds.
fn parse_tcp_options(b: &[u8]) -> (r: Vec<TcpOption>)
    ensures
        r@ == tcp_options_parse_spec(b@),
{
    let n = b.len();
    let mut out: Vec<TcpOption> = Vec::new();
    let mut i: usize = 0;
    let mut stop: bool = false;
    proof {
        assert(b@.subrange(0, n as int) =~= b@);
        assert(Seq::<TcpOption>::empty() + tcp_options_parse_spec(b@) =~= tcp_options_parse_spec(b@));
    }
    while i < n && !stop
        invariant
            i <= n,
            n == b@.len(),
            tcp_options_parse_spec(b@) == out@ + tcp_options_parse_spec(
                b@.subrange(i as int, n as int),
            ),
            stop ==> tcp_options_parse_spec(b@.subrange(i as int, n as int))
                == Seq::<TcpOption>::empty(),
        decreases n - i + (if stop { 0int } else { 1int }),
    {
        let ghost pre = b@.subrange(i as int, n as int);
        let kind = b[i];
        if kind == 1 {
            out.push(TcpOption::Nop);
            i = i + 1;
            proof {
                assert(pre.skip(1) =~= b@.subrange(i as int, n as int));
                assert(out@ + tcp_options_parse_spec(b@.subrange(i as int, n as int))
                    =~= tcp_options_parse_spec(b@));
            }
        } else if kind == 2 && n - i >= 4 && b[i + 1] == 4 {
            let v = read_be16(b, i + 2);
            out.push(TcpOption::Mss(v));
            i = i + 4;
            proof {
                assert(pre.skip(4) =~= b@.subrange(i as int, n as int));
                assert(out@ + tcp_options_parse_spec(b@.subrange(i as int, n as int))
                    =~= tcp_options_parse_spec(b@));
            }
        } else if kind == 3 && n - i >= 3 && b[i + 1] == 3 {
            out.push(TcpOption::Wscale(b[i + 2]));
            i = i + 3;
            proof {
                assert(pre.skip(3) =~= b@.subrange(i as int, n as int));
                assert(out@ + tcp_options_parse_spec(b@.subrange(i as int, n as int))
                    =~= tcp_options_parse_spec(b@));
            }
        } else if kind == 4 && n - i >= 2 && b[i + 1] == 2 {
            out.push(TcpOption::SackPermitted);
            i = i + 2;
            proof {
                assert(pre.skip(2) =~= b@.subrange(i as int, n as int));
                assert(out@ + tcp_options_parse_spec(b@.subrange(i as int, n as int))
                    =~= tcp_options_parse_spec(b@));
            }
        } else if kind == 8 && n - i >= 10 && b[i + 1] == 10 {
            let ts = read_be32(b, i + 2);
            let ecr = read_be32(b, i + 6);
            out.push(TcpOption::Timestamp(ts, ecr));
            i = i + 10;
            proof {
                assert(pre.skip(10) =~= b@.subrange(i as int, n as int));
                assert(out@ + tcp_options_parse_spec(b@.subrange(i as int, n as int))
                    =~= tcp_options_parse_spec(b@));
            }
        } else {
            stop = true;
            proof {
                assert(tcp_options_parse_spec(pre) =~= Seq::<TcpOption>::empty());
            }
        }
    }
    proof {
        if !stop {
            assert(b@.subrange(i as int, n as int) =~= Seq::<u8>::empty());
        }
        assert(out@ =~= tcp_options_parse_spec(b@));
    }
    out
}

impl TcpPacket {
    /// Decode a TCP segment.  The buffer must hold at least the 20-byte
    /// minimum header; the options area runs from there to where the data
    /// offset field points (clamped to the buffer), and the payload from
    /// that point to the end.
    pub fn from_bytes(packet: &[u8]) -> (r: TcpPacket)
        requires
            packet@.len() >= 20,
        ensures
            r.source == be16(packet@[0], packet@[1]),
            r.destination == be16(packet@[2], packet@[3]),
            r.sequence == be32(packet@[4], packet@[5], packet@[6], packet@[7]),
            r.acknowledgement == be32(packet@[8], packet@[9], packet@[10], packet@[11]),
            r.data_offset == packet@[12] / 16,
            r.flags == (packet@[12] % 2) * 256 + packet@[13],
            r.window == be16(packet@[14], packet@[15]),
            r.checksum == be16(packet@[16], packet@[17]),
            r.urgent_ptr == be16(packet@[18], packet@[19]),
            r.options@ == tcp_options_parse_spec(
                packet@.subrange(20, tcp_payload_start_spec(packet@)),
            ),
            r.payload@ == packet@.subrange(tcp_payload_start_spec(packet@), packet@.len() as int),
    {
        let doff = packet[12] / 16;
        let hl_bytes: usize = 4 * (doff as usize);
        let start: usize = if 20 <= hl_bytes && hl_bytes <= packet.len() {
            hl_bytes
        } else {
            20
        };
        let option_bytes = copy_range(packet, 20, start);
        let options = parse_tcp_options(option_bytes.as_slice());
        TcpPacket {
            source: read_be16(packet, 0),
            destination: read_be16(packet, 2),
            sequence: read_be32(packet, 4),
            acknowledgement: read_be32(packet, 8),
            data_offset: doff,
            flags: ((packet[12] % 2) as u16) * 256 + (packet[13] as u16),
            window: read_be16(packet, 14),
            checksum: read_be16(packet, 16),
            urgent_ptr: read_be16(packet, 18),
            options,
            payload: copy_range(packet, start, packet.len()),
        }
    }
}

/// The 20 fixed header bytes of a TCP segment with the given fields, the
/// given value in the checksum slot, and the nine-bit flags value split
/// between the data-offset byte and the flags byte.
pub open spec fn tcp_header_spec(
    sp: u16,
    dp: u16,
    seqn: u32,
    ackn: u32,
    doff: u8,
    fl: u16,
    window: u16,
    ck: u16,
    urgent: u16,
) -> Seq<u8> {
    seq![
        be16_hi(sp),
        be16_lo(sp),
        be16_hi(dp),
        be16_lo(dp),
        be32_byte(seqn, 0),
        be32_byte(seqn, 1),
        be32_byte(seqn, 2),
        be32_byte(seqn, 3),
        be32_byte(ackn, 0),
        be32_byte(ackn, 1),
        be32_byte(ackn, 2),
        be32_byte(ackn, 3),
        (doff * 16 + fl / 256) as u8,
        (fl % 256) as u8,
        be16_hi(window),
        be16_lo(window),
        be16_hi(ck),
        be16_lo(ck),
        be16_hi(urgent),
        be16_lo(urgent),
    ]
}

/// The on-wire bytes of a TCP segment over IPv4: fixed header, padded
/// options, payload, with the data offset counting header plus options and
/// the checksum computed over the pseudo-header and the checksum-zeroed
/// segment.
pub open spec fn tcp_encode_v4_spec(
    src_ip: Ipv4Address,
    dst_ip: Ipv4Address,
    sp: u16,
    dp: u16,
    seqn: u32,
    ackn: u32,
    flags: Seq<TcpFlag>,
    window: u16,
    urgent: u16,
    opts: Seq<TcpOption>,
    payload: Seq<u8>,
) -> Seq<u8> {
    let ob = tcp_options_padded_spec(opts);
    let doff = (5 + ob.len() / 4) as u8;
    let fl = tcp_flags_value_spec(flags);
    let tcp_len = (20 + ob.len() + payload.len()) as u16;
    let ck = internet_checksum(
        pseudo_header_v4_spec(src_ip, dst_ip, 6, tcp_len) + tcp_header_spec(
            sp,
            dp,
            seqn,
            ackn,
            doff,
            fl,
            window,
            0,
            urgent,
        ) + ob + payload,
    );
    tcp_header_spec(sp, dp, seqn, ackn, doff, fl, window, ck, urgent) + ob + payload
}

/// Caller-populated fields of a TCP segment over IPv4, consumed by `build`
/// to produce the on-wire bytes.  The addresses only enter the checksum's
/// pseudo-header; the flags are OR'd together and the options encoded in
/// the order listed.
#[derive(Clone, Debug)]
pub struct TcpPacketBuilder {
    pub src_ip: Ipv4Address,
    pub dst_ip: Ipv4Address,
    pub src_port: u16,
    pub dst_port: u16,
    pub sequence: u32,
    pub acknowledgement: u32,
    pub window: u16,
    pub urgent_ptr: u16,
    pub flags: Vec<TcpFlag>,
    pub options: Vec<TcpOption>,
    pub payload: Vec<u8>,
}

/// Append the encoding of each option, in order, to a fresh buffer.
pub(crate) fn build_tcp_options(opts: &Vec<TcpOption>) -> (r: Vec<u8>)
    ensures
        r@ == tcp_options_encode_spec(opts@),
{
    let n = opts.len();
    let mut out: Vec<u8> = Vec::new();
    let mut i: usize = 0;
    proof {
        assert(opts@.skip(0) =~= opts@);
        assert(Seq::<u8>::empty() + tcp_options_encode_spec(opts@) =~= tcp_options_encode_spec(opts@));
    }
    while i < n
        invariant
            i <= n,
            n == opts@.len(),
            tcp_options_encode_spec(opts@) == out@ + tcp_options_encode_spec(
                opts@.skip(i as int),
            ),
        decreases n - i,
    {
        let ghost pre = opts@.skip(i as int);
        match opts[i] {
            TcpOption::Nop => {
                out.push(1);
            },
            TcpOption::Mss(v) => {
                out.push(2);
                out.push(4);
                push_be16(&mut out, v);
            },
            TcpOption::Wscale(v) => {
                out.push(3);
                out.push(3);
                out.push(v);
            },
            TcpOption::SackPermitted => {
                out.push(4);
                out.push(2);
            },
            TcpOption::Timestamp(a, b) => {
                out.push(8);
                out.push(10);
                push_be32(&mut out, a);
                push_be32(&mut out, b);
            },
        }
        i = i + 1;
        proof {
            assert(pre.skip(1) =~= opts@.skip(i as int));
            assert(out@ + tcp_options_encode_spec(opts@.skip(i as int))
                =~= tcp_options_encode_spec(opts@));
        }
    }
    proof {
        assert(opts@.skip(n as int) =~= Seq::<TcpOption>::empty());
        assert(out@ =~= tcp_options_encode_spec(opts@));
    }
    out
}

impl TcpPacketBuilder {
    /// A builder for a segment between the given socket pairs, with
    /// sequence and acknowledgement numbers 0, a window of 65535, no flag
    /// set, no option and no payload.
    pub fn new(src_ip: Ipv4Address, src_port: u16, dst_ip: Ipv4Address, dst_port: u16) -> (r:
        TcpPacketBuilder)
        ensures
            r.src_ip == src_ip,
            r.dst_ip == dst_ip,
            r.src_port == src_port,
            r.dst_port == dst_port,
            r.sequence == 0,
            r.acknowledgement == 0,
            r.window == 65535,
            r.urgent_ptr == 0,
            r.flags@ == Seq::<TcpFlag>::empty(),
            r.options@ == Seq::<TcpOption>::empty(),
            r.payload@ == Seq::<u8>::empty(),
    {
        TcpPacketBuilder {
            src_ip,
            dst_ip,
            src_port,
            dst_port,
            sequence: 0,
            acknowledgement: 0,
            window: 65535,
            urgent_ptr: 0,
            flags: Vec::new(),
            options: Vec::new(),
            payload: Vec::new(),
        }
    }

    /// Serialize the segment: fixed header with computed data offset and
    /// pseudo-header checksum, padded options, payload.
    #[verifier::rlimit(60)]
    pub fn build(&self) -> (r: Vec<u8>)
        requires
            tcp_options_encode_spec(self.options@).len() <= 40,
            self.payload@.len() <= 65475,
        ensures
            r@ == tcp_encode_v4_spec(
                self.src_ip,
                self.dst_ip,
                self.src_port,
                self.dst_port,
                self.sequence,
                self.acknowledgement,
                self.flags@,
                self.window,
                self.urgent_ptr,
                self.options@,
                self.payload@,
            ),
            r@.len() == 20 + tcp_options_padded_spec(self.options@).len() + self.payload@.len(),
    {
        let mut ob = build_tcp_options(&self.options);
        proof {
            assert(ob@ =~= tcp_options_padded_spec(self.options@).take(ob@.len() as int));
        }
        while ob.len() % 4 != 0
            invariant
                tcp_options_encode_spec(self.options@).len() <= ob@.len() <= tcp_options_padded_spec(
                    self.options@,
                ).len(),
                ob@ == tcp_options_padded_spec(self.options@).take(ob@.len() as int),
            decreases (4 - ob.len() % 4) % 4,
        {
            ob.push(0);
            proof {
                assert(ob@ =~= tcp_options_padded_spec(self.options@).take(ob@.len() as int));
            }
        }
        proof {
            assert(ob@ =~= tcp_options_padded_spec(self.options@));
        }
        let fl = tcp_flags_value(&self.flags);
        proof {
            lemma_tcp_flags_value_bound(self.flags@);
        }
        let doff: u8 = 5 + ((ob.len() / 4) as u8);
        let tcp_len: u16 = ((20 + ob.len() + self.payload.len()) as u16);
        let mut seg: Vec<u8> = Vec::new();
        push_be16(&mut seg, self.src_port);
        push_be16(&mut seg, self.dst_port);
        push_be32(&mut seg, self.sequence);
        push_be32(&mut seg, self.acknowledgement);
        seg.push(doff * 16 + ((fl / 256) as u8));
        seg.push((fl % 256) as u8);
        push_be16(&mut seg, self.window);
        push_be16(&mut seg, 0);
        push_be16(&mut seg, self.urgent_ptr);
        push_bytes(&mut seg, ob.as_slice());
        push_bytes(&mut seg, self.payload.as_slice());
        assert(seg@ =~= tcp_header_spec(
            self.src_port,
            self.dst_port,
            self.sequence,
            self.acknowledgement,
            doff,
            fl,
            self.window,
            0,
            self.urgent_ptr,
        ) + ob@ + self.payload@);
        let mut ckbuf: Vec<u8> = Vec::new();
        ckbuf.push(self.src_ip.0);
        ckbuf.push(self.src_ip.1);
        ckbuf.push(self.src_ip.2);
        ckbuf.push(self.src_ip.3);
        ckbuf.push(self.dst_ip.0);
        ckbuf.push(self.dst_ip.1);
        ckbuf.push(self.dst_ip.2);
        ckbuf.push(self.dst_ip.3);
        ckbuf.push(0);
        ckbuf.push(6);
        push_be16(&mut ckbuf, tcp_len);
        push_bytes(&mut ckbuf, seg.as_slice());
        assert(ckbuf@ =~= pseudo_header_v4_spec(self.src_ip, self.dst_ip, 6, tcp_len) + seg@);
        assert(ckbuf@ =~= pseudo_header_v4_spec(self.src_ip, self.dst_ip, 6, tcp_len)
            + tcp_header_spec(
            self.src_port,
            self.dst_port,
            self.sequence,
            self.acknowledgement,
            doff,
            fl,
            self.window,
            0,
            self.urgent_ptr,
        ) + ob@ + self.payload@);
        let ck = checksum(&ckbuf);
        seg[16] = (ck / 256) as u8;
        seg[17] = (ck % 256) as u8;
        assert(seg@ =~= tcp_header_spec(
            self.src_port,
            self.dst_port,
            self.sequence,
            self.acknowledgement,
            doff,
            fl,
            self.window,
            ck,
            self.urgent_ptr,
        ) + ob@ + self.payload@);
        assert(seg@ =~= tcp_encode_v4_spec(
            self.src_ip,
            self.dst_ip,
            self.src_port,
            self.dst_port,
            self.sequence,
            self.acknowledgement,
            self.flags@,
            self.window,
            self.urgent_ptr,
            self.options@,
            self.payload@,
        ));
        seg
    }
}

/// Round trip: decoding an encoded TCP segment reproduces the ports,
/// sequence and acknowledgement numbers, the computed data offset, the
/// flags value, window, pseudo-header checksum, urgent pointer, the option
/// list in its original order, and the payload.
pub proof fn lemma_tcp_round_trip(
    src_ip: Ipv4Address,
    dst_ip: Ipv4Address,
    sp: u16,
    dp: u16,
    seqn: u32,
    ackn: u32,
    flags: Seq<TcpFlag>,
    window: u16,
    urgent: u16,
    opts: Seq<TcpOption>,
    payload: Seq<u8>,
)
    requires
        tcp_options_encode_spec(opts).len() <= 40,
        payload.len() <= 65475,
    ensures
        ({
            let b = tcp_encode_v4_spec(
                src_ip,
                dst_ip,
                sp,
                dp,
                seqn,
                ackn,
                flags,
                window,
                urgent,
                opts,
                payload,
            );
            let ob = tcp_options_padded_spec(opts);
            let tcp_len = (20 + ob.len() + payload.len()) as u16;
            let ck = internet_checksum(
                pseudo_header_v4_spec(src_ip, dst_ip, 6, tcp_len) + tcp_header_spec(
                    sp,
                    dp,
                    seqn,
                    ackn,
                    (5 + ob.len() / 4) as u8,
                    tcp_flags_value_spec(flags),
                    window,
                    0,
                    urgent,
                ) + ob + payload,
            );
            &&& be16(b[16], b[17]) == ck
            &&& be16(b[0], b[1]) == sp
            &&& be16(b[2], b[3]) == dp
            &&& be32(b[4], b[5], b[6], b[7]) == seqn
            &&& be32(b[8], b[9], b[10], b[11]) == ackn
            &&& b[12] / 16 == 5 + ob.len() / 4
            &&& (b[12] % 2) * 256 + b[13] == tcp_flags_value_spec(flags)
            &&& be16(b[14], b[15]) == window
            &&& be16(b[18], b[19]) == urgent
            &&& tcp_payload_start_spec(b) == 20 + ob.len()
            &&& tcp_options_parse_spec(b.subrange(20, 20 + ob.len() as int)) == opts
            &&& b.subrange(tcp_payload_start_spec(b), b.len() as int) == payload
        }),
{
    let b = tcp_encode_v4_spec(src_ip, dst_ip, sp, dp, seqn, ackn, flags, window, urgent, opts, payload);
    let e = tcp_options_encode_spec(opts);
    let ob = tcp_options_padded_spec(opts);
    let pad = Seq::new(((4 - e.len() % 4) % 4) as nat, |i: int| 0u8);
    let doff = (5 + ob.len() / 4) as u8;
    let fl = tcp_flags_value_spec(flags);
    lemma_tcp_flags_value_bound(flags);
    let tcp_len = (20 + ob.len() + payload.len()) as u16;
    let ck = internet_checksum(
        pseudo_header_v4_spec(src_ip, dst_ip, 6, tcp_len) + tcp_header_spec(
            sp,
            dp,
            seqn,
            ackn,
            doff,
            fl,
            window,
            0,
            urgent,
        ) + ob + payload,
    );
    crate::packet::bytes::lemma_be16_round_trip(ck, 0, 0);
    crate::packet::bytes::lemma_be16_round_trip(sp, 0, 0);
    crate::packet::bytes::lemma_be16_round_trip(dp, 0, 0);
    crate::packet::bytes::lemma_be16_round_trip(window, 0, 0);
    crate::packet::bytes::lemma_be16_round_trip(urgent, 0, 0);
    crate::packet::bytes::lemma_be32_round_trip(seqn, 0, 0, 0, 0);
    crate::packet::bytes::lemma_be32_round_trip(ackn, 0, 0, 0, 0);
    assert(ob.len() % 4 == 0 && ob.len() <= 40);
    assert(b[12] == (doff * 16 + fl / 256) as u8);
    assert(b[12] / 16 == 5 + ob.len() / 4);
    assert((b[12] % 2) * 256 + b[13] == fl);
    assert(b.subrange(20, 20 + ob.len() as int) =~= ob);
    assert(ob =~= e + pad);
    lemma_tcp_options_parse_encode(opts, pad);
    assert(b.subrange(tcp_payload_start_spec(b), b.len() as int) =~= payload);
}

} // verus!
