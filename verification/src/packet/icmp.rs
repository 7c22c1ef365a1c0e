use vstd::prelude::*;
use crate::packet::bytes::{be16, be16_hi, be16_lo, copy_range, read_be16};
use crate::packet::checksum::{checksum, internet_checksum};
use crate::packet::ip::Ipv4Address;

verus! {

/// Length in bytes of an ICMP echo request packet without extra payload.
pub const ICMPV4_HEADER_LEN: usize = 8;

/// ICMP message types of the IANA registry, with `Unknown` keeping any
/// unassigned numeric value verbatim.
#[derive(Clone, Copy, Debug, PartialEq, Eq, Structural)]
pub enum IcmpType {
    EchoReply,
    DestinationUnreachable,
    SourceQuench,
    RedirectMessage,
    EchoRequest,
    RouterAdvertisement,
    RouterSolicitation,
    TimeExceeded,
    ParameterProblem,
    TimestampRequest,
    TimestampReply,
    InformationRequest,
    InformationReply,
    AddressMaskRequest,
    AddressMaskReply,
    Traceroute,
    DatagramConversionError,
    MobileHostRedirect,
    IPv6WhereAreYou,
    IPv6IAmHere,
    MobileRegistrationRequest,
    MobileRegistrationReply,
    DomainNameRequest,
    DomainNameReply,
    SKIP,
    Photuris,
    Unknown(u8),
}

/// IANA number of each ICMP type.
pub open spec fn icmp_type_number_spec(t: IcmpType) -> u8 {
    match t {
        IcmpType::EchoReply => 0,
        IcmpType::DestinationUnreachable => 3,
        IcmpType::SourceQuench => 4,
        IcmpType::RedirectMessage => 5,
        IcmpType::EchoRequest => 8,
        IcmpType::RouterAdvertisement => 9,
        IcmpType::RouterSolicitation => 10,
        IcmpType::TimeExceeded => 11,
        IcmpType::ParameterProblem => 12,
        IcmpType::TimestampRequest => 13,
        IcmpType::TimestampReply => 14,
        IcmpType::InformationRequest => 15,
        IcmpType::InformationReply => 16,
        IcmpType::AddressMaskRequest => 17,
        IcmpType::AddressMaskReply => 18,
        IcmpType::Traceroute => 30,
        IcmpType::DatagramConversionError => 31,
        IcmpType::MobileHostRedirect => 32,
        IcmpType::IPv6WhereAreYou => 33,
        IcmpType::IPv6IAmHere => 34,
        IcmpType::MobileRegistrationRequest => 35,
        IcmpType::MobileRegistrationReply => 36,
        IcmpType::DomainNameRequest => 37,
        IcmpType::DomainNameReply => 38,
        IcmpType::SKIP => 39,
        IcmpType::Photuris => 40,
        IcmpType::Unknown(n) => n,
    }
}

/// The variant an ICMP type number decodes to: the known variant where one
/// carries that number, `Unknown` otherwise.
pub open spec fn icmp_type_from_number_spec(n: u8) -> IcmpType {
    if n == 0 {
        IcmpType::EchoReply
    } else if n == 3 {
        IcmpType::DestinationUnreachable
    } else if n == 4 {
        IcmpType::SourceQuench
    } else if n == 5 {
        IcmpType::RedirectMessage
    } else if n == 8 {
        IcmpType::EchoRequest
    } else if n == 9 {
        IcmpType::RouterAdvertisement
    } else if n == 10 {
        IcmpType::RouterSolicitation
    } else if n == 11 {
        IcmpType::TimeExceeded
    } else if n == 12 {
        IcmpType::ParameterProblem
    } else if n == 13 {
        IcmpType::TimestampRequest
    } else if n == 14 {
        IcmpType::TimestampReply
    } else if n == 15 {
        IcmpType::InformationRequest
    } else if n == 16 {
        IcmpType::InformationReply
    } else if n == 17 {
        IcmpType::AddressMaskRequest
    } else if n == 18 {
        IcmpType::AddressMaskReply
    } else if n == 30 {
        IcmpType::Traceroute
    } else if n == 31 {
        IcmpType::DatagramConversionError
    } else if n == 32 {
        IcmpType::MobileHostRedirect
    } else if n == 33 {
        IcmpType::IPv6WhereAreYou
    } else if n == 34 {
        IcmpType::IPv6IAmHere
    } else if n == 35 {
        IcmpType::MobileRegistrationRequest
    } else if n == 36 {
        IcmpType::MobileRegistrationReply
    } else if n == 37 {
        IcmpType::DomainNameRequest
    } else if n == 38 {
        IcmpType::DomainNameReply
    } else if n == 39 {
        IcmpType::SKIP
    } else if n == 40 {
        IcmpType::Photuris
    } else {
        IcmpType::Unknown(n)
    }
}

/// The decimal digit `d` as a character.
pub open spec fn digit_char(d: u8) -> char {
    if d == 0 {
        '0'
    } else if d == 1 {
        '1'
    } else if d == 2 {
        '2'
    } else if d == 3 {
        '3'
    } else if d == 4 {
        '4'
    } else if d == 5 {
        '5'
    } else if d == 6 {
        '6'
    } else if d == 7 {
        '7'
    } else if d == 8 {
        '8'
    } else {
        '9'
    }
}

/// The decimal digits of `n`, without leading zeros.
pub open spec fn u8_decimal_spec(n: u8) -> Seq<char> {
    if n < 10 {
        seq![digit_char(n)]
    } else if n < 100 {
        seq![digit_char(n / 10), digit_char(n % 10)]
    } else {
        seq![digit_char(n / 100), digit_char((n / 10) % 10), digit_char(n % 10)]
    }
}

/// The decimal digit `d` as a one-character string.
fn digit_str(d: u8) -> (r: &'static str)
    requires
        d < 10,
    ensures
        r@ == seq![digit_char(d)],
{
    if d == 0 {
        proof { reveal_strlit("0"); }
        assert("0"@ =~= seq![digit_char(0)]);
        "0"
    } else if d == 1 {
        proof { reveal_strlit("1"); }
        assert("1"@ =~= seq![digit_char(1)]);
        "1"
    } else if d == 2 {
        proof { reveal_strlit("2"); }
        assert("2"@ =~= seq![digit_char(2)]);
        "2"
    } else if d == 3 {
        proof { reveal_strlit("3"); }
        assert("3"@ =~= seq![digit_char(3)]);
        "3"
    } else if d == 4 {
        proof { reveal_strlit("4"); }
        assert("4"@ =~= seq![digit_char(4)]);
        "4"
    } else if d == 5 {
        proof { reveal_strlit("5"); }
        assert("5"@ =~= seq![digit_char(5)]);
        "5"
    } else if d == 6 {
        proof { reveal_strlit("6"); }
        assert("6"@ =~= seq![digit_char(6)]);
        "6"
    } else if d == 7 {
        proof { reveal_strlit("7"); }
        assert("7"@ =~= seq![digit_char(7)]);
        "7"
    } else if d == 8 {
        proof { reveal_strlit("8"); }
        assert("8"@ =~= seq![digit_char(8)]);
        "8"
    } else {
        proof { reveal_strlit("9"); }
        assert("9"@ =~= seq![digit_char(9)]);
        "9"
    }
}

/// Render `n` in decimal.
fn u8_decimal(n: u8) -> (r: String)
    ensures
        r@ == u8_decimal_spec(n),
{
    if n < 10 {
        let s = String::from_str(digit_str(n));
        assert(s@ =~= u8_decimal_spec(n));
        s
    } else if n < 100 {
        let s = String::from_str(digit_str(n / 10)).concat(digit_str(n % 10));
        assert(s@ =~= u8_decimal_spec(n));
        s
    } else {
        let s = String::from_str(digit_str(n / 100)).concat(digit_str((n / 10) % 10)).concat(
            digit_str(n % 10),
        );
        assert(s@ =~= u8_decimal_spec(n));
        s
    }
}

/// The lower-case identifier of each ICMP type; an unknown type renders as
/// `unknown_` followed by its decimal number.
pub open spec fn icmp_type_id_spec(t: IcmpType) -> Seq<char> {
    match t {
        IcmpType::EchoReply => "echo_reply"@,
        IcmpType::DestinationUnreachable => "destination_unreachable"@,
        IcmpType::SourceQuench => "source_quench"@,
        IcmpType::RedirectMessage => "redirect_message"@,
        IcmpType::EchoRequest => "echo_request"@,
        IcmpType::RouterAdvertisement => "router_advertisement"@,
        IcmpType::RouterSolicitation => "router_solicitation"@,
        IcmpType::TimeExceeded => "time_exceeded"@,
        IcmpType::ParameterProblem => "parameter_problem"@,
        IcmpType::TimestampRequest => "timestamp_request"@,
        IcmpType::TimestampReply => "timestamp_reply"@,
        IcmpType::InformationRequest => "information_request"@,
        IcmpType::InformationReply => "information_reply"@,
        IcmpType::AddressMaskRequest => "address_mask_request"@,
        IcmpType::AddressMaskReply => "address_mask_reply"@,
        IcmpType::Traceroute => "traceroute"@,
        IcmpType::DatagramConversionError => "datagram_conversion_error"@,
        IcmpType::MobileHostRedirect => "mobile_host_redirect"@,
        IcmpType::IPv6WhereAreYou => "ipv6_where_are_you"@,
        IcmpType::IPv6IAmHere => "ipv6_i_am_here"@,
        IcmpType::MobileRegistrationRequest => "mobile_registration_request"@,
        IcmpType::MobileRegistrationReply => "mobile_registration_reply"@,
        IcmpType::DomainNameRequest => "domain_name_request"@,
        IcmpType::DomainNameReply => "domain_name_reply"@,
        IcmpType::SKIP => "skip"@,
        IcmpType::Photuris => "photuris"@,
        IcmpType::Unknown(n) => "unknown_"@ + u8_decimal_spec(n),
    }
}

/// The display name of each ICMP type; an unknown type renders as
/// `Unknown (` followed by its decimal number and `)`.
pub open spec fn icmp_type_name_spec(t: IcmpType) -> Seq<char> {
    match t {
        IcmpType::EchoReply => "Echo Reply"@,
        IcmpType::DestinationUnreachable => "Destination Unreachable"@,
        IcmpType::SourceQuench => "Source Quench"@,
        IcmpType::RedirectMessage => "Redirect Message"@,
        IcmpType::EchoRequest => "Echo Request"@,
        IcmpType::RouterAdvertisement => "Router Advertisement"@,
        IcmpType::RouterSolicitation => "Router Solicitation"@,
        IcmpType::TimeExceeded => "Time Exceeded"@,
        IcmpType::ParameterProblem => "Parameter Problem"@,
        IcmpType::TimestampRequest => "Timestamp Request"@,
        IcmpType::TimestampReply => "Timestamp Reply"@,
        IcmpType::InformationRequest => "Information Request"@,
        IcmpType::InformationReply => "Information Reply"@,
        IcmpType::AddressMaskRequest => "Address Mask Request"@,
        IcmpType::AddressMaskReply => "Address Mask Reply"@,
        IcmpType::Traceroute => "Traceroute"@,
        IcmpType::DatagramConversionError => "Datagram Conversion Error"@,
        IcmpType::MobileHostRedirect => "Mobile Host Redirect"@,
        IcmpType::IPv6WhereAreYou => "IPv6 Where Are You"@,
        IcmpType::IPv6IAmHere => "IPv6 I Am Here"@,
        IcmpType::MobileRegistrationRequest => "Mobile Registration Request"@,
        IcmpType::MobileRegistrationReply => "Mobile Registration Reply"@,
        IcmpType::DomainNameRequest => "Domain Name Request"@,
        IcmpType::DomainNameReply => "Domain Name Reply"@,
        IcmpType::SKIP => "SKIP"@,
        IcmpType::Photuris => "Photuris"@,
        IcmpType::Unknown(n) => "Unknown ("@ + u8_decimal_spec(n) + ")"@,
    }
}

impl IcmpType {
    /// Get the number of the ICMP type.
    pub fn number(&self) -> (r: u8)
        ensures
            r == icmp_type_number_spec(*self),
    {
        match *self {
            IcmpType::EchoReply => 0,
            IcmpType::DestinationUnreachable => 3,
            IcmpType::SourceQuench => 4,
            IcmpType::RedirectMessage => 5,
            IcmpType::EchoRequest => 8,
            IcmpType::RouterAdvertisement => 9,
            IcmpType::RouterSolicitation => 10,
            IcmpType::TimeExceeded => 11,
            IcmpType::ParameterProblem => 12,
            IcmpType::TimestampRequest => 13,
            IcmpType::TimestampReply => 14,
            IcmpType::InformationRequest => 15,
            IcmpType::InformationReply => 16,
            IcmpType::AddressMaskRequest => 17,
            IcmpType::AddressMaskReply => 18,
            IcmpType::Traceroute => 30,
            IcmpType::DatagramConversionError => 31,
            IcmpType::MobileHostRedirect => 32,
            IcmpType::IPv6WhereAreYou => 33,
            IcmpType::IPv6IAmHere => 34,
            IcmpType::MobileRegistrationRequest => 35,
            IcmpType::MobileRegistrationReply => 36,
            IcmpType::DomainNameRequest => 37,
            IcmpType::DomainNameReply => 38,
            IcmpType::SKIP => 39,
            IcmpType::Photuris => 40,
            IcmpType::Unknown(n) => n,
        }
    }

    /// Decode an ICMP type number, falling back to `Unknown` on an
    /// unassigned value.
    pub fn from_number(n: u8) -> (r: IcmpType)
        ensures
            r == icmp_type_from_number_spec(n),
    {
        match n {
            0 => IcmpType::EchoReply,
            3 => IcmpType::DestinationUnreachable,
            4 => IcmpType::SourceQuench,
            5 => IcmpType::RedirectMessage,
            8 => IcmpType::EchoRequest,
            9 => IcmpType::RouterAdvertisement,
            10 => IcmpType::RouterSolicitation,
            11 => IcmpType::TimeExceeded,
            12 => IcmpType::ParameterProblem,
            13 => IcmpType::TimestampRequest,
            14 => IcmpType::TimestampReply,
            15 => IcmpType::InformationRequest,
            16 => IcmpType::InformationReply,
            17 => IcmpType::AddressMaskRequest,
            18 => IcmpType::AddressMaskReply,
            30 => IcmpType::Traceroute,
            31 => IcmpType::DatagramConversionError,
            32 => IcmpType::MobileHostRedirect,
            33 => IcmpType::IPv6WhereAreYou,
            34 => IcmpType::IPv6IAmHere,
            35 => IcmpType::MobileRegistrationRequest,
            36 => IcmpType::MobileRegistrationReply,
            37 => IcmpType::DomainNameRequest,
            38 => IcmpType::DomainNameReply,
            39 => IcmpType::SKIP,
            40 => IcmpType::Photuris,
            _ => IcmpType::Unknown(n),
        }
    }

    /// Get the ID of the ICMP type.
    pub fn id(&self) -> (r: String)
        ensures
            r@ == icmp_type_id_spec(*self),
    {
        match *self {
            IcmpType::EchoReply => String::from_str("echo_reply"),
            IcmpType::DestinationUnreachable => String::from_str("destination_unreachable"),
            IcmpType::SourceQuench => String::from_str("source_quench"),
            IcmpType::RedirectMessage => String::from_str("redirect_message"),
            IcmpType::EchoRequest => String::from_str("echo_request"),
            IcmpType::RouterAdvertisement => String::from_str("router_advertisement"),
            IcmpType::RouterSolicitation => String::from_str("router_solicitation"),
            IcmpType::TimeExceeded => String::from_str("time_exceeded"),
            IcmpType::ParameterProblem => String::from_str("parameter_problem"),
            IcmpType::TimestampRequest => String::from_str("timestamp_request"),
            IcmpType::TimestampReply => String::from_str("timestamp_reply"),
            IcmpType::InformationRequest => String::from_str("information_request"),
            IcmpType::InformationReply => String::from_str("information_reply"),
            IcmpType::AddressMaskRequest => String::from_str("address_mask_request"),
            IcmpType::AddressMaskReply => String::from_str("address_mask_reply"),
            IcmpType::Traceroute => String::from_str("traceroute"),
            IcmpType::DatagramConversionError => String::from_str("datagram_conversion_error"),
            IcmpType::MobileHostRedirect => String::from_str("mobile_host_redirect"),
            IcmpType::IPv6WhereAreYou => String::from_str("ipv6_where_are_you"),
            IcmpType::IPv6IAmHere => String::from_str("ipv6_i_am_here"),
            IcmpType::MobileRegistrationRequest => String::from_str("mobile_registration_request"),
            IcmpType::MobileRegistrationReply => String::from_str("mobile_registration_reply"),
            IcmpType::DomainNameRequest => String::from_str("domain_name_request"),
            IcmpType::DomainNameReply => String::from_str("domain_name_reply"),
            IcmpType::SKIP => String::from_str("skip"),
            IcmpType::Photuris => String::from_str("photuris"),
            IcmpType::Unknown(n) => String::from_str("unknown_").concat(u8_decimal(n).as_str()),
        }
    }

    /// Get the name of the ICMP type.
    pub fn name(&self) -> (r: String)
        ensures
            r@ == icmp_type_name_spec(*self),
    {
        match *self {
            IcmpType::EchoReply => String::from_str("Echo Reply"),
            IcmpType::DestinationUnreachable => String::from_str("Destination Unreachable"),
            IcmpType::SourceQuench => String::from_str("Source Quench"),
            IcmpType::RedirectMessage => String::from_str("Redirect Message"),
            IcmpType::EchoRequest => String::from_str("Echo Request"),
            IcmpType::RouterAdvertisement => String::from_str("Router Advertisement"),
            IcmpType::RouterSolicitation => String::from_str("Router Solicitation"),
            IcmpType::TimeExceeded => String::from_str("Time Exceeded"),
            IcmpType::ParameterProblem => String::from_str("Parameter Problem"),
            IcmpType::TimestampRequest => String::from_str("Timestamp Request"),
            IcmpType::TimestampReply => String::from_str("Timestamp Reply"),
            IcmpType::InformationRequest => String::from_str("Information Request"),
            IcmpType::InformationReply => String::from_str("Information Reply"),
            IcmpType::AddressMaskRequest => String::from_str("Address Mask Request"),
            IcmpType::AddressMaskReply => String::from_str("Address Mask Reply"),
            IcmpType::Traceroute => String::from_str("Traceroute"),
            IcmpType::DatagramConversionError => String::from_str("Datagram Conversion Error"),
            IcmpType::MobileHostRedirect => String::from_str("Mobile Host Redirect"),
            IcmpType::IPv6WhereAreYou => String::from_str("IPv6 Where Are You"),
            IcmpType::IPv6IAmHere => String::from_str("IPv6 I Am Here"),
            IcmpType::MobileRegistrationRequest => String::from_str("Mobile Registration Request"),
            IcmpType::MobileRegistrationReply => String::from_str("Mobile Registration Reply"),
            IcmpType::DomainNameRequest => String::from_str("Domain Name Request"),
            IcmpType::DomainNameReply => String::from_str("Domain Name Reply"),
            IcmpType::SKIP => String::from_str("SKIP"),
            IcmpType::Photuris => String::from_str("Photuris"),
            IcmpType::Unknown(n) => String::from_str("Unknown (").concat(u8_decimal(n).as_str()).concat(")"),
        }
    }
}

/// Decoding the number of a known variant gives that variant back, and
/// re-encoding whatever a number decoded to reproduces that same number,
/// known or not.
pub proof fn lemma_icmp_type_round_trip(t: IcmpType, n: u8)
    ensures
        !(t is Unknown) ==> icmp_type_from_number_spec(icmp_type_number_spec(t)) == t,
        icmp_type_number_spec(icmp_type_from_number_spec(n)) == n,
{
}

/// Represents an ICMP packet.
#[derive(Clone, Debug, PartialEq)]
pub struct IcmpPacket {
    pub icmp_type: IcmpType,
    pub icmp_code: u8,
    pub checksum: u16,
    pub payload: Vec<u8>,
}

impl IcmpPacket {
    /// Decode an ICMP packet.  The buffer must hold at least the four fixed
    /// header bytes; the remainder becomes the payload.
    pub fn from_bytes(packet: &[u8]) -> (r: IcmpPacket)
        requires
            packet@.len() >= 4,
        ensures
            r.icmp_type == icmp_type_from_number_spec(packet@[0]),
            r.icmp_code == packet@[1],
            r.checksum == be16(packet@[2], packet@[3]),
            r.payload@ == packet@.subrange(4, packet@.len() as int),
    {
        IcmpPacket {
            icmp_type: IcmpType::from_number(packet[0]),
            icmp_code: packet[1],
            checksum: read_be16(packet, 2),
            payload: copy_range(packet, 4, packet.len()),
        }
    }
}

/// The eight bytes of an ICMP echo message with the given type, identifier
/// and sequence number, code 0, and its checksum computed over the
/// checksum-zeroed message per RFC 1071.
pub open spec fn icmp_echo_encode_spec(t: IcmpType, ident: u16, seqn: u16) -> Seq<u8> {
    let tn = icmp_type_number_spec(t);
    let zeroed = seq![
        tn,
        0u8,
        0u8,
        0u8,
        be16_hi(ident),
        be16_lo(ident),
        be16_hi(seqn),
        be16_lo(seqn),
    ];
    let ck = internet_checksum(zeroed);
    seq![
        tn,
        0u8,
        be16_hi(ck),
        be16_lo(ck),
        be16_hi(ident),
        be16_lo(ident),
        be16_hi(seqn),
        be16_lo(seqn),
    ]
}

/// Relies on rand::random: an unpredictable 16-bit value; nothing is
/// promised of which one comes back.
#[verifier::external_body]
pub(crate) fn random_u16() -> u16 {
    rand::random::<u16>()
}

/// ICMP Packet Builder
#[derive(Clone, Debug)]
pub struct IcmpPacketBuilder {
    pub src_ip: Ipv4Address,
    pub dst_ip: Ipv4Address,
    pub icmp_type: IcmpType,
    pub sequence_number: Option<u16>,
    pub identifier: Option<u16>,
}

impl IcmpPacketBuilder {
    /// A builder for an echo request between the loopback addresses, with
    /// the identifier and sequence number left to be drawn at build time.
    pub fn new() -> (r: IcmpPacketBuilder)
        ensures
            r.src_ip@ == seq![127u8, 0u8, 0u8, 1u8],
            r.dst_ip@ == seq![127u8, 0u8, 0u8, 1u8],
            r.icmp_type == IcmpType::EchoRequest,
            r.sequence_number is None,
            r.identifier is None,
    {
        IcmpPacketBuilder {
            src_ip: Ipv4Address::localhost(),
            dst_ip: Ipv4Address::localhost(),
            icmp_type: IcmpType::EchoRequest,
            sequence_number: None,
            identifier: None,
        }
    }

    /// Serialize an eight-byte echo message carrying the builder's type.
    /// An explicitly set identifier or sequence number is used as given; an
    /// unset one is drawn at random, so of those only the shape of the
    /// message is promised.
    pub fn build(&self) -> (r: Vec<u8>)
        ensures
            r@.len() == 8,
            exists|ident: u16, seqn: u16|
                {
                    &&& r@ == icmp_echo_encode_spec(self.icmp_type, ident, seqn)
                    &&& (self.identifier is Some ==> ident == self.identifier->0)
                    &&& (self.sequence_number is Some ==> seqn == self.sequence_number->0)
                },
            (self.identifier is Some && self.sequence_number is Some) ==> r@
                == icmp_echo_encode_spec(self.icmp_type, self.identifier->0, self.sequence_number->0),
    {
        let ident: u16 = match self.identifier {
            Some(v) => v,
            None => random_u16(),
        };
        let seqn: u16 = match self.sequence_number {
            Some(v) => v,
            None => random_u16(),
        };
        let tn = self.icmp_type.number();
        let mut buf: Vec<u8> = Vec::new();
        buf.push(tn);
        buf.push(0);
        buf.push(0);
        buf.push(0);
        buf.push((ident / 256) as u8);
        buf.push((ident % 256) as u8);
        buf.push((seqn / 256) as u8);
        buf.push((seqn % 256) as u8);
        assert(buf@ =~= seq![
            icmp_type_number_spec(self.icmp_type),
            0u8,
            0u8,
            0u8,
            be16_hi(ident),
            be16_lo(ident),
            be16_hi(seqn),
            be16_lo(seqn),
        ]);
        let ck = checksum(&buf);
        buf[2] = (ck / 256) as u8;
        buf[3] = (ck % 256) as u8;
        assert(buf@ =~= icmp_echo_encode_spec(self.icmp_type, ident, seqn));
        assert((self.identifier is Some ==> ident == self.identifier->0)
            && (self.sequence_number is Some ==> seqn == self.sequence_number->0));
        buf
    }
}

/// Round trip: an encoded echo message decodes to the type it was built
/// with (its number preserved even for an unknown type), code 0, the
/// checksum of the checksum-zeroed message, and a payload whose four bytes
/// are the identifier and sequence number in network order.
pub proof fn lemma_icmp_echo_round_trip(t: IcmpType, ident: u16, seqn: u16)
    ensures
        ({
            let b = icmp_echo_encode_spec(t, ident, seqn);
            let zeroed = seq![
                icmp_type_number_spec(t),
                0u8,
                0u8,
                0u8,
                be16_hi(ident),
                be16_lo(ident),
                be16_hi(seqn),
                be16_lo(seqn),
            ];
            &&& b.len() == 8
            &&& icmp_type_number_spec(icmp_type_from_number_spec(b[0])) == icmp_type_number_spec(t)
            &&& !(t is Unknown) ==> icmp_type_from_number_spec(b[0]) == t
            &&& b[1] == 0
            &&& be16(b[2], b[3]) == internet_checksum(zeroed)
            &&& be16(b[4], b[5]) == ident
            &&& be16(b[6], b[7]) == seqn
        }),
{
    let b = icmp_echo_encode_spec(t, ident, seqn);
    crate::packet::bytes::lemma_be16_round_trip(ident, 0, 0);
    crate::packet::bytes::lemma_be16_round_trip(seqn, 0, 0);
    let zeroed = seq![
        icmp_type_number_spec(t),
        0u8,
        0u8,
        0u8,
        be16_hi(ident),
        be16_lo(ident),
        be16_hi(seqn),
        be16_lo(seqn),
    ];
    crate::packet::bytes::lemma_be16_round_trip(internet_checksum(zeroed), 0, 0);
    lemma_icmp_type_round_trip(t, icmp_type_number_spec(t));
}

} // verus!
