use vstd::prelude::*;
use crate::packet::bytes::{be16_hi, be16_lo};

verus! {

/// An IPv4 address as its four dotted-quad octets.
#[derive(Clone, Copy, Debug, PartialEq, Eq, Structural)]
pub struct Ipv4Address(pub u8, pub u8, pub u8, pub u8);

impl View for Ipv4Address {
    type V = Seq<u8>;

    open spec fn view(&self) -> Seq<u8> {
        seq![self.0, self.1, self.2, self.3]
    }
}

impl Ipv4Address {
    /// Construct an address from its four octets.
    pub fn new(a: u8, b: u8, c: u8, d: u8) -> (r: Ipv4Address)
        ensures
            r@ == seq![a, b, c, d],
    {
        Ipv4Address(a, b, c, d)
    }

    /// The loopback address 127.0.0.1.
    pub fn localhost() -> (r: Ipv4Address)
        ensures
            r@ == seq![127u8, 0u8, 0u8, 1u8],
    {
        Ipv4Address(127, 0, 0, 1)
    }
}

/// An IPv6 address as its eight 16-bit segments, most significant first.
#[derive(Clone, Copy, Debug, PartialEq, Eq, Structural)]
pub struct Ipv6Address(
    pub u16,
    pub u16,
    pub u16,
    pub u16,
    pub u16,
    pub u16,
    pub u16,
    pub u16,
);

impl View for Ipv6Address {
    type V = Seq<u8>;

    open spec fn view(&self) -> Seq<u8> {
        seq![
            be16_hi(self.0), be16_lo(self.0),
            be16_hi(self.1), be16_lo(self.1),
            be16_hi(self.2), be16_lo(self.2),
            be16_hi(self.3), be16_lo(self.3),
            be16_hi(self.4), be16_lo(self.4),
            be16_hi(self.5), be16_lo(self.5),
            be16_hi(self.6), be16_lo(self.6),
            be16_hi(self.7), be16_lo(self.7),
        ]
    }
}

impl Ipv6Address {
    /// Construct an address from its eight segments.
    pub fn new(s0: u16, s1: u16, s2: u16, s3: u16, s4: u16, s5: u16, s6: u16, s7: u16) -> (r:
        Ipv6Address)
        ensures
            r == Ipv6Address(s0, s1, s2, s3, s4, s5, s6, s7),
    {
        Ipv6Address(s0, s1, s2, s3, s4, s5, s6, s7)
    }
}

/// An IP address of either version, as held by a capture filter.
#[derive(Clone, Copy, Debug, PartialEq, Eq, Structural)]
pub enum IpAddress {
    V4(Ipv4Address),
    V6(Ipv6Address),
}

/// Upper-layer protocol carried inside an IPv4 or IPv6 packet, identified by
/// its IANA protocol number.  A number outside the known set is kept verbatim
/// in the `Unknown` variant so that decoding never fails and re-encoding
/// reproduces the original byte.
#[derive(Clone, Copy, Debug, PartialEq, Eq, Structural)]
pub enum IpNextLevelProtocol {
    Icmp,
    Igmp,
    Tcp,
    Udp,
    Gre,
    Icmpv6,
    Unknown(u8),
}

/// IANA protocol number of each variant.
pub open spec fn protocol_number_spec(p: IpNextLevelProtocol) -> u8 {
    match p {
        IpNextLevelProtocol::Icmp => 1,
        IpNextLevelProtocol::Igmp => 2,
        IpNextLevelProtocol::Tcp => 6,
        IpNextLevelProtocol::Udp => 17,
        IpNextLevelProtocol::Gre => 47,
        IpNextLevelProtocol::Icmpv6 => 58,
        IpNextLevelProtocol::Unknown(n) => n,
    }
}

/// The variant a protocol number decodes to: the known variant where one
/// carries that number, `Unknown` otherwise.
pub open spec fn protocol_from_number_spec(n: u8) -> IpNextLevelProtocol {
    if n == 1 {
        IpNextLevelProtocol::Icmp
    } else if n == 2 {
        IpNextLevelProtocol::Igmp
    } else if n == 6 {
        IpNextLevelProtocol::Tcp
    } else if n == 17 {
        IpNextLevelProtocol::Udp
    } else if n == 47 {
        IpNextLevelProtocol::Gre
    } else if n == 58 {
        IpNextLevelProtocol::Icmpv6
    } else {
        IpNextLevelProtocol::Unknown(n)
    }
}

impl IpNextLevelProtocol {
    /// Get the IANA number of the protocol.
    pub fn number(&self) -> (r: u8)
        ensures
            r == protocol_number_spec(*self),
    {
        match *self {
            IpNextLevelProtocol::Icmp => 1,
            IpNextLevelProtocol::Igmp => 2,
            IpNextLevelProtocol::Tcp => 6,
            IpNextLevelProtocol::Udp => 17,
            IpNextLevelProtocol::Gre => 47,
            IpNextLevelProtocol::Icmpv6 => 58,
            IpNextLevelProtocol::Unknown(n) => n,
        }
    }

    /// Decode a protocol number, falling back to `Unknown` on an
    /// unrecognized value.
    pub fn from_number(n: u8) -> (r: IpNextLevelProtocol)
        ensures
            r == protocol_from_number_spec(n),
    {
        match n {
            1 => IpNextLevelProtocol::Icmp,
            2 => IpNextLevelProtocol::Igmp,
            6 => IpNextLevelProtocol::Tcp,
            17 => IpNextLevelProtocol::Udp,
            47 => IpNextLevelProtocol::Gre,
            58 => IpNextLevelProtocol::Icmpv6,
            _ => IpNextLevelProtocol::Unknown(n),
        }
    }
}

/// Decoding the number of a known variant gives that variant back, and a
/// number outside the known set decodes to `Unknown` carrying exactly that
/// number.
pub proof fn lemma_protocol_round_trip(p: IpNextLevelProtocol)
    ensures
        !(p is Unknown) ==> protocol_from_number_spec(protocol_number_spec(p)) == p,
        forall|n: u8| protocol_from_number_spec(#[trigger] protocol_number_spec(IpNextLevelProtocol::Unknown(n)))
            == protocol_from_number_spec(n),
{
}

/// Re-encoding whatever a protocol number decoded to reproduces that same
/// number, known or not.
pub proof fn lemma_protocol_number_preserved(n: u8)
    ensures
        protocol_number_spec(protocol_from_number_spec(n)) == n,
{
}

} // verus!
