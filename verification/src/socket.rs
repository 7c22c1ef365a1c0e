use vstd::prelude::*;
use crate::packet::ip::IpNextLevelProtocol;

verus! {

/// IP version a socket is opened for.
#[derive(Clone, Copy, Debug, PartialEq, Eq, Structural)]
pub enum IpVersion {
    V4,
    V6,
}

/// OS-level socket type.
#[derive(Clone, Copy, Debug, PartialEq, Eq, Structural)]
pub enum SocketType {
    Raw,
    Dgram,
    Stream,
}

/// Requested configuration of a raw protocol socket.
#[derive(Clone, Debug, PartialEq)]
pub struct SocketOption {
    pub ip_version: IpVersion,
    pub socket_type: SocketType,
    pub protocol: Option<IpNextLevelProtocol>,
}

/// The `(ip version, socket type, protocol)` triples an OS raw socket can be
/// opened with: a raw socket pairs with ICMP of the matching IP version, TCP
/// or UDP; a datagram socket with ICMP of the matching version or UDP; a
/// stream socket only with TCP.  An absent protocol is never valid.
pub open spec fn valid_socket_option(o: SocketOption) -> bool {
    match o.protocol {
        Some(p) => match o.socket_type {
            SocketType::Raw => match o.ip_version {
                IpVersion::V4 => p == IpNextLevelProtocol::Icmp || p == IpNextLevelProtocol::Tcp
                    || p == IpNextLevelProtocol::Udp,
                IpVersion::V6 => p == IpNextLevelProtocol::Icmpv6 || p == IpNextLevelProtocol::Tcp
                    || p == IpNextLevelProtocol::Udp,
            },
            SocketType::Dgram => match o.ip_version {
                IpVersion::V4 => p == IpNextLevelProtocol::Icmp || p == IpNextLevelProtocol::Udp,
                IpVersion::V6 => p == IpNextLevelProtocol::Icmpv6 || p == IpNextLevelProtocol::Udp,
            },
            SocketType::Stream => p == IpNextLevelProtocol::Tcp,
        },
        None => false,
    }
}

/// Validate a socket option triple before any OS resource is touched:
/// succeeds exactly on the supported `(ip version, socket type, protocol)`
/// combinations and reports every other triple as a validation error.
pub fn check_socket_option(socket_option: SocketOption) -> (r: Result<(), String>)
    ensures
        r is Ok <==> valid_socket_option(socket_option),
        r is Err ==> r->Err_0@ == "Invalid protocol"@,
{
    match socket_option.ip_version {
        IpVersion::V4 => match socket_option.socket_type {
            SocketType::Raw => match socket_option.protocol {
                Some(IpNextLevelProtocol::Icmp) => Ok(()),
                Some(IpNextLevelProtocol::Tcp) => Ok(()),
                Some(IpNextLevelProtocol::Udp) => Ok(()),
                _ => Err(String::from_str("Invalid protocol")),
            },
            SocketType::Dgram => match socket_option.protocol {
                Some(IpNextLevelProtocol::Icmp) => Ok(()),
                Some(IpNextLevelProtocol::Udp) => Ok(()),
                _ => Err(String::from_str("Invalid protocol")),
            },
            SocketType::Stream => match socket_option.protocol {
                Some(IpNextLevelProtocol::Tcp) => Ok(()),
                _ => Err(String::from_str("Invalid protocol")),
            },
        },
        IpVersion::V6 => match socket_option.socket_type {
            SocketType::Raw => match socket_option.protocol {
                Some(IpNextLevelProtocol::Icmpv6) => Ok(()),
                Some(IpNextLevelProtocol::Tcp) => Ok(()),
                Some(IpNextLevelProtocol::Udp) => Ok(()),
                _ => Err(String::from_str("Invalid protocol")),
            },
            SocketType::Dgram => match socket_option.protocol {
                Some(IpNextLevelProtocol::Icmpv6) => Ok(()),
                Some(IpNextLevelProtocol::Udp) => Ok(()),
                _ => Err(String::from_str("Invalid protocol")),
            },
            SocketType::Stream => match socket_option.protocol {
                Some(IpNextLevelProtocol::Tcp) => Ok(()),
                _ => Err(String::from_str("Invalid protocol")),
            },
        },
    }
}

} // verus!
