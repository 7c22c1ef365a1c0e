use cross_socket::packet::ip::IpNextLevelProtocol;
use cross_socket::socket::{IpVersion, SocketOption, SocketType, check_socket_option};

fn option(
    ip_version: IpVersion,
    socket_type: SocketType,
    protocol: Option<IpNextLevelProtocol>,
) -> SocketOption {
    SocketOption { ip_version, socket_type, protocol }
}

#[test]
fn stream_rejects_udp_and_accepts_tcp() {
    let rejected = check_socket_option(option(
        IpVersion::V4,
        SocketType::Stream,
        Some(IpNextLevelProtocol::Udp),
    ));
    assert_eq!(rejected, Err(String::from("Invalid protocol")));
    let accepted = check_socket_option(option(
        IpVersion::V4,
        SocketType::Stream,
        Some(IpNextLevelProtocol::Tcp),
    ));
    assert_eq!(accepted, Ok(()));
}

#[test]
fn raw_socket_combinations() {
    for proto in [
        IpNextLevelProtocol::Icmp,
        IpNextLevelProtocol::Tcp,
        IpNextLevelProtocol::Udp,
    ] {
        assert_eq!(check_socket_option(option(IpVersion::V4, SocketType::Raw, Some(proto))), Ok(()));
    }
    for proto in [
        IpNextLevelProtocol::Icmpv6,
        IpNextLevelProtocol::Tcp,
        IpNextLevelProtocol::Udp,
    ] {
        assert_eq!(check_socket_option(option(IpVersion::V6, SocketType::Raw, Some(proto))), Ok(()));
    }
    assert!(check_socket_option(option(
        IpVersion::V4,
        SocketType::Raw,
        Some(IpNextLevelProtocol::Icmpv6),
    ))
    .is_err());
    assert!(check_socket_option(option(
        IpVersion::V6,
        SocketType::Raw,
        Some(IpNextLevelProtocol::Icmp),
    ))
    .is_err());
}

#[test]
fn dgram_socket_combinations() {
    assert_eq!(
        check_socket_option(option(IpVersion::V4, SocketType::Dgram, Some(IpNextLevelProtocol::Icmp))),
        Ok(())
    );
    assert_eq!(
        check_socket_option(option(IpVersion::V4, SocketType::Dgram, Some(IpNextLevelProtocol::Udp))),
        Ok(())
    );
    assert!(check_socket_option(option(
        IpVersion::V4,
        SocketType::Dgram,
        Some(IpNextLevelProtocol::Tcp),
    ))
    .is_err());
    assert_eq!(
        check_socket_option(option(
            IpVersion::V6,
            SocketType::Dgram,
            Some(IpNextLevelProtocol::Icmpv6),
        )),
        Ok(())
    );
}

#[test]
fn missing_protocol_rejected() {
    for st in [SocketType::Raw, SocketType::Dgram, SocketType::Stream] {
        assert_eq!(
            check_socket_option(option(IpVersion::V4, st, None)),
            Err(String::from("Invalid protocol"))
        );
        assert_eq!(
            check_socket_option(option(IpVersion::V6, st, None)),
            Err(String::from("Invalid protocol"))
        );
    }
}

#[test]
fn unknown_protocol_rejected() {
    assert!(check_socket_option(option(
        IpVersion::V4,
        SocketType::Raw,
        Some(IpNextLevelProtocol::Gre),
    ))
    .is_err());
    assert!(check_socket_option(option(
        IpVersion::V4,
        SocketType::Raw,
        Some(IpNextLevelProtocol::Unknown(99)),
    ))
    .is_err());
}
