//! Exercises the socket core on concrete values: address marshaling,
//! family-driven option and protocol choices, system-call result
//! classification, and the handle lifecycle.

use icmp_socket::AddrFamily;
use icmp_socket::EINTR;
use icmp_socket::IcmpError;
use icmp_socket::IcmpSocket;
use icmp_socket::IpAddress;
use icmp_socket::cvt;
use icmp_socket::decode_sockaddr;
use icmp_socket::encode_sockaddr;
use icmp_socket::family_number;
use icmp_socket::protocol_number;
use icmp_socket::ttl_option;

fn loopback_v4() -> IpAddress {
    IpAddress::V4([127, 0, 0, 1])
}

fn loopback_v6() -> IpAddress {
    IpAddress::V6([0, 0, 0, 0, 0, 0, 0, 0, 0, 0, 0, 0, 0, 0, 0, 1])
}

#[test]
fn family_of_each_variant() {
    assert_eq!(loopback_v4().family(), AddrFamily::V4);
    assert_eq!(loopback_v6().family(), AddrFamily::V6);
}

#[test]
fn family_numbers() {
    assert_eq!(family_number(AddrFamily::V4), 2);
    assert_eq!(family_number(AddrFamily::V6), 10);
}

#[test]
fn protocol_follows_family() {
    assert_eq!(protocol_number(AddrFamily::V4), 1);
    assert_eq!(protocol_number(AddrFamily::V6), 58);
}

#[test]
fn ttl_option_follows_family() {
    assert_eq!(ttl_option(AddrFamily::V4), (0, 2));
    assert_eq!(ttl_option(AddrFamily::V6), (41, 16));
}

#[test]
fn encode_v4_layout() {
    let b = encode_sockaddr(&IpAddress::V4([192, 168, 7, 9]));
    assert_eq!(b, vec![2, 0, 0, 0, 192, 168, 7, 9, 0, 0, 0, 0, 0, 0, 0, 0]);
}

#[test]
fn encode_v6_layout() {
    let b = encode_sockaddr(&loopback_v6());
    let mut expected = vec![10u8, 0, 0, 0, 0, 0, 0, 0];
    expected.extend_from_slice(&[0, 0, 0, 0, 0, 0, 0, 0, 0, 0, 0, 0, 0, 0, 0, 1]);
    expected.extend_from_slice(&[0, 0, 0, 0]);
    assert_eq!(b, expected);
}

#[test]
fn decode_undoes_encode_v4() {
    let a = loopback_v4();
    assert_eq!(decode_sockaddr(&encode_sockaddr(&a)), Some(a));
}

#[test]
fn decode_undoes_encode_v6() {
    let a = IpAddress::V6([1, 2, 3, 4, 5, 6, 7, 8, 9, 10, 11, 12, 13, 14, 15, 16]);
    assert_eq!(decode_sockaddr(&encode_sockaddr(&a)), Some(a));
}

#[test]
fn decode_rejects_zeroed_buffer() {
    assert_eq!(decode_sockaddr(&vec![0u8; 128]), None);
}

#[test]
fn decode_rejects_short_buffer() {
    assert_eq!(decode_sockaddr(&vec![2u8, 0, 0, 0, 127, 0, 0, 1]), None);
    let mut v6_short = vec![10u8, 0];
    v6_short.extend_from_slice(&[0u8; 14]);
    assert_eq!(decode_sockaddr(&v6_short), None);
}

#[test]
fn decode_rejects_unknown_family() {
    assert_eq!(decode_sockaddr(&vec![77u8; 128]), None);
}

#[test]
fn cvt_splits_on_sign() {
    assert_eq!(cvt(12, 0), Ok(12));
    assert_eq!(cvt(0, 0), Ok(0));
    assert_eq!(cvt(-1, 111), Err(IcmpError::IoError(111)));
}

#[test]
fn connect_keeps_family_and_descriptor() {
    let s = IcmpSocket::connect(loopback_v4(), 3, 0).unwrap();
    assert_eq!(s.fd, 3);
    assert!(s.live);
    assert_eq!(s.peer, loopback_v4());
    assert_eq!(s.family(), AddrFamily::V4);
    assert_eq!(s.peer_sockaddr, encode_sockaddr(&loopback_v4()));

    let s6 = IcmpSocket::connect(loopback_v6(), 4, 0).unwrap();
    assert_eq!(s6.family(), AddrFamily::V6);
}

#[test]
fn refused_allocation_is_a_creation_error() {
    // EPERM: the caller lacks the raw-socket privilege.
    let r = IcmpSocket::connect(loopback_v4(), -1, 1);
    assert_eq!(r.err(), Some(IcmpError::SocketCreationError(1)));
}

#[test]
fn interrupted_recv_reads_zero_bytes() {
    let s = IcmpSocket::connect(loopback_v4(), 3, 0).unwrap();
    assert_eq!(s.interpret_recv(-1, EINTR), Ok(0));
}

#[test]
fn interrupted_send_propagates_the_error() {
    let s = IcmpSocket::connect(loopback_v4(), 3, 0).unwrap();
    assert_eq!(s.interpret_send(-1, EINTR), Err(IcmpError::IoError(EINTR)));
}

#[test]
fn failed_recv_carries_the_os_code() {
    let s = IcmpSocket::connect(loopback_v4(), 3, 0).unwrap();
    // EBADF: the descriptor was closed concurrently.
    assert_eq!(s.interpret_recv(-1, 9), Err(IcmpError::IoError(9)));
    assert_eq!(s.interpret_recv(-1, 9).err().map(|e| e.code()), Some(9));
}

#[test]
fn recv_from_decodes_the_sender() {
    let s = IcmpSocket::connect(loopback_v4(), 3, 0).unwrap();
    let sender = encode_sockaddr(&loopback_v4());
    assert_eq!(
        s.interpret_recv_from(8, 0, &sender),
        Ok((8, Some(loopback_v4())))
    );
}

#[test]
fn interrupted_recv_from_reports_no_sender_from_a_zeroed_slot() {
    let s = IcmpSocket::connect(loopback_v4(), 3, 0).unwrap();
    let untouched = vec![0u8; 128];
    assert_eq!(
        s.interpret_recv_from(-1, EINTR, &untouched),
        Ok((0, None))
    );
}

#[test]
fn ttl_value_comes_back_verbatim() {
    let s = IcmpSocket::connect(loopback_v4(), 3, 0).unwrap();
    assert_eq!(s.interpret_set_ttl(0, 0), Ok(()));
    assert_eq!(s.interpret_ttl(0, 0, 64), Ok(64));
    assert_eq!(s.interpret_ttl(-1, 92, 0), Err(IcmpError::IoError(92)));
    assert_eq!(s.interpret_set_ttl(-1, 22), Err(IcmpError::IoError(22)));
}

#[test]
fn release_yields_the_handle_exactly_once() {
    let mut s = IcmpSocket::connect(loopback_v4(), 5, 0).unwrap();
    assert_eq!(s.interpret_send(-1, 9), Err(IcmpError::IoError(9)));
    assert_eq!(s.release(), Some(5));
    assert!(!s.live);
    assert_eq!(s.release(), None);
    assert_eq!(s.release(), None);
}

#[test]
fn loopback_echo_scenario() {
    // connect(127.0.0.1), set_ttl(64), send an 8-byte minimal echo
    // request, read the TTL back, and receive the same 8 bytes from the
    // configured peer.
    let peer = loopback_v4();
    let mut s = IcmpSocket::connect(peer, 3, 0).unwrap();
    assert_eq!(s.ttl_option_args(), (0, 2));
    assert_eq!(s.interpret_set_ttl(0, 0), Ok(()));
    let payload = vec![8u8, 0, 0, 0, 0, 0, 0, 0];
    assert_eq!(s.interpret_send(payload.len() as isize, 0), Ok(8));
    assert_eq!(s.interpret_ttl(0, 0, 64), Ok(64));
    let sender = encode_sockaddr(&peer);
    assert_eq!(
        s.interpret_recv_from(payload.len() as isize, 0, &sender),
        Ok((8, Some(peer)))
    );
    assert_eq!(s.release(), Some(3));
}
