//! The ICMP socket itself: the family-driven choices made when the raw
//! socket is allocated, the classification of every system-call result the
//! socket's operations see, and the lifecycle of the OS handle, surrendered
//! exactly once.
//!
//! The system calls themselves are I/O and stay with the caller: each
//! operation here either prepares the plain values a call takes, or takes
//! the call's raw outcome (its return value, the OS error code, the bytes
//! the OS wrote) and produces the operation's typed result.

use vstd::prelude::*;

use crate::addr::AddrFamily;
use crate::addr::IpAddress;
use crate::error::EINTR;
use crate::error::IcmpError;
use crate::error::cvt;
use crate::sockaddr::encode_sockaddr;
use crate::sockaddr::spec_decode_sockaddr;
use crate::sockaddr::spec_encode_sockaddr;

verus! {

/// The socket type for a raw socket, `SOCK_RAW`.
pub const SOCK_RAW: i32 = 3;

/// The protocol number of ICMP over IPv4, `IPPROTO_ICMP`.
pub const IPPROTO_ICMP: i32 = 1;

/// The protocol number of ICMP over IPv6, `IPPROTO_ICMPV6`.
pub const IPPROTO_ICMPV6: i32 = 58;

/// The socket-option level of the IPv4 layer, `IPPROTO_IP`.
pub const IPPROTO_IP: i32 = 0;

/// The IPv4 time-to-live option, `IP_TTL`.
pub const IP_TTL: i32 = 2;

/// The socket-option level of the IPv6 layer, `IPPROTO_IPV6`.
pub const IPPROTO_IPV6: i32 = 41;

/// The IPv6 hop-limit option, `IPV6_UNICAST_HOPS`.
pub const IPV6_UNICAST_HOPS: i32 = 16;

/// The ICMP protocol number for a family: protocol selection is a function
/// of the address family, the IPv6 ICMP protocol for a v6 socket.
pub open spec fn spec_protocol_number(f: AddrFamily) -> i32 {
    match f {
        AddrFamily::V4 => IPPROTO_ICMP,
        AddrFamily::V6 => IPPROTO_ICMPV6,
    }
}

/// Returns the ICMP protocol number to allocate a raw socket with for the
/// given address family.
pub fn protocol_number(f: AddrFamily) -> (p: i32)
    ensures
        p == spec_protocol_number(f),
{
    match f {
        AddrFamily::V4 => IPPROTO_ICMP,
        AddrFamily::V6 => IPPROTO_ICMPV6,
    }
}

/// The socket-option (level, name) pair that carries the time-to-live for
/// a family: the IPv4 TTL option on a v4 socket, the IPv6 unicast hop
/// limit on a v6 one.
pub open spec fn spec_ttl_option(f: AddrFamily) -> (i32, i32) {
    match f {
        AddrFamily::V4 => (IPPROTO_IP, IP_TTL),
        AddrFamily::V6 => (IPPROTO_IPV6, IPV6_UNICAST_HOPS),
    }
}

/// Returns the socket-option (level, name) pair that carries the
/// time-to-live for the given address family.
pub fn ttl_option(f: AddrFamily) -> (r: (i32, i32))
    ensures
        r == spec_ttl_option(f),
{
    match f {
        AddrFamily::V4 => (IPPROTO_IP, IP_TTL),
        AddrFamily::V6 => (IPPROTO_IPV6, IPV6_UNICAST_HOPS),
    }
}

/// An ICMP socket: one OS raw-socket handle and the fixed peer it sends
/// to, recorded both as the portable address and in the OS's native
/// socket-address encoding.
pub struct IcmpSocket {
    /// The OS socket descriptor; meaningful only while `live`.
    pub fd: i32,
    /// The destination supplied at construction; immutable thereafter.
    pub peer: IpAddress,
    /// The native socket-address encoding of `peer`.
    pub peer_sockaddr: Vec<u8>,
    /// Whether the socket still owns its handle; cleared by [`Self::release`].
    pub live: bool,
}

/// The handle surrender step: a live socket yields its descriptor and
/// becomes dead; a dead one yields nothing and stays as it is.
pub open spec fn spec_release(s: IcmpSocket) -> (Option<i32>, IcmpSocket) {
    if s.live {
        (
            Some(s.fd),
            IcmpSocket { fd: s.fd, peer: s.peer, peer_sockaddr: s.peer_sockaddr, live: false },
        )
    } else {
        (None, s)
    }
}

impl IcmpSocket {
    /// A well-formed socket holds a nonnegative descriptor and the native
    /// encoding of its peer.
    pub open spec fn wf(self) -> bool {
        &&& self.fd >= 0
        &&& self.peer_sockaddr@ == spec_encode_sockaddr(self.peer)
    }

    /// Builds the socket value around the result of the raw-socket
    /// allocation for `addr`'s family: a nonnegative `sys_fd` is the live
    /// descriptor the socket owns from here on; a negative one means the
    /// allocation was refused with the OS error code `errno`, and no
    /// socket exists to release. A socket's peer always has the family of
    /// the address it was constructed with.
    pub fn connect(addr: IpAddress, sys_fd: i32, errno: i32) -> (r: Result<IcmpSocket, IcmpError>)
        ensures
            sys_fd >= 0 ==> (r matches Ok(s) && s.fd == sys_fd && s.live && s.peer == addr
                && s.wf()),
            sys_fd < 0 ==> r == Err::<IcmpSocket, IcmpError>(
                IcmpError::SocketCreationError(errno),
            ),
    {
        if sys_fd >= 0 {
            let peer_sockaddr = encode_sockaddr(&addr);
            Ok(IcmpSocket { fd: sys_fd, peer: addr, peer_sockaddr, live: true })
        } else {
            Err(IcmpError::SocketCreationError(errno))
        }
    }

    /// Returns the address family of the fixed peer.
    pub fn family(&self) -> (f: AddrFamily)
        ensures
            f == self.peer.spec_family(),
    {
        self.peer.family()
    }

    /// Returns the socket-option (level, name) pair that carries this
    /// socket's time-to-live, chosen by the peer's family.
    pub fn ttl_option_args(&self) -> (r: (i32, i32))
        ensures
            r == spec_ttl_option(self.peer.spec_family()),
    {
        ttl_option(self.peer.family())
    }

    /// Classifies the result of the send call: a nonnegative return is the
    /// byte count the OS accepted (possibly less than the buffer, which is
    /// not retried); any failure, interruption included, is an I/O error
    /// with its OS code.
    pub fn interpret_send(&self, ret: isize, errno: i32) -> (r: Result<usize, IcmpError>)
        ensures
            ret >= 0 ==> r == Ok::<usize, IcmpError>(ret as usize),
            ret < 0 ==> r == Err::<usize, IcmpError>(IcmpError::IoError(errno)),
    {
        cvt(ret, errno)
    }

    /// Classifies the result of the receive call: a nonnegative return is
    /// the byte count read; an interrupted call is reported as a read of
    /// zero bytes rather than an error (indistinguishable from a genuine
    /// empty datagram except by context); any other failure is an I/O
    /// error with its OS code.
    pub fn interpret_recv(&self, ret: isize, errno: i32) -> (r: Result<usize, IcmpError>)
        ensures
            ret >= 0 ==> r == Ok::<usize, IcmpError>(ret as usize),
            ret < 0 && errno == EINTR ==> r == Ok::<usize, IcmpError>(0usize),
            ret < 0 && errno != EINTR ==> r == Err::<usize, IcmpError>(IcmpError::IoError(errno)),
    {
        match cvt(ret, errno) {
            Ok(size) => Ok(size),
            Err(err) => {
                if err.code() == EINTR {
                    Ok(0)
                } else {
                    Err(err)
                }
            },
        }
    }

    /// Classifies the result of the receive-from call, decoding the sender
    /// the OS wrote into `sender_sockaddr`. The byte count follows the
    /// receive rules, interruption again reported as zero bytes; the
    /// sender is decoded from the bytes as they stand, so a caller that
    /// zeroes the buffer beforehand gets no sender rather than one read
    /// from memory the OS never wrote.
    pub fn interpret_recv_from(&self, ret: isize, errno: i32, sender_sockaddr: &Vec<u8>) -> (r:
        Result<(usize, Option<IpAddress>), IcmpError>)
        ensures
            ret >= 0 ==> r == Ok::<(usize, Option<IpAddress>), IcmpError>(
                (ret as usize, spec_decode_sockaddr(sender_sockaddr@)),
            ),
            ret < 0 && errno == EINTR ==> r == Ok::<(usize, Option<IpAddress>), IcmpError>(
                (0usize, spec_decode_sockaddr(sender_sockaddr@)),
            ),
            ret < 0 && errno != EINTR ==> r == Err::<(usize, Option<IpAddress>), IcmpError>(
                IcmpError::IoError(errno),
            ),
    {
        match self.interpret_recv(ret, errno) {
            Ok(size) => Ok((size, crate::sockaddr::decode_sockaddr(sender_sockaddr))),
            Err(err) => Err(err),
        }
    }

    /// Classifies the result of the set-TTL call: zero is success, a
    /// negative return an I/O error with its OS code.
    pub fn interpret_set_ttl(&self, ret: i32, errno: i32) -> (r: Result<(), IcmpError>)
        ensures
            ret >= 0 ==> r == Ok::<(), IcmpError>(()),
            ret < 0 ==> r == Err::<(), IcmpError>(IcmpError::IoError(errno)),
    {
        if ret >= 0 {
            Ok(())
        } else {
            Err(IcmpError::IoError(errno))
        }
    }

    /// Classifies the result of the get-TTL call: on success the value the
    /// OS wrote into the option slot is returned verbatim; a negative
    /// return is an I/O error with its OS code.
    pub fn interpret_ttl(&self, ret: i32, errno: i32, value: u32) -> (r: Result<u32, IcmpError>)
        ensures
            ret >= 0 ==> r == Ok::<u32, IcmpError>(value),
            ret < 0 ==> r == Err::<u32, IcmpError>(IcmpError::IoError(errno)),
    {
        if ret >= 0 {
            Ok(value)
        } else {
            Err(IcmpError::IoError(errno))
        }
    }

    /// Surrenders the OS handle for closing: the first call on a live
    /// socket yields the descriptor and marks the socket dead; any later
    /// call yields nothing, so the handle is closed exactly once however
    /// many operations failed before.
    pub fn release(&mut self) -> (r: Option<i32>)
        ensures
            (r, *final(self)) == spec_release(*old(self)),
            !final(self).live,
            old(self).live ==> r == Some(old(self).fd),
            !old(self).live ==> r is None,
    {
        if self.live {
            self.live = false;
            Some(self.fd)
        } else {
            None
        }
    }
}

/// However a socket's life went, its handle leaves it at most once: the
/// release step yields a dead socket, and the release step of a dead
/// socket yields no handle.
pub proof fn lemma_release_at_most_once(s: IcmpSocket)
    ensures
        !spec_release(s).1.live,
        spec_release(spec_release(s).1).0 is None,
{
}

} // verus!

