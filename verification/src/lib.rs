//! A minimal abstraction over a raw ICMP socket: the address and option
//! marshaling around the raw-socket system calls, the classification of
//! their results, and the lifecycle of the socket handle.

mod addr;
mod error;
mod sockaddr;
mod socket;

pub use addr::AddrFamily;
pub use addr::IpAddress;
pub use error::EINTR;
pub use error::IcmpError;
pub use error::cvt;
pub use sockaddr::AF_INET;
pub use sockaddr::AF_INET6;
pub use sockaddr::SOCKADDR_IN_LEN;
pub use sockaddr::SOCKADDR_IN6_LEN;
pub use sockaddr::decode_sockaddr;
pub use sockaddr::encode_sockaddr;
pub use sockaddr::family_number;
pub use sockaddr::lemma_decode_names_family;
pub use sockaddr::lemma_encode_sockaddr_len;
pub use sockaddr::lemma_sockaddr_round_trip;
pub use sockaddr::spec_decode_sockaddr;
pub use sockaddr::spec_encode_sockaddr;
pub use sockaddr::spec_family_number;
pub use socket::IP_TTL;
pub use socket::IPPROTO_ICMP;
pub use socket::IPPROTO_ICMPV6;
pub use socket::IPPROTO_IP;
pub use socket::IPPROTO_IPV6;
pub use socket::IPV6_UNICAST_HOPS;
pub use socket::IcmpSocket;
pub use socket::SOCK_RAW;
pub use socket::lemma_release_at_most_once;
pub use socket::protocol_number;
pub use socket::spec_protocol_number;
pub use socket::spec_release;
pub use socket::spec_ttl_option;
pub use socket::ttl_option;
