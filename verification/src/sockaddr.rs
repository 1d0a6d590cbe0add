//! Marshaling between the portable [`IpAddress`] and the OS's native
//! socket-address byte layout (`sockaddr_in` / `sockaddr_in6`), for the
//! usual platform convention: the family as a host-order 16-bit number in
//! the first two bytes, the port in network order, and the raw octets of
//! the address at their family-specific offset.

use vstd::prelude::*;

use crate::addr::AddrFamily;
use crate::addr::IpAddress;

verus! {

broadcast use vstd::array::group_array_axioms;

/// The IPv4 address family number, `AF_INET`.
pub const AF_INET: u16 = 2;

/// The IPv6 address family number, `AF_INET6`.
pub const AF_INET6: u16 = 10;

/// Size in bytes of the native IPv4 socket address, `sockaddr_in`.
pub const SOCKADDR_IN_LEN: usize = 16;

/// Size in bytes of the native IPv6 socket address, `sockaddr_in6`.
pub const SOCKADDR_IN6_LEN: usize = 28;

/// The OS address family number for a family tag.
pub open spec fn spec_family_number(f: AddrFamily) -> u16 {
    match f {
        AddrFamily::V4 => AF_INET,
        AddrFamily::V6 => AF_INET6,
    }
}

/// Returns the OS address family number for a family tag.
pub fn family_number(f: AddrFamily) -> (n: u16)
    ensures
        n == spec_family_number(f),
{
    match f {
        AddrFamily::V4 => AF_INET,
        AddrFamily::V6 => AF_INET6,
    }
}

/// The native socket-address encoding of an address: for a v4 address the
/// 16 bytes of a `sockaddr_in` (family, zero port, octets, zero padding);
/// for a v6 address the 28 bytes of a `sockaddr_in6` (family, zero port,
/// zero flow label, octets, zero scope).
pub open spec fn spec_encode_sockaddr(a: IpAddress) -> Seq<u8> {
    match a {
        IpAddress::V4(o) => seq![AF_INET as u8, 0u8, 0u8, 0u8] + o@ + seq![
            0u8,
            0u8,
            0u8,
            0u8,
            0u8,
            0u8,
            0u8,
            0u8,
        ],
        IpAddress::V6(o) => seq![AF_INET6 as u8, 0u8, 0u8, 0u8, 0u8, 0u8, 0u8, 0u8] + o@ + seq![
            0u8,
            0u8,
            0u8,
            0u8,
        ],
    }
}

/// The length of the native encoding is the size of the family's native
/// socket-address structure.
pub proof fn lemma_encode_sockaddr_len(a: IpAddress)
    ensures
        a.spec_family() == AddrFamily::V4 ==> spec_encode_sockaddr(a).len() == SOCKADDR_IN_LEN,
        a.spec_family() == AddrFamily::V6 ==> spec_encode_sockaddr(a).len() == SOCKADDR_IN6_LEN,
{
}

/// Encodes an address into the OS's native socket-address bytes.
pub fn encode_sockaddr(a: &IpAddress) -> (r: Vec<u8>)
    ensures
        r@ == spec_encode_sockaddr(*a),
{
    let mut v: Vec<u8> = Vec::new();
    match a {
        IpAddress::V4(o) => {
            v.push(AF_INET as u8);
            v.push(0u8);
            v.push(0u8);
            v.push(0u8);
            let mut i: usize = 0;
            while i < 4
                invariant
                    i <= 4,
                    v@ =~= seq![AF_INET as u8, 0u8, 0u8, 0u8] + o@.subrange(0, i as int),
                decreases 4 - i,
            {
                v.push(o[i]);
                i = i + 1;
            }
            let mut j: usize = 0;
            while j < 8
                invariant
                    j <= 8,
                    v@ =~= seq![AF_INET as u8, 0u8, 0u8, 0u8] + o@ + Seq::new(
                        j as nat,
                        |k: int| 0u8,
                    ),
                decreases 8 - j,
            {
                v.push(0u8);
                j = j + 1;
            }
            assert(v@ =~= spec_encode_sockaddr(*a));
        },
        IpAddress::V6(o) => {
            v.push(AF_INET6 as u8);
            let mut p: usize = 0;
            while p < 7
                invariant
                    p <= 7,
                    v@ =~= seq![AF_INET6 as u8] + Seq::new(p as nat, |k: int| 0u8),
                decreases 7 - p,
            {
                v.push(0u8);
                p = p + 1;
            }
            assert(v@ =~= seq![AF_INET6 as u8, 0u8, 0u8, 0u8, 0u8, 0u8, 0u8, 0u8]);
            let mut i: usize = 0;
            while i < 16
                invariant
                    i <= 16,
                    v@ =~= seq![AF_INET6 as u8, 0u8, 0u8, 0u8, 0u8, 0u8, 0u8, 0u8] + o@.subrange(
                        0,
                        i as int,
                    ),
                decreases 16 - i,
            {
                v.push(o[i]);
                i = i + 1;
            }
            let mut j: usize = 0;
            while j < 4
                invariant
                    j <= 4,
                    v@ =~= seq![AF_INET6 as u8, 0u8, 0u8, 0u8, 0u8, 0u8, 0u8, 0u8] + o@ + Seq::new(
                        j as nat,
                        |k: int| 0u8,
                    ),
                decreases 4 - j,
            {
                v.push(0u8);
                j = j + 1;
            }
            assert(v@ =~= spec_encode_sockaddr(*a));
        },
    }
    v
}

/// The address encoded in native socket-address bytes, judged by the
/// family number in the leading two bytes: the octets at the family's
/// offset when the bytes are long enough for that family's structure,
/// nothing for a short buffer or an unknown family.
pub open spec fn spec_decode_sockaddr(b: Seq<u8>) -> Option<IpAddress> {
    if b.len() >= SOCKADDR_IN_LEN && b[0] == AF_INET as u8 && b[1] == 0u8 {
        Some(IpAddress::V4([b[4], b[5], b[6], b[7]]))
    } else if b.len() >= SOCKADDR_IN6_LEN && b[0] == AF_INET6 as u8 && b[1] == 0u8 {
        Some(
            IpAddress::V6(
                [
                    b[8],
                    b[9],
                    b[10],
                    b[11],
                    b[12],
                    b[13],
                    b[14],
                    b[15],
                    b[16],
                    b[17],
                    b[18],
                    b[19],
                    b[20],
                    b[21],
                    b[22],
                    b[23],
                ],
            ),
        )
    } else {
        None
    }
}

/// Decodes native socket-address bytes back into a portable address.
pub fn decode_sockaddr(b: &Vec<u8>) -> (r: Option<IpAddress>)
    ensures
        r == spec_decode_sockaddr(b@),
{
    if b.len() >= SOCKADDR_IN_LEN && b[0] == AF_INET as u8 && b[1] == 0u8 {
        Some(IpAddress::V4([b[4], b[5], b[6], b[7]]))
    } else if b.len() >= SOCKADDR_IN6_LEN && b[0] == AF_INET6 as u8 && b[1] == 0u8 {
        Some(
            IpAddress::V6(
                [
                    b[8],
                    b[9],
                    b[10],
                    b[11],
                    b[12],
                    b[13],
                    b[14],
                    b[15],
                    b[16],
                    b[17],
                    b[18],
                    b[19],
                    b[20],
                    b[21],
                    b[22],
                    b[23],
                ],
            ),
        )
    } else {
        None
    }
}

/// A decoded address carries the family that the native bytes name: the
/// leading family number alone decides the variant, so the receive path
/// always tells the two families apart.
pub proof fn lemma_decode_names_family(b: Seq<u8>)
    ensures
        spec_decode_sockaddr(b) matches Some(a) ==> b[0] == spec_family_number(a.spec_family())
            as u8,
{
}

/// Decoding an encoded address yields the address back: the native
/// encoding preserves the full address, family included.
pub proof fn lemma_sockaddr_round_trip(a: IpAddress)
    ensures
        spec_decode_sockaddr(spec_encode_sockaddr(a)) == Some(a),
{
    let b = spec_encode_sockaddr(a);
    match a {
        IpAddress::V4(o) => {
            assert(b[0] == AF_INET as u8 && b[1] == 0u8);
            let d = [b[4], b[5], b[6], b[7]];
            assert(d =~= o);
            assert(spec_decode_sockaddr(b) == Some(IpAddress::V4(d)));
        },
        IpAddress::V6(o) => {
            assert(b[0] == AF_INET6 as u8 && b[1] == 0u8);
            let d = [
                b[8],
                b[9],
                b[10],
                b[11],
                b[12],
                b[13],
                b[14],
                b[15],
                b[16],
                b[17],
                b[18],
                b[19],
                b[20],
                b[21],
                b[22],
                b[23],
            ];
            assert(d =~= o);
            assert(spec_decode_sockaddr(b) == Some(IpAddress::V6(d)));
        },
    }
}

} // verus!
