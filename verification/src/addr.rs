//! The portable IP-address value consumed by `connect` and produced by
//! `recv_from`, together with its address family.

use vstd::prelude::*;

verus! {

/// An IP address, as the octets of its two standard notations.
#[derive(Clone, Copy, Debug, PartialEq, Eq)]
pub enum IpAddress {
    V4([u8; 4]),
    V6([u8; 16]),
}

/// The address family of an [`IpAddress`], the tag on which the socket
/// layer dispatches its family-specific choices.
#[derive(Clone, Copy, Debug, PartialEq, Eq, Structural)]
pub enum AddrFamily {
    V4,
    V6,
}

impl IpAddress {
    /// The family of this address.
    pub open spec fn spec_family(self) -> AddrFamily {
        match self {
            IpAddress::V4(_) => AddrFamily::V4,
            IpAddress::V6(_) => AddrFamily::V6,
        }
    }

    /// Returns the family of this address.
    pub fn family(&self) -> (f: AddrFamily)
        ensures
            f == self.spec_family(),
    {
        match self {
            IpAddress::V4(_) => AddrFamily::V4,
            IpAddress::V6(_) => AddrFamily::V6,
        }
    }
}

} // verus!
