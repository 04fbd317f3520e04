//! IP addresses and CIDR networks as plain integers.

use vstd::prelude::*;
use vstd::arithmetic::power2::pow2;

verus! {

/// An IPv4 or IPv6 address, held as the big-endian integer of its octets.
#[derive(Clone, Copy, Debug, PartialEq, Eq, Hash, Structural)]
pub enum IpAddress {
    V4(u32),
    V6(u128),
}

/// The mask of an IPv4 network with the given prefix length: the 32-bit value
/// whose `prefix` highest bits are set.
pub open spec fn v4_mask(prefix: u8) -> int
    recommends
        prefix <= 32,
{
    0x1_0000_0000 - pow2((32 - prefix) as nat)
}

/// The mask of an IPv6 network with the given prefix length: the 128-bit value
/// whose `prefix` highest bits are set.
pub open spec fn v6_mask(prefix: u8) -> int
    recommends
        prefix <= 128,
{
    pow2(128) - pow2((128 - prefix) as nat)
}

/// Calls `ipnet::Ipv4Net::new` and hands back the address and prefix length of
/// the network it built. The constructor accepts a prefix length of at most 32
/// and stores both values as given.
#[verifier::external_body]
fn v4_network(addr: u32, prefix: u8) -> (r: Option<(u32, u8)>)
    ensures
        r == (if prefix <= 32 { Some((addr, prefix)) } else { None::<(u32, u8)> }),
{
    match ipnet::Ipv4Net::new(addr.into(), prefix) {
        Ok(net) => Some((u32::from(net.addr()), net.prefix_len())),
        Err(_) => None,
    }
}

/// Calls `ipnet::Ipv6Net::new` and hands back the address and prefix length of
/// the network it built. The constructor accepts a prefix length of at most
/// 128 and stores both values as given.
#[verifier::external_body]
fn v6_network(addr: u128, prefix: u8) -> (r: Option<(u128, u8)>)
    ensures
        r == (if prefix <= 128 { Some((addr, prefix)) } else { None::<(u128, u8)> }),
{
    match ipnet::Ipv6Net::new(addr.into(), prefix) {
        Ok(net) => Some((u128::from(net.addr()), net.prefix_len())),
        Err(_) => None,
    }
}

/// Calls `ipnet::Ipv4Net::netmask` on the network of the given address and
/// prefix length. The mask has the `prefix` highest of its 32 bits set, and
/// does not depend on the address.
#[verifier::external_body]
fn v4_netmask(addr: u32, prefix: u8) -> (r: u32)
    requires
        prefix <= 32,
    ensures
        r == v4_mask(prefix),
{
    u32::from(ipnet::Ipv4Net::new(addr.into(), prefix).unwrap().netmask())
}

/// Calls `ipnet::Ipv6Net::netmask` on the network of the given address and
/// prefix length. The mask has the `prefix` highest of its 128 bits set, and
/// does not depend on the address.
#[verifier::external_body]
fn v6_netmask(addr: u128, prefix: u8) -> (r: u128)
    requires
        prefix <= 128,
    ensures
        r == v6_mask(prefix),
{
    u128::from(ipnet::Ipv6Net::new(addr.into(), prefix).unwrap().netmask())
}

impl IpAddress {
    /// The longest prefix an address of this family can carry.
    pub open spec fn max_prefix(self) -> u8 {
        match self {
            IpAddress::V4(_) => 32u8,
            IpAddress::V6(_) => 128u8,
        }
    }

    /// The longest prefix an address of this family can carry: 32 or 128.
    pub fn max_prefix_len(&self) -> (r: u8)
        ensures
            r == self.max_prefix(),
    {
        match self {
            IpAddress::V4(_) => 32,
            IpAddress::V6(_) => 128,
        }
    }
}

/// An address together with a prefix length: a CIDR descriptor.
#[derive(Clone, Copy, Debug, PartialEq, Eq, Hash, Structural)]
pub struct IpNetwork {
    pub addr: IpAddress,
    pub prefix_len: u8,
}

impl IpNetwork {
    /// The prefix length fits the address family.
    pub open spec fn wf(self) -> bool {
        self.prefix_len <= self.addr.max_prefix()
    }

    /// Tells whether the prefix length fits the address family.
    pub fn is_valid(&self) -> (r: bool)
        ensures
            r == self.wf(),
    {
        self.prefix_len <= self.addr.max_prefix_len()
    }

    /// The network mask, in the family of the address.
    pub open spec fn spec_netmask(self) -> IpAddress {
        match self.addr {
            IpAddress::V4(_) => IpAddress::V4(v4_mask(self.prefix_len) as u32),
            IpAddress::V6(_) => IpAddress::V6(v6_mask(self.prefix_len) as u128),
        }
    }

    /// What `new` yields: the pair as given when the prefix length fits the
    /// family of the address, nothing otherwise.
    pub open spec fn spec_new(addr: IpAddress, prefix_len: u8) -> Option<IpNetwork> {
        if prefix_len <= addr.max_prefix() {
            Some(IpNetwork { addr, prefix_len })
        } else {
            None
        }
    }

    /// Combines an address with a prefix length. Fails when the prefix length
    /// is longer than the address family allows.
    pub fn new(addr: IpAddress, prefix_len: u8) -> (r: Option<IpNetwork>)
        ensures
            r == Self::spec_new(addr, prefix_len),
            r is Some ==> r->Some_0.wf(),
    {
        match addr {
            IpAddress::V4(a) => match v4_network(a, prefix_len) {
                Some((ip, len)) => Some(IpNetwork { addr: IpAddress::V4(ip), prefix_len: len }),
                None => None,
            },
            IpAddress::V6(a) => match v6_network(a, prefix_len) {
                Some((ip, len)) => Some(IpNetwork { addr: IpAddress::V6(ip), prefix_len: len }),
                None => None,
            },
        }
    }

    /// The address.
    pub fn addr(&self) -> (r: IpAddress)
        ensures
            r == self.addr,
    {
        self.addr
    }

    /// The prefix length.
    pub fn prefix_len(&self) -> (r: u8)
        ensures
            r == self.prefix_len,
    {
        self.prefix_len
    }

    /// The network mask of this network.
    pub fn netmask(&self) -> (r: IpAddress)
        requires
            self.wf(),
        ensures
            r == self.spec_netmask(),
    {
        match self.addr {
            IpAddress::V4(a) => IpAddress::V4(v4_netmask(a, self.prefix_len)),
            IpAddress::V6(a) => IpAddress::V6(v6_netmask(a, self.prefix_len)),
        }
    }
}

} // verus!
