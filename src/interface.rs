//! Link-layer and network-layer addresses, and the interface records that
//! carry them.

use vstd::prelude::*;

use crate::gateway::Gateway;

verus! {

/// A 6-byte link-layer hardware address.
#[derive(Clone, Copy, Debug, PartialEq, Eq, Structural)]
pub struct MacAddr(pub u8, pub u8, pub u8, pub u8, pub u8, pub u8);

impl MacAddr {
    /// The all-zero address, which stands for "unknown".
    pub open spec fn spec_zero() -> MacAddr {
        MacAddr(0, 0, 0, 0, 0, 0)
    }

    /// The all-zero address.
    pub fn zero() -> (r: MacAddr)
        ensures
            r == MacAddr::spec_zero(),
    {
        MacAddr(0, 0, 0, 0, 0, 0)
    }
}

/// An IPv4 address, as its four octets in network order.
#[derive(Clone, Copy, Debug, PartialEq, Eq, Structural)]
pub struct Ipv4Addr(pub u8, pub u8, pub u8, pub u8);

impl Ipv4Addr {
    pub open spec fn spec_localhost() -> Ipv4Addr {
        Ipv4Addr(127, 0, 0, 1)
    }

    /// The loopback address 127.0.0.1.
    pub fn localhost() -> (r: Ipv4Addr)
        ensures
            r == Ipv4Addr::spec_localhost(),
    {
        Ipv4Addr(127, 0, 0, 1)
    }
}

/// An IPv6 address, as its eight 16-bit segments in network order.
#[derive(Clone, Copy, Debug, PartialEq, Eq, Structural)]
pub struct Ipv6Addr(pub u16, pub u16, pub u16, pub u16, pub u16, pub u16, pub u16, pub u16);

/// An IP address of either family.
#[derive(Clone, Copy, Debug, PartialEq, Eq, Structural)]
pub enum IpAddr {
    V4(Ipv4Addr),
    V6(Ipv6Addr),
}

/// A network interface: the addresses assigned to it, and the gateway
/// reachable through it when one is known.
#[derive(Clone, Debug)]
pub struct Interface {
    pub ipv4: Vec<Ipv4Addr>,
    pub ipv6: Vec<Ipv6Addr>,
    pub gateway: Option<Gateway>,
}

impl Interface {
    /// The interface has `ip` among the addresses of its family.
    pub open spec fn spec_owns(&self, ip: IpAddr) -> bool {
        match ip {
            IpAddr::V4(a) => self.ipv4@.contains(a),
            IpAddr::V6(a) => self.ipv6@.contains(a),
        }
    }

    /// The interface owns `ip` and knows its gateway.
    pub open spec fn spec_serves(&self, ip: IpAddr) -> bool {
        self.spec_owns(ip) && self.gateway is Some
    }

    pub fn owns(&self, ip: &IpAddr) -> (r: bool)
        ensures
            r == self.spec_owns(*ip),
    {
        match ip {
            IpAddr::V4(a) => contains_ipv4(&self.ipv4, a),
            IpAddr::V6(a) => contains_ipv6(&self.ipv6, a),
        }
    }
}

fn contains_ipv4(addrs: &Vec<Ipv4Addr>, a: &Ipv4Addr) -> (r: bool)
    ensures
        r == addrs@.contains(*a),
{
    let mut i: usize = 0;
    while i < addrs.len()
        invariant
            0 <= i <= addrs@.len(),
            forall|j: int| 0 <= j < i ==> addrs@[j] != *a,
        decreases addrs@.len() - i,
    {
        if addrs[i] == *a {
            assert(addrs@[i as int] == *a);
            return true;
        }
        i = i + 1;
    }
    false
}

fn contains_ipv6(addrs: &Vec<Ipv6Addr>, a: &Ipv6Addr) -> (r: bool)
    ensures
        r == addrs@.contains(*a),
{
    let mut i: usize = 0;
    while i < addrs.len()
        invariant
            0 <= i <= addrs@.len(),
            forall|j: int| 0 <= j < i ==> addrs@[j] != *a,
        decreases addrs@.len() - i,
    {
        if addrs[i] == *a {
            assert(addrs@[i as int] == *a);
            return true;
        }
        i = i + 1;
    }
    false
}

} // verus!
