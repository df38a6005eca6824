//! The default gateway: the router that the interface owning the local
//! address forwards through.

use vstd::prelude::*;

use crate::interface::{Interface, IpAddr, Ipv4Addr, MacAddr};

verus! {

/// The identity of a router reachable from one interface.
#[derive(Clone, Copy, Debug, PartialEq, Eq, Structural)]
pub struct Gateway {
    pub mac_addr: MacAddr,
    pub ip_addr: IpAddr,
}

impl Gateway {
    /// The placeholder for a gateway not yet known: zero MAC, 127.0.0.1.
    pub open spec fn spec_unresolved() -> Gateway {
        Gateway { mac_addr: MacAddr::spec_zero(), ip_addr: IpAddr::V4(Ipv4Addr::spec_localhost()) }
    }

    /// A gateway that is not yet known, to be filled in once discovered.
    pub fn new() -> (r: Gateway)
        ensures
            r == Gateway::spec_unresolved(),
    {
        Gateway { mac_addr: MacAddr::zero(), ip_addr: IpAddr::V4(Ipv4Addr::localhost()) }
    }
}

/// Why no default gateway could be determined.
#[derive(Clone, Copy, Debug, PartialEq, Eq, Structural)]
pub enum GatewayError {
    /// The host has no local address to reach the network from.
    LocalAddressNotFound,
    /// No interface both owns the local address and knows its gateway.
    DefaultGatewayNotFound,
}

impl GatewayError {
    pub open spec fn spec_message(self) -> Seq<char> {
        match self {
            GatewayError::LocalAddressNotFound => "Local IP address not found"@,
            GatewayError::DefaultGatewayNotFound => "Default Gateway not found"@,
        }
    }

    /// A human-readable description of the failure.
    pub fn message(&self) -> (r: &'static str)
        ensures
            r@ == self.spec_message(),
    {
        match self {
            GatewayError::LocalAddressNotFound => "Local IP address not found",
            GatewayError::DefaultGatewayNotFound => "Default Gateway not found",
        }
    }
}

/// The gateway of the first interface at or after position `i` that owns
/// `ip` and knows its gateway.
pub open spec fn first_gateway_from(ifaces: Seq<Interface>, ip: IpAddr, i: int) -> Option<Gateway>
    decreases ifaces.len() - i,
{
    if i < 0 || i >= ifaces.len() {
        None
    } else if ifaces[i].spec_serves(ip) {
        ifaces[i].gateway
    } else {
        first_gateway_from(ifaces, ip, i + 1)
    }
}

/// The gateway of the first interface, in order, that owns `ip` and knows
/// its gateway; `None` when there is no such interface.
pub open spec fn first_gateway(ifaces: Seq<Interface>, ip: IpAddr) -> Option<Gateway> {
    first_gateway_from(ifaces, ip, 0)
}

/// The outcome of resolving the default gateway for an optional local
/// address and a snapshot of interfaces.
pub open spec fn default_gateway(local_ip: Option<IpAddr>, ifaces: Seq<Interface>) -> Result<
    Gateway,
    GatewayError,
> {
    match local_ip {
        None => Err(GatewayError::LocalAddressNotFound),
        Some(ip) => match first_gateway(ifaces, ip) {
            Some(g) => Ok(g),
            None => Err(GatewayError::DefaultGatewayNotFound),
        },
    }
}

/// Scans `interfaces` in order and returns the gateway of the first one that
/// owns `local_ip` and knows its gateway.
pub fn find_gateway(local_ip: &IpAddr, interfaces: &Vec<Interface>) -> (r: Option<Gateway>)
    ensures
        r == first_gateway(interfaces@, *local_ip),
{
    let mut i: usize = 0;
    while i < interfaces.len()
        invariant
            0 <= i <= interfaces@.len(),
            first_gateway(interfaces@, *local_ip) == first_gateway_from(interfaces@, *local_ip, i as int),
        decreases interfaces@.len() - i,
    {
        let iface = &interfaces[i];
        if iface.owns(local_ip) {
            if let Some(g) = iface.gateway {
                return Some(g);
            }
        }
        i = i + 1;
    }
    None
}

/// Resolves the default gateway: fails with `LocalAddressNotFound` when there
/// is no local address, else returns the gateway of the first interface that
/// owns it and knows its gateway, or fails with `DefaultGatewayNotFound`.
pub fn get_default_gateway(local_ip: Option<IpAddr>, interfaces: &Vec<Interface>) -> (r: Result<
    Gateway,
    GatewayError,
>)
    ensures
        r == default_gateway(local_ip, interfaces@),
        local_ip is None ==> r == Err::<Gateway, GatewayError>(GatewayError::LocalAddressNotFound),
{
    let ip = match local_ip {
        Some(ip) => ip,
        None => return Err(GatewayError::LocalAddressNotFound),
    };
    match find_gateway(&ip, interfaces) {
        Some(g) => Ok(g),
        None => Err(GatewayError::DefaultGatewayNotFound),
    }
}

/// Two interface snapshots that hold the same records in the same order:
/// the same address lists and the same gateway at every position.
pub open spec fn same_snapshot(a: Seq<Interface>, b: Seq<Interface>) -> bool {
    &&& a.len() == b.len()
    &&& forall|i: int|
        #![trigger a[i], b[i]]
        0 <= i < a.len() ==> {
            &&& a[i].ipv4@ == b[i].ipv4@
            &&& a[i].ipv6@ == b[i].ipv6@
            &&& a[i].gateway == b[i].gateway
        }
}

/// The interface at position `k` is the first one that owns `ip` and knows
/// its gateway.
pub open spec fn is_first_serving(ifaces: Seq<Interface>, ip: IpAddr, k: int) -> bool {
    &&& 0 <= k < ifaces.len()
    &&& ifaces[k].spec_serves(ip)
    &&& forall|j: int| 0 <= j < k ==> !ifaces[j].spec_serves(ip)
}

proof fn lemma_first_gateway_from_is_first(ifaces: Seq<Interface>, ip: IpAddr, i: int)
    requires
        0 <= i <= ifaces.len(),
    ensures
        match first_gateway_from(ifaces, ip, i) {
            Some(g) => exists|k: int|
                i <= k < ifaces.len() && ifaces[k].spec_serves(ip) && (forall|j: int|
                    i <= j < k ==> !ifaces[j].spec_serves(ip)) && ifaces[k].gateway == Some(g),
            None => forall|k: int| i <= k < ifaces.len() ==> !ifaces[k].spec_serves(ip),
        },
    decreases ifaces.len() - i,
{
    if i < ifaces.len() {
        lemma_first_gateway_from_is_first(ifaces, ip, i + 1);
        if ifaces[i].spec_serves(ip) {
            assert(first_gateway_from(ifaces, ip, i) == ifaces[i].gateway);
        }
    }
}

/// Ties go to catalog order: the resolved gateway is the one of the first
/// interface that owns the address and knows its gateway, interfaces that own
/// it without a gateway are passed over, and there is none only when no
/// interface both owns the address and knows its gateway.
pub proof fn lemma_first_serving_interface_wins(ifaces: Seq<Interface>, ip: IpAddr)
    ensures
        match first_gateway(ifaces, ip) {
            Some(g) => exists|k: int|
                is_first_serving(ifaces, ip, k) && ifaces[k].gateway == Some(g),
            None => forall|k: int| 0 <= k < ifaces.len() ==> !ifaces[k].spec_serves(ip),
        },
{
    lemma_first_gateway_from_is_first(ifaces, ip, 0);
    if let Some(g) = first_gateway(ifaces, ip) {
        let k = choose|k: int|
            0 <= k < ifaces.len() && ifaces[k].spec_serves(ip) && (forall|j: int|
                0 <= j < k ==> !ifaces[j].spec_serves(ip)) && ifaces[k].gateway == Some(g);
        assert(is_first_serving(ifaces, ip, k));
    }
}

/// Without a local address resolution fails with `LocalAddressNotFound`,
/// whatever the interfaces are: the outcome does not depend on them.
pub proof fn lemma_no_local_address_short_circuits(a: Seq<Interface>, b: Seq<Interface>)
    ensures
        default_gateway(None, a) == Err::<Gateway, GatewayError>(GatewayError::LocalAddressNotFound),
        default_gateway(None, a) == default_gateway(None, b),
{
}

proof fn lemma_first_gateway_from_same_snapshot(
    a: Seq<Interface>,
    b: Seq<Interface>,
    ip: IpAddr,
    i: int,
)
    requires
        same_snapshot(a, b),
        0 <= i <= a.len(),
    ensures
        first_gateway_from(a, ip, i) == first_gateway_from(b, ip, i),
    decreases a.len() - i,
{
    if i < a.len() {
        assert(a[i].spec_serves(ip) == b[i].spec_serves(ip));
        lemma_first_gateway_from_same_snapshot(a, b, ip, i + 1);
    }
}

/// Resolution is a function of its inputs: the same local address and two
/// snapshots holding the same records give the same outcome.
pub proof fn lemma_resolution_deterministic(
    local_ip: Option<IpAddr>,
    a: Seq<Interface>,
    b: Seq<Interface>,
)
    requires
        same_snapshot(a, b),
    ensures
        default_gateway(local_ip, a) == default_gateway(local_ip, b),
{
    if let Some(ip) = local_ip {
        lemma_first_gateway_from_same_snapshot(a, b, ip, 0);
    }
}

} // verus!
