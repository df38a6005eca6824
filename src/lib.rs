//! Resolution of the host's default gateway from a snapshot of its network
//! interfaces and the local address it uses for outbound traffic.

pub mod gateway;
pub mod interface;
