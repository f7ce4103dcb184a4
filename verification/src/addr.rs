//! Socket addresses as plain values.

use vstd::prelude::*;

use crate::table::TableKey;

verus! {

/// An IP address with a port, and for IPv6 with its flow and scope. Each address
/// is the number that its bytes give, highest byte first.
#[derive(Clone, Copy, Debug, PartialEq, Eq, Structural)]
pub enum SocketAddr {
    V4 { ip4: u32, port: u16 },
    V6 { ip6: u128, port: u16, flowinfo: u32, scope_id: u32 },
}

impl View for SocketAddr {
    type V = SocketAddr;

    open spec fn view(&self) -> SocketAddr {
        *self
    }
}

impl TableKey for SocketAddr {
    fn same(&self, other: &SocketAddr) -> (r: bool) {
        *self == *other
    }
}

} // verus!
