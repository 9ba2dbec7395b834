//! Where the remote router sends a request: to the task that manages remote
//! connections, or to one of the two routers it delegates to.

use vstd::prelude::*;

verus! {

/// The handler of a routing request.
#[derive(Debug, Clone, Copy, PartialEq, Eq, Structural)]
pub enum Delegate {
    /// The task that manages the remote connections.
    RemoteConnections,
    /// The router of the connections opened by clients.
    ClientRouter,
    /// The router of the agents of the plane.
    PlaneRouter,
}

/// The delegate for a request that the remote connections do not take: the
/// client router when the request came from a remote origin, else the plane
/// router.
pub open spec fn spec_local_delegate(has_origin: bool) -> Delegate {
    if has_origin { Delegate::ClientRouter } else { Delegate::PlaneRouter }
}

/// Who resolves the sender for an address: the remote connections for a
/// remote address, else a local delegate.
pub fn sender_resolver(addr_is_remote: bool, has_origin: bool) -> (res: Delegate)
    ensures
        res == (if addr_is_remote { Delegate::RemoteConnections } else { spec_local_delegate(has_origin) }),
{
    if addr_is_remote {
        Delegate::RemoteConnections
    } else if has_origin {
        Delegate::ClientRouter
    } else {
        Delegate::PlaneRouter
    }
}

/// Who looks up a route: the remote connections when a host is given, else a
/// local delegate.
pub fn route_resolver(has_host: bool, has_origin: bool) -> (res: Delegate)
    ensures
        res == (if has_host { Delegate::RemoteConnections } else { spec_local_delegate(has_origin) }),
{
    if has_host {
        Delegate::RemoteConnections
    } else if has_origin {
        Delegate::ClientRouter
    } else {
        Delegate::PlaneRouter
    }
}

} // verus!
