//! Resolving the address of the daemon.
//!
//! The address is resolved once, when the process starts, and the endpoint is
//! never changed afterwards. Opening the connection is the caller's part.

use vstd::prelude::*;
use crate::text::strip_prefix;

verus! {

/// The address used where the configuration gives none.
pub const DEFAULT_ADDRESS: &'static str = "unix:///var/run/docker.sock";

/// What an address of a local socket begins with.
pub const SOCKET_SCHEME: &'static str = "unix://";

/// Timeout of a call over a local socket: daemon calls can block on
/// long-running operations.
pub const SOCKET_TIMEOUT: u64 = 120;

/// Timeout of a call to a remote host.
pub const HTTP_TIMEOUT: u64 = 5;

/// How the daemon is reached.
#[derive(Clone, Copy, Debug, PartialEq, Eq, Structural)]
pub enum Transport {
    /// Over a local socket; the endpoint's address is the socket's path.
    Socket,
    /// Over HTTP or HTTPS; the endpoint's address is the configured one.
    Http,
}

/// The version of the daemon's protocol that the client asks for.
#[derive(Clone, Copy, Debug, PartialEq, Eq, Structural)]
pub struct ProtocolVersion {
    pub major: usize,
    pub minor: usize,
}

/// A resolved address of the daemon.
#[derive(Clone, Debug)]
pub struct DaemonEndpoint {
    pub transport: Transport,
    pub address: String,
    pub timeout: u64,
    pub version: ProtocolVersion,
}

/// A resolved address as plain values.
pub struct DaemonEndpointView {
    pub transport: Transport,
    pub address: Seq<char>,
    pub timeout: u64,
    pub version: ProtocolVersion,
}

impl View for DaemonEndpoint {
    type V = DaemonEndpointView;

    open spec fn view(&self) -> DaemonEndpointView {
        DaemonEndpointView {
            transport: self.transport,
            address: self.address@,
            timeout: self.timeout,
            version: self.version,
        }
    }
}

/// The address that is resolved: the configured one, or the default.
pub open spec fn spec_address(configured: Option<&str>) -> Seq<char> {
    match configured {
        Some(address) => address@,
        None => DEFAULT_ADDRESS@,
    }
}

/// The endpoint that an address denotes: a local socket with the long
/// timeout where the address begins with the socket scheme, the path being
/// what follows the scheme; else a remote host with the short timeout.
pub open spec fn spec_resolve(address: Seq<char>, version: ProtocolVersion) -> DaemonEndpointView {
    if SOCKET_SCHEME@.is_prefix_of(address) {
        DaemonEndpointView {
            transport: Transport::Socket,
            address: address.subrange(SOCKET_SCHEME@.len() as int, address.len() as int),
            timeout: SOCKET_TIMEOUT,
            version,
        }
    } else {
        DaemonEndpointView {
            transport: Transport::Http,
            address,
            timeout: HTTP_TIMEOUT,
            version,
        }
    }
}

/// Resolves the daemon's endpoint from the configured address.
pub fn resolve(configured: Option<&str>, version: ProtocolVersion) -> (endpoint: DaemonEndpoint)
    ensures
        endpoint@ == spec_resolve(spec_address(configured), version),
{
    let address = match configured {
        Some(address) => address,
        None => DEFAULT_ADDRESS,
    };
    match strip_prefix(address, SOCKET_SCHEME) {
        Some(path) => DaemonEndpoint {
            transport: Transport::Socket,
            address: path.to_owned(),
            timeout: SOCKET_TIMEOUT,
            version,
        },
        None => DaemonEndpoint {
            transport: Transport::Http,
            address: address.to_owned(),
            timeout: HTTP_TIMEOUT,
            version,
        },
    }
}

} // verus!
