//! The configuration surface: where the server listens.
//!
//! The address is held as plain values so the listen decision is part of
//! the library; the process boundary converts it to whatever its socket
//! layer wants. Loading a configuration source (and rejecting unknown
//! fields) happens outside the library, which only receives the finished
//! value.

use vstd::prelude::*;

verus! {

/// A host, by its raw numeric parts.
pub enum HostAddr {
    /// Four dotted-quad octets.
    V4 { octets: (u8, u8, u8, u8) },
    /// Eight sixteen-bit segments.
    V6 { segments: [u16; 8] },
}

/// A network address. One stream-socket variant today; the enum keeps
/// transports from leaking into the relay logic.
pub enum Address {
    /// A host and a port to bind a stream listener on.
    Tcp(HostAddr, u16),
}

/// The address the server listens on when nothing overrides it:
/// 127.0.0.1:27632.
pub open spec fn default_listen() -> Address {
    Address::Tcp(HostAddr::V4 { octets: (127u8, 0u8, 0u8, 1u8) }, 27632u16)
}

/// The default listen address, 127.0.0.1:27632.
pub fn listen() -> (a: Address)
    ensures
        a == default_listen(),
{
    Address::Tcp(HostAddr::V4 { octets: (127, 0, 0, 1) }, 27632)
}

/// The application's configuration: a single bind address.
pub struct Config {
    /// Where to listen for incoming connections.
    pub listen: Address,
}

impl Default for Config {
    /// The configuration used when no source overrides anything.
    fn default() -> (c: Config)
        ensures
            c.listen == default_listen(),
    {
        Config { listen: listen() }
    }
}

} // verus!
