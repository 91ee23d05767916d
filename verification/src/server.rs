//! Server-level decisions around the accept loop.
//!
//! The accept loop itself is I/O and runs outside the library: it binds a
//! listener, accepts connections forever, and spawns one actor per
//! connection, all sharing one bus handle. What the library decides for
//! it: which listener faults it may survive, and the identity minted for
//! each accepted connection.

use vstd::prelude::*;

verus! {

/// A fault the listener reported while accepting, reduced to what the
/// decision needs.
pub enum AcceptFault {
    /// The peer vanished before its accept completed.
    NotConnected,
    /// Any other listener fault.
    Other,
}

/// Whether an accept fault terminates the server. A peer that vanished
/// before its accept completed is benign — the loop logs it and keeps
/// accepting; every other listener fault is fatal. A fault on one
/// established connection never reaches this decision: it closes only
/// that connection's actor.
pub fn accept_fault_is_fatal(fault: &AcceptFault) -> (fatal: bool)
    ensures
        fatal == !(fault is NotConnected),
{
    match fault {
        AcceptFault::NotConnected => false,
        AcceptFault::Other => true,
    }
}

/// Mints the unique connection identities: a counter the accept loop owns.
///
/// Peer ports can coincide across addresses or after reconnection reuse,
/// so they only label a connection; these identities, strictly increasing
/// per mint, are what distinguishes one live connection from another.
pub struct IdMint {
    next: u64,
}

impl IdMint {
    /// The identity the next mint will hand out.
    pub closed spec fn next_id(&self) -> u64 {
        self.next
    }

    /// A fresh mint, starting at zero.
    pub fn new() -> (mint: IdMint)
        ensures
            mint.next_id() == 0,
    {
        IdMint { next: 0 }
    }

    /// Whether the mint has run out of identities, which a caller must
    /// rule out before minting.
    pub fn exhausted(&self) -> (r: bool)
        ensures
            r == (self.next_id() == u64::MAX),
    {
        self.next == u64::MAX
    }

    /// Hands out the next identity. Every identity minted later is
    /// strictly greater, so no two connections ever share one.
    pub fn mint(&mut self) -> (id: u64)
        requires
            old(self).next_id() < u64::MAX,
        ensures
            id == old(self).next_id(),
            final(self).next_id() == id + 1,
    {
        let id = self.next;
        self.next = self.next + 1;
        id
    }
}

} // verus!
