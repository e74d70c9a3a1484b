//! Allocation-free asynchronous session storage.
//!
//! The asynchronous operations of the session await a runtime-neutral
//! transport; they drive the same startup and cleanup sequences and the same
//! notification decoder as the blocking session.

use vstd::prelude::*;

use crate::transport::{BoardState, MAX_NOTIFICATION_LEN};

verus! {

/// An owning, allocation-free asynchronous session with a Chessnut Move board.
///
/// The session reuses a fixed notification buffer and requires exclusive
/// mutable access for commands and events.
pub struct AsyncBoard<T> {
    state: BoardState<T>,
}

impl<T> AsyncBoard<T> {
    /// The transport owned by the session.
    pub closed spec fn owned_transport(&self) -> T {
        self.state.transport
    }

    /// Creates a board session around a connected transport.
    ///
    /// This constructor performs no I/O.
    pub fn new(transport: T) -> (board: Self)
        ensures
            board.owned_transport() == transport,
    {
        AsyncBoard { state: BoardState::new(transport) }
    }

    /// Returns a shared reference to the underlying transport.
    pub fn transport(&self) -> (transport: &T)
        ensures
            *transport == self.owned_transport(),
    {
        &self.state.transport
    }

    /// Returns a mutable reference to the underlying transport.
    ///
    /// Direct operations can change subscription or connection state expected by
    /// the session.
    pub fn transport_mut(&mut self) -> (transport: &mut T)
        ensures
            *transport == old(self).owned_transport(),
            final(self).owned_transport() == *final(transport),
    {
        &mut self.state.transport
    }

    /// Returns the transport together with the session's notification buffer,
    /// for receiving a notification into the buffer.
    pub fn transport_and_buffer_mut(&mut self) -> (parts: (&mut T, &mut [u8; MAX_NOTIFICATION_LEN]))
        ensures
            *parts.0 == old(self).owned_transport(),
            final(self).owned_transport() == *final(parts.0),
    {
        (&mut self.state.transport, &mut self.state.notification_buffer)
    }

    /// Consumes the session and returns its transport without shutting it down.
    pub fn into_transport(self) -> (transport: T)
        ensures
            transport == self.owned_transport(),
    {
        self.state.transport
    }
}

} // verus!
