use vstd::prelude::*;

use crate::buffer::{LazyBuffer, NamedPipeBuffer};
use crate::os::{OsError, ERROR_IO_PENDING, ERROR_PIPE_CONNECTED};

verus! {

/// The state of one server-side pipe instance. `C` is the running
/// connection handle and `P` the payload of a connection thread's panic.
pub enum ServerNamedPipeStatus<C, P> {
    /// Between taking a finished connection out and recording how it ended.
    Joining,
    /// Unconnected and not connecting.
    Idle,
    /// Unconnected and waiting for a client.
    Pending,
    /// A connection is running.
    Connected(C),
    /// The last connection ended; its buffer bundle is kept for the next.
    Disconnected,
    /// The last connection's thread panicked; the slot is spent.
    ThreadPanic(P),
}

/// Decides what a connect-accept call's outcome means: `Ok(true)` when a
/// client is connected already (within the call, or before it), `Ok(false)`
/// when the accept is pending, and the call's error otherwise. `last_error`
/// is the thread's last-error code after a failed call.
pub fn connect_result(call: Result<(), OsError>, last_error: u32) -> (r: Result<bool, OsError>)
    ensures
        match call {
            Ok(()) => r == Ok::<bool, OsError>(true),
            Err(e) => if last_error == ERROR_IO_PENDING {
                r == Ok::<bool, OsError>(false)
            } else if last_error == ERROR_PIPE_CONNECTED {
                r == Ok::<bool, OsError>(true)
            } else {
                r == Err::<bool, OsError>(e)
            },
        },
{
    match call {
        Ok(()) => Ok(true),
        Err(e) => {
            if last_error == ERROR_IO_PENDING {
                Ok(false)
            } else if last_error == ERROR_PIPE_CONNECTED {
                Ok(true)
            } else {
                Err(e)
            }
        },
    }
}

/// One reusable server-side pipe endpoint and its connection lifecycle.
///
/// The platform calls are the caller's: it issues the connect-accept when
/// `can_connect` holds, spawns the connection on the buffer that
/// `notify_connection` hands out, and joins a finished connection taken out
/// with `take_finished`.
pub struct ServerNamedPipe<F, C, P> {
    handle: usize,
    buffer: Option<LazyBuffer<NamedPipeBuffer, F>>,
    status: ServerNamedPipeStatus<C, P>,
}

impl<F, C, P> ServerNamedPipe<F, C, P> {
    pub closed spec fn status_spec(&self) -> ServerNamedPipeStatus<C, P> {
        self.status
    }

    pub closed spec fn buffer_spec(&self) -> Option<LazyBuffer<NamedPipeBuffer, F>> {
        self.buffer
    }

    pub closed spec fn handle_spec(&self) -> usize {
        self.handle
    }

    /// A fresh instance over the pipe `handle`, idle, holding the buffer
    /// bundle (or the factory that makes it) for its first connection.
    pub fn new(handle: usize, pipe_buffer: LazyBuffer<NamedPipeBuffer, F>) -> (r: Self)
        ensures
            r.status_spec() is Idle,
            r.buffer_spec() == Some(pipe_buffer),
            r.handle_spec() == handle,
    {
        ServerNamedPipe { handle, buffer: Some(pipe_buffer), status: ServerNamedPipeStatus::Idle }
    }

    pub fn handle(&self) -> (r: usize)
        ensures
            r == self.handle_spec(),
    {
        self.handle
    }

    pub fn status(&self) -> (r: &ServerNamedPipeStatus<C, P>)
        ensures
            *r == self.status_spec(),
    {
        &self.status
    }

    /// True when a connect-accept may be issued: the slot is idle, or its
    /// last connection ended normally.
    pub fn can_connect(&self) -> (r: bool)
        ensures
            r == (self.status_spec() is Idle || self.status_spec() is Disconnected),
    {
        match self.status {
            ServerNamedPipeStatus::Idle => true,
            ServerNamedPipeStatus::Disconnected => true,
            _ => false,
        }
    }

    /// True while a connection is running.
    pub fn is_connected(&self) -> (r: bool)
        ensures
            r == self.status_spec() is Connected,
    {
        match self.status {
            ServerNamedPipeStatus::Connected(_) => true,
            _ => false,
        }
    }

    /// Records the outcome of the connect-accept (see `connect_result`) that
    /// the caller issued because `can_connect` held: the slot becomes
    /// pending, and `Ok(true)` tells the caller to signal the slot's event,
    /// since the client is connected already. A failed accept changes
    /// nothing, and so does a call in any other state.
    pub fn start_connecting(&mut self, connected: Result<bool, OsError>) -> (r: Result<bool, OsError>)
        ensures
            (old(self).status_spec() is Idle || old(self).status_spec() is Disconnected) ==> r
                == connected,
            (old(self).status_spec() is Idle || old(self).status_spec() is Disconnected) && connected is Ok
                ==> final(self).status_spec() is Pending,
            !((old(self).status_spec() is Idle || old(self).status_spec() is Disconnected) && connected is Ok)
                ==> final(self).status_spec() == old(self).status_spec(),
            !(old(self).status_spec() is Idle || old(self).status_spec() is Disconnected) ==> r == Ok::<
                bool,
                OsError,
            >(false),
            final(self).buffer_spec() == old(self).buffer_spec(),
            final(self).handle_spec() == old(self).handle_spec(),
    {
        if self.can_connect() {
            match connected {
                Ok(b) => {
                    self.status = ServerNamedPipeStatus::Pending;
                    Ok(b)
                },
                Err(e) => Err(e),
            }
        } else {
            Ok(false)
        }
    }

    /// Once the caller has seen the slot's event signaled, hands out the
    /// buffer bundle for the new connection: the one kept from the last
    /// connection, or a fresh one from the factory. Only a pending slot that
    /// still holds its buffer does so; any other call is a no-op returning
    /// `None`. The caller spawns the connection on it and reports it with
    /// `connected`.
    pub fn notify_connection(&mut self) -> (r: Option<NamedPipeBuffer>)
        where
            F: FnOnce() -> NamedPipeBuffer,
        requires
            old(self).buffer_spec() matches Some(LazyBuffer::Unbuffered(f)) ==> f.requires(()),
        ensures
            (old(self).status_spec() is Pending && old(self).buffer_spec() is Some) ==> r is Some
                && final(self).buffer_spec() is None && match old(self).buffer_spec() {
                Some(LazyBuffer::Buffered(b)) => r == Some(b),
                Some(LazyBuffer::Unbuffered(f)) => f.ensures((), r->0),
                None => true,
            },
            !(old(self).status_spec() is Pending && old(self).buffer_spec() is Some) ==> r is None
                && final(self).buffer_spec() == old(self).buffer_spec(),
            final(self).status_spec() == old(self).status_spec(),
            final(self).handle_spec() == old(self).handle_spec(),
    {
        match self.status {
            ServerNamedPipeStatus::Pending => {
                match self.buffer.take() {
                    Some(lazy) => Some(lazy.buffer()),
                    None => None,
                }
            },
            _ => None,
        }
    }

    /// Records the connection the caller spawned on the buffer handed out by
    /// `notify_connection`. Only a pending slot takes it; otherwise it is
    /// handed back.
    pub fn connected(&mut self, connection: C) -> (r: Option<C>)
        ensures
            old(self).status_spec() is Pending ==> r is None && final(self).status_spec()
                == ServerNamedPipeStatus::<C, P>::Connected(connection),
            !(old(self).status_spec() is Pending) ==> r == Some(connection)
                && final(self).status_spec() == old(self).status_spec(),
            final(self).buffer_spec() == old(self).buffer_spec(),
            final(self).handle_spec() == old(self).handle_spec(),
    {
        match self.status {
            ServerNamedPipeStatus::Pending => {
                self.status = ServerNamedPipeStatus::Connected(connection);
                None
            },
            _ => Some(connection),
        }
    }

    /// Takes the running connection out once the caller has seen that its
    /// thread finished; the slot is then between states until
    /// `connection_ended`. Any other call is a no-op returning `None`.
    pub fn take_finished(&mut self) -> (r: Option<C>)
        ensures
            old(self).status_spec() matches ServerNamedPipeStatus::Connected(c) ==> r == Some(c)
                && final(self).status_spec() is Joining,
            !(old(self).status_spec() is Connected) ==> r is None && final(self).status_spec()
                == old(self).status_spec(),
            final(self).buffer_spec() == old(self).buffer_spec(),
            final(self).handle_spec() == old(self).handle_spec(),
    {
        if self.is_connected() {
            let mut status = ServerNamedPipeStatus::Joining;
            std::mem::swap(&mut status, &mut self.status);
            match status {
                ServerNamedPipeStatus::Connected(c) => Some(c),
                _ => None,
            }
        } else {
            None
        }
    }

    /// Records how the connection taken out by `take_finished` ended: its
    /// thread returned the buffer bundle, which is kept for the next
    /// connection, and the slot is disconnected; or it panicked, and the
    /// slot is spent. In any other state nothing changes.
    pub fn connection_ended(&mut self, joined: Result<NamedPipeBuffer, P>)
        ensures
            old(self).status_spec() is Joining ==> match joined {
                Ok(b) => final(self).status_spec() is Disconnected && final(self).buffer_spec() == Some(
                    LazyBuffer::<NamedPipeBuffer, F>::Buffered(b),
                ),
                Err(p) => final(self).status_spec() == ServerNamedPipeStatus::<C, P>::ThreadPanic(p)
                    && final(self).buffer_spec() == old(self).buffer_spec(),
            },
            !(old(self).status_spec() is Joining) ==> final(self).status_spec() == old(self).status_spec()
                && final(self).buffer_spec() == old(self).buffer_spec(),
            final(self).handle_spec() == old(self).handle_spec(),
    {
        match self.status {
            ServerNamedPipeStatus::Joining => {
                match joined {
                    Ok(buffer) => {
                        self.buffer = Some(LazyBuffer::Buffered(buffer));
                        self.status = ServerNamedPipeStatus::Disconnected;
                    },
                    Err(payload) => {
                        self.status = ServerNamedPipeStatus::ThreadPanic(payload);
                    },
                }
            },
            _ => {},
        }
    }
}

} // verus!
