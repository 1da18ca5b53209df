use vstd::prelude::*;

use crate::buffer::NamedPipeBuffer;
use crate::event::Event;
use crate::os::{Issue, OsError};
use crate::pipe::NamedPipeEvents;

pub mod utils;

verus! {

/// What one multiplexed wait of a connection observed.
#[derive(Debug)]
pub struct WaitResult {
    /// The outcome of a read that completed: the bytes received, or its error.
    pub read: Option<Result<usize, OsError>>,
    /// The outcome of a write that completed: the bytes sent, or its error.
    pub write: Option<Result<usize, OsError>>,
    /// The data-ready event fired.
    pub data: bool,
    /// The interrupt event fired.
    pub interrupt: bool,
}

impl WaitResult {
    /// Nothing observed yet.
    pub fn new() -> (r: Self)
        ensures
            r.read is None,
            r.write is None,
            !r.data,
            !r.interrupt,
    {
        WaitResult { read: None, write: None, data: false, interrupt: false }
    }
}

/// The engine of one connection: its pipe handle, its buffer bundle, its
/// four events, and whether a read and a write are outstanding.
///
/// The platform calls are made by the caller, in two phases: `begin_read`
/// / `begin_write` decide whether an operation may be issued and arm its
/// completion event, and `read_issued` / `write_issued` record how the
/// issuing call returned.
pub struct NamedPipeRuntime {
    handle: usize,
    buffer: NamedPipeBuffer,
    events: NamedPipeEvents,
    read_pending: bool,
    write_pending: bool,
}

impl NamedPipeRuntime {
    pub closed spec fn reading(&self) -> bool {
        self.read_pending
    }

    pub closed spec fn writing(&self) -> bool {
        self.write_pending
    }

    pub closed spec fn handle_spec(&self) -> usize {
        self.handle
    }

    pub closed spec fn events_spec(&self) -> NamedPipeEvents {
        self.events
    }

    /// The read buffer's bytes.
    pub closed spec fn read_bytes(&self) -> Seq<u8> {
        self.buffer.read.bytes()
    }

    /// The write buffer's bytes.
    pub closed spec fn write_bytes(&self) -> Seq<u8> {
        self.buffer.write.bytes()
    }

    /// The event the read buffer's completion descriptor is bound to.
    pub closed spec fn read_bound(&self) -> Event {
        self.buffer.read.bound_event()
    }

    /// The event the write buffer's completion descriptor is bound to.
    pub closed spec fn write_bound(&self) -> Event {
        self.buffer.write.bound_event()
    }

    /// The buffer bundle.
    pub closed spec fn buffer_spec(&self) -> NamedPipeBuffer {
        self.buffer
    }

    pub fn new(handle: usize, buffer: NamedPipeBuffer, events: NamedPipeEvents) -> (r: Self)
        ensures
            !r.reading(),
            !r.writing(),
            r.handle_spec() == handle,
            r.events_spec() == events,
            r.buffer_spec() == buffer,
    {
        NamedPipeRuntime { handle, buffer, events, read_pending: false, write_pending: false }
    }

    /// Gives the buffer bundle back, for the next connection.
    pub fn destruct(self) -> (r: NamedPipeBuffer)
        ensures
            r == self.buffer_spec(),
    {
        self.buffer
    }

    pub fn handle(&self) -> (r: usize)
        ensures
            r == self.handle_spec(),
    {
        self.handle
    }

    pub fn events(&self) -> (r: NamedPipeEvents)
        ensures
            r == self.events_spec(),
    {
        self.events
    }

    pub fn is_reading(&self) -> (r: bool)
        ensures
            r == self.reading(),
    {
        self.read_pending
    }

    pub fn is_writing(&self) -> (r: bool)
        ensures
            r == self.writing(),
    {
        self.write_pending
    }

    /// First phase of a read: refused (`false`) while a read is outstanding;
    /// otherwise the read buffer is armed with the read-completion event and
    /// the caller issues a read over the whole read buffer.
    pub fn begin_read(&mut self) -> (r: bool)
        ensures
            r == !old(self).reading(),
            r ==> final(self).read_bound() == old(self).events_spec()@[0],
            !r ==> final(self).read_bound() == old(self).read_bound(),
            final(self).reading() == old(self).reading(),
            final(self).writing() == old(self).writing(),
            final(self).read_bytes() == old(self).read_bytes(),
            final(self).write_bytes() == old(self).write_bytes(),
            final(self).write_bound() == old(self).write_bound(),
            final(self).events_spec() == old(self).events_spec(),
            final(self).handle_spec() == old(self).handle_spec(),
    {
        if self.read_pending {
            false
        } else {
            let event = self.events.read();
            self.buffer.read.set_event(event);
            true
        }
    }

    /// The read buffer, unless a read is outstanding and owns it.
    pub fn read_buf(&self) -> (r: Option<&[u8]>)
        ensures
            r is Some <==> !self.reading(),
            r matches Some(b) ==> b@ == self.read_bytes(),
    {
        if self.read_pending {
            None
        } else {
            Some(self.buffer.read.as_ref())
        }
    }

    /// The write buffer, unless a write is outstanding and owns it.
    pub fn write_buf(&mut self) -> (r: Option<&mut [u8]>)
        ensures
            r is Some <==> !old(self).writing(),
            r matches Some(b) ==> b@ == old(self).write_bytes() && final(self).write_bytes() == final(b)@,
            r is None ==> final(self).write_bytes() == old(self).write_bytes(),
            final(self).read_bytes() == old(self).read_bytes(),
            final(self).reading() == old(self).reading(),
            final(self).writing() == old(self).writing(),
            final(self).read_bound() == old(self).read_bound(),
            final(self).write_bound() == old(self).write_bound(),
            final(self).events_spec() == old(self).events_spec(),
            final(self).handle_spec() == old(self).handle_spec(),
    {
        if self.write_pending {
            None
        } else {
            Some(self.buffer.write.as_mut())
        }
    }

    /// The read buffer, which the issued read fills.
    pub fn read_target(&mut self) -> (r: &mut [u8])
        ensures
            r@ == old(self).read_bytes(),
            final(self).read_bytes() == final(r)@,
            final(self).reading() == old(self).reading(),
            final(self).writing() == old(self).writing(),
            final(self).write_bytes() == old(self).write_bytes(),
            final(self).read_bound() == old(self).read_bound(),
            final(self).write_bound() == old(self).write_bound(),
            final(self).events_spec() == old(self).events_spec(),
            final(self).handle_spec() == old(self).handle_spec(),
    {
        self.buffer.read.as_mut()
    }

    /// Second phase of a read: records how the issuing call returned. A read
    /// that completed within the call is reported as `Ok(true)`: the caller
    /// then signals the read-completion event, so that waiting sees every
    /// completion the same way. A failed call leaves no read outstanding.
    pub fn read_issued(&mut self, issue: Issue) -> (r: Result<bool, OsError>)
        ensures
            match issue {
                Issue::Completed => r == Ok::<bool, OsError>(true) && final(self).reading(),
                Issue::Pending => r == Ok::<bool, OsError>(false) && final(self).reading(),
                Issue::Failed(e) => r == Err::<bool, OsError>(e) && final(self).reading() == old(self).reading(),
            },
            final(self).writing() == old(self).writing(),
            final(self).buffer_spec() == old(self).buffer_spec(),
            final(self).events_spec() == old(self).events_spec(),
            final(self).handle_spec() == old(self).handle_spec(),
    {
        match issue {
            Issue::Completed => {
                self.read_pending = true;
                Ok(true)
            },
            Issue::Pending => {
                self.read_pending = true;
                Ok(false)
            },
            Issue::Failed(e) => Err(e),
        }
    }

    /// First phase of a write of `len` bytes: refused (`false`) while a
    /// write is outstanding, or when `len` is zero or more than the write
    /// buffer holds; otherwise the write buffer is armed with the
    /// write-completion event and the caller issues a write of its first
    /// `len` bytes.
    pub fn begin_write(&mut self, len: usize) -> (r: bool)
        ensures
            r == (!old(self).writing() && 1 <= len <= old(self).write_bytes().len()),
            r ==> final(self).write_bound() == old(self).events_spec()@[1],
            !r ==> final(self).write_bound() == old(self).write_bound(),
            final(self).reading() == old(self).reading(),
            final(self).writing() == old(self).writing(),
            final(self).read_bytes() == old(self).read_bytes(),
            final(self).write_bytes() == old(self).write_bytes(),
            final(self).read_bound() == old(self).read_bound(),
            final(self).events_spec() == old(self).events_spec(),
            final(self).handle_spec() == old(self).handle_spec(),
    {
        if self.write_pending || len == 0 || len > self.buffer.write.len() {
            false
        } else {
            let event = self.events.write();
            self.buffer.write.set_event(event);
            true
        }
    }

    /// The write buffer, whose front the issued write sends.
    pub fn write_source(&self) -> (r: &[u8])
        ensures
            r@ == self.write_bytes(),
    {
        self.buffer.write.as_ref()
    }

    /// Second phase of a write, as `read_issued`.
    pub fn write_issued(&mut self, issue: Issue) -> (r: Result<bool, OsError>)
        ensures
            match issue {
                Issue::Completed => r == Ok::<bool, OsError>(true) && final(self).writing(),
                Issue::Pending => r == Ok::<bool, OsError>(false) && final(self).writing(),
                Issue::Failed(e) => r == Err::<bool, OsError>(e) && final(self).writing() == old(self).writing(),
            },
            final(self).reading() == old(self).reading(),
            final(self).buffer_spec() == old(self).buffer_spec(),
            final(self).events_spec() == old(self).events_spec(),
            final(self).handle_spec() == old(self).handle_spec(),
    {
        match issue {
            Issue::Completed => {
                self.write_pending = true;
                Ok(true)
            },
            Issue::Pending => {
                self.write_pending = true;
                Ok(false)
            },
            Issue::Failed(e) => Err(e),
        }
    }

    /// The events one wait blocks on: read completion; write completion
    /// while a write is outstanding, else data ready; and interrupt.
    pub fn wait_events(&self) -> (r: [Event; 3])
        ensures
            r@ == seq![
                self.events_spec()@[0],
                if self.writing() { self.events_spec()@[1] } else { self.events_spec()@[2] },
                self.events_spec()@[3],
            ],
    {
        let second = if self.write_pending {
            self.events.write()
        } else {
            self.events.data()
        };
        let r = [self.events.read(), second, self.events.interrupt()];
        assert(r@ =~= seq![
            self.events@[0],
            if self.write_pending { self.events@[1] } else { self.events@[2] },
            self.events@[3],
        ]);
        r
    }

    /// Folds one signaled event into `result`. For the read-completion event
    /// the caller passes the read's outcome in `read_done`, and the read is
    /// no longer outstanding; likewise for the write. The data-ready and
    /// interrupt events set their flags.
    pub fn record_signal(
        &mut self,
        event: Event,
        read_done: Option<Result<usize, OsError>>,
        write_done: Option<Result<usize, OsError>>,
        result: &mut WaitResult,
    )
        ensures
            ({
                let ev = old(self).events_spec()@;
                &&& (event == ev[0] && read_done is Some) ==> final(result).read == read_done
                    && !final(self).reading()
                &&& !(event == ev[0] && read_done is Some) ==> final(result).read == old(result).read
                    && final(self).reading() == old(self).reading()
                &&& (event == ev[1] && write_done is Some) ==> final(result).write == write_done
                    && !final(self).writing()
                &&& !(event == ev[1] && write_done is Some) ==> final(result).write == old(
                    result,
                ).write && final(self).writing() == old(self).writing()
                &&& final(result).data == (old(result).data || event == ev[2])
                &&& final(result).interrupt == (old(result).interrupt || event == ev[3])
            }),
            final(self).buffer_spec() == old(self).buffer_spec(),
            final(self).events_spec() == old(self).events_spec(),
            final(self).handle_spec() == old(self).handle_spec(),
    {
        if event == self.events.read() {
            if read_done.is_some() {
                result.read = read_done;
                self.read_pending = false;
            }
        }
        if event == self.events.write() {
            if write_done.is_some() {
                result.write = write_done;
                self.write_pending = false;
            }
        }
        if event == self.events.data() {
            result.data = true;
        }
        if event == self.events.interrupt() {
            result.interrupt = true;
        }
    }

    /// Forwards the first `len` received bytes (at most the read buffer's
    /// size) to the inbound channel. Refused (`false`) while a read is
    /// outstanding, since the read buffer then belongs to that read.
    pub fn send(&self, len: usize) -> (r: bool)
        ensures
            r == !self.reading(),
    {
        if self.read_pending {
            false
        } else {
            let mut chunk = self.buffer.read.front(len);
            self.buffer.read_channel.sender().send_vec(&mut chunk);
            true
        }
    }

    /// Copies the front of the outbound channel into the write buffer, as
    /// much as fits, and returns how many bytes are ready to be written.
    /// Refused (`None`) while a write is outstanding, since the write
    /// buffer then belongs to that write.
    pub fn receive(&mut self) -> (r: Option<usize>)
        ensures
            r is Some <==> !old(self).writing(),
            r matches Some(n) ==> n <= old(self).write_bytes().len(),
            final(self).write_bytes().len() == old(self).write_bytes().len(),
            r is None ==> final(self).write_bytes() == old(self).write_bytes(),
            final(self).read_bytes() == old(self).read_bytes(),
            final(self).reading() == old(self).reading(),
            final(self).writing() == old(self).writing(),
            final(self).read_bound() == old(self).read_bound(),
            final(self).write_bound() == old(self).write_bound(),
            final(self).events_spec() == old(self).events_spec(),
            final(self).handle_spec() == old(self).handle_spec(),
    {
        if self.write_pending {
            None
        } else {
            let (mut shared, handle) = self.buffer.write_channel.receiver().lock().acquire_write();
            let ready = shared.take_read_side();
            let n = self.buffer.write.fill_from(&ready);
            shared.restore_read_side(ready);
            handle.release_write(shared);
            Some(n)
        }
    }

    /// Removes the `len` bytes a completed write sent from the front of the
    /// outbound channel. Refused (`false`) while a write is outstanding.
    pub fn consume(&self, len: usize) -> (r: bool)
        ensures
            r == !self.writing(),
    {
        if self.write_pending {
            false
        } else {
            let (mut shared, handle) = self.buffer.write_channel.receiver().lock().acquire_write();
            shared.drain_front(len);
            handle.release_write(shared);
            true
        }
    }
}

} // verus!
