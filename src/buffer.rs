pub mod double_buffer;
pub mod io_buffer;

pub use double_buffer::DoubleBuffer;
pub use io_buffer::IoBuffer;

use crate::channel::Channel;
use vstd::prelude::*;

verus! {

/// A value that is either at hand or made on first use.
pub enum LazyBuffer<T, F> {
    Buffered(T),
    Unbuffered(F),
}

impl<T, F: FnOnce() -> T> LazyBuffer<T, F> {
    /// The value: the one at hand, or the one the factory makes now.
    pub fn buffer(self) -> (r: T)
        requires
            self matches LazyBuffer::Unbuffered(f) ==> f.requires(()),
        ensures
            match self {
                LazyBuffer::Buffered(b) => r == b,
                LazyBuffer::Unbuffered(f) => f.ensures((), r),
            },
    {
        match self {
            LazyBuffer::Buffered(buffer) => buffer,
            LazyBuffer::Unbuffered(f) => f(),
        }
    }
}

/// The whole per-connection state: the read and write I/O buffers, the
/// inbound channel (filled from reads) and the outbound channel (drained
/// by writes).
pub struct NamedPipeBuffer {
    pub read: IoBuffer,
    pub write: IoBuffer,
    pub read_channel: Channel<u8>,
    pub write_channel: Channel<u8>,
}

} // verus!
