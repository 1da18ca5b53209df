use std::sync::Arc;
use vstd::prelude::*;
use vstd::rwlock::{RwLock, RwLockPredicate};

use crate::buffer::double_buffer::{contents, migrated};
use crate::buffer::DoubleBuffer;

verus! {

/// Lock predicate of a shared double buffer: every state may be stored.
pub struct AnyState;

impl<T> RwLockPredicate<DoubleBuffer<T>> for AnyState {
    open spec fn inv(self, v: DoubleBuffer<T>) -> bool {
        true
    }
}

/// The double buffer that a sender and its receivers share.
pub type SharedBuffer<T> = RwLock<DoubleBuffer<T>, AnyState>;

/// Relies on `Arc::clone`: the clone points to the same value.
#[verifier::external_body]
fn share<T>(a: &Arc<T>) -> (r: Arc<T>)
    ensures
        *r == **a,
{
    Arc::clone(a)
}

/// Relies on `Arc::try_unwrap`: the value when this is its only strong
/// reference, else the same `Arc` back.
#[verifier::external_body]
fn try_unwrap<T>(a: Arc<T>) -> (r: Result<T, Arc<T>>)
    ensures
        match r {
            Ok(t) => t == *a,
            Err(b) => *b == *a,
        },
{
    Arc::try_unwrap(a)
}

/// The producing end of a channel.
pub struct Sender<T>(Arc<SharedBuffer<T>>);

/// The consuming end of a channel.
pub struct Receiver<T>(Arc<SharedBuffer<T>>);

/// A receiver that is the last owner of its buffer.
pub struct UniqueReceiver<T>(DoubleBuffer<T>);

/// A sender and a receiver over one shared double buffer.
///
/// Every call on either end holds the buffer's lock for the whole
/// operation and waits for it when another thread has it, so no entry is
/// ever dropped; the effect of each call on the buffer is the corresponding
/// `DoubleBuffer` operation. What another thread did in between is not
/// known here, so the calls' contracts say nothing of the buffer's contents.
pub struct Channel<T>(Sender<T>, Receiver<T>);

impl<T> Sender<T> {
    /// The lock over the buffer this sender appends to.
    pub closed spec fn shared(&self) -> SharedBuffer<T> {
        *self.0
    }
}

impl<T> Receiver<T> {
    /// The lock over the buffer this receiver drains.
    pub closed spec fn shared(&self) -> SharedBuffer<T> {
        *self.0
    }

    pub(crate) fn lock(&self) -> (r: &SharedBuffer<T>)
        ensures
            *r == self.shared(),
    {
        &self.0
    }
}

impl<T> Channel<T> {
    /// The lock over the buffer the sender appends to.
    pub closed spec fn sender_shared(&self) -> SharedBuffer<T> {
        self.0.shared()
    }

    /// The lock over the buffer the receiver drains.
    pub closed spec fn receiver_shared(&self) -> SharedBuffer<T> {
        self.1.shared()
    }

    /// The sender and the receiver share one buffer.
    pub closed spec fn wf(&self) -> bool {
        self.0.shared() == self.1.shared()
    }

    pub fn new() -> (r: Self)
        ensures
            r.wf(),
    {
        let buffer = Arc::new(RwLock::new(DoubleBuffer::new(), Ghost(AnyState)));
        Channel(Sender(share(&buffer)), Receiver(buffer))
    }

    pub fn with_capacity(capacity: usize) -> (r: Self)
        ensures
            r.wf(),
    {
        let buffer = Arc::new(RwLock::new(DoubleBuffer::with_capacity(capacity), Ghost(AnyState)));
        Channel(Sender(share(&buffer)), Receiver(buffer))
    }

    pub fn sender(&self) -> (r: &Sender<T>)
        ensures
            r.shared() == self.sender_shared(),
    {
        &self.0
    }

    pub fn receiver(&self) -> (r: &Receiver<T>)
        ensures
            r.shared() == self.receiver_shared(),
    {
        &self.1
    }

    pub fn unwrap(self) -> (r: (Sender<T>, Receiver<T>))
        ensures
            r.0.shared() == self.sender_shared(),
            r.1.shared() == self.receiver_shared(),
    {
        let Channel(sender, receiver) = self;
        (sender, receiver)
    }
}

/// Another sender over the same buffer.
pub fn clone_sender<T>(sender: &Sender<T>) -> (r: Sender<T>)
    ensures
        r.shared() == sender.shared(),
{
    Sender(share(&sender.0))
}

/// Another receiver over the same buffer.
pub fn clone_receiver<T>(receiver: &Receiver<T>) -> (r: Receiver<T>)
    ensures
        r.shared() == receiver.shared(),
{
    Receiver(share(&receiver.0))
}

impl<T> Sender<T> {
    pub fn flush(&self) {
        let (mut buffer, handle) = self.0.acquire_write();
        buffer.flush();
        handle.release_write(buffer);
    }

    /// Flushes. The lock waits rather than gives up, so the flush always
    /// happens and `true` is returned.
    pub fn try_flush(&self) -> (r: bool)
        ensures
            r,
    {
        let (mut buffer, handle) = self.0.acquire_write();
        let r = buffer.try_flush();
        handle.release_write(buffer);
        r
    }

    pub fn send(&self, t: T) {
        let (mut buffer, handle) = self.0.acquire_write();
        buffer.push(t);
        handle.release_write(buffer);
    }

    /// Moves every entry of `vec` into the channel, in order.
    pub fn send_vec(&self, vec: &mut Vec<T>)
        ensures
            final(vec)@ == Seq::<T>::empty(),
    {
        let (mut buffer, handle) = self.0.acquire_write();
        buffer.write_vec(vec);
        handle.release_write(buffer);
    }
}

impl<T> Receiver<T> {
    pub fn flush(&self) {
        let (mut buffer, handle) = self.0.acquire_write();
        buffer.flush();
        handle.release_write(buffer);
    }

    /// Flushes; always succeeds, as for the sender.
    pub fn try_flush(&self) -> (r: bool)
        ensures
            r,
    {
        let (mut buffer, handle) = self.0.acquire_write();
        let r = buffer.try_flush();
        handle.release_write(buffer);
        r
    }

    pub fn receive_latest(&self) -> Option<T> {
        let (mut buffer, handle) = self.0.acquire_write();
        let r = buffer.pop();
        handle.release_write(buffer);
        r
    }

    pub fn receive_all(&self) -> Vec<T> {
        let (mut buffer, handle) = self.0.acquire_write();
        let r = buffer.read_vec();
        handle.release_write(buffer);
        r
    }

    /// Becomes a unique receiver when no other handle shares the buffer;
    /// otherwise hands the receiver back unchanged.
    pub fn unique(self) -> (r: Result<UniqueReceiver<T>, Self>)
        ensures
            r matches Err(back) ==> back.shared() == self.shared(),
    {
        let Receiver(buffer) = self;
        match try_unwrap(buffer) {
            Ok(lock) => Ok(UniqueReceiver(lock.into_inner())),
            Err(buffer) => Err(Receiver(buffer)),
        }
    }
}

impl<T> View for UniqueReceiver<T> {
    type V = (Seq<T>, Seq<T>);

    closed spec fn view(&self) -> (Seq<T>, Seq<T>) {
        self.0@
    }
}

impl<T> UniqueReceiver<T> {
    /// Removes the latest entry of the read side, as `DoubleBuffer::pop`.
    pub fn receive_latest(&mut self) -> (r: Option<T>)
        ensures
            old(self)@.0.len() == 0 ==> r is None && final(self)@ == migrated(old(self)@),
            old(self)@.0.len() > 0 ==> r == Some(old(self)@.0.last()) && final(self)@
                == migrated((old(self)@.0.drop_last(), old(self)@.1)),
    {
        self.0.pop()
    }

    /// Drains everything that is left, oldest first.
    pub fn receive_all(self) -> (r: Vec<T>)
        ensures
            r@ == contents(self@),
    {
        let UniqueReceiver(buffer) = self;
        buffer.read_all()
    }
}

} // verus!
