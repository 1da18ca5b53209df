use vstd::prelude::*;

use crate::event::Event;

verus! {

/// One fixed-size byte buffer for a single outstanding operation, with the
/// event that the operation's completion descriptor is bound to.
pub struct IoBuffer {
    bytes: Vec<u8>,
    event: Event,
}

impl IoBuffer {
    /// The buffer's bytes.
    pub closed spec fn bytes(&self) -> Seq<u8> {
        self.bytes@
    }

    /// The event the completion descriptor is bound to.
    pub closed spec fn bound_event(&self) -> Event {
        self.event
    }

    /// A zero-filled buffer of `len` bytes, bound to no event.
    pub fn new(len: usize) -> (r: Self)
        ensures
            r.bytes() == Seq::new(len as nat, |i: int| 0u8),
            r.bound_event().handle_spec() == 0,
    {
        let mut bytes: Vec<u8> = Vec::with_capacity(len);
        let mut i: usize = 0;
        while i < len
            invariant
                i <= len,
                bytes@ == Seq::new(i as nat, |k: int| 0u8),
            decreases len - i,
        {
            bytes.push(0);
            i = i + 1;
            assert(bytes@ =~= Seq::new(i as nat, |k: int| 0u8));
        }
        IoBuffer { bytes, event: Event::null() }
    }

    pub fn len(&self) -> (r: usize)
        ensures
            r == self.bytes().len(),
    {
        self.bytes.len()
    }

    /// Binds the completion descriptor to `event`, before an operation is
    /// issued.
    pub fn set_event(&mut self, event: Event)
        ensures
            final(self).bound_event() == event,
            final(self).bytes() == old(self).bytes(),
    {
        self.event = event;
    }

    pub fn event(&self) -> (r: Event)
        ensures
            r == self.bound_event(),
    {
        self.event
    }

    pub fn as_ref(&self) -> (r: &[u8])
        ensures
            r@ == self.bytes(),
    {
        self.bytes.as_slice()
    }

    pub fn as_mut(&mut self) -> (r: &mut [u8])
        ensures
            r@ == old(self).bytes(),
            final(self).bytes() == final(r)@,
            final(self).bound_event() == old(self).bound_event(),
    {
        self.bytes.as_mut_slice()
    }

    /// Copies the front of `src` into the buffer, as much as fits, and
    /// returns how many bytes were copied; the bytes past them stay.
    pub fn fill_from(&mut self, src: &Vec<u8>) -> (n: usize)
        ensures
            n == if src@.len() < old(self).bytes().len() {
                src@.len()
            } else {
                old(self).bytes().len()
            },
            final(self).bytes() == src@.take(n as int) + old(self).bytes().skip(n as int),
            final(self).bound_event() == old(self).bound_event(),
    {
        let n = if src.len() < self.bytes.len() {
            src.len()
        } else {
            self.bytes.len()
        };
        let mut i: usize = 0;
        while i < n
            invariant
                i <= n,
                n <= src@.len(),
                n <= old(self).bytes().len(),
                self.event == old(self).event,
                self.bytes@ == src@.take(i as int) + old(self).bytes().skip(i as int),
            decreases n - i,
        {
            self.bytes[i] = src[i];
            i = i + 1;
            assert(self.bytes@ =~= src@.take(i as int) + old(self).bytes().skip(i as int));
        }
        n
    }

    /// A copy of the first `len` bytes (all of them when `len` is larger).
    pub fn front(&self, len: usize) -> (r: Vec<u8>)
        ensures
            r@ == self.bytes().take(if len < self.bytes().len() { len as int } else { self.bytes().len() as int }),
    {
        let n = if len < self.bytes.len() {
            len
        } else {
            self.bytes.len()
        };
        let mut r: Vec<u8> = Vec::with_capacity(n);
        let mut i: usize = 0;
        while i < n
            invariant
                i <= n,
                n <= self.bytes@.len(),
                r@ == self.bytes@.take(i as int),
            decreases n - i,
        {
            r.push(self.bytes[i]);
            i = i + 1;
            assert(r@ =~= self.bytes@.take(i as int));
        }
        r
    }
}

} // verus!
