use std::sync::Arc;
use vstd::prelude::*;

verus! {

/// A buffer state `(read side, write side)` after the write side has been
/// moved behind the read side.
pub open spec fn migrated<T>(b: (Seq<T>, Seq<T>)) -> (Seq<T>, Seq<T>) {
    (b.0 + b.1, Seq::empty())
}

/// Everything a buffer holds, oldest first: the read side, then the write side.
pub open spec fn contents<T>(b: (Seq<T>, Seq<T>)) -> Seq<T> {
    b.0 + b.1
}

/// One producer step on a buffer: a push of one entry, or a flush.
pub enum BufferOp<T> {
    Push(T),
    Flush,
}

/// The buffer state after one step, as `push` and `flush` state it.
pub open spec fn apply_op<T>(b: (Seq<T>, Seq<T>), op: BufferOp<T>) -> (Seq<T>, Seq<T>) {
    match op {
        BufferOp::Push(t) => migrated((b.0, b.1.push(t))),
        BufferOp::Flush => migrated(b),
    }
}

/// The buffer state after a sequence of steps, first step first.
pub open spec fn apply_ops<T>(b: (Seq<T>, Seq<T>), ops: Seq<BufferOp<T>>) -> (Seq<T>, Seq<T>)
    decreases ops.len(),
{
    if ops.len() == 0 {
        b
    } else {
        apply_ops(apply_op(b, ops[0]), ops.drop_first())
    }
}

/// The entries pushed by a sequence of steps, in the order of the pushes.
pub open spec fn pushed<T>(ops: Seq<BufferOp<T>>) -> Seq<T>
    decreases ops.len(),
{
    if ops.len() == 0 {
        Seq::empty()
    } else {
        match ops[0] {
            BufferOp::Push(t) => seq![t] + pushed(ops.drop_first()),
            BufferOp::Flush => pushed(ops.drop_first()),
        }
    }
}

/// Pushes interleaved with flushes neither lose nor reorder entries: after
/// any such sequence the buffer holds what it held before followed by every
/// pushed entry in insertion order, and once a step has run all of it sits on
/// the read side, where the next drain (`read_vec`) takes it.
pub proof fn lemma_pushes_and_flushes_keep_order<T>(b: (Seq<T>, Seq<T>), ops: Seq<BufferOp<T>>)
    ensures
        contents(apply_ops(b, ops)) == contents(b) + pushed(ops),
        ops.len() > 0 ==> apply_ops(b, ops).1 == Seq::<T>::empty(),
        ops.len() > 0 ==> apply_ops(b, ops).0 == contents(b) + pushed(ops),
    decreases ops.len(),
{
    if ops.len() > 0 {
        let next = apply_op(b, ops[0]);
        lemma_pushes_and_flushes_keep_order(next, ops.drop_first());
        match ops[0] {
            BufferOp::Push(t) => {
                assert(contents(next) == contents(b) + seq![t]);
                assert(contents(b) + seq![t] + pushed(ops.drop_first()) == contents(b) + (seq![t]
                    + pushed(ops.drop_first())));
            },
            BufferOp::Flush => {
                assert(contents(next) == contents(b));
            },
        }
        if ops.len() == 1 {
            assert(ops.drop_first().len() == 0);
            assert(pushed(ops.drop_first()) == Seq::<T>::empty());
            assert(contents(next) + Seq::<T>::empty() == contents(next));
            assert(next.1 == Seq::<T>::empty());
            assert(next.0 + next.1 == next.0);
        }
    } else {
        assert(contents(b) + Seq::<T>::empty() == contents(b));
    }
}

/// An entry that is pushed is found by a full drain (`read_all`) that
/// follows, behind everything that was there before: nothing is lost.
pub proof fn lemma_sent_entry_is_drained<T>(b: (Seq<T>, Seq<T>), x: T)
    ensures
        contents(migrated((b.0, b.1.push(x)))) == contents(b).push(x),
        contents(migrated((b.0, b.1.push(x)))).contains(x),
{
    let after = migrated((b.0, b.1.push(x)));
    assert(contents(after) =~= contents(b).push(x));
    assert(contents(after)[contents(b).len() as int] == x);
}

/// Two independent sequences: producers append to the write side, consumers
/// drain the read side, and a flush moves the write side behind the read side.
///
/// The view is `(read side, write side)`. Every operation that reaches the
/// write side ends by migrating it, as the uncontended path of a shared
/// double buffer does.
pub struct DoubleBuffer<T> {
    write: Vec<T>,
    read: Vec<T>,
}

impl<T> View for DoubleBuffer<T> {
    type V = (Seq<T>, Seq<T>);

    closed spec fn view(&self) -> (Seq<T>, Seq<T>) {
        (self.read@, self.write@)
    }
}

impl<T> DoubleBuffer<T> {
    /// The write side, as a vector.
    pub closed spec fn write_side(&self) -> Vec<T> {
        self.write
    }

    /// The read side, as a vector.
    pub closed spec fn read_side(&self) -> Vec<T> {
        self.read
    }

    /// Takes the read side out, leaving it empty.
    pub(crate) fn take_read_side(&mut self) -> (r: Vec<T>)
        ensures
            r@ == old(self)@.0,
            final(self)@ == (Seq::<T>::empty(), old(self)@.1),
    {
        let mut ready = Vec::new();
        std::mem::swap(&mut ready, &mut self.read);
        ready
    }

    /// Puts a read side back in place of an empty one, then migrates.
    pub(crate) fn restore_read_side(&mut self, ready: Vec<T>)
        ensures
            final(self)@ == migrated((ready@, old(self)@.1)),
    {
        self.read = ready;
        self.migrate();
    }

    pub fn new() -> (r: Self)
        ensures
            r@ == (Seq::<T>::empty(), Seq::<T>::empty()),
    {
        DoubleBuffer { write: Vec::new(), read: Vec::new() }
    }

    pub fn new_arc() -> (r: Arc<Self>)
        ensures
            (*r)@ == (Seq::<T>::empty(), Seq::<T>::empty()),
    {
        Arc::new(Self::new())
    }

    pub fn with_capacity(capacity: usize) -> (r: Self)
        ensures
            r@ == (Seq::<T>::empty(), Seq::<T>::empty()),
    {
        DoubleBuffer { write: Vec::with_capacity(capacity), read: Vec::with_capacity(capacity) }
    }

    /// Moves every write-side entry behind the read-side ones, in order.
    fn migrate(&mut self)
        ensures
            final(self)@ == migrated(old(self)@),
    {
        self.read.append(&mut self.write);
    }

    pub fn flush(&mut self)
        ensures
            final(self)@ == migrated(old(self)@),
    {
        self.migrate();
    }

    /// Flushes; with exclusive access the flush cannot be contended, so it
    /// always happens and `true` is returned.
    pub fn try_flush(&mut self) -> (r: bool)
        ensures
            r,
            final(self)@ == migrated(old(self)@),
    {
        self.migrate();
        true
    }

    /// Hands the write side to `f`, which returns its replacement; the
    /// result is then migrated behind the read side.
    pub fn write<F: FnOnce(Vec<T>) -> Vec<T>>(&mut self, f: F)
        requires
            f.requires((old(self).write_side(),)),
        ensures
            exists|w: Vec<T>|
                f.ensures((old(self).write_side(),), w) && final(self)@ == migrated(
                    (old(self)@.0, w@),
                ),
    {
        let mut pending = Vec::new();
        std::mem::swap(&mut pending, &mut self.write);
        let w = f(pending);
        let ghost written = w;
        self.write = w;
        self.migrate();
        assert(f.ensures((old(self).write_side(),), written) && self@ == migrated(
            (old(self)@.0, written@),
        ));
    }

    pub fn write_vec(&mut self, vec: &mut Vec<T>)
        ensures
            final(self)@ == migrated((old(self)@.0, old(self)@.1 + old(vec)@)),
            final(vec)@ == Seq::<T>::empty(),
    {
        self.write.append(vec);
        self.migrate();
    }

    pub fn push(&mut self, t: T)
        ensures
            final(self)@ == migrated((old(self)@.0, old(self)@.1.push(t))),
    {
        self.write.push(t);
        self.migrate();
    }

    /// Hands the read side to `f`, which returns its replacement; the write
    /// side is then migrated behind it.
    pub fn read<F: FnOnce(Vec<T>) -> Vec<T>>(&mut self, f: F)
        requires
            f.requires((old(self).read_side(),)),
        ensures
            exists|r: Vec<T>|
                f.ensures((old(self).read_side(),), r) && final(self)@ == migrated(
                    (r@, old(self)@.1),
                ),
    {
        let mut ready = Vec::new();
        std::mem::swap(&mut ready, &mut self.read);
        let r = f(ready);
        let ghost kept = r;
        self.read = r;
        self.migrate();
        assert(f.ensures((old(self).read_side(),), kept) && self@ == migrated(
            (kept@, old(self)@.1),
        ));
    }

    /// Takes the whole read side; the write side then becomes the read side.
    pub fn read_vec(&mut self) -> (r: Vec<T>)
        ensures
            r@ == old(self)@.0,
            final(self)@ == migrated((Seq::<T>::empty(), old(self)@.1)),
    {
        let mut ready = Vec::new();
        std::mem::swap(&mut ready, &mut self.read);
        self.migrate();
        ready
    }

    /// Removes the latest entry of the read side, if there is one; the write
    /// side is then migrated.
    pub fn pop(&mut self) -> (r: Option<T>)
        ensures
            old(self)@.0.len() == 0 ==> r is None && final(self)@ == migrated(old(self)@),
            old(self)@.0.len() > 0 ==> r == Some(old(self)@.0.last()) && final(self)@ == migrated(
                (old(self)@.0.drop_last(), old(self)@.1),
            ),
    {
        let r = self.read.pop();
        self.migrate();
        r
    }

    /// Removes the first `n` entries of the read side (all of them when
    /// `n` is larger); the write side is then migrated.
    pub fn drain_front(&mut self, n: usize)
        ensures
            final(self)@ == migrated(
                (old(self)@.0.skip(if n < old(self)@.0.len() { n as int } else { old(self)@.0.len() as int }), old(self)@.1),
            ),
    {
        let k = if n < self.read.len() {
            n
        } else {
            self.read.len()
        };
        let rest = self.read.split_off(k);
        self.read = rest;
        self.migrate();
    }

    /// Drains both sides: the read side, then the write side.
    pub fn read_all(self) -> (r: Vec<T>)
        ensures
            r@ == contents(self@),
    {
        let mut read = self.read;
        let mut write = self.write;
        read.append(&mut write);
        read
    }
}

} // verus!
