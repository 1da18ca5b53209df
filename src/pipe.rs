use vstd::prelude::*;
use vstd::utf8::{
    decode_utf8, encode_scalar, encode_utf8, encode_utf8_decode_utf8, encode_utf8_valid_utf8,
    has_width_1_encoding, valid_utf8,
};

use crate::buffer::double_buffer::migrated;
use crate::buffer::DoubleBuffer;
use crate::channel::Receiver;
use crate::event::{Event, EventManager};

verus! {

/// The line terminator.
pub const NEWLINE: u8 = 10;

/// What `read_line` found at the front of the buffered inbound bytes.
#[derive(Debug, PartialEq, Eq)]
pub enum ReadLineResult {
    /// A decoding error comes before any terminator.
    InvalidUtf8,
    /// Nothing is buffered.
    Empty,
    /// What is buffered is valid so far, but holds no terminator yet.
    NotALine,
    /// A whole line, without its terminator.
    Line(String),
}

/// The number of bytes before the first terminator, or all of them if there
/// is none.
pub open spec fn line_len(b: Seq<u8>) -> nat
    decreases b.len(),
{
    if b.len() == 0 || b[0] == NEWLINE {
        0
    } else {
        1 + line_len(b.drop_first())
    }
}

/// The bytes before the first terminator.
pub open spec fn line_prefix(b: Seq<u8>) -> Seq<u8> {
    b.take(line_len(b) as int)
}

/// True when a terminator is buffered.
pub open spec fn has_terminator(b: Seq<u8>) -> bool {
    line_len(b) < b.len()
}

/// The line that `read_line` reports for the buffered bytes `b`.
pub open spec fn line_result_matches(b: Seq<u8>, r: ReadLineResult) -> bool {
    if b.len() == 0 {
        r is Empty
    } else if !valid_utf8(line_prefix(b)) {
        r is InvalidUtf8
    } else if !has_terminator(b) {
        r is NotALine
    } else {
        r matches ReadLineResult::Line(s) && s@ == decode_utf8(line_prefix(b))
    }
}

/// What is left buffered after `read_line`: a whole line is removed with
/// its terminator, anything else leaves the bytes in place.
pub open spec fn after_read_line(b: Seq<u8>) -> Seq<u8> {
    if b.len() > 0 && valid_utf8(line_prefix(b)) && has_terminator(b) {
        b.skip(line_len(b) + 1 as int)
    } else {
        b
    }
}

/// True when the bytes before the first terminator are not valid UTF-8.
pub open spec fn malformed_line(b: Seq<u8>) -> bool {
    b.len() > 0 && !valid_utf8(line_prefix(b))
}

/// The malformed line that `read_invalid_utf8` removes: its bytes with the
/// terminator, or every byte if none is buffered.
pub open spec fn malformed_len(b: Seq<u8>) -> nat {
    if has_terminator(b) {
        line_len(b) + 1
    } else {
        b.len()
    }
}

proof fn lemma_line_len(b: Seq<u8>, i: int)
    requires
        0 <= i <= b.len(),
        forall|j: int| 0 <= j < i ==> b[j] != NEWLINE,
        i == b.len() || b[i] == NEWLINE,
    ensures
        line_len(b) == i,
    decreases i,
{
    if i > 0 {
        let t = b.drop_first();
        assert forall|j: int| 0 <= j < i - 1 implies t[j] != NEWLINE by {
            assert(t[j] == b[j + 1]);
        }
        if i - 1 < t.len() {
            assert(t[i - 1] == b[i]);
        }
        lemma_line_len(t, i - 1);
    }
}

proof fn lemma_line_len_bound(b: Seq<u8>)
    ensures
        line_len(b) <= b.len(),
        line_len(b) < b.len() ==> b[line_len(b) as int] == NEWLINE,
    decreases b.len(),
{
    if b.len() > 0 && b[0] != NEWLINE {
        lemma_line_len_bound(b.drop_first());
        if line_len(b) < b.len() {
            assert(b[line_len(b) as int] == b.drop_first()[line_len(b.drop_first()) as int]);
        }
    }
}

/// Relies on `String::from_utf8`: it succeeds exactly on valid UTF-8, and
/// the string then holds the decoded characters.
#[verifier::external_body]
fn utf8_string(bytes: Vec<u8>) -> (r: Option<String>)
    ensures
        r is Some <==> valid_utf8(bytes@),
        r matches Some(s) ==> s@ == decode_utf8(bytes@),
{
    String::from_utf8(bytes).ok()
}

/// Finds the first terminator: the index of the first newline, or the
/// length when there is none.
fn find_line_end(buffer: &Vec<u8>) -> (r: usize)
    ensures
        r == line_len(buffer@),
{
    let n = buffer.len();
    let mut i: usize = 0;
    while i < n && buffer[i] != NEWLINE
        invariant
            i <= n,
            n == buffer@.len(),
            forall|j: int| 0 <= j < i ==> buffer@[j] != NEWLINE,
        decreases n - i,
    {
        i = i + 1;
    }
    proof {
        lemma_line_len(buffer@, i as int);
    }
    i
}

/// A copy of the first `len` bytes.
fn copy_front(buffer: &Vec<u8>, len: usize) -> (r: Vec<u8>)
    requires
        len <= buffer@.len(),
    ensures
        r@ == buffer@.take(len as int),
{
    let mut r: Vec<u8> = Vec::with_capacity(len);
    let mut i: usize = 0;
    while i < len
        invariant
            i <= len,
            len <= buffer@.len(),
            r@ == buffer@.take(i as int),
        decreases len - i,
    {
        r.push(buffer[i]);
        i = i + 1;
        assert(buffer@.take(i as int) == buffer@.take(i - 1 as int).push(buffer@[i - 1]));
    }
    r
}

/// Removes the first `len` bytes.
fn remove_front(buffer: &mut Vec<u8>, len: usize)
    requires
        len <= old(buffer)@.len(),
    ensures
        final(buffer)@ == old(buffer)@.skip(len as int),
{
    let rest = buffer.split_off(len);
    *buffer = rest;
}

/// Reads one line from the front of `buffer`: the bytes before the first
/// terminator, checked as UTF-8. Only a whole line is removed, together
/// with its terminator.
pub fn read_line(buffer: &mut Vec<u8>) -> (r: ReadLineResult)
    ensures
        line_result_matches(old(buffer)@, r),
        final(buffer)@ == after_read_line(old(buffer)@),
{
    if buffer.len() == 0 {
        return ReadLineResult::Empty;
    }
    let end = find_line_end(buffer);
    proof {
        lemma_line_len_bound(buffer@);
    }
    let line = copy_front(buffer, end);
    match utf8_string(line) {
        None => ReadLineResult::InvalidUtf8,
        Some(s) => {
            if end == buffer.len() {
                ReadLineResult::NotALine
            } else {
                remove_front(buffer, end + 1);
                ReadLineResult::Line(s)
            }
        },
    }
}

/// Removes a malformed line from the front of `buffer` so that reading can
/// go on: when the bytes before the first terminator are not valid UTF-8,
/// they and the terminator (or every byte, when none is buffered) are
/// removed and returned. Otherwise nothing changes.
pub fn read_invalid_utf8(buffer: &mut Vec<u8>) -> (r: Option<Vec<u8>>)
    ensures
        r is Some <==> malformed_line(old(buffer)@),
        r matches Some(bad) ==> bad@ == old(buffer)@.take(malformed_len(old(buffer)@) as int),
        malformed_line(old(buffer)@) ==> final(buffer)@ == old(buffer)@.skip(
            malformed_len(old(buffer)@) as int,
        ),
        !malformed_line(old(buffer)@) ==> final(buffer)@ == old(buffer)@,
{
    if buffer.len() == 0 {
        return None;
    }
    let end = find_line_end(buffer);
    proof {
        lemma_line_len_bound(buffer@);
    }
    let line = copy_front(buffer, end);
    match utf8_string(line) {
        Some(_) => None,
        None => {
            let len = if end < buffer.len() {
                end + 1
            } else {
                end
            };
            let bad = copy_front(buffer, len);
            remove_front(buffer, len);
            Some(bad)
        },
    }
}

/// The bytes `write_line` sends for `s`: its UTF-8 encoding and a terminator.
pub fn line_bytes(s: &str) -> (r: Vec<u8>)
    ensures
        r@ == encode_utf8(s@).push(NEWLINE),
{
    let bytes = s.as_bytes();
    let mut r: Vec<u8> = Vec::with_capacity(bytes.len());
    let mut i: usize = 0;
    while i < bytes.len()
        invariant
            i <= bytes@.len(),
            bytes@ == encode_utf8(s@),
            r@ == bytes@.take(i as int),
        decreases bytes@.len() - i,
    {
        r.push(bytes[i]);
        i = i + 1;
        assert(r@ =~= bytes@.take(i as int));
    }
    r.push(NEWLINE);
    assert(bytes@.take(bytes@.len() as int) =~= bytes@);
    r
}

proof fn lemma_scalar_has_no_newline(c: char)
    requires
        c != '\n',
    ensures
        forall|i: int| 0 <= i < encode_scalar(c as u32).len() ==> #[trigger] encode_scalar(c as u32)[i] != NEWLINE,
{
    let v = c as u32;
    vstd::utf8::char_is_scalar(c);
    if has_width_1_encoding(v) {
        assert(v <= 0x7F ==> (v & 0x7F) == v) by (bit_vector);
        assert(v != 10) by {
            assert(('\n' as u32) == 10);
        }
    } else {
        assert forall|y: u8| (0xC0u8 | y) != 10u8 && (0xE0u8 | y) != 10u8 && (0xF0u8 | y) != 10u8
            && (0x80u8 | y) != 10u8 by {
            assert((0xC0u8 | y) != 10u8 && (0xE0u8 | y) != 10u8 && (0xF0u8 | y) != 10u8 && (0x80u8
                | y) != 10u8) by (bit_vector);
        }
    }
}

proof fn lemma_encoding_has_no_newline(s: Seq<char>)
    requires
        !s.contains('\n'),
    ensures
        forall|i: int| 0 <= i < encode_utf8(s).len() ==> encode_utf8(s)[i] != NEWLINE,
    decreases s.len(),
{
    if s.len() > 0 {
        assert(s[0] != '\n') by {
            if s[0] == '\n' {
                assert(s.contains('\n'));
            }
        }
        lemma_scalar_has_no_newline(s[0]);
        let t = s.drop_first();
        assert(!t.contains('\n')) by {
            if t.contains('\n') {
                let k = choose|k: int| 0 <= k < t.len() && t[k] == '\n';
                assert(s[k + 1] == '\n');
            }
        }
        lemma_encoding_has_no_newline(t);
        let head = encode_scalar(s[0] as u32);
        assert(encode_utf8(s) == head + encode_utf8(t));
        assert forall|i: int| 0 <= i < encode_utf8(s).len() implies encode_utf8(s)[i] != NEWLINE by {
            if i < head.len() {
                assert(encode_utf8(s)[i] == head[i]);
            } else {
                assert(encode_utf8(s)[i] == encode_utf8(t)[i - head.len()]);
            }
        }
    }
}

/// A line framed by `line_bytes` reads back whole: for a text without a
/// terminator, followed by any bytes, every result that `read_line` may
/// give is that very text as a `Line`, and what follows stays buffered.
pub proof fn lemma_framed_line_reads_back(s: Seq<char>, rest: Seq<u8>, r: ReadLineResult)
    requires
        !s.contains('\n'),
        line_result_matches(encode_utf8(s).push(NEWLINE) + rest, r),
    ensures
        r matches ReadLineResult::Line(t) && t@ == s,
        after_read_line(encode_utf8(s).push(NEWLINE) + rest) == rest,
{
    let e = encode_utf8(s);
    let b = e.push(NEWLINE) + rest;
    lemma_encoding_has_no_newline(s);
    assert forall|j: int| 0 <= j < e.len() implies b[j] != NEWLINE by {
        assert(b[j] == e[j]);
    }
    assert(b[e.len() as int] == NEWLINE);
    lemma_line_len(b, e.len() as int);
    assert(line_prefix(b) =~= e);
    encode_utf8_valid_utf8(s);
    encode_utf8_decode_utf8(s);
    assert(b.skip(e.len() + 1 as int) =~= rest);
}

impl DoubleBuffer<u8> {
    /// `read_line` on the read side, which is then migrated.
    pub fn read_line(&mut self) -> (r: ReadLineResult)
        ensures
            line_result_matches(old(self)@.0, r),
            final(self)@ == migrated((after_read_line(old(self)@.0), old(self)@.1)),
    {
        let mut ready = self.take_read_side();
        let r = read_line(&mut ready);
        self.restore_read_side(ready);
        r
    }

    /// `read_invalid_utf8` on the read side, which is then migrated.
    pub fn read_invalid_utf8(&mut self) -> (r: Option<Vec<u8>>)
        ensures
            r is Some <==> malformed_line(old(self)@.0),
            r matches Some(bad) ==> bad@ == old(self)@.0.take(malformed_len(old(self)@.0) as int),
            malformed_line(old(self)@.0) ==> final(self)@ == migrated(
                (old(self)@.0.skip(malformed_len(old(self)@.0) as int), old(self)@.1),
            ),
            !malformed_line(old(self)@.0) ==> final(self)@ == migrated(old(self)@),
    {
        let mut ready = self.take_read_side();
        let r = read_invalid_utf8(&mut ready);
        self.restore_read_side(ready);
        r
    }
}

impl Receiver<u8> {
    /// `read_line` on the shared inbound buffer.
    pub fn read_line(&self) -> ReadLineResult {
        let (mut buffer, handle) = self.lock().acquire_write();
        let r = buffer.read_line();
        handle.release_write(buffer);
        r
    }

    /// `read_invalid_utf8` on the shared inbound buffer.
    pub fn read_invalid_utf8(&self) -> Option<Vec<u8>> {
        let (mut buffer, handle) = self.lock().acquire_write();
        let r = buffer.read_invalid_utf8();
        handle.release_write(buffer);
        r
    }
}

/// The four events of one connection: read completion, write completion,
/// data ready, and interrupt, in that order.
#[derive(Clone, Copy, Debug)]
pub struct NamedPipeEvents([Event; 4]);

impl View for NamedPipeEvents {
    type V = Seq<Event>;

    closed spec fn view(&self) -> Seq<Event> {
        self.0@
    }
}

impl NamedPipeEvents {
    /// Groups four events; `register` obtains them from a pool.
    pub fn new(events: [Event; 4]) -> (r: Self)
        ensures
            r@ == events@,
    {
        NamedPipeEvents(events)
    }

    /// Takes the four events from the pool's recycled ones, as far as it
    /// holds any, and from `fresh` for the rest: the caller has created
    /// `4 - pool.register_n(4).len()` fresh events. On a short supply the
    /// events obtained go back to the pool and `None` is returned.
    pub fn register(recycled: Vec<Event>, fresh: Vec<Event>, pool: &mut EventManager) -> (r: Option<Self>)
        ensures
            r is Some <==> recycled@.len() + fresh@.len() == 4,
            r matches Some(ev) ==> ev@ == recycled@ + fresh@,
            recycled@.len() + fresh@.len() == 4 ==> final(pool)@ == old(pool)@,
            recycled@.len() + fresh@.len() != 4 ==> final(pool)@ == old(pool)@ + recycled@ + fresh@,
    {
        let mut all = recycled;
        let mut rest = fresh;
        all.append(&mut rest);
        if all.len() == 4 {
            Some(NamedPipeEvents([all[0], all[1], all[2], all[3]]))
        } else {
            pool.unregister_all(all.as_slice());
            None
        }
    }

    /// Returns the four events to the pool, in order.
    pub fn unregister(self, pool: &mut EventManager)
        ensures
            final(pool)@ == old(pool)@ + self@,
    {
        pool.unregister_all(&self.0);
    }

    pub fn read(self) -> (r: Event)
        ensures
            r == self@[0],
    {
        self.0[0]
    }

    pub fn write(self) -> (r: Event)
        ensures
            r == self@[1],
    {
        self.0[1]
    }

    pub fn data(self) -> (r: Event)
        ensures
            r == self@[2],
    {
        self.0[2]
    }

    pub fn interrupt(self) -> (r: Event)
        ensures
            r == self@[3],
    {
        self.0[3]
    }
}

} // verus!
