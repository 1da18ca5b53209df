use windows_named_pipe::buffer::{IoBuffer, LazyBuffer, NamedPipeBuffer};
use windows_named_pipe::channel::Channel;
use windows_named_pipe::event::{Event, EventOwner};
use windows_named_pipe::os::{OsError, ERROR_IO_PENDING, ERROR_PIPE_CONNECTED};
use windows_named_pipe::server::{grow_count, Acceptor, AcceptorSignal, ServerNamedPipeEvent};
use windows_named_pipe::server_pipe::{connect_result, ServerNamedPipe, ServerNamedPipeStatus};

fn make_buffer() -> NamedPipeBuffer {
    NamedPipeBuffer {
        read: IoBuffer::new(16),
        write: IoBuffer::new(16),
        read_channel: Channel::new(),
        write_channel: Channel::new(),
    }
}

type Slot = ServerNamedPipe<fn() -> NamedPipeBuffer, u32, String>;

#[test]
fn slot_lifecycle() {
    let mut pipe: Slot = ServerNamedPipe::new(3, LazyBuffer::Unbuffered(make_buffer as fn() -> NamedPipeBuffer));
    assert_eq!(pipe.handle(), 3);
    assert!(matches!(pipe.status(), ServerNamedPipeStatus::Idle));
    assert!(pipe.notify_connection().is_none());
    assert!(pipe.can_connect());
    assert_eq!(pipe.start_connecting(Ok(false)), Ok(false));
    assert!(matches!(pipe.status(), ServerNamedPipeStatus::Pending));
    assert!(!pipe.can_connect());
    assert_eq!(pipe.start_connecting(Ok(true)), Ok(false));
    let buffer = pipe.notify_connection().expect("a pending slot hands out its buffer");
    assert_eq!(buffer.read.len(), 16);
    assert!(pipe.notify_connection().is_none());
    assert!(matches!(pipe.status(), ServerNamedPipeStatus::Pending));
    assert_eq!(pipe.connected(40), None);
    assert!(pipe.is_connected());
    assert!(matches!(pipe.status(), ServerNamedPipeStatus::Connected(40)));
    assert!(pipe.notify_connection().is_none());
    assert_eq!(pipe.connected(41), Some(41));
    assert_eq!(pipe.take_finished(), Some(40));
    assert!(matches!(pipe.status(), ServerNamedPipeStatus::Joining));
    assert_eq!(pipe.take_finished(), None);
    buffer.write_channel.sender().send(1);
    let _ = buffer.write_channel.receiver().receive_all();
    pipe.connection_ended(Ok(buffer));
    assert!(matches!(pipe.status(), ServerNamedPipeStatus::Disconnected));
    assert!(pipe.can_connect());
    assert_eq!(pipe.start_connecting(Ok(true)), Ok(true));
    let reused = pipe.notify_connection().expect("the kept buffer is handed out again");
    assert_eq!(reused.read_channel.receiver().receive_all(), Vec::<u8>::new());
    assert_eq!(reused.write_channel.receiver().receive_all(), Vec::<u8>::new());
}

#[test]
fn slot_thread_panic_is_terminal() {
    let mut pipe: Slot = ServerNamedPipe::new(1, LazyBuffer::Buffered(make_buffer()));
    assert_eq!(pipe.start_connecting(Ok(true)), Ok(true));
    assert!(pipe.notify_connection().is_some());
    assert_eq!(pipe.connected(1), None);
    assert_eq!(pipe.take_finished(), Some(1));
    pipe.connection_ended(Err(String::from("boom")));
    assert!(matches!(pipe.status(), ServerNamedPipeStatus::ThreadPanic(p) if p == "boom"));
    assert!(!pipe.can_connect());
    pipe.connection_ended(Ok(make_buffer()));
    assert!(matches!(pipe.status(), ServerNamedPipeStatus::ThreadPanic(_)));
}

#[test]
fn failed_accept_keeps_slot_idle() {
    let mut pipe: Slot = ServerNamedPipe::new(1, LazyBuffer::Buffered(make_buffer()));
    let e = OsError { code: 232 };
    assert_eq!(pipe.start_connecting(Err(e)), Err(e));
    assert!(matches!(pipe.status(), ServerNamedPipeStatus::Idle));
}

#[test]
fn accept_outcomes() {
    let e = OsError { code: -1 };
    assert_eq!(connect_result(Ok(()), 0), Ok(true));
    assert_eq!(connect_result(Err(e), ERROR_IO_PENDING), Ok(false));
    assert_eq!(connect_result(Err(e), ERROR_PIPE_CONNECTED), Ok(true));
    assert_eq!(connect_result(Err(e), 5), Err(e));
}

#[test]
fn slot_with_event() {
    let pipe: Slot = ServerNamedPipe::new(9, LazyBuffer::Buffered(make_buffer()));
    let mut slot = ServerNamedPipeEvent::new(pipe, EventOwner(Event::new(21)));
    assert_eq!(slot.event(), Event::new(21));
    assert_eq!(slot.pipe_ref().handle(), 9);
    assert_eq!(slot.pipe_mut().start_connecting(Ok(false)), Ok(false));
    assert!(matches!(slot.pipe_ref().status(), ServerNamedPipeStatus::Pending));
}

#[test]
fn acceptor_slots() {
    let mut a = Acceptor::new(Event::new(1), Event::new(2));
    assert_eq!(a.events(), &[Event::new(1), Event::new(2)][..]);
    let mut added = vec![Event::new(30), Event::new(31)];
    a.extend(&mut added);
    assert!(added.is_empty());
    assert_eq!(a.events().len(), 4);
    assert_eq!(a.signal(0), AcceptorSignal::Interrupt);
    assert_eq!(a.signal(1), AcceptorSignal::Grow);
    assert_eq!(a.signal(2), AcceptorSignal::Connection(0));
    assert_eq!(a.signal(3), AcceptorSignal::Connection(1));
}

#[test]
fn growth_mirrors_count() {
    assert_eq!(grow_count(0), 1);
    assert_eq!(grow_count(1), 1);
    assert_eq!(grow_count(5), 5);
}
