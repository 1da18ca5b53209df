use windows_named_pipe::buffer::double_buffer::DoubleBuffer;
use windows_named_pipe::channel::Channel;
use windows_named_pipe::pipe::{line_bytes, read_invalid_utf8, read_line, ReadLineResult};

#[test]
fn read_line_empty() {
    let mut b: Vec<u8> = Vec::new();
    assert_eq!(read_line(&mut b), ReadLineResult::Empty);
}

#[test]
fn read_line_without_terminator() {
    let mut b = b"abc".to_vec();
    assert_eq!(read_line(&mut b), ReadLineResult::NotALine);
    assert_eq!(b, b"abc".to_vec());
}

#[test]
fn read_line_whole_line() {
    let mut b = b"abc\n".to_vec();
    assert_eq!(read_line(&mut b), ReadLineResult::Line(String::from("abc")));
    assert!(b.is_empty());
    let mut b = b"abc\ndef".to_vec();
    assert_eq!(read_line(&mut b), ReadLineResult::Line(String::from("abc")));
    assert_eq!(b, b"def".to_vec());
}

#[test]
fn read_line_empty_line_and_multibyte() {
    let mut b = "\nh\u{e9}llo\n".as_bytes().to_vec();
    assert_eq!(read_line(&mut b), ReadLineResult::Line(String::new()));
    assert_eq!(read_line(&mut b), ReadLineResult::Line(String::from("h\u{e9}llo")));
    assert_eq!(read_line(&mut b), ReadLineResult::Empty);
}

#[test]
fn read_line_invalid_before_terminator() {
    let mut b = vec![b'a', 0xff, b'b', b'\n'];
    assert_eq!(read_line(&mut b), ReadLineResult::InvalidUtf8);
    assert_eq!(b.len(), 4);
    let mut b = vec![b'a', 0xc3];
    assert_eq!(read_line(&mut b), ReadLineResult::InvalidUtf8);
}

#[test]
fn read_line_terminator_before_invalid() {
    let mut b = vec![b'o', b'k', b'\n', 0xff];
    assert_eq!(read_line(&mut b), ReadLineResult::Line(String::from("ok")));
    assert_eq!(b, vec![0xff]);
}

#[test]
fn invalid_line_is_removed() {
    let mut b = vec![b'a', 0xff, b'\n', b'x'];
    assert_eq!(read_invalid_utf8(&mut b), Some(vec![b'a', 0xff, b'\n']));
    assert_eq!(b, vec![b'x']);
    assert_eq!(read_invalid_utf8(&mut b), None);
    assert_eq!(read_line(&mut b), ReadLineResult::NotALine);
    let mut b = vec![0xfe, 0xfe];
    assert_eq!(read_invalid_utf8(&mut b), Some(vec![0xfe, 0xfe]));
    assert!(b.is_empty());
}

#[test]
fn buffered_read_line() {
    let mut d: DoubleBuffer<u8> = DoubleBuffer::new();
    d.write_vec(&mut b"one\ntwo".to_vec());
    assert_eq!(d.read_line(), ReadLineResult::Line(String::from("one")));
    assert_eq!(d.read_line(), ReadLineResult::NotALine);
    d.write_vec(&mut vec![0xff, b'\n']);
    assert_eq!(d.read_line(), ReadLineResult::InvalidUtf8);
    assert_eq!(d.read_invalid_utf8(), Some(vec![b't', b'w', b'o', 0xff, b'\n']));
    assert_eq!(d.read_line(), ReadLineResult::Empty);
}

#[test]
fn channel_read_line() {
    let (sender, receiver) = Channel::<u8>::new().unwrap();
    assert_eq!(receiver.read_line(), ReadLineResult::Empty);
    sender.send_vec(&mut b"test string\n".to_vec());
    assert_eq!(receiver.read_line(), ReadLineResult::Line(String::from("test string")));
    sender.send_vec(&mut vec![0x80, b'\n']);
    assert_eq!(receiver.read_invalid_utf8(), Some(vec![0x80, b'\n']));
    assert_eq!(receiver.receive_all(), Vec::<u8>::new());
}

#[test]
fn framed_line_reads_back() {
    let mut b = line_bytes("test string");
    assert_eq!(b, b"test string\n".to_vec());
    b.extend_from_slice(b"next");
    assert_eq!(read_line(&mut b), ReadLineResult::Line(String::from("test string")));
    assert_eq!(b, b"next".to_vec());
    let mut empty = line_bytes("");
    assert_eq!(read_line(&mut empty), ReadLineResult::Line(String::new()));
    assert_eq!(line_bytes("\u{e9}"), vec![0xc3, 0xa9, b'\n']);
}
