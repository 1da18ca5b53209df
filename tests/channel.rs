use windows_named_pipe::buffer::double_buffer::DoubleBuffer;
use windows_named_pipe::channel::{clone_receiver, clone_sender, Channel};

#[test]
fn pushes_and_flushes_keep_insertion_order() {
    let mut b: DoubleBuffer<u32> = DoubleBuffer::new();
    b.push(1);
    b.push(2);
    b.flush();
    b.push(3);
    assert!(b.try_flush());
    b.push(4);
    assert_eq!(b.read_vec(), vec![1, 2, 3, 4]);
    assert_eq!(b.read_vec(), Vec::<u32>::new());
}

#[test]
fn pop_takes_latest_of_read_side() {
    let mut b: DoubleBuffer<u32> = DoubleBuffer::with_capacity(4);
    assert_eq!(b.pop(), None);
    b.push(7);
    b.push(8);
    assert_eq!(b.pop(), Some(8));
    assert_eq!(b.read_all(), vec![7]);
}

#[test]
fn write_vec_empties_the_source() {
    let mut b: DoubleBuffer<u8> = DoubleBuffer::new();
    let mut v = vec![1u8, 2, 3];
    b.write_vec(&mut v);
    assert!(v.is_empty());
    b.push(4);
    assert_eq!(b.read_all(), vec![1, 2, 3, 4]);
}

#[test]
fn closures_see_each_side() {
    let mut b: DoubleBuffer<u8> = DoubleBuffer::new();
    b.write(|mut w| {
        w.push(5);
        w.push(6);
        w
    });
    b.read(|mut r| {
        r.reverse();
        r
    });
    assert_eq!(b.read_vec(), vec![6, 5]);
}

#[test]
fn drain_front_removes_leading_entries() {
    let mut b: DoubleBuffer<u8> = DoubleBuffer::new();
    b.write_vec(&mut vec![1, 2, 3, 4]);
    b.drain_front(3);
    assert_eq!(b.read_vec(), vec![4]);
    b.write_vec(&mut vec![1, 2]);
    b.drain_front(10);
    assert_eq!(b.read_all(), Vec::<u8>::new());
}

#[test]
fn new_arc_starts_empty() {
    let b = DoubleBuffer::<u8>::new_arc();
    let inner = std::sync::Arc::try_unwrap(b).ok().unwrap();
    assert_eq!(inner.read_all(), Vec::<u8>::new());
}

#[test]
fn sent_entry_reaches_full_drain() {
    let (sender, receiver) = Channel::<u32>::new().unwrap();
    sender.send(10);
    sender.send(11);
    sender.flush();
    assert!(sender.try_flush());
    assert_eq!(receiver.receive_all(), vec![10, 11]);
    sender.send(12);
    assert!(receiver.try_flush());
    receiver.flush();
    assert_eq!(receiver.receive_latest(), Some(12));
    assert_eq!(receiver.receive_latest(), None);
}

#[test]
fn send_vec_moves_everything() {
    let channel = Channel::<u8>::with_capacity(8);
    let mut bytes = vec![1u8, 2, 3];
    channel.sender().send_vec(&mut bytes);
    assert!(bytes.is_empty());
    assert_eq!(channel.receiver().receive_all(), vec![1, 2, 3]);
}

#[test]
fn clones_share_one_buffer() {
    let channel = Channel::<u8>::new();
    let sender = clone_sender(channel.sender());
    let receiver = clone_receiver(channel.receiver());
    sender.send(9);
    assert_eq!(receiver.receive_all(), vec![9]);
}

#[test]
fn unique_only_when_sole_owner() {
    let (sender, receiver) = Channel::<u8>::new().unwrap();
    sender.send(1);
    let receiver = match receiver.unique() {
        Ok(_) => panic!("the sender still shares the buffer"),
        Err(back) => back,
    };
    sender.send(2);
    drop(sender);
    let mut unique = match receiver.unique() {
        Ok(u) => u,
        Err(_) => panic!("the receiver is the last owner"),
    };
    assert_eq!(unique.receive_latest(), Some(2));
    assert_eq!(unique.receive_all(), vec![1]);
}
