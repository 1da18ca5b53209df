use windows_named_pipe::event::{Event, EventManager, EventOwner};
use windows_named_pipe::pipe::NamedPipeEvents;

#[test]
fn register_unregister_register_recycles() {
    let mut pool = EventManager::new();
    assert_eq!(pool.register(), None);
    let e = Event::new(42);
    pool.unregister(e);
    assert_eq!(pool.len(), 1);
    assert_eq!(pool.register(), Some(e));
    assert_eq!(pool.len(), 0);
}

#[test]
fn register_n_takes_most_recent_first() {
    let mut pool = EventManager::new();
    pool.unregister_all(&[Event::new(1), Event::new(2), Event::new(3)]);
    assert_eq!(pool.register_n(2), vec![Event::new(3), Event::new(2)]);
    assert_eq!(pool.register_n(5), vec![Event::new(1)]);
    assert_eq!(pool.register_n(1), Vec::<Event>::new());
}

#[test]
fn close_events_drains_the_pool() {
    let mut pool = EventManager::new();
    pool.unregister(Event::new(5));
    pool.unregister(Event::new(6));
    assert_eq!(pool.close_events(), vec![Event::new(6), Event::new(5)]);
    assert_eq!(pool.len(), 0);
}

#[test]
fn event_handles() {
    assert_eq!(Event::new(77).handle(), 77);
    assert!(Event::null().is_null());
    assert!(!Event::new(1).is_null());
    assert_eq!(Event::default(), Event::null());
}

#[test]
fn owner_release_returns_assigned_event_only() {
    let mut pool = EventManager::new();
    EventOwner(Event::null()).release(&mut pool);
    assert_eq!(pool.len(), 0);
    let owner = EventOwner(Event::new(8));
    assert_eq!(owner.duplicate(), Event::new(8));
    owner.release(&mut pool);
    assert_eq!(pool.register(), Some(Event::new(8)));
}

#[test]
fn connection_events_in_order() {
    let mut pool = EventManager::new();
    let recycled = vec![Event::new(1), Event::new(2)];
    let fresh = vec![Event::new(3), Event::new(4)];
    let events = NamedPipeEvents::register(recycled, fresh, &mut pool).unwrap();
    assert_eq!(events.read(), Event::new(1));
    assert_eq!(events.write(), Event::new(2));
    assert_eq!(events.data(), Event::new(3));
    assert_eq!(events.interrupt(), Event::new(4));
    assert_eq!(pool.len(), 0);
    events.unregister(&mut pool);
    assert_eq!(pool.close_events(), vec![Event::new(4), Event::new(3), Event::new(2), Event::new(1)]);
}

#[test]
fn short_supply_rolls_back() {
    let mut pool = EventManager::new();
    let r = NamedPipeEvents::register(vec![Event::new(1)], vec![Event::new(2)], &mut pool);
    assert!(r.is_none());
    assert_eq!(pool.register_n(4), vec![Event::new(2), Event::new(1)]);
    let events = NamedPipeEvents::new([Event::new(9), Event::new(8), Event::new(7), Event::new(6)]);
    assert_eq!(events.interrupt(), Event::new(6));
}
