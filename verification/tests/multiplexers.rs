use aeth::keyed_mux::{KeyedMux, Pending};
use aeth::mux::{ReadyTable, ReadyWait};
use std::cell::Cell;
use std::rc::Rc;

struct Source {
    name: &'static str,
    ready: Rc<Cell<bool>>,
}

impl ReadyWait for Source {
    fn ready(&self) -> bool {
        self.ready.get()
    }
}

fn source(name: &'static str, ready: bool) -> (Source, Rc<Cell<bool>>) {
    let flag = Rc::new(Cell::new(ready));
    (Source { name, ready: flag.clone() }, flag)
}

#[test]
fn ready_table_polls_level_triggered() {
    let mut t = ReadyTable::new();
    let (a, a_ready) = source("a", false);
    let (b, b_ready) = source("b", true);
    let ready = a.ready();
    assert_eq!(t.register(a, ready), 0);
    let ready = b.ready();
    assert_eq!(t.register(b, ready), 1);
    assert!(!t.is_marked(0));
    assert!(t.is_marked(1));
    // A source that stays ready is reported again and again.
    assert_eq!(t.poll(), Some(1));
    assert_eq!(t.poll(), Some(1));
    assert_eq!(t.entry(1).name, "b");
    // A marked source that is no longer ready loses its mark.
    b_ready.set(false);
    assert_eq!(t.poll(), None);
    assert!(!t.is_marked(1));
    a_ready.set(true);
    t.notify(0);
    b_ready.set(true);
    t.notify(1);
    assert_eq!(t.poll(), Some(0));
    a_ready.set(false);
    assert_eq!(t.poll(), Some(1));
    assert!(!t.is_marked(0));
}

#[test]
fn ready_table_poll_steps_follow_the_answers() {
    let mut t = ReadyTable::new();
    let (a, _) = source("a", true);
    let (b, _) = source("b", true);
    t.register(a, true);
    t.register(b, true);
    assert_eq!(t.lowest_marked(), Some(0));
    // A source still ready is reported and keeps its mark.
    assert_eq!(t.poll_step(0, true), Some(0));
    assert!(t.is_marked(0));
    assert_eq!(t.lowest_marked(), Some(0));
    // A source no longer ready loses its mark, and the next one is lowest.
    assert_eq!(t.poll_step(0, false), None);
    assert!(!t.is_marked(0));
    assert_eq!(t.lowest_marked(), Some(1));
    assert_eq!(t.poll_step(1, false), None);
    assert_eq!(t.lowest_marked(), None);
}

#[test]
fn ready_table_evict_moves_last_registration() {
    let mut t = ReadyTable::new();
    let (a, _) = source("a", false);
    let (b, _) = source("b", false);
    let (c, _) = source("c", true);
    t.register(a, false);
    t.register(b, false);
    t.register(c, true);
    let gone = t.evict(0);
    assert_eq!(gone.name, "a");
    assert_eq!(t.len(), 2);
    assert_eq!(t.entry(0).name, "c");
    assert!(t.is_marked(0));
    assert!(!t.is_marked(2));
    let gone = t.evict(1);
    assert_eq!(gone.name, "b");
    assert_eq!(t.len(), 1);
    assert_eq!(t.poll(), Some(0));
}

#[test]
fn keyed_mux_hands_out_keys_and_requires_acknowledgement() {
    let mut m = KeyedMux::new();
    assert_eq!(m.allocate("recv1"), 0);
    assert_eq!(m.allocate("recv2"), 1);
    assert_eq!(m.allocate("recv3"), 2);
    m.begin_poll();
    assert_eq!(m.wake(usize::MAX), None);
    assert_eq!(m.wake(1), Some(1));
    assert_eq!(*m.key(1), "recv2");
    assert!(m.is_unacknowledged());
    assert!(!m.can_acknowledge(0));
    assert!(m.can_acknowledge(1));
    m.acknowledge(1);
    assert!(!m.is_unacknowledged());
}

#[test]
fn keyed_mux_pending_follows_its_registration() {
    let mut m = KeyedMux::new();
    m.allocate("a");
    m.allocate("b");
    m.allocate("c");
    m.begin_poll();
    assert_eq!(m.wake(2), Some(2));
    // "c" moves into slot 0 and stays the one to acknowledge.
    assert_eq!(m.evict(0), "a");
    assert_eq!(*m.key(0), "c");
    assert!(m.can_acknowledge(0));
    // Removing the pending registration lets the next poll start.
    assert_eq!(m.evict(0), "c");
    assert!(!m.is_unacknowledged());
    m.begin_poll();
    assert_eq!(m.len(), 1);
    assert_eq!(*m.key(0), "b");
    let _ = Pending::Idle;
}
