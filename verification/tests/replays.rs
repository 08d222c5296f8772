//! Scenarios of the framework replayed on the library's state machines: the
//! tasks, channels and wakers around them are played by small stand-ins
//! here. The words sent and the values expected are the scenarios' own;
//! control messages (pause, resume, stop, replace, cancel) are direct calls
//! on the slot states instead of messages to a task.

use aeth::keyed_mux::KeyedMux;
use aeth::mux::{ReadyTable, ReadyWait};
use aeth::pubsub::SubscriberTable;
use aeth::ready_poll::ReadyPoll;
use aeth::ready_wait::ReadyWaitState;
use aeth::slots::{FutureState, StreamState};
use std::cell::RefCell;
use std::collections::VecDeque;
use std::rc::{Rc, Weak};

/// An unbounded channel: its receiver is alive while a second handle on it
/// exists, and a receiver found empty asks to be woken through its slot.
struct Chan {
    items: VecDeque<usize>,
    waiting: Option<usize>,
}

type ChanRc = Rc<RefCell<Chan>>;

fn channel() -> (ChanRc, ChanRc) {
    let c = Rc::new(RefCell::new(Chan { items: VecDeque::new(), waiting: None }));
    (c.clone(), c)
}

fn send(tx: &ChanRc, wakes: &mut VecDeque<usize>, v: usize) -> Result<(), usize> {
    if Rc::strong_count(tx) < 2 {
        return Err(v);
    }
    let mut c = tx.borrow_mut();
    c.items.push_back(v);
    if let Some(w) = c.waiting.take() {
        wakes.push_back(w);
    }
    Ok(())
}

fn poll_chan(rx: &ChanRc, slot: usize) -> Option<usize> {
    let mut c = rx.borrow_mut();
    match c.items.pop_front() {
        Some(v) => Some(v),
        None => {
            c.waiting = Some(slot);
            None
        }
    }
}

#[derive(Clone, Copy, Debug, PartialEq)]
enum Branch {
    Recv1,
    Recv2,
    Recv3,
}

struct Harness {
    keepalive: ChanRc,
    rc0: usize,
    mux: KeyedMux<Branch>,
    wakes: VecDeque<usize>,
    recv1: StreamState<ChanRc>,
    recv2: FutureState<ChanRc>,
    recv3: FutureState<ChanRc>,
    rc1: usize,
    rc2: usize,
    rc3: usize,
}

impl Harness {
    fn acknowledge(&mut self, slot: usize) {
        assert!(self.mux.can_acknowledge(slot), "Incorrect acknowledgement");
        self.mux.acknowledge(slot);
    }

    fn try_poll_stream(&mut self) -> Option<usize> {
        self.acknowledge(0);
        let rx = self.recv1.stream_to_poll()?.clone();
        let v = poll_chan(&rx, 0)?;
        if self.recv1.polled(true) {
            self.wakes.push_back(0);
        }
        Some(v)
    }

    fn try_poll_future(&mut self, slot: usize) -> Option<usize> {
        self.acknowledge(slot);
        let state = if slot == 1 { &mut self.recv2 } else { &mut self.recv3 };
        let rx = state.future_to_poll()?.clone();
        let v = poll_chan(&rx, slot)?;
        state.completed();
        Some(v)
    }

    fn run_until_stalled(&mut self) {
        loop {
            // The keepalive branch of the task's select loop.
            let word = self.keepalive.borrow_mut().items.pop_front();
            if let Some(word) = word {
                self.rc0 = word;
                continue;
            }
            assert!(!self.mux.is_unacknowledged());
            self.mux.begin_poll();
            let id = match self.wakes.pop_front() {
                Some(id) => id,
                None => break,
            };
            let slot = match self.mux.wake(id) {
                Some(slot) => slot,
                None => continue,
            };
            match *self.mux.key(slot) {
                Branch::Recv1 => {
                    if let Some(v) = self.try_poll_stream() {
                        self.rc1 = v;
                    }
                }
                Branch::Recv2 => {
                    if let Some(v) = self.try_poll_future(1) {
                        self.rc2 = v;
                    }
                }
                Branch::Recv3 => {
                    if let Some(v) = self.try_poll_future(2) {
                        self.rc3 = v;
                    }
                }
            }
        }
    }

    fn wake_if(&mut self, slot: usize, wake: bool) {
        if wake {
            self.wakes.push_back(slot);
        }
    }
}

#[test]
fn lib_test_normal() {
    const CH1_READY_WORD_1: usize = 0x111111;
    const CH1_READY_WORD_2: usize = 0x222222;
    const CH1_READY_WORD_3: usize = 0x333333;
    const CH1_READY_WORD_4: usize = 0x444444;
    const CH2_READY_WORD_1: usize = 0x111222;
    const CH2_READY_WORD_2: usize = 0x333444;
    const CH2_READY_WORD_3: usize = 0x555666;
    const CH3_READY_WORD_1: usize = 0xabcdef;
    const CH4_READY_WORD_1: usize = 0xfedcba;
    const CH4_READY_WORD_2: usize = 0x987654;

    let (ch1_tx, ch1_rx) = channel();
    let (ch2_tx, ch2_rx) = channel();
    let (ch3_tx, ch3_rx) = channel();
    let (ch4_tx, ch4_rx) = channel();
    let (_ch5_tx, ch5_rx) = channel();
    let mut ch2_recv = Some(ch2_rx);
    let (keepalive_tx, keepalive_rx) = channel();

    let mut h = Harness {
        keepalive: keepalive_rx,
        rc0: 0,
        mux: KeyedMux::new(),
        wakes: VecDeque::new(),
        recv1: StreamState::new_pending(),
        recv2: FutureState::new_pending(),
        recv3: FutureState::new_pending(),
        rc1: 0,
        rc2: 0,
        rc3: 0,
    };
    assert_eq!(h.mux.allocate(Branch::Recv1), 0);
    let w = h.recv1.restart(ch1_rx);
    h.wake_if(0, w);
    assert_eq!(h.mux.allocate(Branch::Recv2), 1);
    let w = h.recv2.replace(ch3_rx);
    h.wake_if(1, w);
    assert_eq!(h.mux.allocate(Branch::Recv3), 2);
    let w = h.recv3.replace(ch5_rx);
    h.wake_if(2, w);

    let check = |h: &Harness, k: usize, r1: usize, r2: usize, r3: usize| {
        assert_eq!(h.rc0, k);
        assert_eq!(h.rc1, r1);
        assert_eq!(h.rc2, r2);
        assert_eq!(h.rc3, r3);
    };

    send(&keepalive_tx, &mut h.wakes, 1).unwrap();
    h.run_until_stalled();
    check(&h, 1, 0, 0, 0);

    // The stream is polled until it blocks; the later word wins.
    send(&keepalive_tx, &mut h.wakes, 2).unwrap();
    send(&ch1_tx, &mut h.wakes, CH1_READY_WORD_1).unwrap();
    send(&ch1_tx, &mut h.wakes, CH1_READY_WORD_2).unwrap();
    h.run_until_stalled();
    check(&h, 2, CH1_READY_WORD_2, 0, 0);

    send(&keepalive_tx, &mut h.wakes, 3).unwrap();
    send(&ch3_tx, &mut h.wakes, CH3_READY_WORD_1).unwrap();
    h.run_until_stalled();
    check(&h, 3, CH1_READY_WORD_2, CH3_READY_WORD_1, 0);

    send(&keepalive_tx, &mut h.wakes, 4).unwrap();
    let w = h.recv1.pause();
    h.wake_if(0, w);
    h.run_until_stalled();
    check(&h, 4, CH1_READY_WORD_2, CH3_READY_WORD_1, 0);

    // A paused stream yields nothing.
    send(&keepalive_tx, &mut h.wakes, 5).unwrap();
    send(&ch1_tx, &mut h.wakes, CH1_READY_WORD_3).unwrap();
    h.run_until_stalled();
    check(&h, 5, CH1_READY_WORD_2, CH3_READY_WORD_1, 0);

    // Resuming receives the pending word at once.
    send(&keepalive_tx, &mut h.wakes, 6).unwrap();
    let w = h.recv1.resume();
    h.wake_if(0, w);
    h.run_until_stalled();
    check(&h, 6, CH1_READY_WORD_3, CH3_READY_WORD_1, 0);

    send(&keepalive_tx, &mut h.wakes, 7).unwrap();
    send(&ch2_tx, &mut h.wakes, CH2_READY_WORD_1).unwrap();
    send(&ch2_tx, &mut h.wakes, CH2_READY_WORD_2).unwrap();
    h.run_until_stalled();
    check(&h, 7, CH1_READY_WORD_3, CH3_READY_WORD_1, 0);

    // Restarting with ch2 drops ch1's receiver and drains ch2.
    send(&keepalive_tx, &mut h.wakes, 8).unwrap();
    let w = h.recv1.restart(ch2_recv.take().unwrap());
    h.wake_if(0, w);
    h.run_until_stalled();
    check(&h, 8, CH2_READY_WORD_2, CH3_READY_WORD_1, 0);
    send(&keepalive_tx, &mut h.wakes, 9).unwrap();
    assert!(send(&ch1_tx, &mut h.wakes, CH1_READY_WORD_4).is_err());
    h.run_until_stalled();
    check(&h, 9, CH2_READY_WORD_2, CH3_READY_WORD_1, 0);

    // Stopping drops ch2's receiver: nothing more is received.
    send(&keepalive_tx, &mut h.wakes, 10).unwrap();
    let w = h.recv1.stop();
    h.wake_if(0, w);
    h.run_until_stalled();
    check(&h, 10, CH2_READY_WORD_2, CH3_READY_WORD_1, 0);
    send(&keepalive_tx, &mut h.wakes, 11).unwrap();
    assert!(send(&ch2_tx, &mut h.wakes, CH2_READY_WORD_3).is_err());
    h.run_until_stalled();
    check(&h, 11, CH2_READY_WORD_2, CH3_READY_WORD_1, 0);

    // Replacing the future makes the slot follow the new one.
    send(&keepalive_tx, &mut h.wakes, 12).unwrap();
    let w = h.recv2.replace(ch4_rx.clone());
    h.wake_if(1, w);
    h.run_until_stalled();
    check(&h, 12, CH2_READY_WORD_2, CH3_READY_WORD_1, 0);
    send(&keepalive_tx, &mut h.wakes, 13).unwrap();
    send(&ch4_tx, &mut h.wakes, CH4_READY_WORD_1).unwrap();
    h.run_until_stalled();
    check(&h, 13, CH2_READY_WORD_2, CH4_READY_WORD_1, 0);

    // A canceled future receives nothing.
    send(&keepalive_tx, &mut h.wakes, 14).unwrap();
    h.recv2.cancel();
    h.run_until_stalled();
    check(&h, 14, CH2_READY_WORD_2, CH4_READY_WORD_1, 0);
    send(&keepalive_tx, &mut h.wakes, 15).unwrap();
    send(&ch4_tx, &mut h.wakes, CH4_READY_WORD_2).unwrap();
    h.run_until_stalled();
    check(&h, 15, CH2_READY_WORD_2, CH4_READY_WORD_1, 0);

    // Replacing it again receives the pending word.
    send(&keepalive_tx, &mut h.wakes, 16).unwrap();
    let w = h.recv2.replace(ch4_rx.clone());
    h.wake_if(1, w);
    h.run_until_stalled();
    check(&h, 16, CH2_READY_WORD_2, CH4_READY_WORD_2, 0);

    send(&keepalive_tx, &mut h.wakes, 17).unwrap();
    h.run_until_stalled();
    check(&h, 17, CH2_READY_WORD_2, CH4_READY_WORD_2, 0);
}

#[test]
fn pubsub_test_normal() {
    let mut table: SubscriberTable<&'static str> = SubscriberTable::new();
    let mut v1 = 0;
    let mut v2 = 0;
    assert_eq!(table.register("sync"), 0);
    assert_eq!(table.register("async"), 1);
    // The publication runs every handler before it is done.
    let (lo, hi) = table.publish_span().unwrap();
    let mut i = lo;
    while let Some(j) = table.next_target(i, hi) {
        match *table.entry(j).unwrap() {
            "sync" => v1 = 2,
            _ => v2 = 3,
        }
        i = j + 1;
    }
    assert_eq!(v1, 2);
    assert_eq!(v2, 3);
}

/// The readiness source of a wrapped future: it reads the state while the
/// wrapping future is alive, and reports not ready once it is dropped.
struct Waitable {
    state: Weak<RefCell<ReadyWaitState<usize>>>,
}

impl ReadyWait for Waitable {
    fn ready(&self) -> bool {
        match self.state.upgrade() {
            Some(s) => s.borrow().is_ready(),
            None => false,
        }
    }
}

/// A wrapped future waiting on a oneshot receiver: the state is shared with
/// its readiness source, the receiver is dropped with the poller.
struct Wrapped {
    state: Option<Rc<RefCell<ReadyWaitState<usize>>>>,
    recv: Option<ChanRc>,
}

/// The poller of wrapped future `i`: once a word arrived and the future is
/// still polled, it completes and its readiness source is notified.
fn drive(w: &mut Wrapped, mux: &mut ReadyTable<Waitable>, i: usize) {
    if let (Some(state), Some(recv)) = (&w.state, &w.recv) {
        let polling = state.borrow().is_polling() && !state.borrow().is_done();
        if polling {
            if let Some(v) = poll_chan(recv, i) {
                state.borrow_mut().complete(v);
                mux.notify(i);
            }
        }
    }
}

#[test]
fn test_ready_wait_normal() {
    const RC1_READY_WORD: usize = 0x123456;
    const RC2_READY_WORD: usize = 0x7890ab;
    const RC2_CANCEL_WORD: usize = 0xcdef01;
    const RC3_READY_WORD: usize = 0x234567;

    let mut wakes = VecDeque::new();
    let (send1, recv1) = channel();
    let (send2, recv2) = channel();
    let (send3, recv3) = channel();
    let mut wrapped: Vec<Wrapped> = vec![recv1, recv2, recv3]
        .into_iter()
        .map(|r| Wrapped { state: Some(Rc::new(RefCell::new(ReadyWaitState::new()))), recv: Some(r) })
        .collect();
    let mut mux = ReadyTable::new();
    for w in &wrapped {
        let src = Waitable { state: Rc::downgrade(w.state.as_ref().unwrap()) };
        let ready = src.ready();
        mux.register(src, ready);
    }
    // The main task never returns, so its ready flag stays low.
    let mut main = ReadyPoll::new();
    let (mut rc1, mut rc2, rc3) = (0usize, 0usize, 0usize);

    // Main task is running, nothing has changed.
    assert_eq!(mux.poll(), None);
    main.polled(false);
    assert!(!main.ready());
    assert_eq!((rc1, rc2, rc3), (0, 0, 0));

    // The first branch activates and takes its result.
    send(&send1, &mut wakes, RC1_READY_WORD).unwrap();
    drive(&mut wrapped[0], &mut mux, 0);
    assert_eq!(mux.poll(), Some(0));
    let s1 = wrapped[0].state.take().unwrap();
    assert!(s1.borrow().can_take());
    rc1 = s1.borrow_mut().take().unwrap();
    drop(s1);
    wrapped[0].recv = None;
    main.polled(false);
    assert!(!main.ready());
    assert_eq!((rc1, rc2, rc3), (RC1_READY_WORD, 0, 0));

    // Canceling the second drops its poller and receiver, so sending to it
    // fails, and the canceled branch is taken instead.
    wrapped[1].state.as_ref().unwrap().borrow_mut().cancel();
    wrapped[1].recv = None;
    mux.notify(1);
    main.polled(false);
    assert!(!main.ready());
    assert!(send(&send2, &mut wakes, RC2_READY_WORD).is_err());
    drive(&mut wrapped[1], &mut mux, 1);
    assert_eq!(mux.poll(), Some(1));
    let s2 = wrapped[1].state.take().unwrap();
    assert!(s2.borrow().can_take());
    rc2 = match s2.borrow_mut().take() {
        Some(result) => result,
        None => RC2_CANCEL_WORD,
    };
    drop(s2);
    assert_eq!(mux.poll(), None);
    main.polled(false);
    assert!(!main.ready());
    assert_eq!((rc1, rc2, rc3), (RC1_READY_WORD, RC2_CANCEL_WORD, 0));

    // Dropping the third: sending to it fails, and no branch is taken.
    wrapped[2].state = None;
    wrapped[2].recv = None;
    main.polled(false);
    assert!(!main.ready());
    assert!(send(&send3, &mut wakes, RC3_READY_WORD).is_err());
    drive(&mut wrapped[2], &mut mux, 2);
    assert_eq!(mux.poll(), None);
    main.polled(false);
    assert!(!main.ready());
    assert_eq!((rc1, rc2, rc3), (RC1_READY_WORD, RC2_CANCEL_WORD, 0));
}
