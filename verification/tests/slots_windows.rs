use aeth::slots::{FutureState, StreamState};
use aeth::windows::WindowTable;

#[test]
fn stream_slot_transitions() {
    let mut s: StreamState<Vec<u32>> = StreamState::new_pending();
    assert!(!s.has_stream_to_poll());
    assert!(s.stream_to_poll().is_none());
    assert!(s.restart(vec![1, 2]));
    assert!(s.has_stream_to_poll());
    assert!(!s.pause());
    assert!(!s.has_stream_to_poll());
    assert!(!s.pause());
    assert!(s.resume());
    assert_eq!(s.stream_to_poll().map(|v| v.pop()), Some(Some(2)));
    assert!(s.polled(true));
    assert_eq!(s.stream_to_poll().map(|v| v.len()), Some(1));
    assert!(!s.polled(false));
    assert!(!s.has_stream_to_poll());
    assert!(!s.resume());
    assert!(s.restart(vec![3]));
    assert!(!s.stop());
    assert!(!s.has_stream_to_poll());
}

#[test]
fn future_slot_transitions() {
    let mut f: FutureState<u32> = FutureState::new_pending();
    assert!(!f.has_future());
    assert!(f.future_to_poll().is_none());
    assert!(f.replace(7));
    if let Some(x) = f.future_to_poll() {
        *x += 1;
    }
    assert_eq!(f.future_to_poll().map(|x| *x), Some(8));
    f.completed();
    assert!(!f.has_future());
    f.replace(9);
    f.cancel();
    assert!(!f.has_future());
}

#[test]
fn window_registry_finds_windows_across_evictions() {
    let mut w = WindowTable::new();
    assert_eq!(w.allocate(10, "ten"), 0);
    assert_eq!(w.allocate(20, "twenty"), 1);
    assert_eq!(w.allocate(30, "thirty"), 2);
    assert!(w.contains(20));
    w.set_refreshing(0, true);
    w.set_refreshing(2, true);
    assert_eq!(w.refreshing_slots(), vec![0, 2]);
    assert_eq!(w.evict(0), "ten");
    assert_eq!(w.len(), 2);
    assert_eq!(w.find(10), None);
    assert_eq!(w.find(30), Some(0));
    assert_eq!(*w.entry(0), "thirty");
    assert!(w.is_refreshing(0));
    assert!(!w.is_refreshing(1));
    assert_eq!(w.refreshing_slots(), vec![0]);
    *w.entry_mut(1) = "XX";
    assert_eq!(*w.entry(w.find(20).unwrap()), "XX");
    w.set_refreshing(0, false);
    assert_eq!(w.refreshing_slots(), Vec::<usize>::new());
    assert_eq!(w.evict(1), "XX");
    assert_eq!(w.find(30), Some(0));
    assert_eq!(w.evict(0), "thirty");
    assert_eq!(w.len(), 0);
    assert!(!w.contains(30));
}
