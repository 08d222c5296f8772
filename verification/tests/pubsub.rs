use aeth::pubsub::SubscriberTable;

fn entries(t: &SubscriberTable<&'static str>) -> Vec<Option<&'static str>> {
    (0..t.num_slots()).map(|i| t.entry(i).copied()).collect()
}

fn deliveries(t: &SubscriberTable<&'static str>) -> Vec<usize> {
    let mut out = Vec::new();
    if let Some((lo, hi)) = t.publish_span() {
        let mut i = lo;
        while let Some(j) = t.next_target(i, hi) {
            out.push(j);
            i = j + 1;
        }
    }
    out
}

#[test]
fn register_takes_lowest_free_slot() {
    let mut t = SubscriberTable::new();
    assert!(!t.has_subscriber());
    assert_eq!(t.register("a"), 0);
    assert_eq!(t.register("b"), 1);
    assert_eq!(t.register("c"), 2);
    assert!(t.has_subscriber());
    t.release(1);
    assert!(!t.is_live(1));
    assert_eq!(t.register("d"), 1);
    assert_eq!(entries(&t), vec![Some("a"), Some("d"), Some("c")]);
}

#[test]
fn publication_reaches_every_live_subscription_in_order() {
    let mut t = SubscriberTable::new();
    for e in ["a", "b", "c", "d"] {
        t.register(e);
    }
    assert_eq!(deliveries(&t), vec![0, 1, 2, 3]);
    t.release(2);
    assert_eq!(deliveries(&t), vec![0, 1, 3]);
    assert_eq!(t.publish_span(), Some((0, 3)));
    assert_eq!(t.next_target(2, 3), Some(3));
    assert_eq!(t.next_target(2, 2), None);
    t.release(0);
    t.release(1);
    t.release(3);
    assert!(!t.has_subscriber());
    assert_eq!(t.publish_span(), None);
    assert_eq!(deliveries(&t), Vec::<usize>::new());
}

#[test]
fn compaction_packs_live_subscriptions_into_a_prefix() {
    let mut t = SubscriberTable::new();
    for e in ["a", "b", "c", "d", "e"] {
        t.register(e);
    }
    t.release(0);
    t.release(2);
    let moves = t.compact();
    assert_eq!(moves, vec![(4, 0), (3, 2)]);
    assert_eq!(t.num_slots(), 3);
    assert_eq!(entries(&t), vec![Some("e"), Some("b"), Some("d")]);
    assert_eq!(deliveries(&t), vec![0, 1, 2]);
    assert_eq!(t.register("f"), 3);
}

#[test]
fn compaction_of_empty_or_packed_registry_moves_nothing() {
    let mut t: SubscriberTable<&'static str> = SubscriberTable::new();
    assert_eq!(t.compact(), vec![]);
    t.register("a");
    t.register("b");
    assert_eq!(t.compact(), vec![]);
    assert_eq!(entries(&t), vec![Some("a"), Some("b")]);
    t.release(1);
    assert_eq!(t.compact(), vec![]);
    assert_eq!(t.num_slots(), 1);
    t.release(0);
    assert_eq!(t.compact(), vec![]);
    assert_eq!(t.num_slots(), 0);
}

#[test]
fn subscriptions_made_and_dropped_during_publication() {
    // A subscription released before the publication reaches it is skipped.
    let mut t = SubscriberTable::new();
    for e in ["a", "b", "c"] {
        t.register(e);
    }
    let (lo, hi) = t.publish_span().unwrap();
    let first = t.next_target(lo, hi).unwrap();
    assert_eq!(first, 0);
    t.release(1);
    let second = t.next_target(first + 1, hi).unwrap();
    assert_eq!(second, 2);
    assert_eq!(t.next_target(second + 1, hi), None);
    // The released slot keeps its contents until compaction.
    assert_eq!(t.entry(1), Some(&"b"));
    assert_eq!(t.compact(), vec![(2, 1)]);
    assert_eq!(t.entry(1), Some(&"c"));
    assert_eq!(t.entry(2), None);
}
