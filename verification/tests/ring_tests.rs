use enki::ring::{next_timeline_value, CommandSlot, SlotReservation, TimelineCommandRing};

#[test]
fn slots_are_taken_in_turn_and_wait_for_unfinished_work() {
    let mut ring = TimelineCommandRing::new(&vec![11, 22, 33]);
    let mut counter: u64 = 0;
    let mut seen = Vec::new();
    for _ in 0..3 {
        let r = ring.acquire_slot(0);
        assert_eq!(r.wait_for, None);
        let v = next_timeline_value(&mut counter);
        ring.complete_submission(r.slot_idx, v);
        seen.push(r.cmd);
    }
    assert_eq!(seen, vec![11, 22, 33]);
    assert_eq!(ring.slots[0], CommandSlot { cmd: 11, last_submitted_timeline_value: 1 });
    assert_eq!(ring.next_slot_idx, 3);
    let r = ring.acquire_slot(0);
    assert_eq!(r, SlotReservation { slot_idx: 0, cmd: 11, wait_for: Some(1) });
    let r = ring.acquire_slot(1);
    assert_eq!(r.wait_for, None);
}

#[test]
fn timeline_values_increase() {
    let mut counter: u64 = 41;
    assert_eq!(next_timeline_value(&mut counter), 42);
    assert_eq!(counter, 42);
    assert_eq!(next_timeline_value(&mut counter), 43);
}

#[test]
fn successive_submissions_increase_and_wait_on_a_busy_slot() {
    let mut ring = TimelineCommandRing::new(&vec![7]);
    let mut counter: u64 = 0;
    let r1 = ring.acquire_slot(0);
    assert_eq!(r1.wait_for, None);
    let v1 = next_timeline_value(&mut counter);
    ring.complete_submission(r1.slot_idx, v1);
    let r2 = ring.acquire_slot(0);
    assert_eq!(r2, SlotReservation { slot_idx: 0, cmd: 7, wait_for: Some(v1) });
    let v2 = next_timeline_value(&mut counter);
    assert!(v2 > v1);
    ring.complete_submission(r2.slot_idx, v2);
    assert_eq!(ring.acquire_slot(v2).wait_for, None);
}
