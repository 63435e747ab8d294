use std::sync::atomic::{AtomicU32, Ordering};
use xrtf::xen::ring::{
    available, published, queued, reserve, RingCursors, RingSlot, XenRing, XenRingError,
};

fn ring(len: usize, cons: u32, prod: u32) -> XenRing {
    XenRing { ring: vec![0; len], cons, prod }
}

/// The `k` bytes that a consumer would take from index `at` on.
fn read_back(ring: &XenRing, at: usize, k: usize) -> Vec<u8> {
    (0..k).map(|i| ring.ring[(at + i) % ring.ring.len()]).collect()
}

#[test]
fn capacity_is_one_less_than_length() {
    assert_eq!(ring(8, 0, 0).capacity(), 7);
    assert_eq!(ring(2048, 5, 9).capacity(), 2047);
    assert_eq!(ring(1, 0, 0).capacity(), 0);
}

#[test]
fn available_follows_the_three_cases() {
    assert_eq!(available(2, 5, 8), 2);
    assert_eq!(available(4, 5, 8), 0);
    assert_eq!(available(3, 3, 8), 7);
    assert_eq!(available(5, 2, 8), 7);
    assert_eq!(available(0, 0, 1), 0);
}

#[test]
fn queued_is_what_available_leaves() {
    assert_eq!(queued(2, 5, 8), 6);
    assert_eq!(queued(3, 3, 8), 1);
    assert_eq!(queued(5, 2, 8), 1);
}

#[test]
fn reserve_splits_at_the_buffer_end() {
    assert_eq!(
        reserve(8, 5, 6, 4),
        Ok(RingSlot { start: 6, head: 2, tail: 2, current: 6, next: 2 })
    );
    assert_eq!(
        reserve(8, 0, 3, 2),
        Ok(RingSlot { start: 3, head: 2, tail: 0, current: 3, next: 5 })
    );
}

#[test]
fn reserve_reduces_the_positions_and_keeps_the_cursor_to_swap_from() {
    assert_eq!(
        reserve(8, 13, 14, 4),
        Ok(RingSlot { start: 6, head: 2, tail: 2, current: 14, next: 2 })
    );
    assert_eq!(
        reserve(8, u32::MAX, u32::MAX, 1),
        Ok(RingSlot { start: 7, head: 1, tail: 0, current: u32::MAX, next: 0 })
    );
    assert_eq!(
        reserve(8, 0, 8, 1),
        Ok(RingSlot { start: 0, head: 1, tail: 0, current: 8, next: 1 })
    );
}

#[test]
fn reserve_ends_exactly_at_the_buffer_end() {
    assert_eq!(
        reserve(8, 0, 5, 3),
        Ok(RingSlot { start: 5, head: 3, tail: 0, current: 5, next: 0 })
    );
}

#[test]
fn reserve_refuses_what_does_not_fit() {
    assert_eq!(reserve(8, 0, 0, 8), Err(XenRingError::TooLarge));
    assert_eq!(reserve(8, 0, 0, 9), Err(XenRingError::TooLarge));
    assert_eq!(reserve(0, 0, 0, 0), Err(XenRingError::TooLarge));
    assert_eq!(reserve(8, 5, 2, 3), Err(XenRingError::NotReady));
    assert_eq!(reserve(8, 5, 2, 2).map(|slot| slot.next), Ok(4));
}

#[test]
fn published_maps_the_swap() {
    assert_eq!(published(Ok(3)), Ok(()));
    assert_eq!(published(Err(4)), Err(XenRingError::MisbehavingIndex));
}

#[test]
fn write_fills_an_empty_ring_to_capacity() {
    let mut r = ring(8, 3, 3);
    let payload = [1, 2, 3, 4, 5, 6, 7];
    assert_eq!(r.write(&payload), Ok(()));
    assert_eq!(r.ring, vec![6, 7, 0, 1, 2, 3, 4, 5]);
    assert_eq!(r.prod, 2);
    assert_eq!(r.cons, 3);
    assert_eq!(read_back(&r, 3, 7), payload);
}

#[test]
fn write_of_ring_length_or_more_is_too_large() {
    let mut r = ring(8, 0, 0);
    let before = r.clone();
    assert_eq!(r.write(&[9; 8]), Err(XenRingError::TooLarge));
    assert_eq!(r.write(&[9; 9]), Err(XenRingError::TooLarge));
    assert_eq!(r.write(&[9; 100]), Err(XenRingError::TooLarge));
    assert_eq!(r, before);
}

#[test]
fn write_to_a_ring_without_slots_is_too_large() {
    let mut r = ring(0, 0, 0);
    assert_eq!(r.write(&[]), Err(XenRingError::TooLarge));
    assert_eq!(r.write(&[1]), Err(XenRingError::TooLarge));
}

#[test]
fn write_wraps_round_the_buffer_end() {
    let mut r = ring(8, 5, 6);
    assert_eq!(r.write(&[10, 11, 12, 13]), Ok(()));
    assert_eq!(r.ring, vec![12, 13, 0, 0, 0, 0, 10, 11]);
    assert_eq!(r.prod, 2);
    assert_eq!(read_back(&r, 6, 4), vec![10, 11, 12, 13]);
}

#[test]
fn write_that_ends_at_the_buffer_end_moves_the_cursor_to_zero() {
    let mut r = ring(8, 0, 7);
    assert_eq!(r.write(&[42]), Ok(()));
    assert_eq!(r.ring, vec![0, 0, 0, 0, 0, 0, 0, 42]);
    assert_eq!(r.prod, 0);
}

#[test]
fn write_reads_back_from_every_position() {
    let len = 7usize;
    for p in 0..len {
        for k in 0..len {
            let mut r = XenRing { ring: vec![0xEE; len], cons: p as u32, prod: p as u32 };
            let payload: Vec<u8> = (0..k).map(|i| (p * 16 + i) as u8).collect();
            assert_eq!(r.write(&payload), Ok(()));
            assert_eq!(read_back(&r, p, k), payload);
            assert_eq!(r.prod as usize, (p + k) % len);
            for i in k..len {
                assert_eq!(r.ring[(p + i) % len], 0xEE);
            }
        }
    }
}

#[test]
fn write_publishes_after_each_other() {
    let mut r = ring(4, 0, 0);
    assert_eq!(r.write(&[1, 2]), Ok(()));
    assert_eq!(r.prod, 2);
    r.cons = 2;
    assert_eq!(r.write(&[3, 4, 5]), Ok(()));
    assert_eq!(r.ring, vec![5, 2, 3, 4]);
    assert_eq!(r.prod, 1);
}

#[test]
fn empty_ring_accepts_one_byte() {
    let mut r = ring(2, 1, 1);
    assert_eq!(r.write(&[7]), Ok(()));
    assert_eq!(r.ring, vec![0, 7]);
    assert_eq!(r.prod, 0);
}

#[test]
fn full_ring_rejects_one_byte() {
    let mut r = ring(8, 5, 4);
    let before = r.clone();
    assert_eq!(r.write(&[7]), Err(XenRingError::NotReady));
    assert_eq!(r, before);
}

#[test]
fn ring_behind_a_consumer_at_zero_is_not_seen_as_full() {
    let mut r = ring(8, 0, 7);
    assert_eq!(r.write(&[7]), Ok(()));
    assert_eq!(r.prod, 0);
}

#[test]
fn ring_of_one_slot_holds_nothing() {
    let mut r = ring(1, 0, 0);
    assert_eq!(r.write(&[]), Ok(()));
    assert_eq!(r.write(&[7]), Err(XenRingError::TooLarge));
}

#[test]
fn not_ready_leaves_the_cursor_to_the_next_caller() {
    let mut r = ring(8, 5, 3);
    let before = r.clone();
    assert_eq!(r.write(&[1, 2]), Err(XenRingError::NotReady));
    assert_eq!(r.prod, 3);
    assert_eq!(r, before);
    assert_eq!(r.write(&[1, 2]), Err(XenRingError::NotReady));
    assert_eq!(r.write(&[1]), Ok(()));
    assert_eq!(r.prod, 4);
}

#[test]
fn cursor_of_the_ring_length_or_more_is_read_modulo_it() {
    let mut r = ring(8, 0, 11);
    assert_eq!(r.write(&[1, 2]), Ok(()));
    assert_eq!(r.prod, 5);
    assert_eq!(r.cons, 0);
    assert_eq!(r.ring, vec![0, 0, 0, 1, 2, 0, 0, 0]);

    let mut r = ring(8, 0, 8);
    assert_eq!(r.write(&[9]), Ok(()));
    assert_eq!(r.ring, vec![9, 0, 0, 0, 0, 0, 0, 0]);
    assert_eq!(r.prod, 1);

    let mut r = ring(8, 8, 8);
    assert_eq!(r.write(&[1, 2, 3, 4, 5, 6, 7]), Ok(()));
    assert_eq!(r.prod, 7);
}

#[test]
fn sole_writer_never_misbehaves() {
    for len in 1..6usize {
        for cons in [0u32, 1, 4, 5, 6, 13, u32::MAX] {
            for prod in [0u32, 1, 4, 5, 6, 13, u32::MAX - 1, u32::MAX] {
                for n in 0..7usize {
                    let mut r = XenRing { ring: vec![0; len], cons, prod };
                    let result = r.write(&vec![0xAB; n]);
                    assert_ne!(result, Err(XenRingError::MisbehavingIndex));
                    match result {
                        Ok(()) => assert_eq!(r.prod as usize, (prod as usize % len + n) % len),
                        Err(_) => assert_eq!(r, XenRing { ring: vec![0; len], cons, prod }),
                    }
                }
            }
        }
    }
}

#[test]
fn empty_payload_changes_nothing() {
    let mut r = ring(8, 2, 6);
    let before = r.clone();
    assert_eq!(r.write(&[]), Ok(()));
    assert_eq!(r, before);
}

#[test]
fn shared_cursors_decide_like_plain_ones() {
    let (cons, prod) = (AtomicU32::new(13), AtomicU32::new(14));
    let cursors = RingCursors { cons: &cons, prod: &prod };
    assert_eq!(cursors.begin(8, 4), reserve(8, 13, 14, 4));
    assert_eq!(cursors.begin(8, 8), Err(XenRingError::TooLarge));
    assert_eq!(cursors.begin(8, 7), reserve(8, 13, 14, 7));
    assert_eq!(cons.load(Ordering::Relaxed), 13);
    assert_eq!(prod.load(Ordering::Relaxed), 14);
}

#[test]
fn shared_cursor_moves_when_the_payload_is_published() {
    let (cons, prod) = (AtomicU32::new(5), AtomicU32::new(6));
    let cursors = RingCursors { cons: &cons, prod: &prod };
    let slot = cursors.begin(8, 4).unwrap();
    assert_eq!(slot, RingSlot { start: 6, head: 2, tail: 2, current: 6, next: 2 });
    assert_eq!(prod.load(Ordering::Relaxed), 6);
    assert_eq!(cursors.publish(slot), Ok(()));
    assert_eq!(prod.load(Ordering::Relaxed), 2);
    assert_eq!(cons.load(Ordering::Relaxed), 5);
}

#[test]
fn shared_cursor_that_moved_in_between_is_misbehaving() {
    let (cons, prod) = (AtomicU32::new(0), AtomicU32::new(3));
    let cursors = RingCursors { cons: &cons, prod: &prod };
    let slot = cursors.begin(8, 2).unwrap();
    prod.store(4, Ordering::Relaxed);
    assert_eq!(cursors.publish(slot), Err(XenRingError::MisbehavingIndex));
    assert_eq!(prod.load(Ordering::Relaxed), 4);
}

#[test]
fn shared_cursor_is_unchanged_for_a_second_caller_after_not_ready() {
    let (cons, prod) = (AtomicU32::new(5), AtomicU32::new(3));
    let first = RingCursors { cons: &cons, prod: &prod };
    let second = first;
    assert_eq!(first.begin(8, 2), Err(XenRingError::NotReady));
    assert_eq!(prod.load(Ordering::Relaxed), 3);
    assert_eq!(second.begin(8, 2), Err(XenRingError::NotReady));
    assert_eq!(second.begin(8, 1).map(|slot| slot.current), Ok(3));
}

#[test]
fn shared_cursors_see_the_consumer_advance() {
    let (cons, prod) = (AtomicU32::new(4), AtomicU32::new(3));
    let cursors = RingCursors { cons: &cons, prod: &prod };
    assert_eq!(cursors.begin(8, 1), Err(XenRingError::NotReady));
    cons.store(6, Ordering::Release);
    let slot = cursors.begin(8, 2).unwrap();
    assert_eq!(cursors.publish(slot), Ok(()));
    assert_eq!(prod.load(Ordering::Relaxed), 5);
}

#[test]
fn shared_cursor_is_swapped_from_the_value_that_was_loaded() {
    let (cons, prod) = (AtomicU32::new(0), AtomicU32::new(8));
    let cursors = RingCursors { cons: &cons, prod: &prod };
    let slot = cursors.begin(8, 1).unwrap();
    assert_eq!(slot, RingSlot { start: 0, head: 1, tail: 0, current: 8, next: 1 });
    assert_eq!(cursors.publish(slot), Ok(()));
    assert_eq!(prod.load(Ordering::Relaxed), 1);

    prod.store(u32::MAX, Ordering::Relaxed);
    cons.store(3, Ordering::Relaxed);
    let slot = cursors.begin(8, 2).unwrap();
    assert_eq!(slot, RingSlot { start: 7, head: 1, tail: 1, current: u32::MAX, next: 1 });
    assert_eq!(cursors.publish(slot), Ok(()));
    assert_eq!(prod.load(Ordering::Relaxed), 1);
}

#[test]
fn only_a_ring_without_room_is_worth_another_try() {
    assert!(XenRingError::NotReady.is_transient());
    assert!(!XenRingError::TooLarge.is_transient());
    assert!(!XenRingError::MisbehavingIndex.is_transient());
}
