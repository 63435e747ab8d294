//! Producer side of a paravirtual byte ring.
//!
//! A ring is a buffer of `L` slots and two 32-bit cursors that are read
//! modulo `L`.  The producer fills slots from its cursor on and then moves
//! the cursor; one slot always stays free so that a full ring never looks
//! like an empty one.
//!
//! [`reserve`] takes the decisions of one write from plain values.
//! [`XenRing`] writes to a ring that it owns, cursors and all.  For a ring
//! in memory that the consumer reads at the same time, [`RingCursors`]
//! loads the cursors and publishes the new one; only the copy of the bytes
//! to the slots that a [`RingSlot`] names is left to the owner of that
//! memory.

use core::sync::atomic::{AtomicU32, Ordering};
use vstd::arithmetic::div_mod::{
    lemma_add_mod_noop, lemma_fundamental_div_mod_converse_mod, lemma_mod_pos_bound,
    lemma_small_mod,
};
use vstd::prelude::*;

verus! {

/// Why a write to a ring did not take place.
#[derive(Clone, Copy, Debug, PartialEq, Eq, Structural)]
pub enum XenRingError {
    /// Data is too large to fit in the ring buffer.
    TooLarge,
    /// Consumer is not ready for receiving the payload.
    NotReady,
    /// Misbehaving ring index.
    MisbehavingIndex,
}

impl XenRingError {
    /// Whether the same write may succeed later: only a ring without room
    /// for the payload is worth another try, once the consumer has taken
    /// some of it.
    pub fn is_transient(&self) -> (again: bool)
        ensures
            again == (*self == XenRingError::NotReady),
    {
        match self {
            XenRingError::NotReady => true,
            XenRingError::TooLarge => false,
            XenRingError::MisbehavingIndex => false,
        }
    }
}

/// The slots a payload goes to, and the cursor values that publish it.
#[derive(Clone, Copy, Debug, PartialEq, Eq, Structural)]
pub struct RingSlot {
    /// Index of the first slot to fill.
    pub start: usize,
    /// Number of payload bytes that go from `start` towards the buffer end.
    pub head: usize,
    /// Number of payload bytes that continue at index 0.
    pub tail: usize,
    /// Value that the producer cursor held when it was loaded, as it was
    /// found.  The payload is published only while the cursor still holds
    /// it.
    pub current: u32,
    /// Value of the producer cursor once the payload is published.
    pub next: u32,
}

/// A ring as plain values: the bytes of its slots and the two cursors as
/// they stand in memory, not reduced.
pub struct RingState {
    pub ring: Seq<u8>,
    pub cons: u32,
    pub prod: u32,
}

/// Free slots of a ring of `len` slots whose cursors, reduced modulo `len`,
/// are `prod` and `cons`.
pub open spec fn available_spec(prod: int, cons: int, len: int) -> int {
    if prod < cons {
        cons - prod - 1
    } else if prod == cons {
        len + cons - prod - 1
    } else {
        len - 1
    }
}

/// The decisions of a write of `n` bytes to a ring of `len` slots whose
/// cursors hold `cons` and `prod`.
pub open spec fn reserve_spec(len: int, cons: u32, prod: u32, n: int) -> Result<
    RingSlot,
    XenRingError,
> {
    if n >= len {
        Err(XenRingError::TooLarge)
    } else {
        let p = prod as int % len;
        let c = cons as int % len;
        if available_spec(p, c, len) < n {
            Err(XenRingError::NotReady)
        } else {
            let head = if n <= len - p {
                n
            } else {
                len - p
            };
            Ok(
                RingSlot {
                    start: p as usize,
                    head: head as usize,
                    tail: (n - head) as usize,
                    current: prod,
                    next: ((p + n) % len) as u32,
                },
            )
        }
    }
}

/// What a compare-and-swap of the producer cursor means for the write.
pub open spec fn published_spec(swap: Result<u32, u32>) -> Result<(), XenRingError> {
    match swap {
        Ok(_) => Ok(()),
        Err(_) => Err(XenRingError::MisbehavingIndex),
    }
}

/// The slots of `ring` after `payload` was copied in from index `start` on,
/// going round the end of the buffer.
pub open spec fn ring_after(ring: Seq<u8>, start: int, payload: Seq<u8>) -> Seq<u8> {
    Seq::new(
        ring.len(),
        |j: int|
            if (j - start) % (ring.len() as int) < payload.len() {
                payload[(j - start) % (ring.len() as int)]
            } else {
                ring[j]
            },
    )
}

/// The `k` bytes that a consumer takes from `ring` from index `at` on.
pub open spec fn ring_read(ring: Seq<u8>, at: int, k: int) -> Seq<u8> {
    Seq::new(k as nat, |i: int| ring[(at + i) % (ring.len() as int)])
}

/// A write of `payload` as a function of the ring before it: the ring after
/// it and what the write returns.
///
/// Where the payload is refused the ring stays as it is.  Where there is
/// room, the payload is copied and the cursor moves behind it: the ring has
/// one writer, so the cursor still holds what the write found.
pub open spec fn write_spec(s: RingState, payload: Seq<u8>) -> (RingState, Result<
    (),
    XenRingError,
>) {
    match reserve_spec(s.ring.len() as int, s.cons, s.prod, payload.len() as int) {
        Err(e) => (s, Err(e)),
        Ok(slot) => (
            RingState {
                ring: ring_after(s.ring, slot.start as int, payload),
                cons: s.cons,
                prod: slot.next,
            },
            Ok(()),
        ),
    }
}

proof fn lemma_wrap(x: int, m: int)
    requires
        0 < m,
        -m <= x < 2 * m,
    ensures
        x % m == if x < 0 {
            x + m
        } else if x < m {
            x
        } else {
            x - m
        },
{
    if x < 0 {
        lemma_fundamental_div_mod_converse_mod(x, m, -1, x + m);
    } else if x < m {
        lemma_fundamental_div_mod_converse_mod(x, m, 0, x);
    } else {
        lemma_fundamental_div_mod_converse_mod(x, m, 1, x - m);
    }
}

/// Number of bytes that can be written to a ring of `len` slots whose
/// cursors, reduced modulo `len`, are `prod` and `cons`.
pub fn available(prod: usize, cons: usize, len: usize) -> (free: usize)
    requires
        prod < len,
        cons < len,
    ensures
        free == available_spec(prod as int, cons as int, len as int),
{
    if prod < cons {
        cons - prod - 1
    } else if prod == cons {
        len - 1
    } else {
        len - 1
    }
}

/// Number of slots that [`available`] does not offer.
pub fn queued(prod: usize, cons: usize, len: usize) -> (used: usize)
    requires
        prod < len,
        cons < len,
    ensures
        used == len - available_spec(prod as int, cons as int, len as int),
{
    len - available(prod, cons, len)
}

/// Decides a write of `n` bytes from the cursor values `cons` and `prod`
/// that were loaded from a ring of `len` slots.
pub fn reserve(len: usize, cons: u32, prod: u32, n: usize) -> (slot: Result<
    RingSlot,
    XenRingError,
>)
    ensures
        slot == reserve_spec(len as int, cons, prod, n as int),
{
    if n >= len {
        return Err(XenRingError::TooLarge);
    }
    let c: usize = cons as usize % len;
    let p: usize = prod as usize % len;
    if available(p, c, len) < n {
        return Err(XenRingError::NotReady);
    }
    let room: usize = len - p;
    let head: usize = if n <= room {
        n
    } else {
        room
    };
    let dest: usize = if n < room {
        p + n
    } else {
        n - room
    };
    proof {
        lemma_wrap(p + n, len as int);
    }
    Ok(RingSlot { start: p, head, tail: n - head, current: prod, next: dest as u32 })
}

/// Turns the result of the compare-and-swap that publishes a payload into
/// the result of the write.
pub fn published(swap: Result<u32, u32>) -> (r: Result<(), XenRingError>)
    ensures
        r == published_spec(swap),
{
    match swap {
        Ok(_) => Ok(()),
        Err(_) => Err(XenRingError::MisbehavingIndex),
    }
}

/// Stores `new` in `cell` if it holds `current`; returns the value that was
/// found, as `Ok` when the store took place.
fn compare_exchange(cell: &mut u32, current: u32, new: u32) -> (found: Result<u32, u32>)
    ensures
        *old(cell) == current ==> found == Ok::<u32, u32>(current) && *final(cell) == new,
        *old(cell) != current ==> found == Err::<u32, u32>(*old(cell)) && *final(cell) == *old(
            cell,
        ),
{
    let seen: u32 = *cell;
    if seen == current {
        *cell = new;
        Ok(seen)
    } else {
        Err(seen)
    }
}

/// Copies `count` bytes of `src`, from index `from` on, to `ring[at..]`.
fn copy_from_slice(ring: &mut Vec<u8>, at: usize, src: &[u8], from: usize, count: usize)
    requires
        at + count <= old(ring)@.len(),
        from + count <= src@.len(),
    ensures
        final(ring)@.len() == old(ring)@.len(),
        forall|j: int|
            0 <= j < old(ring)@.len() ==> final(ring)@[j] == if at <= j < at + count {
                src@[from + j - at]
            } else {
                old(ring)@[j]
            },
{
    let ring_len: usize = ring.len();
    let src_len: usize = src.len();
    let mut i: usize = 0;
    while i < count
        invariant
            i <= count,
            at + count <= ring_len,
            from + count <= src_len,
            ring_len == ring@.len(),
            src_len == src@.len(),
            ring@.len() == old(ring)@.len(),
            forall|j: int|
                0 <= j < ring@.len() ==> ring@[j] == if at <= j < at + i {
                    src@[from + j - at]
                } else {
                    old(ring)@[j]
                },
        decreases count - i,
    {
        ring[at + i] = src[from + i];
        i += 1;
    }
}

/// A ring that owns its slots and its cursors.
#[derive(Debug, PartialEq, Eq)]
pub struct XenRing {
    pub ring: Vec<u8>,
    pub cons: u32,
    pub prod: u32,
}

impl Clone for XenRing {
    fn clone(&self) -> (copy: Self)
        ensures
            copy@ == self@,
    {
        XenRing { ring: self.ring.clone(), cons: self.cons, prod: self.prod }
    }
}

impl View for XenRing {
    type V = RingState;

    open spec fn view(&self) -> RingState {
        RingState { ring: self.ring@, cons: self.cons, prod: self.prod }
    }
}

impl XenRing {
    /// Number of bytes that the ring holds at most: one slot stays free.
    pub fn capacity(&self) -> (c: usize)
        requires
            self@.ring.len() > 0,
        ensures
            c == self@.ring.len() - 1,
    {
        self.ring.len() - 1
    }

    /// Writes `buffer` behind the producer cursor and moves the cursor
    /// over it, or tells why not and leaves the ring as it is: the payload
    /// is as long as the ring or longer, or there is less room than the
    /// payload needs.  The cursors may hold any value; they are read
    /// modulo the length of the ring.
    pub fn write(&mut self, buffer: &[u8]) -> (r: Result<(), XenRingError>)
        ensures
            (final(self)@, r) == write_spec(old(self)@, buffer@),
    {
        let slot = match reserve(self.ring.len(), self.cons, self.prod, buffer.len()) {
            Ok(slot) => slot,
            Err(e) => {
                return Err(e);
            },
        };
        // [(tail)C    P(head)]
        copy_from_slice(&mut self.ring, slot.start, buffer, 0, slot.head);
        copy_from_slice(&mut self.ring, 0, buffer, slot.head, slot.tail);
        proof {
            let len = old(self)@.ring.len() as int;
            let start = slot.start as int;
            assert forall|j: int| 0 <= j < len implies self.ring@[j] == ring_after(
                old(self)@.ring,
                start,
                buffer@,
            )[j] by {
                lemma_wrap(j - start, len);
            }
            assert(self.ring@ =~= ring_after(old(self)@.ring, start, buffer@));
        }
        published(compare_exchange(&mut self.prod, slot.current, slot.next))
    }
}

/// The cursors of a ring in memory that the consumer reads and writes at the
/// same time.  Nothing is known of what a cursor holds until it is loaded,
/// and what was loaded may be out of date at once.
#[derive(Clone, Copy)]
pub struct RingCursors<'a> {
    pub cons: &'a AtomicU32,
    pub prod: &'a AtomicU32,
}

/// What [`RingCursors::begin`] may return: the decision on a write of `n`
/// bytes to a ring of `len` slots, for the values that the cursors held
/// when they were loaded.
pub open spec fn begin_spec(len: usize, n: usize, slot: Result<RingSlot, XenRingError>) -> bool {
    exists|cons: u32, prod: u32| slot == #[trigger] reserve_spec(len as int, cons, prod, n as int)
}

proof fn lemma_begin(len: usize, cons: u32, prod: u32, n: usize)
    ensures
        begin_spec(len, n, reserve_spec(len as int, cons, prod, n as int)),
        n >= len ==> begin_spec(len, n, Err(XenRingError::TooLarge)),
{
}

impl RingCursors<'_> {
    /// Loads the cursors, with acquire ordering, and decides a write of `n`
    /// bytes to the ring of `len` slots that they belong to.  A payload
    /// that is too large for the ring is refused without a look at the
    /// cursors.
    pub fn begin(&self, len: usize, n: usize) -> (slot: Result<RingSlot, XenRingError>)
        ensures
            begin_spec(len, n, slot),
            n >= len ==> slot == Err::<RingSlot, XenRingError>(XenRingError::TooLarge),
    {
        if n >= len {
            proof {
                lemma_begin(len, 0, 0, n);
            }
            return Err(XenRingError::TooLarge);
        }
        let cons = self.cons.load(Ordering::Acquire);
        let prod = self.prod.load(Ordering::Acquire);
        proof {
            lemma_begin(len, cons, prod, n);
        }
        reserve(len, cons, prod, n)
    }

    /// Publishes the payload that was copied to `slot`: moves the producer
    /// cursor from the value that [`RingCursors::begin`] found to the one
    /// behind the payload, with release ordering, provided that nobody
    /// moved it in between.
    pub fn publish(&self, slot: RingSlot) -> (r: Result<(), XenRingError>)
        ensures
            r == Ok::<(), XenRingError>(()) || r == Err::<(), XenRingError>(
                XenRingError::MisbehavingIndex,
            ),
    {
        published(
            self.prod.compare_exchange(
                slot.current,
                slot.next,
                Ordering::Release,
                Ordering::Relaxed,
            ),
        )
    }
}

/// A ring whose cursors can address every slot: it has no more slots than a
/// 32-bit cursor has values.
pub open spec fn ring_wf(s: RingState) -> bool {
    s.ring.len() <= 0x1_0000_0000
}

/// A ring of `L` slots holds `L - 1` bytes at most: a payload of `L - 1`
/// bytes is written to an empty ring, and one of `L` bytes or more is
/// refused as too large, whatever the cursors hold.
pub proof fn lemma_capacity(s: RingState, payload: Seq<u8>)
    ensures
        payload.len() >= s.ring.len() ==> write_spec(s, payload) == (
            s,
            Err::<(), XenRingError>(XenRingError::TooLarge),
        ),
        payload.len() == s.ring.len() - 1 && s.cons == s.prod ==> write_spec(s, payload).1 == Ok::<
            (),
            XenRingError,
        >(()),
{
}

/// What was written is what is read: after a write that succeeded, the
/// bytes taken from the slot the producer cursor stood at are the payload
/// in its order, also where they go round the end of the buffer, and the
/// producer cursor has advanced by the payload's length modulo `L`.
pub proof fn lemma_write_then_read(s: RingState, payload: Seq<u8>)
    requires
        ring_wf(s),
        write_spec(s, payload).1 is Ok,
    ensures
        ring_read(
            write_spec(s, payload).0.ring,
            s.prod as int % (s.ring.len() as int),
            payload.len() as int,
        ) == payload,
        write_spec(s, payload).0.prod == (s.prod + payload.len()) % (s.ring.len() as int),
        write_spec(s, payload).0.cons == s.cons,
{
    let len = s.ring.len() as int;
    let n = payload.len() as int;
    let p = s.prod as int % len;
    lemma_mod_pos_bound(s.prod as int, len);
    lemma_small_mod(n as nat, len as nat);
    lemma_add_mod_noop(s.prod as int, n, len);
    lemma_wrap(p + n, len);
    let after = write_spec(s, payload).0.ring;
    assert(after == ring_after(s.ring, p, payload));
    assert forall|i: int| 0 <= i < n implies ring_read(after, p, n)[i] == payload[i] by {
        let j = (p + i) % len;
        lemma_wrap(p + i, len);
        lemma_wrap(j - p, len);
    }
    assert(ring_read(after, p, n) =~= payload);
}

/// Bytes that no payload byte was copied to stay as they were.
pub proof fn lemma_write_keeps_rest(s: RingState, payload: Seq<u8>, j: int)
    requires
        ring_wf(s),
        0 <= j < s.ring.len(),
        (j - s.prod as int % (s.ring.len() as int)) % (s.ring.len() as int) >= payload.len(),
    ensures
        write_spec(s, payload).0.ring[j] == s.ring[j],
{
}

/// An empty ring of two slots or more takes one byte.
pub proof fn lemma_empty_takes_byte(s: RingState, byte: u8)
    requires
        s.ring.len() >= 2,
        s.cons == s.prod,
    ensures
        write_spec(s, seq![byte]).1 == Ok::<(), XenRingError>(()),
{
}

/// A full ring, one whose producer stands in the slot before the
/// consumer's, refuses one byte as not ready and is left as it was.
pub proof fn lemma_full_refuses_byte(s: RingState, byte: u8)
    requires
        s.ring.len() > 0,
        s.prod as int % (s.ring.len() as int) == s.cons as int % (s.ring.len() as int) - 1,
    ensures
        write_spec(s, seq![byte]) == (s, Err::<(), XenRingError>(XenRingError::NotReady)),
{
}

/// A write that fails changes nothing, neither a cursor nor a slot: whoever
/// writes next finds the ring as it was and gets the same answer.
pub proof fn lemma_failure_publishes_nothing(s: RingState, payload: Seq<u8>)
    requires
        write_spec(s, payload).1 is Err,
    ensures
        write_spec(s, payload).0 == s,
        write_spec(write_spec(s, payload).0, payload) == write_spec(s, payload),
{
}

/// The cursor is swapped from the value that was loaded, whatever that
/// value is: as long as nobody else moves the producer cursor, no write
/// misbehaves.  A swap that finds the value it expects publishes, and only
/// one that finds another value does not.
pub proof fn lemma_sole_writer_publishes(s: RingState, payload: Seq<u8>, found: u32)
    ensures
        write_spec(s, payload).1 != Err::<(), XenRingError>(XenRingError::MisbehavingIndex),
        match reserve_spec(s.ring.len() as int, s.cons, s.prod, payload.len() as int) {
            Ok(slot) => slot.current == s.prod,
            Err(_) => true,
        },
        published_spec(Ok(found)) == Ok::<(), XenRingError>(()),
        published_spec(Err(found)) == Err::<(), XenRingError>(XenRingError::MisbehavingIndex),
{
}

} // verus!
