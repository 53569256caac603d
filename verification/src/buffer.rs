//! A bounded first-in, first-out queue of bytes in a fixed array.
//!
//! The queue is seen, through its view, as the sequence of the bytes it
//! holds, oldest first. A full queue refuses a new byte and keeps what it
//! has.

use vstd::prelude::*;

verus! {

/// Number of bytes the queue can hold.
pub const BUF_SIZE: usize = 100;

/// The slot after slot `i`, going round at the end of the array.
pub open spec fn next_index(i: int) -> int {
    (i + 1) % (BUF_SIZE as int)
}

/// The queue `q` after an attempt to append `data`: one byte longer if there
/// is room, unchanged if `q` is full.
pub open spec fn push_spec(q: Seq<u8>, data: u8) -> Seq<u8> {
    if q.len() < BUF_SIZE {
        q.push(data)
    } else {
        q
    }
}

/// The byte that leaves `q` first, if it holds one.
pub open spec fn front_spec(q: Seq<u8>) -> Option<u8> {
    if q.len() > 0 {
        Some(q[0])
    } else {
        None
    }
}

/// The queue `q` after its first byte has left; an empty queue stays empty.
pub open spec fn pop_spec(q: Seq<u8>) -> Seq<u8> {
    if q.len() > 0 {
        q.drop_first()
    } else {
        q
    }
}

/// Ring buffer for decoded keyboard input.
pub struct KeyboardBuffer {
    buf: [u8; BUF_SIZE],
    head_index: usize,
    tail_index: usize,
    count: usize,
}

/// Moves a ring index one slot on and counts one byte more.
fn advance_head(head: &mut usize, count: &mut usize)
    requires
        *old(head) < BUF_SIZE,
        *old(count) < BUF_SIZE,
    ensures
        *final(head) == next_index(*old(head) as int),
        *final(count) == *old(count) + 1,
    no_unwind
{
    *head = if *head + 1 == BUF_SIZE { 0 } else { *head + 1 };
    *count = *count + 1;
}

/// Moves a ring index one slot on and counts one byte less.
fn advance_tail(tail: &mut usize, count: &mut usize)
    requires
        *old(tail) < BUF_SIZE,
        0 < *old(count),
    ensures
        *final(tail) == next_index(*old(tail) as int),
        *final(count) == *old(count) - 1,
    no_unwind
{
    *tail = if *tail + 1 == BUF_SIZE { 0 } else { *tail + 1 };
    *count = *count - 1;
}

impl View for KeyboardBuffer {
    type V = Seq<u8>;

    /// The queued bytes, oldest first.
    closed spec fn view(&self) -> Seq<u8> {
        Seq::new(
            self.count as nat,
            |i: int| self.buf@[(self.tail_index + i) % (BUF_SIZE as int)],
        )
    }
}

impl KeyboardBuffer {
    /// Slot that the next accepted byte is written to.
    pub closed spec fn head(&self) -> int {
        self.head_index as int
    }

    /// Slot that the next byte is read from.
    pub closed spec fn tail(&self) -> int {
        self.tail_index as int
    }

    /// The array behind the queue, slot by slot.
    pub closed spec fn storage(&self) -> Seq<u8> {
        self.buf@
    }

    /// What holds of every buffer: both indices lie inside the array, the
    /// count does not exceed the capacity, and the head is as many slots
    /// after the tail as bytes are queued.
    #[verifier::type_invariant]
    pub closed spec fn wf(&self) -> bool {
        &&& self.head_index < BUF_SIZE
        &&& self.tail_index < BUF_SIZE
        &&& self.count <= BUF_SIZE
        &&& self.head_index == (self.tail_index + self.count) % (BUF_SIZE as int)
    }

    /// What `wf` means for the head, the tail, the storage and the view:
    /// the indices are in range, the head is `len` slots after the tail, and
    /// the view reads the storage from the tail on, going round at the end.
    pub proof fn lemma_wf(&self)
        requires
            self.wf(),
        ensures
            self.storage().len() == BUF_SIZE,
            0 <= self.head() < BUF_SIZE,
            0 <= self.tail() < BUF_SIZE,
            self@.len() <= BUF_SIZE,
            self.head() == (self.tail() + self@.len()) % (BUF_SIZE as int),
            forall|i: int|
                0 <= i < self@.len() ==> #[trigger] self@[i] == self.storage()[(self.tail() + i) % (
                BUF_SIZE as int)],
    {
    }

    /// An empty buffer with both indices at slot 0.
    pub fn new() -> (b: Self)
        ensures
            b.wf(),
            b@ == Seq::<u8>::empty(),
            b.head() == 0,
            b.tail() == 0,
            b.storage() == Seq::new(BUF_SIZE as nat, |i: int| 0u8),
    {
        let b = KeyboardBuffer { buf: [0; BUF_SIZE], head_index: 0, tail_index: 0, count: 0 };
        assert(b.storage() =~= Seq::new(BUF_SIZE as nat, |i: int| 0u8));
        b
    }

    /// Number of bytes queued.
    pub fn len(&self) -> (n: usize)
        ensures
            n == self@.len(),
            n <= BUF_SIZE,
    {
        proof {
            use_type_invariant(self);
        }
        self.count
    }

    /// Whether nothing is queued.
    pub fn is_empty(&self) -> (empty: bool)
        ensures
            empty == (self@.len() == 0),
    {
        self.count == 0
    }

    /// Whether the next `push` would be refused.
    pub fn is_full(&self) -> (full: bool)
        ensures
            full == (self@.len() == BUF_SIZE),
    {
        self.count == BUF_SIZE
    }

    /// Appends `data` unless the buffer is full. A full buffer is left as it
    /// is, in every slot, and the byte is dropped.
    pub fn push(&mut self, data: u8) -> (ok: bool)
        ensures
            final(self).wf(),
            ok == (old(self)@.len() < BUF_SIZE),
            final(self)@ == push_spec(old(self)@, data),
            final(self)@.len() <= BUF_SIZE,
            final(self).tail() == old(self).tail(),
            ok ==> final(self).head() == next_index(old(self).head()),
            ok ==> final(self).storage() == old(self).storage().update(old(self).head(), data),
            !ok ==> *final(self) == *old(self),
    {
        proof {
            use_type_invariant(&*self);
        }
        if self.count == BUF_SIZE {
            return false;
        }
        self.buf[self.head_index] = data;
        advance_head(&mut self.head_index, &mut self.count);
        proof {
            assert(final(self)@ =~= old(self)@.push(data));
        }
        true
    }

    /// Takes the oldest byte out, if there is one. An empty buffer is left as
    /// it is.
    pub fn pop(&mut self) -> (res: Option<u8>)
        ensures
            final(self).wf(),
            res == front_spec(old(self)@),
            final(self)@ == pop_spec(old(self)@),
            final(self)@.len() <= BUF_SIZE,
            final(self).head() == old(self).head(),
            final(self).storage() == old(self).storage(),
            res is Some ==> final(self).tail() == next_index(old(self).tail()),
            res is None ==> *final(self) == *old(self),
    {
        proof {
            use_type_invariant(&*self);
        }
        if self.count > 0 {
            let data: u8 = self.buf[self.tail_index];
            advance_tail(&mut self.tail_index, &mut self.count);
            proof {
                assert(final(self)@ =~= old(self)@.drop_first());
            }
            Some(data)
        } else {
            None
        }
    }
}

/// The queue `q` after the bytes of `items` were pushed one after the
/// other, each accepted or refused on its own.
pub open spec fn push_all(q: Seq<u8>, items: Seq<u8>) -> Seq<u8>
    decreases items.len(),
{
    if items.len() == 0 {
        q
    } else {
        push_all(push_spec(q, items[0]), items.drop_first())
    }
}

/// What `n` pops in a row do to the queue `q`: the bytes handed out, in the
/// order they came, and the queue left behind. A pop on an empty queue hands
/// out nothing.
pub open spec fn pop_many(q: Seq<u8>, n: nat) -> (Seq<u8>, Seq<u8>)
    decreases n,
{
    if n == 0 {
        (Seq::empty(), q)
    } else {
        let later = pop_many(pop_spec(q), (n - 1) as nat);
        match front_spec(q) {
            Some(b) => (seq![b] + later.0, later.1),
            None => later,
        }
    }
}

/// Pushing a run of bytes appends them in order for as long as there is
/// room; the bytes that arrive at a full queue are dropped, and what was
/// queued before stays where it was.
pub proof fn lemma_push_all(q: Seq<u8>, items: Seq<u8>)
    requires
        q.len() <= BUF_SIZE,
    ensures
        q.len() + items.len() <= BUF_SIZE ==> push_all(q, items) == q + items,
        q.len() + items.len() > BUF_SIZE ==> push_all(q, items) == (q + items).subrange(
            0,
            BUF_SIZE as int,
        ),
    decreases items.len(),
{
    if items.len() == 0 {
        assert(q + items =~= q);
    } else {
        let q1 = push_spec(q, items[0]);
        let rest = items.drop_first();
        lemma_push_all(q1, rest);
        if q.len() < BUF_SIZE {
            assert(q1 + rest =~= q + items);
        } else {
            assert(q1 == q);
            assert((q + rest).subrange(0, BUF_SIZE as int) =~= q);
            assert((q + items).subrange(0, BUF_SIZE as int) =~= q);
        }
    }
}

/// Popping `n` times from a queue that holds at least `n` bytes hands out
/// its first `n` bytes in order and leaves the others.
pub proof fn lemma_pop_many(q: Seq<u8>, n: nat)
    requires
        n <= q.len(),
    ensures
        pop_many(q, n) == (q.subrange(0, n as int), q.subrange(n as int, q.len() as int)),
    decreases n,
{
    if n == 0 {
        assert(q.subrange(0, 0) =~= Seq::<u8>::empty());
        assert(q.subrange(0, q.len() as int) =~= q);
    } else {
        let rest = q.drop_first();
        lemma_pop_many(rest, (n - 1) as nat);
        assert(seq![q[0]] + rest.subrange(0, n - 1) =~= q.subrange(0, n as int));
        assert(rest.subrange(n - 1, rest.len() as int) =~= q.subrange(n as int, q.len() as int));
    }
}

/// First in, first out: bytes pushed into an empty queue, at most as many as
/// it can hold, come out of as many pops in the order they went in, and the
/// queue is empty again.
pub proof fn lemma_fifo(items: Seq<u8>)
    requires
        items.len() <= BUF_SIZE,
    ensures
        push_all(Seq::empty(), items) == items,
        pop_many(push_all(Seq::empty(), items), items.len()) == (items, Seq::<u8>::empty()),
{
    lemma_push_all(Seq::empty(), items);
    assert(Seq::<u8>::empty() + items =~= items);
    lemma_pop_many(items, items.len());
    assert(items.subrange(0, items.len() as int) =~= items);
    assert(items.subrange(items.len() as int, items.len() as int) =~= Seq::<u8>::empty());
}

/// Overflow: once as many bytes as the queue can hold were pushed into an
/// empty queue, all of them are queued, and one more push is refused and
/// leaves count and contents as they were.
pub proof fn lemma_overflow(items: Seq<u8>, extra: u8)
    requires
        items.len() == BUF_SIZE,
    ensures
        push_all(Seq::empty(), items) == items,
        push_all(Seq::empty(), items).len() == BUF_SIZE,
        push_spec(push_all(Seq::empty(), items), extra) == items,
        push_all(Seq::empty(), items.push(extra)) == items,
{
    lemma_fifo(items);
    lemma_push_all(Seq::empty(), items.push(extra));
    assert((Seq::<u8>::empty() + items.push(extra)).subrange(0, BUF_SIZE as int) =~= items);
}

} // verus!
