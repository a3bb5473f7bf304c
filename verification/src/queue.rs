//! A fixed-capacity FIFO of equally sized byte items, the queue that a radio
//! driver uses on top of a counting semaphore.
use vstd::prelude::*;

verus! {

/// The ring buffer behind a [`CompatQueue`].
pub struct QueueInner {
    storage: Vec<u8>,
    item_size: usize,
    capacity: usize,
    count: usize,
    current_read: usize,
    current_write: usize,
}

impl QueueInner {
    /// The bytes of slot `index` of the ring.
    pub closed spec fn slot(self, index: int) -> Seq<u8> {
        self.storage@.subrange(index * self.item_size, (index + 1) * self.item_size)
    }

    /// The items in the queue, the front first.
    pub closed spec fn items(self) -> Seq<Seq<u8>> {
        Seq::new(self.count as nat, |k: int| self.slot((self.current_read + k) % (self.capacity as int)))
    }

    pub closed spec fn item_len(self) -> nat {
        self.item_size as nat
    }

    pub closed spec fn cap(self) -> nat {
        self.capacity as nat
    }

    pub closed spec fn wf(self) -> bool {
        &&& self.capacity > 0
        &&& self.capacity <= usize::MAX / 2
        &&& self.storage@.len() == self.capacity * self.item_size
        &&& self.count <= self.capacity
        &&& self.current_read < self.capacity
        &&& self.current_write < self.capacity
        &&& self.current_write as int == (self.current_read + self.count) % (self.capacity as int)
    }

    /// An empty queue with room for `capacity` items of `item_size` bytes.
    pub fn new(capacity: usize, item_size: usize) -> (q: Self)
        requires
            capacity > 0,
            capacity <= usize::MAX / 2,
            capacity * item_size <= usize::MAX,
        ensures
            q.wf(),
            q.items() == Seq::<Seq<u8>>::empty(),
            q.item_len() == item_size,
            q.cap() == capacity,
    {
        let total = capacity * item_size;
        let mut storage: Vec<u8> = Vec::new();
        let mut i: usize = 0;
        while i < total
            invariant
                i <= total,
                storage@.len() == i,
            decreases total - i,
        {
            storage.push(0u8);
            i = i + 1;
        }
        let q = QueueInner { storage, item_size, capacity, count: 0, current_read: 0, current_write: 0 };
        proof { lemma_mod_wrap(0, capacity as int); }
        assert(q.items() =~= Seq::<Seq<u8>>::empty());
        q
    }

    proof fn lemma_slot_bounds(self, index: int)
        requires
            self.wf(),
            0 <= index < self.capacity,
        ensures
            0 <= index * self.item_size,
            (index + 1) * self.item_size <= self.storage@.len(),
            (index + 1) * self.item_size == index * self.item_size + self.item_size,
            self.storage@.len() <= usize::MAX,
    {
        assert(self.storage@.len() == self.storage.len());
        assert(0 <= index * self.item_size) by (nonlinear_arith)
            requires 0 <= index;
        assert((index + 1) * self.item_size <= self.capacity * self.item_size) by (nonlinear_arith)
            requires index + 1 <= self.capacity;
        assert((index + 1) * self.item_size == index * self.item_size + self.item_size) by (nonlinear_arith);
    }

    /// The bytes of slot `index`.
    pub fn get(&self, index: usize) -> (r: &[u8])
        requires
            self.wf(),
            index < self.cap(),
        ensures
            r@ == self.slot(index as int),
    {
        proof { self.lemma_slot_bounds(index as int); }
        let item_start = index * self.item_size;
        vstd::slice::slice_subrange(self.storage.as_slice(), item_start, item_start + self.item_size)
    }

    /// Overwrites slot `index` with `item`.
    fn put(&mut self, index: usize, item: &[u8])
        requires
            old(self).wf(),
            index < old(self).cap(),
            item@.len() == old(self).item_len(),
        ensures
            final(self).wf(),
            final(self).item_size == old(self).item_size,
            final(self).capacity == old(self).capacity,
            final(self).count == old(self).count,
            final(self).current_read == old(self).current_read,
            final(self).current_write == old(self).current_write,
            final(self).slot(index as int) == item@,
            forall|j: int| 0 <= j < final(self).capacity && j != index
                ==> #[trigger] final(self).slot(j) == old(self).slot(j),
    {
        proof { self.lemma_slot_bounds(index as int); }
        let item_start = index * self.item_size;
        let mut k: usize = 0;
        while k < self.item_size
            invariant
                k <= self.item_size,
                self.item_size == old(self).item_size,
                self.capacity == old(self).capacity,
                self.count == old(self).count,
                self.current_read == old(self).current_read,
                self.current_write == old(self).current_write,
                item@.len() == self.item_size,
                item_start == index * self.item_size,
                item_start + self.item_size <= self.storage@.len(),
                item_start + self.item_size <= usize::MAX,
                self.storage@.len() == old(self).storage@.len(),
                forall|p: int| 0 <= p < self.storage@.len() && !(item_start <= p < item_start + k)
                    ==> self.storage@[p] == old(self).storage@[p],
                forall|p: int| item_start <= p < item_start + k ==> self.storage@[p] == item@[p - item_start],
            decreases self.item_size - k,
        {
            self.storage.set(item_start + k, item[k]);
            k = k + 1;
        }
        assert(self.slot(index as int) =~= item@);
        assert forall|j: int| 0 <= j < self.capacity && j != index
            implies #[trigger] self.slot(j) == old(self).slot(j) by {
            self.lemma_slot_bounds(j);
            if j < index {
                assert((j + 1) * self.item_size <= index * self.item_size) by (nonlinear_arith)
                    requires j + 1 <= index;
            } else {
                assert((index + 1) * self.item_size <= j * self.item_size) by (nonlinear_arith)
                    requires index + 1 <= j;
            }
            assert(self.slot(j) =~= old(self).slot(j));
        }
    }

    /// The number of items in the queue.
    pub fn len(&self) -> (r: usize)
        requires
            self.wf(),
        ensures
            r == self.items().len(),
    {
        self.count
    }

    /// Appends `item` at the back of the queue.
    pub fn send_to_back(&mut self, item: &[u8])
        requires
            old(self).wf(),
            old(self).items().len() < old(self).cap(),
            item@.len() == old(self).item_len(),
        ensures
            final(self).wf(),
            final(self).item_len() == old(self).item_len(),
            final(self).cap() == old(self).cap(),
            final(self).items() == old(self).items().push(item@),
    {
        let ghost old_items = self.items();
        let w = self.current_write;
        self.put(w, item);
        let ghost after_put = *self;
        proof { lemma_mod_wrap((w + 1) as int, self.capacity as int); }
        self.current_write = (self.current_write + 1) % self.capacity;
        self.count = self.count + 1;
        proof {
            let c = self.capacity as int;
            let r = self.current_read as int;
            lemma_mod_wrap(r + old(self).count, c);
            lemma_mod_wrap(r + old(self).count + 1, c);
            assert forall|k: int| 0 <= k < self.count implies
                #[trigger] self.items()[k] == old_items.push(item@)[k] by {
                lemma_mod_wrap(r + k, c);
                let j = (r + k) % c;
                assert(self.items()[k] == self.slot(j));
                if k < old(self).count {
                    assert(j != w as int);
                    assert(after_put.slot(j) == old(self).slot(j));
                    assert(self.slot(j) == after_put.slot(j));
                    assert(old_items[k] == old(self).slot(j));
                }
            }
            assert(self.items() =~= old_items.push(item@));
        }
    }

    /// Inserts `item` at the front of the queue.
    pub fn send_to_front(&mut self, item: &[u8])
        requires
            old(self).wf(),
            old(self).items().len() < old(self).cap(),
            item@.len() == old(self).item_len(),
        ensures
            final(self).wf(),
            final(self).item_len() == old(self).item_len(),
            final(self).cap() == old(self).cap(),
            final(self).items() == seq![item@] + old(self).items(),
    {
        let ghost old_items = self.items();
        proof { lemma_mod_wrap(self.current_read + self.capacity - 1, self.capacity as int); }
        let nr = (self.current_read + self.capacity - 1) % self.capacity;
        self.put(nr, item);
        let ghost after_put = *self;
        self.current_read = nr;
        self.count = self.count + 1;
        proof {
            assert forall|k: int| 0 <= k < self.count implies
                #[trigger] self.items()[k] == (seq![item@] + old_items)[k] by {
                let c = self.capacity as int;
                lemma_mod_wrap(self.current_read + k, c);
                let j = (self.current_read + k) % c;
                assert(self.items()[k] == self.slot(j));
                if k > 0 {
                    lemma_mod_wrap(old(self).current_read + k - 1, c);
                    assert(j == (old(self).current_read + (k - 1)) % c);
                    assert(j != nr as int);
                    assert(after_put.slot(j) == old(self).slot(j));
                    assert(self.slot(j) == after_put.slot(j));
                    assert(old_items[k - 1] == old(self).slot(j));
                }
            }
            assert(self.current_write as int == (self.current_read + self.count) % (self.capacity as int)) by {
                lemma_mod_wrap(old(self).current_read + old(self).count, self.capacity as int);
                lemma_mod_wrap(self.current_read + self.count, self.capacity as int);
            }
            assert(self.items() =~= seq![item@] + old_items);
        }
    }

    /// Removes the front item and copies it into `dst`.
    pub fn read_from_front(&mut self, dst: &mut [u8])
        requires
            old(self).wf(),
            old(self).items().len() > 0,
            old(dst)@.len() == old(self).item_len(),
        ensures
            final(self).wf(),
            final(self).item_len() == old(self).item_len(),
            final(self).cap() == old(self).cap(),
            final(dst)@ == old(self).items()[0],
            final(dst)@.len() == old(dst)@.len(),
            final(self).items() == old(self).items().drop_first(),
    {
        let ghost old_items = self.items();
        proof {
            lemma_mod_wrap(self.current_read as int, self.capacity as int);
            self.lemma_slot_bounds(self.current_read as int);
        }
        let src = self.get(self.current_read);
        let mut k: usize = 0;
        while k < src.len()
            invariant
                k <= src@.len(),
                dst@.len() == src@.len(),
                forall|p: int| 0 <= p < k ==> dst@[p] == src@[p],
            decreases src@.len() - k,
        {
            dst[k] = src[k];
            k = k + 1;
        }
        assert(dst@ =~= src@);
        proof { lemma_mod_wrap(self.current_read + 1, self.capacity as int); }
        self.current_read = (self.current_read + 1) % self.capacity;
        self.count = self.count - 1;
        proof {
            assert(self.current_write as int == (self.current_read + self.count) % (self.capacity as int)) by {
                lemma_mod_wrap(old(self).current_read + old(self).count, self.capacity as int);
                lemma_mod_wrap(self.current_read + self.count, self.capacity as int);
            }
            assert forall|k: int| 0 <= k < self.count implies
                #[trigger] self.items()[k] == old_items.drop_first()[k] by {
                lemma_mod_wrap(self.current_read + k, self.capacity as int);
                lemma_mod_wrap(old(self).current_read + k + 1, self.capacity as int);
            }
            assert(self.items() =~= old_items.drop_first());
        }
    }
}

impl QueueInner {
    /// Removes the first item equal to `item`, keeping the order of the
    /// others; returns whether one was found.
    pub fn remove(&mut self, item: &[u8]) -> (found: bool)
        requires
            old(self).wf(),
            item@.len() == old(self).item_len(),
        ensures
            final(self).wf(),
            final(self).item_len() == old(self).item_len(),
            final(self).cap() == old(self).cap(),
            found == old(self).items().contains(item@),
            final(self).items() == remove_first(old(self).items(), item@),
    {
        let count = self.len();
        if count == 0 {
            proof { assert(!self.items().contains(item@)); }
            return false;
        }
        let ghost orig = self.items();
        let mut tmp_item: Vec<u8> = Vec::new();
        let mut z: usize = 0;
        while z < self.item_size
            invariant
                z <= self.item_size,
                tmp_item@.len() == z,
            decreases self.item_size - z,
        {
            tmp_item.push(0u8);
            z = z + 1;
        }
        let mut found = false;
        let mut i: usize = 0;
        while i < count
            invariant
                self.wf(),
                self.item_size == old(self).item_size,
                self.capacity == old(self).capacity,
                count == orig.len(),
                i <= count,
                tmp_item@.len() == self.item_size,
                item@.len() == self.item_size,
                found == orig.take(i as int).contains(item@),
                self.items() == orig.subrange(i as int, count as int) + remove_first(orig.take(i as int), item@),
                remove_first(orig.take(i as int), item@).len() + (count - i) <= count,
            decreases count - i,
        {
            proof { lemma_remove_first_len(orig.take(i as int), item@); }
            let ghost before = self.items();
            self.read_from_front(tmp_item.as_mut_slice());
            let ghost y = orig[i as int];
            assert(before[0] == y);
            assert(orig.take(i + 1) =~= orig.take(i as int).push(y));
            proof { lemma_remove_first_push(orig.take(i as int), y, item@); }
            let same = bytes_eq(tmp_item.as_slice(), item);
            let ghost rest = orig.subrange(i + 1, count as int);
            let ghost kept = remove_first(orig.take(i as int), item@);
            assert(before.drop_first() =~= rest + kept);
            proof { lemma_remove_first_absent(orig.take(i as int), item@); }
            if found || !same {
                self.send_to_back(tmp_item.as_slice());
            } else {
                found = true;
            }
            proof {
                lemma_contains_push(orig.take(i as int), y, item@);
            }
            assert(rest + kept.push(y) =~= (rest + kept).push(y));
            assert(self.items() =~= orig.subrange(i + 1, count as int) + remove_first(orig.take(i + 1), item@));
            i = i + 1;
        }
        assert(orig.take(count as int) =~= orig);
        assert(orig.subrange(count as int, count as int) =~= Seq::<Seq<u8>>::empty());
        assert(self.items() =~= remove_first(orig, item@));
        found
    }
}

/// `after` is what a take leaves of `before`: a token is taken (`taken`)
/// exactly when there is one.
pub open spec fn took(before: SemaphoreHandle, after: SemaphoreHandle, taken: bool) -> bool {
    &&& taken == (before.tokens() > 0)
    &&& after.limit() == before.limit()
    &&& after.tokens() == if taken { before.tokens() - 1 } else { before.tokens() as int }
}

/// `after` is what a give leaves of `before`: a token is given back
/// (`given`) exactly when the semaphore is not full.
pub open spec fn gave(before: SemaphoreHandle, after: SemaphoreHandle, given: bool) -> bool {
    &&& given == (before.tokens() < before.limit())
    &&& after.limit() == before.limit()
    &&& after.tokens() == if given { before.tokens() + 1 } else { before.tokens() }
}

/// Lends the flag that reports a woken higher-priority task to one call,
/// keeping it for the next.
fn lend<'a, 'b>(flag: &'a mut Option<&'b mut bool>) -> (r: Option<&'a mut bool>)
    ensures
        r is Some == (*old(flag) is Some),
{
    match flag {
        Some(b) => Some(&mut **b),
        None => None,
    }
}

/// The kind of a [`SemaphoreHandle`].
pub enum SemaphoreKind {
    /// A counting semaphore that holds at most `max` tokens, `initial` at first.
    Counting { max: u32, initial: u32 },
    /// A mutex: a semaphore of one token, free at first.
    Mutex,
}

/// A counting semaphore.
///
/// Nothing else runs beside the queue here: a `take` that finds no token
/// returns `false` at once, whatever timeout it is given.
pub struct SemaphoreHandle {
    count: u32,
    max: u32,
}

impl SemaphoreHandle {
    pub closed spec fn tokens(self) -> nat {
        self.count as nat
    }

    pub closed spec fn limit(self) -> nat {
        self.max as nat
    }

    /// Creates a semaphore of the given kind.
    pub fn new(kind: SemaphoreKind) -> (s: Self)
        requires
            kind matches SemaphoreKind::Counting { max, initial } ==> initial <= max,
        ensures
            s.tokens() <= s.limit(),
            match kind {
                SemaphoreKind::Counting { max, initial } => s.tokens() == initial && s.limit() == max,
                SemaphoreKind::Mutex => s.tokens() == 1 && s.limit() == 1,
            },
    {
        match kind {
            SemaphoreKind::Counting { max, initial } => SemaphoreHandle { count: initial, max },
            SemaphoreKind::Mutex => SemaphoreHandle { count: 1, max: 1 },
        }
    }

    /// Takes a token if there is one.
    pub fn take(&mut self, timeout_us: Option<u32>) -> (taken: bool)
        ensures
            took(*old(self), *final(self), taken),
    {
        if self.count > 0 {
            self.count = self.count - 1;
            true
        } else {
            false
        }
    }

    /// Gives a token back, unless the semaphore is full.
    pub fn give(&mut self) -> (given: bool)
        ensures
            gave(*old(self), *final(self), given),
    {
        if self.count < self.max {
            self.count = self.count + 1;
            true
        } else {
            false
        }
    }

    /// Takes a token from an interrupt handler, without waiting.
    pub fn try_take_from_isr(&mut self, higher_prio_task_waken: Option<&mut bool>) -> (taken: bool)
        ensures
            took(*old(self), *final(self), taken),
    {
        self.take(Some(0))
    }

    /// Gives a token back from an interrupt handler.
    pub fn try_give_from_isr(&mut self, higher_prio_task_waken: Option<&mut bool>) -> (given: bool)
        ensures
            gave(*old(self), *final(self), given),
    {
        self.give()
    }

    /// The number of tokens held.
    pub fn current_count(&self) -> (r: u32)
        ensures
            r == self.tokens(),
    {
        self.count
    }
}

/// A queue that only needs semaphores: one counts the free slots, one the
/// queued items, and a mutex guards the ring buffer.
pub struct CompatQueue {
    inner: QueueInner,
    semaphore_empty: SemaphoreHandle,
    semaphore_full: SemaphoreHandle,
    mutex: SemaphoreHandle,
}

impl CompatQueue {
    pub closed spec fn items(self) -> Seq<Seq<u8>> {
        self.inner.items()
    }

    pub closed spec fn item_len(self) -> nat {
        self.inner.item_len()
    }

    pub closed spec fn cap(self) -> nat {
        self.inner.cap()
    }

    pub closed spec fn wf(self) -> bool {
        &&& self.inner.wf()
        &&& self.inner.cap() <= u32::MAX
        &&& self.semaphore_full.tokens() == self.inner.items().len()
        &&& self.semaphore_full.limit() == self.inner.cap()
        &&& self.semaphore_empty.tokens() + self.inner.items().len() == self.inner.cap()
        &&& self.semaphore_empty.limit() == self.inner.cap()
        &&& self.mutex.tokens() == 1
        &&& self.mutex.limit() == 1
    }

    /// An empty queue for `capacity` items of `item_size` bytes.
    pub fn new(capacity: usize, item_size: usize) -> (q: Self)
        requires
            0 < capacity <= u32::MAX,
            capacity <= usize::MAX / 2,
            capacity * item_size <= usize::MAX,
        ensures
            q.wf(),
            q.items() == Seq::<Seq<u8>>::empty(),
            q.item_len() == item_size,
            q.cap() == capacity,
    {
        let inner = QueueInner::new(capacity, item_size);
        let semaphore_empty = SemaphoreHandle::new(SemaphoreKind::Counting { max: capacity as u32, initial: capacity as u32 });
        let semaphore_full = SemaphoreHandle::new(SemaphoreKind::Counting { max: capacity as u32, initial: 0 });
        let mutex = SemaphoreHandle::new(SemaphoreKind::Mutex);
        CompatQueue { inner, semaphore_empty, semaphore_full, mutex }
    }
}

/// The operations of a queue that a radio driver needs.
pub trait QueueImplementation: Sized {
    /// The queue's invariant.
    spec fn queue_inv(&self) -> bool;

    /// The length of each item.
    spec fn queue_item_len(&self) -> nat;

    /// The items queued, front first.
    spec fn queue_items(&self) -> Seq<Seq<u8>>;

    /// The number of items the queue holds at most.
    spec fn queue_cap(&self) -> nat;

    /// Creates an empty queue.
    fn create(capacity: usize, item_size: usize) -> (q: Self)
        requires
            0 < capacity <= u32::MAX,
            capacity <= usize::MAX / 2,
            capacity * item_size <= usize::MAX,
        ensures
            q.queue_inv(),
            q.queue_item_len() == item_size,
            q.queue_items() == Seq::<Seq<u8>>::empty(),
            q.queue_cap() == capacity,
    ;

    /// Enqueues an item at the front; `true` when it was enqueued, which it
    /// can be only when the queue has room.
    fn send_to_front(&mut self, item: &[u8], timeout_us: Option<u32>) -> (sent: bool)
        requires
            old(self).queue_inv(),
            item@.len() == old(self).queue_item_len(),
        ensures
            final(self).queue_inv(),
            final(self).queue_item_len() == old(self).queue_item_len(),
            final(self).queue_cap() == old(self).queue_cap(),
            sent ==> old(self).queue_items().len() < old(self).queue_cap(),
            final(self).queue_items() == if sent { seq![item@] + old(self).queue_items() } else { old(self).queue_items() },
    ;

    /// Enqueues an item at the back; `true` when it was enqueued, which it
    /// can be only when the queue has room.
    fn send_to_back(&mut self, item: &[u8], timeout_us: Option<u32>) -> (sent: bool)
        requires
            old(self).queue_inv(),
            item@.len() == old(self).queue_item_len(),
        ensures
            final(self).queue_inv(),
            final(self).queue_item_len() == old(self).queue_item_len(),
            final(self).queue_cap() == old(self).queue_cap(),
            sent ==> old(self).queue_items().len() < old(self).queue_cap(),
            final(self).queue_items() == if sent { old(self).queue_items().push(item@) } else { old(self).queue_items() },
    ;

    /// Enqueues an item at the back without waiting.
    fn try_send_to_back_from_isr(&mut self, item: &[u8], higher_prio_task_waken: Option<&mut bool>) -> (sent: bool)
        requires
            old(self).queue_inv(),
            item@.len() == old(self).queue_item_len(),
        ensures
            final(self).queue_inv(),
            final(self).queue_item_len() == old(self).queue_item_len(),
            final(self).queue_cap() == old(self).queue_cap(),
            sent ==> old(self).queue_items().len() < old(self).queue_cap(),
            final(self).queue_items() == if sent { old(self).queue_items().push(item@) } else { old(self).queue_items() },
    ;

    /// Dequeues the front item into `item`; `true` when one was dequeued,
    /// which it can be only when the queue holds one.
    fn receive(&mut self, item: &mut [u8], timeout_us: Option<u32>) -> (received: bool)
        requires
            old(self).queue_inv(),
            old(item)@.len() == old(self).queue_item_len(),
        ensures
            final(self).queue_inv(),
            final(self).queue_item_len() == old(self).queue_item_len(),
            final(self).queue_cap() == old(self).queue_cap(),
            received ==> old(self).queue_items().len() > 0 && final(item)@ == old(self).queue_items()[0],
            !received ==> final(item)@ == old(item)@,
            final(self).queue_items() == if received { old(self).queue_items().drop_first() } else { old(self).queue_items() },
    ;

    /// Dequeues the front item without waiting.
    fn try_receive_from_isr(&mut self, item: &mut [u8], higher_prio_task_waken: Option<&mut bool>) -> (received: bool)
        requires
            old(self).queue_inv(),
            old(item)@.len() == old(self).queue_item_len(),
        ensures
            final(self).queue_inv(),
            final(self).queue_item_len() == old(self).queue_item_len(),
            final(self).queue_cap() == old(self).queue_cap(),
            received ==> old(self).queue_items().len() > 0 && final(item)@ == old(self).queue_items()[0],
            !received ==> final(item)@ == old(item)@,
            final(self).queue_items() == if received { old(self).queue_items().drop_first() } else { old(self).queue_items() },
    ;

    /// Removes the first item equal to `item`.
    fn remove(&mut self, item: &[u8])
        requires
            old(self).queue_inv(),
            item@.len() == old(self).queue_item_len(),
        ensures
            final(self).queue_inv(),
            final(self).queue_item_len() == old(self).queue_item_len(),
            final(self).queue_cap() == old(self).queue_cap(),
            final(self).queue_items() == remove_first(old(self).queue_items(), item@),
    ;

    /// The number of items queued.
    fn messages_waiting(&self) -> (n: usize)
        requires
            self.queue_inv(),
        ensures
            n == self.queue_items().len(),
    ;
}

impl QueueImplementation for CompatQueue {
    open spec fn queue_inv(&self) -> bool {
        self.wf()
    }

    open spec fn queue_item_len(&self) -> nat {
        self.item_len()
    }

    open spec fn queue_items(&self) -> Seq<Seq<u8>> {
        self.items()
    }

    open spec fn queue_cap(&self) -> nat {
        self.cap()
    }

    fn create(capacity: usize, item_size: usize) -> (q: Self)
        ensures
            q.items() == Seq::<Seq<u8>>::empty(),
            q.cap() == capacity,
    {
        CompatQueue::new(capacity, item_size)
    }

    fn send_to_front(&mut self, item: &[u8], timeout_us: Option<u32>) -> (sent: bool)
        ensures
            final(self).cap() == old(self).cap(),
            sent == (old(self).items().len() < old(self).cap()),
            final(self).items() == if sent { seq![item@] + old(self).items() } else { old(self).items() },
    {
        if self.semaphore_empty.take(timeout_us) {
            if self.mutex.take(timeout_us) {
                self.inner.send_to_front(item);
                self.mutex.give();
                self.semaphore_full.give();
                true
            } else {
                self.semaphore_empty.give();
                false
            }
        } else {
            false
        }
    }

    fn send_to_back(&mut self, item: &[u8], timeout_us: Option<u32>) -> (sent: bool)
        ensures
            final(self).cap() == old(self).cap(),
            sent == (old(self).items().len() < old(self).cap()),
            final(self).items() == if sent { old(self).items().push(item@) } else { old(self).items() },
    {
        if self.semaphore_empty.take(timeout_us) {
            if self.mutex.take(timeout_us) {
                self.inner.send_to_back(item);
                self.mutex.give();
                self.semaphore_full.give();
                true
            } else {
                self.semaphore_empty.give();
                false
            }
        } else {
            false
        }
    }

    fn try_send_to_back_from_isr(&mut self, item: &[u8], higher_prio_task_waken: Option<&mut bool>) -> (sent: bool)
        ensures
            final(self).cap() == old(self).cap(),
            sent == (old(self).items().len() < old(self).cap()),
            final(self).items() == if sent { old(self).items().push(item@) } else { old(self).items() },
    {
        let mut higher_prio_task_waken = higher_prio_task_waken;
        if self.semaphore_empty.try_take_from_isr(lend(&mut higher_prio_task_waken)) {
            if self.mutex.try_take_from_isr(lend(&mut higher_prio_task_waken)) {
                self.inner.send_to_back(item);
                self.mutex.try_give_from_isr(lend(&mut higher_prio_task_waken));
                self.semaphore_full.try_give_from_isr(higher_prio_task_waken);
                true
            } else {
                self.semaphore_empty.try_give_from_isr(higher_prio_task_waken);
                false
            }
        } else {
            false
        }
    }

    fn receive(&mut self, item: &mut [u8], timeout_us: Option<u32>) -> (received: bool)
        ensures
            final(self).cap() == old(self).cap(),
            received == (old(self).items().len() > 0),
            received ==> final(item)@ == old(self).items()[0],
            !received ==> final(item)@ == old(item)@,
            final(self).items() == if received { old(self).items().drop_first() } else { old(self).items() },
    {
        if self.semaphore_full.take(timeout_us) {
            if self.mutex.take(timeout_us) {
                self.inner.read_from_front(item);
                self.mutex.give();
                self.semaphore_empty.give();
                true
            } else {
                self.semaphore_full.give();
                false
            }
        } else {
            false
        }
    }

    fn try_receive_from_isr(&mut self, item: &mut [u8], higher_prio_task_waken: Option<&mut bool>) -> (received: bool)
        ensures
            final(self).cap() == old(self).cap(),
            received == (old(self).items().len() > 0),
            received ==> final(item)@ == old(self).items()[0],
            !received ==> final(item)@ == old(item)@,
            final(self).items() == if received { old(self).items().drop_first() } else { old(self).items() },
    {
        let mut higher_prio_task_waken = higher_prio_task_waken;
        if self.semaphore_full.try_take_from_isr(lend(&mut higher_prio_task_waken)) {
            if self.mutex.try_take_from_isr(lend(&mut higher_prio_task_waken)) {
                self.inner.read_from_front(item);
                self.mutex.try_give_from_isr(lend(&mut higher_prio_task_waken));
                self.semaphore_empty.try_give_from_isr(higher_prio_task_waken);
                true
            } else {
                self.semaphore_full.try_give_from_isr(higher_prio_task_waken);
                false
            }
        } else {
            false
        }
    }

    fn remove(&mut self, item: &[u8])
        ensures
            final(self).cap() == old(self).cap(),
            final(self).items() == remove_first(old(self).items(), item@),
    {
        if self.semaphore_full.take(Some(0)) {
            self.mutex.take(None);
            let item_removed = self.inner.remove(item);
            self.mutex.give();
            proof { lemma_remove_first_len(old(self).items(), item@); }
            if item_removed {
                self.semaphore_empty.give();
            } else {
                self.semaphore_full.give();
            }
        } else {
            proof { assert(remove_first(old(self).items(), item@) == old(self).items()); }
        }
    }

    fn messages_waiting(&self) -> (n: usize)
        ensures
            n == self.items().len(),
    {
        self.semaphore_full.current_count() as usize
    }
}

/// `s` with its first element equal to `x` left out.
pub open spec fn remove_first(s: Seq<Seq<u8>>, x: Seq<u8>) -> Seq<Seq<u8>>
    decreases s.len(),
{
    if s.len() == 0 {
        s
    } else if s[0] == x {
        s.drop_first()
    } else {
        seq![s[0]] + remove_first(s.drop_first(), x)
    }
}

proof fn lemma_remove_first_len(s: Seq<Seq<u8>>, x: Seq<u8>)
    ensures
        remove_first(s, x).len() == if s.contains(x) { s.len() - 1 } else { s.len() as int },
    decreases s.len(),
{
    if s.len() > 0 {
        lemma_remove_first_len(s.drop_first(), x);
        if s[0] != x {
            assert(s.contains(x) <==> s.drop_first().contains(x)) by {
                if s.contains(x) {
                    let j = choose|j: int| 0 <= j < s.len() && s[j] == x;
                    assert(s.drop_first()[j - 1] == x);
                }
                if s.drop_first().contains(x) {
                    let j = choose|j: int| 0 <= j < s.drop_first().len() && s.drop_first()[j] == x;
                    assert(s[j + 1] == x);
                }
            }
        } else {
            assert(s.contains(x)) by { assert(s[0] == x); }
        }
    }
}

proof fn lemma_remove_first_absent(s: Seq<Seq<u8>>, x: Seq<u8>)
    ensures
        !s.contains(x) ==> remove_first(s, x) == s,
    decreases s.len(),
{
    if s.len() > 0 && !s.contains(x) {
        assert(s[0] != x);
        assert(!s.drop_first().contains(x)) by {
            if s.drop_first().contains(x) {
                let j = choose|j: int| 0 <= j < s.drop_first().len() && s.drop_first()[j] == x;
                assert(s[j + 1] == x);
            }
        }
        lemma_remove_first_absent(s.drop_first(), x);
        assert(seq![s[0]] + s.drop_first() =~= s);
    }
}

proof fn lemma_contains_push(s: Seq<Seq<u8>>, y: Seq<u8>, x: Seq<u8>)
    ensures
        s.push(y).contains(x) == (s.contains(x) || y == x),
{
    if s.push(y).contains(x) {
        let j = choose|j: int| 0 <= j < s.push(y).len() && s.push(y)[j] == x;
        if j < s.len() {
            assert(s[j] == x);
        }
    }
    if s.contains(x) {
        let j = choose|j: int| 0 <= j < s.len() && s[j] == x;
        assert(s.push(y)[j] == x);
    }
    if y == x {
        assert(s.push(y)[s.len() as int] == x);
    }
}

proof fn lemma_remove_first_push(s: Seq<Seq<u8>>, y: Seq<u8>, x: Seq<u8>)
    ensures
        remove_first(s.push(y), x) == if s.contains(x) {
            remove_first(s, x).push(y)
        } else if y == x {
            s
        } else {
            s.push(y)
        },
    decreases s.len(),
{
    if s.len() == 0 {
        assert(!s.contains(x));
        assert(s.push(y)[0] == y);
        if y == x {
            assert(s.push(y).drop_first() =~= s);
        } else {
            assert(s.push(y).drop_first() =~= s);
            assert(remove_first(s.push(y).drop_first(), x) =~= s);
            assert(seq![y] + s =~= s.push(y));
        }
    } else {
        assert(s.push(y)[0] == s[0]);
        assert(s.push(y).drop_first() =~= s.drop_first().push(y));
        lemma_remove_first_push(s.drop_first(), y, x);
        lemma_contains_push(s.drop_first(), s[0], x);
        if s[0] == x {
            assert(s.contains(x)) by { assert(s[0] == x); }
        } else {
            assert(s.contains(x) <==> s.drop_first().contains(x)) by {
                if s.contains(x) {
                    let j = choose|j: int| 0 <= j < s.len() && s[j] == x;
                    assert(s.drop_first()[j - 1] == x);
                }
                if s.drop_first().contains(x) {
                    let j = choose|j: int| 0 <= j < s.drop_first().len() && s.drop_first()[j] == x;
                    assert(s[j + 1] == x);
                }
            }
            if s.contains(x) {
                assert(seq![s[0]] + remove_first(s.drop_first(), x).push(y)
                    =~= (seq![s[0]] + remove_first(s.drop_first(), x)).push(y));
            } else if y == x {
                assert(seq![s[0]] + s.drop_first() =~= s);
            } else {
                assert(seq![s[0]] + s.drop_first().push(y) =~= s.push(y));
            }
        }
    }
}

/// Whether two byte slices hold the same bytes.
pub fn bytes_eq(a: &[u8], b: &[u8]) -> (r: bool)
    ensures
        r == (a@ == b@),
{
    if a.len() != b.len() {
        return false;
    }
    let mut i: usize = 0;
    while i < a.len()
        invariant
            i <= a@.len(),
            a@.len() == b@.len(),
            forall|p: int| 0 <= p < i ==> a@[p] == b@[p],
        decreases a@.len() - i,
    {
        if a[i] != b[i] {
            return false;
        }
        i = i + 1;
    }
    assert(a@ =~= b@);
    true
}

/// For `0 <= x < 2 * c`, `x % c` is `x` or `x - c`.
proof fn lemma_mod_wrap(x: int, c: int)
    requires
        0 < c,
        0 <= x < 2 * c,
    ensures
        x % c == if x < c { x } else { x - c },
{
    if x < c {
        vstd::arithmetic::div_mod::lemma_small_mod(x as nat, c as nat);
    } else {
        vstd::arithmetic::div_mod::lemma_mod_sub_multiples_vanish(x, c);
        vstd::arithmetic::div_mod::lemma_small_mod((x - c) as nat, c as nat);
    }
}

/// What goes in at the back of a queue comes out at its front after every
/// item that was already in it: reading the front of a queue of `items`
/// with `item` sent to its back gives `items`' first, or `item` itself when
/// the queue was empty.
pub proof fn lemma_fifo(items: Seq<Seq<u8>>, item: Seq<u8>)
    ensures
        items.len() == 0 ==> items.push(item)[0] == item && items.push(item).drop_first() == items,
        items.len() > 0 ==> items.push(item)[0] == items[0] && items.push(item).drop_first() == items.drop_first().push(item),
        (seq![item] + items)[0] == item && (seq![item] + items).drop_first() == items,
{
    assert(items.len() == 0 ==> items.push(item).drop_first() =~= items);
    assert(items.len() > 0 ==> items.push(item).drop_first() =~= items.drop_first().push(item));
    assert((seq![item] + items).drop_first() =~= items);
}

/// Taking a token and giving it back leaves the semaphore as it was: a
/// take that succeeds leaves room for the give, which then succeeds.
pub proof fn lemma_take_then_give(s: SemaphoreHandle, s1: SemaphoreHandle, s2: SemaphoreHandle, given: bool)
    requires
        s.tokens() <= s.limit(),
        took(s, s1, true),
        gave(s1, s2, given),
    ensures
        given,
        s2.tokens() == s.tokens(),
        s2.limit() == s.limit(),
{
}

} // verus!
