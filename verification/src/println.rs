//! The printer behind `print!` and `println!`: bytes go out through the
//! USB serial JTAG FIFO, without blocking forever when no host reads them.
//!
//! The FIFO is seen through the readings of its "full" flag, taken in
//! order, and the writes and flushes made to it, logged in order.
use vstd::prelude::*;

verus! {

/// How many times a wait polls the FIFO after the first full reading before
/// it gives up.
pub const TIMEOUT_ITERATIONS: usize = 50_000;

/// What the printer does to the FIFO.
#[derive(Debug, Clone, Copy, PartialEq, Eq, Structural)]
pub enum JtagEvent {
    /// A byte written to the FIFO.
    Write(u8),
    /// The FIFO flushed to the host.
    Flush,
}

/// The USB serial JTAG FIFO as the printer sees it.
pub struct SerialJtag {
    /// The readings of the FIFO's "full" flag, in the order in which they
    /// are taken; past the last of them the FIFO is not full.
    pub full_readings: Vec<bool>,
    /// How many of the readings have been taken.
    pub polls: usize,
    /// The writes and flushes made to the FIFO, in order.
    pub events: Vec<JtagEvent>,
    /// Whether a wait for the FIFO to drain has timed out since the FIFO
    /// was last seen with room at the start of a write.
    pub timed_out: bool,
}

/// The reading of the "full" flag at poll `i`.
pub open spec fn reading(readings: Seq<bool>, i: int) -> bool {
    if 0 <= i < readings.len() { readings[i] } else { false }
}

/// The bytes written by `events`, in order.
pub open spec fn writes(events: Seq<JtagEvent>) -> Seq<u8>
    decreases events.len(),
{
    if events.len() == 0 {
        Seq::empty()
    } else {
        let rest = writes(events.drop_last());
        match events.last() {
            JtagEvent::Write(b) => rest.push(b),
            JtagEvent::Flush => rest,
        }
    }
}

/// Whether the FIFO reads full at poll `j` and on each of the
/// `TIMEOUT_ITERATIONS` polls after it: a whole wait.
pub open spec fn full_for_a_wait(readings: Seq<bool>, j: int) -> bool {
    forall|i: int| j <= i <= j + TIMEOUT_ITERATIONS ==> #[trigger] reading(readings, i)
}

/// Whether, among the readings `from..to`, the FIFO reads full for a whole
/// wait.
pub open spec fn stalled(readings: Seq<bool>, from: int, to: int) -> bool {
    exists|j: int| from <= j && j + TIMEOUT_ITERATIONS + 1 <= to && #[trigger] full_for_a_wait(readings, j)
}

/// What writing `bytes` does to the FIFO `o`, leaving it as `n`: the
/// readings are taken in order; the events made are appended; the bytes
/// written are the first ones of `bytes`, in order; all of them are
/// written unless a wait timed out, and a wait times out only when the FIFO
/// stays full throughout it. When the FIFO is full at the start and a wait
/// has timed out before, nothing is written; when it has room at the start,
/// the record of a timeout is cleared.
pub open spec fn bytes_written(o: SerialJtag, n: SerialJtag, bytes: Seq<u8>) -> bool {
    let e = n.events@.subrange(o.events@.len() as int, n.events@.len() as int);
    let k = writes(e).len();
    let entry_full = reading(o.full_readings@, o.polls as int);
    &&& n.full_readings@ == o.full_readings@
    &&& o.polls <= n.polls <= n.full_readings@.len() || (o.polls == n.polls && o.polls > n.full_readings@.len())
    &&& o.events@.len() <= n.events@.len()
    &&& n.events@.subrange(0, o.events@.len() as int) == o.events@
    &&& k <= bytes.len()
    &&& writes(e) == bytes.subrange(0, k as int)
    &&& k < bytes.len() ==> n.timed_out
    &&& entry_full && o.timed_out ==> k == 0 && n.timed_out
    &&& !entry_full ==> n.timed_out == (k < bytes.len())
    &&& n.timed_out && !(entry_full && o.timed_out) ==> stalled(n.full_readings@, o.polls as int, n.polls as int)
}

/// Pushing an event onto a log adds its byte, if any, to what the log
/// writes.
proof fn lemma_writes_push(events: Seq<JtagEvent>, e: JtagEvent)
    ensures
        writes(events.push(e)) == match e {
            JtagEvent::Write(b) => writes(events).push(b),
            JtagEvent::Flush => writes(events),
        },
{
    assert(events.push(e).drop_last() =~= events);
}

impl SerialJtag {
    /// Whether the FIFO is full: takes the next reading.
    fn fifo_full(&mut self) -> (r: bool)
        ensures
            r == reading(old(self).full_readings@, old(self).polls as int),
            final(self).polls == if old(self).polls < old(self).full_readings@.len() { old(self).polls + 1 } else { old(self).polls as int },
            final(self).full_readings@ == old(self).full_readings@,
            final(self).events@ == old(self).events@,
            final(self).timed_out == old(self).timed_out,
    {
        if self.polls < self.full_readings.len() {
            let r = self.full_readings[self.polls];
            self.polls = self.polls + 1;
            r
        } else {
            false
        }
    }

    /// Flushes the FIFO to the host.
    fn fifo_flush(&mut self)
        ensures
            final(self).events@ == old(self).events@.push(JtagEvent::Flush),
            final(self).full_readings@ == old(self).full_readings@,
            final(self).polls == old(self).polls,
            final(self).timed_out == old(self).timed_out,
    {
        self.events.push(JtagEvent::Flush);
    }

    /// Writes a byte to the FIFO.
    fn fifo_write(&mut self, byte: u8)
        ensures
            final(self).events@ == old(self).events@.push(JtagEvent::Write(byte)),
            final(self).full_readings@ == old(self).full_readings@,
            final(self).polls == old(self).polls,
            final(self).timed_out == old(self).timed_out,
    {
        self.events.push(JtagEvent::Write(byte));
    }

    /// Waits for the FIFO to have room, polling it up to
    /// `TIMEOUT_ITERATIONS` times after a full reading; on a timeout it
    /// records that and gives up.
    fn wait_for_flush(&mut self) -> (r: bool)
        ensures
            final(self).full_readings@ == old(self).full_readings@,
            final(self).events@ == old(self).events@,
            old(self).polls <= final(self).polls,
            old(self).polls <= old(self).full_readings@.len() ==> final(self).polls <= final(self).full_readings@.len(),
            old(self).polls > old(self).full_readings@.len() ==> final(self).polls == old(self).polls,
            r ==> final(self).timed_out == old(self).timed_out,
            !r ==> final(self).timed_out && stalled(final(self).full_readings@, old(self).polls as int, final(self).polls as int),
    {
        let mut timeout: usize = TIMEOUT_ITERATIONS;
        loop
            invariant
                timeout <= TIMEOUT_ITERATIONS,
                self.full_readings@ == old(self).full_readings@,
                self.events@ == old(self).events@,
                self.timed_out == old(self).timed_out,
                self.polls == old(self).polls + (TIMEOUT_ITERATIONS - timeout),
                forall|i: int| old(self).polls <= i < self.polls ==> #[trigger] reading(self.full_readings@, i),
                old(self).polls <= old(self).full_readings@.len() ==> self.polls <= self.full_readings@.len(),
                old(self).polls > old(self).full_readings@.len() ==> self.polls == old(self).polls,
            decreases timeout,
        {
            let ghost p = self.polls;
            if !self.fifo_full() {
                return true;
            }
            assert(reading(self.full_readings@, p as int));
            if timeout == 0 {
                self.timed_out = true;
                assert(full_for_a_wait(self.full_readings@, old(self).polls as int));
                return false;
            }
            timeout = timeout - 1;
        }
    }
}

/// The printer used by `print!` and `println!`.
pub struct Printer;

impl Printer {
    /// Writes bytes to the FIFO, flushing it whenever it is full. When the
    /// FIFO stays full through a wait, the rest of the bytes is dropped;
    /// once a wait has timed out, nothing more is queued until the FIFO is
    /// seen with room again.
    pub fn write_bytes_assume_cs(out: &mut SerialJtag, bytes: &[u8])
        ensures
            bytes_written(*old(out), *final(out), bytes@),
    {
        let ghost o = *old(out);
        let ghost base = old(out).events@;
        let entry_full = out.fifo_full();
        if entry_full {
            if out.timed_out {
                assert(out.events@.subrange(base.len() as int, out.events@.len() as int) =~= Seq::<JtagEvent>::empty());
                assert(out.events@.subrange(0, base.len() as int) =~= base);
                assert(bytes@.subrange(0, 0) =~= Seq::<u8>::empty());
                return;
            }
            if !out.wait_for_flush() {
                assert(out.events@.subrange(base.len() as int, out.events@.len() as int) =~= Seq::<JtagEvent>::empty());
                assert(out.events@.subrange(0, base.len() as int) =~= base);
                assert(bytes@.subrange(0, 0) =~= Seq::<u8>::empty());
                return;
            }
        } else {
            out.timed_out = false;
        }
        let ghost mut e: Seq<JtagEvent> = Seq::empty();
        let mut i: usize = 0;
        let mut stopped = false;
        while i < bytes.len() && !stopped
            invariant
                i <= bytes@.len(),
                out.full_readings@ == o.full_readings@,
                o.polls <= out.polls <= out.full_readings@.len() || (o.polls == out.polls && o.polls > out.full_readings@.len()),
                out.events@ == base + e,
                base == o.events@,
                writes(e) == bytes@.subrange(0, i as int),
                !stopped ==> !out.timed_out,
                stopped ==> out.timed_out && i < bytes@.len() && stalled(out.full_readings@, o.polls as int, out.polls as int),
                entry_full == reading(o.full_readings@, o.polls as int),
                entry_full ==> !o.timed_out,
            decreases bytes@.len() - i, if stopped { 0int } else { 1int },
        {
            if out.fifo_full() {
                out.fifo_flush();
                proof {
                    lemma_writes_push(e, JtagEvent::Flush);
                    e = e.push(JtagEvent::Flush);
                }
                if !out.wait_for_flush() {
                    stopped = true;
                }
            }
            if !stopped {
                let b = bytes[i];
                out.fifo_write(b);
                proof {
                    lemma_writes_push(e, JtagEvent::Write(b));
                    e = e.push(JtagEvent::Write(b));
                    assert(bytes@.subrange(0, i + 1) =~= bytes@.subrange(0, i as int).push(b));
                }
                i = i + 1;
            }
        }
        assert(out.events@.subrange(base.len() as int, out.events@.len() as int) =~= e);
        assert(out.events@.subrange(0, base.len() as int) =~= base);
        assert(!stopped ==> bytes@.subrange(0, bytes@.len() as int) =~= bytes@);
    }

    /// Flushes the FIFO to the host.
    pub fn flush(out: &mut SerialJtag)
        ensures
            final(out).events@ == old(out).events@.push(JtagEvent::Flush),
            final(out).full_readings@ == old(out).full_readings@,
            final(out).polls == old(out).polls,
            final(out).timed_out == old(out).timed_out,
    {
        out.fifo_flush();
    }

    /// Writes bytes to the output and flushes it: what
    /// [`Printer::write_bytes_assume_cs`] does, followed by a flush.
    pub fn write_bytes(out: &mut SerialJtag, bytes: &[u8])
        ensures
            final(out).events@.len() > old(out).events@.len(),
            final(out).events@.last() == JtagEvent::Flush,
            bytes_written(*old(out), *final(out), bytes@),
    {
        let ghost o = *old(out);
        Self::write_bytes_assume_cs(out, bytes);
        let ghost m = *out;
        Self::flush(out);
        proof {
            let e0 = m.events@.subrange(o.events@.len() as int, m.events@.len() as int);
            let e1 = out.events@.subrange(o.events@.len() as int, out.events@.len() as int);
            assert(e1 =~= e0.push(JtagEvent::Flush));
            lemma_writes_push(e0, JtagEvent::Flush);
            assert(out.events@.subrange(0, o.events@.len() as int) =~= m.events@.subrange(0, o.events@.len() as int));
        }
    }
}

/// When the FIFO never stays full through a whole wait, every byte is
/// written, in order, and no timeout is recorded (unless the write began
/// on a full FIFO after an earlier timeout, when nothing is written).
pub proof fn lemma_unstalled_output_writes_everything(o: SerialJtag, n: SerialJtag, bytes: Seq<u8>)
    requires
        bytes_written(o, n, bytes),
        !(reading(o.full_readings@, o.polls as int) && o.timed_out),
        !stalled(n.full_readings@, o.polls as int, n.polls as int),
    ensures
        writes(n.events@.subrange(o.events@.len() as int, n.events@.len() as int)) == bytes,
        !n.timed_out,
{
    let e = n.events@.subrange(o.events@.len() as int, n.events@.len() as int);
    assert(writes(e).len() == bytes.len());
    assert(bytes.subrange(0, bytes.len() as int) =~= bytes);
}

} // verus!
