//! The time driver of the embassy executor: a queue of tasks waiting for
//! their time, and the one-shot timer alarm that wakes the queue when the
//! earliest of them is due.
//!
//! Waking a task is the executor's work: the functions here give the tasks
//! to wake.
use vstd::prelude::*;
use crate::interrupt::{routed_and_enabled, InterruptCoreRegs, InterruptHandler, Priority};
use crate::time::{now, now_micros, Duration};
use crate::timer::systimer::{
    count, cleared_interrupt, interrupt_enabled, latched, ticks_per_second_of, timeout_ticks, work_enabled, SystimerRegs,
    BIT_MASK, SYSTIMER_TARGET0_INTERRUPT,
};
use crate::timer::{refused, scheduled, OneShotTimer};

verus! {

/// A task waiting in the timer queue: its identity, and the time (in
/// microseconds since boot) at which it is to be woken; `u64::MAX` for
/// never.
#[derive(Debug, Clone, Copy, PartialEq, Eq, Structural)]
pub struct WaitingTask {
    pub task: u32,
    pub expires_at: u64,
}

/// The tasks that stay in the queue at time `now`: those not yet due, less
/// those that never expire.
pub open spec fn kept_tasks(tasks: Seq<WaitingTask>, now: u64) -> Seq<WaitingTask>
    decreases tasks.len(),
{
    if tasks.len() == 0 {
        Seq::empty()
    } else {
        let prev = kept_tasks(tasks.drop_last(), now);
        let t = tasks.last();
        if t.expires_at > now && t.expires_at != u64::MAX { prev.push(t) } else { prev }
    }
}

/// The tasks that are due at time `now`, in queue order.
pub open spec fn due_tasks(tasks: Seq<WaitingTask>, now: u64) -> Seq<u32>
    decreases tasks.len(),
{
    if tasks.len() == 0 {
        Seq::empty()
    } else {
        let prev = due_tasks(tasks.drop_last(), now);
        let t = tasks.last();
        if t.expires_at <= now { prev.push(t.task) } else { prev }
    }
}

/// The earliest time among the tasks not yet due at `now`, or `u64::MAX`.
pub open spec fn next_expiration_of(tasks: Seq<WaitingTask>, now: u64) -> u64
    decreases tasks.len(),
{
    if tasks.len() == 0 {
        u64::MAX
    } else {
        let prev = next_expiration_of(tasks.drop_last(), now);
        let e = tasks.last().expires_at;
        if e > now && e < prev { e } else { prev }
    }
}

/// The queue of tasks waiting for their time.
pub struct RawQueue {
    pub tasks: Vec<WaitingTask>,
}

impl RawQueue {
    /// An empty queue.
    pub fn new() -> (r: Self)
        ensures
            r.tasks@ == Seq::<WaitingTask>::empty(),
    {
        RawQueue { tasks: Vec::new() }
    }

    /// Takes out the tasks due at `now` (to be woken) and those that never
    /// expire, and gives the earliest time among the others, or `u64::MAX`.
    pub fn next_expiration(&mut self, now: u64) -> (r: (u64, Vec<u32>))
        ensures
            final(self).tasks@ == kept_tasks(old(self).tasks@, now),
            r.1@ == due_tasks(old(self).tasks@, now),
            r.0 == next_expiration_of(old(self).tasks@, now),
    {
        let mut next_expiration: u64 = u64::MAX;
        let mut kept: Vec<WaitingTask> = Vec::new();
        let mut woken: Vec<u32> = Vec::new();
        let mut i: usize = 0;
        while i < self.tasks.len()
            invariant
                i <= self.tasks@.len(),
                self.tasks@ == old(self).tasks@,
                kept@ == kept_tasks(self.tasks@.subrange(0, i as int), now),
                woken@ == due_tasks(self.tasks@.subrange(0, i as int), now),
                next_expiration == next_expiration_of(self.tasks@.subrange(0, i as int), now),
            decreases self.tasks@.len() - i,
        {
            let ghost before = self.tasks@.subrange(0, i as int);
            let t = self.tasks[i];
            assert(self.tasks@.subrange(0, i + 1).drop_last() =~= before);
            if t.expires_at <= now {
                woken.push(t.task);
            } else {
                if t.expires_at < next_expiration {
                    next_expiration = t.expires_at;
                }
                if t.expires_at != u64::MAX {
                    kept.push(t);
                }
            }
            i = i + 1;
        }
        assert(self.tasks@.subrange(0, self.tasks@.len() as int) =~= self.tasks@);
        self.tasks = kept;
        (next_expiration, woken)
    }
}

/// The earliest time of the tasks kept at `now` is that of one of them, when
/// it is not `u64::MAX`.
pub proof fn lemma_next_expiration_is_kept(tasks: Seq<WaitingTask>, now: u64)
    ensures
        next_expiration_of(tasks, now) == u64::MAX || next_expiration_of(tasks, now) > now,
        next_expiration_of(tasks, now) != u64::MAX ==> exists|k: int|
            0 <= k < kept_tasks(tasks, now).len() && #[trigger] kept_tasks(tasks, now)[k].expires_at == next_expiration_of(tasks, now),
        forall|k: int| 0 <= k < kept_tasks(tasks, now).len() ==>
            next_expiration_of(tasks, now) <= #[trigger] kept_tasks(tasks, now)[k].expires_at,
    decreases tasks.len(),
{
    if tasks.len() > 0 {
        let prev = tasks.drop_last();
        lemma_next_expiration_is_kept(prev, now);
        let kp = kept_tasks(prev, now);
        let t = tasks.last();
        if t.expires_at > now && t.expires_at != u64::MAX {
            let kt = kept_tasks(tasks, now);
            assert(kt == kp.push(t));
            assert(kt[kp.len() as int] == t);
            if next_expiration_of(tasks, now) != u64::MAX && next_expiration_of(tasks, now) != t.expires_at {
                let k = choose|k: int| 0 <= k < kp.len() && #[trigger] kp[k].expires_at == next_expiration_of(prev, now);
                assert(kt[k] == kp[k]);
            }
            assert forall|k: int| 0 <= k < kt.len() implies next_expiration_of(tasks, now) <= #[trigger] kt[k].expires_at by {
                if k < kp.len() {
                    assert(kt[k] == kp[k]);
                }
            }
        } else {
            assert(kept_tasks(tasks, now) == kp);
            if next_expiration_of(tasks, now) != u64::MAX {
                let k = choose|k: int| 0 <= k < kp.len() && #[trigger] kp[k].expires_at == next_expiration_of(prev, now);
                assert(kp[k].expires_at == next_expiration_of(tasks, now));
            }
        }
    }
}

/// Dequeuing at the earliest expiration takes out at least that task: the
/// queue shrinks.
pub proof fn lemma_dequeue_at_next_shrinks(tasks: Seq<WaitingTask>, now: u64)
    requires
        next_expiration_of(tasks, now) != u64::MAX,
    ensures
        kept_tasks(kept_tasks(tasks, now), next_expiration_of(tasks, now)).len() < kept_tasks(tasks, now).len(),
{
    lemma_next_expiration_is_kept(tasks, now);
    let kt = kept_tasks(tasks, now);
    let n = next_expiration_of(tasks, now);
    let k = choose|k: int| 0 <= k < kt.len() && #[trigger] kt[k].expires_at == n;
    lemma_kept_drops_due(kt, n, k);
}

/// A queue with a task due at `now` keeps fewer tasks than it has.
proof fn lemma_kept_drops_due(tasks: Seq<WaitingTask>, now: u64, k: int)
    requires
        0 <= k < tasks.len(),
        tasks[k].expires_at <= now,
    ensures
        kept_tasks(tasks, now).len() < tasks.len(),
    decreases tasks.len(),
{
    lemma_kept_len(tasks.drop_last(), now);
    if k < tasks.len() - 1 {
        assert(tasks.drop_last()[k] == tasks[k]);
        lemma_kept_drops_due(tasks.drop_last(), now, k);
    }
}

/// No more tasks are kept than there are.
proof fn lemma_kept_len(tasks: Seq<WaitingTask>, now: u64)
    ensures
        kept_tasks(tasks, now).len() <= tasks.len(),
    decreases tasks.len(),
{
    if tasks.len() > 0 {
        lemma_kept_len(tasks.drop_last(), now);
    }
}

/// The timer ticks per microsecond with a crystal of `xtal_hz`.
pub open spec fn ticks_per_us(xtal_hz: u32) -> int {
    (ticks_per_second_of(xtal_hz) / 1_000_000) as int
}

/// The registers after a timeout of `micros` is armed, halving it until the
/// counter takes it: each refused try stops the alarm and clears its
/// interrupt first.
pub open spec fn armed(r: SystimerRegs, micros: u64, xtal_hz: u32) -> SystimerRegs
    decreases micros,
{
    if micros * ticks_per_us(xtal_hz) <= BIT_MASK || micros < 2 {
        scheduled(r, Duration { micros }, xtal_hz)
    } else {
        armed(refused(r), micros / 2, xtal_hz)
    }
}

/// The timeout that arming `micros` settles on: halved until the counter
/// takes it.
pub open spec fn settled_timeout(micros: u64, xtal_hz: u32) -> u64
    decreases micros,
{
    if micros * ticks_per_us(xtal_hz) <= BIT_MASK || micros < 2 {
        micros
    } else {
        settled_timeout(micros / 2, xtal_hz)
    }
}

/// Arming wakes up no later than asked, and never at once: the timeout it
/// settles on is at most the requested one, positive when that is, and
/// within what the counter takes; the alarm is set that timeout after the
/// counter, the refused tries having left the counter as it was.
pub proof fn lemma_armed_settles(r: SystimerRegs, micros: u64, xtal_hz: u32)
    requires
        xtal_ok(xtal_hz),
    ensures
        settled_timeout(micros, xtal_hz) <= micros,
        micros > 0 ==> settled_timeout(micros, xtal_hz) > 0,
        settled_timeout(micros, xtal_hz) * ticks_per_us(xtal_hz) <= BIT_MASK,
        exists|r1: SystimerRegs| #[trigger] count(r1, 0) == count(r, 0)
            && armed(r, micros, xtal_hz) == scheduled(r1, Duration { micros: settled_timeout(micros, xtal_hz) }, xtal_hz),
    decreases micros,
{
    assert(ticks_per_us(xtal_hz) <= 429);
    assert(ticks_per_us(xtal_hz) >= 1);
    if micros * ticks_per_us(xtal_hz) <= BIT_MASK || micros < 2 {
        assert(micros * ticks_per_us(xtal_hz) <= BIT_MASK) by (nonlinear_arith)
            requires
                micros * ticks_per_us(xtal_hz) <= BIT_MASK || micros < 2,
                ticks_per_us(xtal_hz) <= 429,
                BIT_MASK == 0xF_FFFF_FFFF_FFFF;
        assert(settled_timeout(micros, xtal_hz) == micros);
        assert(armed(r, micros, xtal_hz) == scheduled(r, Duration { micros: settled_timeout(micros, xtal_hz) }, xtal_hz));
        assert(count(r, 0) == count(r, 0));
    } else {
        lemma_armed_settles(refused(r), micros / 2, xtal_hz);
        let r1 = choose|r1: SystimerRegs| #[trigger] count(r1, 0) == count(refused(r), 0)
            && armed(refused(r), micros / 2, xtal_hz) == scheduled(r1, Duration { micros: settled_timeout(micros / 2, xtal_hz) }, xtal_hz);
        assert(count(refused(r), 0) == count(r, 0));
        assert(settled_timeout(micros, xtal_hz) == settled_timeout(micros / 2, xtal_hz));
        assert(armed(r, micros, xtal_hz) == armed(refused(r), micros / 2, xtal_hz));
        assert(count(r1, 0) == count(r, 0));
    }
}

/// What the time driver needs of the crystal: the system timer counts at
/// least one tick per microsecond.
pub open spec fn xtal_ok(xtal_hz: u32) -> bool {
    &&& xtal_hz * 4 <= u32::MAX
    &&& ticks_per_second_of(xtal_hz) >= 1_000_000
}

/// Arms `timer` to fire at `timestamp`, in microseconds since boot: a
/// timeout the counter cannot take is halved until it can, since waking up
/// early is fine. A timestamp that is not in the future stops the timer and
/// gives `false`, to have the queue polled again at once.
pub fn arm<F: Copy>(timer: &mut OneShotTimer<F>, regs: &mut SystimerRegs, timestamp: u64, xtal_hz: u32) -> (r: bool)
    requires
        old(regs).wf(),
        xtal_ok(xtal_hz),
        timestamp > now_micros(*old(regs), xtal_hz) ==>
            (timestamp - now_micros(*old(regs), xtal_hz)) * ticks_per_us(xtal_hz) <= u64::MAX,
    ensures
        final(regs).wf(),
        final(timer).inner == old(timer).inner,
        final(timer).handler == old(timer).handler,
        r == (timestamp > now_micros(*old(regs), xtal_hz)),
        r ==> *final(regs) == armed(latched(*old(regs), 0), (timestamp - now_micros(*old(regs), xtal_hz)) as u64, xtal_hz),
        !r ==> *final(regs) == work_enabled(latched(*old(regs), 0), false),
{
    let instant = now(regs, xtal_hz);
    proof {
        let m = ticks_per_us(xtal_hz);
        let c = count(*old(regs), 0);
        assert(m >= 1);
        assert(c < 0x10_0000_0000_0000);
        assert(instant.ticks <= c) by (nonlinear_arith)
            requires
                instant.ticks == c / m,
                m >= 1,
                c >= 0;
    }
    let now = instant.duration_since_epoch().as_micros();
    let ghost l = *regs;
    if timestamp > now {
        let ghost d0: u64 = (timestamp - now) as u64;
        let mut timeout = Duration::from_micros(timestamp - now);
        proof {
            assert(ticks_per_us(xtal_hz) <= 429);
        }
        loop
            invariant_except_break
                armed(*regs, timeout.micros, xtal_hz) == armed(l, d0, xtal_hz),
            invariant
                regs.wf(),
                xtal_ok(xtal_hz),
                ticks_per_us(xtal_hz) <= 429,
                ticks_per_us(xtal_hz) >= 1,
                timeout.micros * ticks_per_us(xtal_hz) <= u64::MAX,
                timer.inner == old(timer).inner,
                timer.handler == old(timer).handler,
            ensures
                *regs == armed(l, d0, xtal_hz),
            decreases timeout.micros,
        {
            let ghost r0 = *regs;
            match timer.schedule(regs, timeout, xtal_hz) {
                Ok(()) => {
                    break;
                },
                Err(_) => {
                    let ghost t = timeout.micros;
                    proof {
                        let m = ticks_per_us(xtal_hz);
                        assert(t >= 2) by (nonlinear_arith)
                            requires
                                t * m > 0xF_FFFF_FFFF_FFFF,
                                m <= 429,
                                m >= 1;
                    }
                    timeout = timeout.div(2);
                    proof {
                        let m = ticks_per_us(xtal_hz);
                        assert((t / 2) * m <= t * m) by (nonlinear_arith)
                            requires
                                m >= 1,
                                t >= 2;
                    }
                },
            }
        }
        true
    } else {
        timer.stop(regs);
        false
    }
}

/// The number of alarms the driver offers: one, for the single queue.
pub const MAX_SUPPORTED_ALARM_COUNT: usize = 1;

/// An alarm: created with the handler its interrupt is to call, then
/// initialized with the timer it took.
#[derive(Clone, Copy)]
pub enum AlarmState<F> {
    /// Not yet allocated; the handler of its interrupt.
    Created(F),
    /// Allocated, with the index of its timer.
    Initialized(usize),
}

/// A handle on an allocated alarm.
#[derive(Clone, Copy, Debug, PartialEq, Eq, Structural)]
pub struct AlarmHandle {
    pub id: usize,
}

impl AlarmHandle {
    /// The handle of alarm `id`.
    pub fn new(id: usize) -> (r: Self)
        ensures
            r.id == id,
    {
        AlarmHandle { id }
    }
}

/// The time driver: its timer queue, the queue's alarm once set up, the
/// alarms, and the timers that alarms take, from `available` on.
pub struct EmbassyTimer<F> {
    pub queue: RawQueue,
    pub queue_alarm: Option<AlarmHandle>,
    pub priority: Priority,
    pub alarms: Vec<AlarmState<F>>,
    pub timers: Vec<OneShotTimer<F>>,
    pub available: Option<usize>,
}

impl<F: Copy> EmbassyTimer<F> {
    /// The driver with an empty queue at the highest priority, one alarm
    /// that is to call `handler`, and `timers`, none available until
    /// [`EmbassyTimer::init`].
    pub fn new(handler: F, timers: Vec<OneShotTimer<F>>) -> (r: Self)
        ensures
            r.queue.tasks@ == Seq::<WaitingTask>::empty(),
            r.queue_alarm is None,
            r.priority == Priority::Priority15,
            r.alarms@ == seq![AlarmState::Created(handler)],
            r.timers@ == timers@,
            r.available is None,
    {
        let mut alarms: Vec<AlarmState<F>> = Vec::new();
        alarms.push(AlarmState::Created(handler));
        EmbassyTimer { queue: RawQueue::new(), queue_alarm: None, priority: Priority::max(), alarms, timers, available: None }
    }

    /// Whether the alarm of `handle` is initialized, with a timer.
    pub open spec fn handle_ok(&self, handle: AlarmHandle) -> bool {
        &&& handle.id < self.alarms@.len()
        &&& (self.alarms@[handle.id as int] matches AlarmState::Initialized(t) && t < self.timers@.len())
    }

    /// Resets the timers, which stop with their interrupts disabled, and
    /// makes them available from the first on.
    pub fn init(&mut self, regs: &mut SystimerRegs)
        ensures
            *final(regs) == if old(self).timers@.len() == 0 { *old(regs) } else {
                work_enabled(interrupt_enabled(*old(regs), false), false)
            },
            final(self).available == Some(0usize),
            final(self).timers@.len() == old(self).timers@.len(),
            forall|i: int| 0 <= i < old(self).timers@.len() ==> (#[trigger] final(self).timers@[i]).inner == old(self).timers@[i].inner
                && final(self).timers@[i].handler == old(self).timers@[i].handler,
            final(self).alarms@ == old(self).alarms@,
            final(self).queue.tasks@ == old(self).queue.tasks@,
            final(self).queue_alarm == old(self).queue_alarm,
            final(self).priority == old(self).priority,
    {
        let mut i: usize = 0;
        let n = self.timers.len();
        while i < n
            invariant
                i <= n,
                n == old(self).timers@.len(),
                self.timers@.len() == n,
                forall|k: int| 0 <= k < n ==> (#[trigger] self.timers@[k]).inner == old(self).timers@[k].inner
                    && self.timers@[k].handler == old(self).timers@[k].handler,
                *regs == if i == 0 { *old(regs) } else { work_enabled(interrupt_enabled(*old(regs), false), false) },
                self.alarms@ == old(self).alarms@,
                self.queue.tasks@ == old(self).queue.tasks@,
                self.queue_alarm == old(self).queue_alarm,
                self.priority == old(self).priority,
                self.available == old(self).available,
            decreases n - i,
        {
            let ghost r0 = *regs;
            let mut t = self.timers.remove(i);
            t.enable_interrupt(regs, false);
            t.stop(regs);
            self.timers.insert(i, t);
            proof {
                if i > 0 {
                    let w = r0.int_ena;
                    crate::bits::lemma_set_then_clear(w, 0);
                    let c = r0.conf;
                    crate::bits::lemma_set_then_clear(c, crate::timer::systimer::CONF_TARGET0_WORK_EN);
                    crate::bits::lemma_set_then_clear(old(regs).int_ena, 0);
                    crate::bits::lemma_set_then_clear(old(regs).conf, crate::timer::systimer::CONF_TARGET0_WORK_EN);
                }
            }
            i = i + 1;
        }
        self.available = Some(0);
    }

    /// Allocates the first alarm, if it is not allocated yet: it takes the
    /// next available timer, whose interrupt is bound to the alarm's handler
    /// at `priority` and enabled.
    pub fn allocate_alarm(&mut self, priority: Priority, intr: &mut InterruptCoreRegs, regs: &mut SystimerRegs) -> (r: Option<AlarmHandle>)
        requires
            old(intr).wf(),
            old(self).alarms@.len() > 0 && old(self).alarms@[0] is Created ==>
                (old(self).available matches Some(t) && t < old(self).timers@.len()) && priority != Priority::NoPriority,
        ensures
            final(intr).wf(),
            final(self).queue.tasks@ == old(self).queue.tasks@,
            final(self).queue_alarm == old(self).queue_alarm,
            final(self).priority == old(self).priority,
            final(self).timers@.len() == old(self).timers@.len(),
            match (if old(self).alarms@.len() > 0 { Some(old(self).alarms@[0]) } else { None }) {
                Some(AlarmState::Created(h)) => {
                    let t = old(self).available->0;
                    &&& r == Some(AlarmHandle { id: 0 })
                    &&& final(self).alarms@ == old(self).alarms@.update(0, AlarmState::Initialized(t))
                    &&& final(self).available == Some((t + 1) as usize)
                    &&& final(self).timers@[t as int].inner == old(self).timers@[t as int].inner
                    &&& final(self).timers@[t as int].handler == Some(InterruptHandler { f: h, prio: priority })
                    &&& forall|k: int| 0 <= k < old(self).timers@.len() && k != t ==>
                        #[trigger] final(self).timers@[k] == old(self).timers@[k]
                    &&& routed_and_enabled(*old(intr), *final(intr), SYSTIMER_TARGET0_INTERRUPT as int, priority)
                    &&& *final(regs) == interrupt_enabled(*old(regs), true)
                },
                _ => {
                    &&& r is None
                    &&& final(self).alarms@ == old(self).alarms@
                    &&& final(self).available == old(self).available
                    &&& final(self).timers@ == old(self).timers@
                    &&& *final(intr) == *old(intr)
                    &&& *final(regs) == *old(regs)
                },
            },
    {
        if self.alarms.len() == 0 {
            return None;
        }
        let h = match self.alarms[0] {
            AlarmState::Created(h) => h,
            AlarmState::Initialized(_) => {
                return None;
            },
        };
        assert(old(self).alarms@[0] is Created);
        let t = match self.available {
            Some(t) => t,
            None => 0,
        };
        let len = self.timers.len();
        assert(t < len);
        self.available = Some(t + 1);
        let mut timer = self.timers.remove(t);
        timer.set_interrupt_handler(intr, InterruptHandler::new(h, priority));
        timer.enable_interrupt(regs, true);
        self.timers.insert(t, timer);
        self.alarms.set(0, AlarmState::Initialized(t));
        Some(AlarmHandle::new(0))
    }

    /// Arms the alarm of `handle` to fire at `timestamp`; `false` when the
    /// timestamp is not in the future.
    pub fn set_alarm(&mut self, handle: AlarmHandle, timestamp: u64, regs: &mut SystimerRegs, xtal_hz: u32) -> (r: bool)
        requires
            old(self).handle_ok(handle),
            old(regs).wf(),
            xtal_ok(xtal_hz),
            timestamp > now_micros(*old(regs), xtal_hz) ==>
                (timestamp - now_micros(*old(regs), xtal_hz)) * ticks_per_us(xtal_hz) <= u64::MAX,
        ensures
            final(regs).wf(),
            final(self).timers@ == old(self).timers@,
            final(self).alarms@ == old(self).alarms@,
            final(self).available == old(self).available,
            final(self).queue.tasks@ == old(self).queue.tasks@,
            final(self).queue_alarm == old(self).queue_alarm,
            final(self).priority == old(self).priority,
            r == (timestamp > now_micros(*old(regs), xtal_hz)),
            r ==> *final(regs) == armed(latched(*old(regs), 0), (timestamp - now_micros(*old(regs), xtal_hz)) as u64, xtal_hz),
            !r ==> *final(regs) == work_enabled(latched(*old(regs), 0), false),
    {
        let t = match self.alarms[handle.id] {
            AlarmState::Initialized(t) => t,
            AlarmState::Created(_) => 0,
        };
        let ghost before = self.timers@;
        let mut timer = self.timers.remove(t);
        let r = arm(&mut timer, regs, timestamp, xtal_hz);
        self.timers.insert(t, timer);
        assert(self.timers@ =~= before);
        r
    }

    /// Clears the interrupt of the alarm of `id`.
    pub fn clear_alarm_interrupt(&mut self, id: usize, regs: &mut SystimerRegs)
        requires
            old(self).handle_ok(AlarmHandle { id }),
        ensures
            *final(regs) == cleared_interrupt(*old(regs)),
            final(self).timers@ == old(self).timers@,
            final(self).alarms@ == old(self).alarms@,
            final(self).available == old(self).available,
            final(self).queue.tasks@ == old(self).queue.tasks@,
            final(self).queue_alarm == old(self).queue_alarm,
            final(self).priority == old(self).priority,
    {
        let t = match self.alarms[id] {
            AlarmState::Initialized(t) => t,
            AlarmState::Created(_) => 0,
        };
        let ghost before = self.timers@;
        let mut timer = self.timers.remove(t);
        timer.clear_interrupt(regs);
        self.timers.insert(t, timer);
        assert(self.timers@ =~= before);
    }
}

/// The system timer registers after the queue's alarm is armed for the
/// earliest time `next` of the queue at `now` (`u64::MAX` for none), the
/// alarm having been allocated first when `fresh`.
pub open spec fn dispatched_regs(r0: SystimerRegs, fresh: bool, next: u64, now: int, xtal_hz: u32) -> SystimerRegs {
    let r1 = latched(r0, 0);
    let r2 = if fresh { interrupt_enabled(r1, true) } else { r1 };
    if next == u64::MAX { r2 } else { armed(r2, (next - now) as u64, xtal_hz) }
}

/// What processing the queue of `s0` at `now` comes to: the driver `s1`
/// keeps the tasks not yet due, the registers `r1` have the queue's alarm
/// armed for the earliest of them, and the due tasks are `woken`.
pub open spec fn final_dispatched<F: Copy>(
    s0: EmbassyTimer<F>, r0: SystimerRegs, now: u64, xtal_hz: u32, s1: EmbassyTimer<F>, r1: SystimerRegs, woken: Seq<u32>,
) -> bool {
    let next = next_expiration_of(s0.queue.tasks@, now);
    &&& s1.queue.tasks@ == kept_tasks(s0.queue.tasks@, now)
    &&& woken == due_tasks(s0.queue.tasks@, now)
    &&& r1 == dispatched_regs(r0, s0.queue_alarm is None, next, now as int, xtal_hz)
    &&& s1.queue_alarm is Some
    &&& s1.alarm_ready()
}

impl<F: Copy> EmbassyTimer<F> {
    /// Whether the driver can arm the queue's alarm: it is set up, or the
    /// first alarm can be allocated.
    pub open spec fn alarm_ready(&self) -> bool {
        match self.queue_alarm {
            Some(h) => self.handle_ok(h),
            None => self.alarms@.len() > 0 && self.alarms@[0] is Created
                && (self.available matches Some(t) && t < self.timers@.len())
                && self.priority != Priority::NoPriority,
        }
    }

    /// Processes the timer queue at the current time: takes out the tasks
    /// that are due, which it gives to be woken, and arms the queue's alarm
    /// for the earliest of the others (setting the alarm up first if
    /// needed).
    pub fn dispatch(&mut self, intr: &mut InterruptCoreRegs, regs: &mut SystimerRegs, xtal_hz: u32) -> (woken: Vec<u32>)
        requires
            old(regs).wf(),
            old(intr).wf(),
            xtal_ok(xtal_hz),
            old(self).alarm_ready(),
            ({
                let now = now_micros(*old(regs), xtal_hz);
                let next = next_expiration_of(old(self).queue.tasks@, now as u64);
                next == u64::MAX || (next - now) * ticks_per_us(xtal_hz) <= u64::MAX
            }),
        ensures
            final(regs).wf(),
            final(intr).wf(),
            ({
                let now = now_micros(*old(regs), xtal_hz);
                let next = next_expiration_of(old(self).queue.tasks@, now as u64);
                &&& final(self).queue.tasks@ == kept_tasks(old(self).queue.tasks@, now as u64)
                &&& woken@ == due_tasks(old(self).queue.tasks@, now as u64)
                &&& *final(regs) == dispatched_regs(*old(regs), old(self).queue_alarm is None, next, now, xtal_hz)
            }),
            final(self).queue_alarm is Some,
            final(self).alarm_ready(),
            final(self).priority == old(self).priority,
            old(self).queue_alarm is Some ==> *final(intr) == *old(intr),
            old(self).queue_alarm is None ==>
                routed_and_enabled(*old(intr), *final(intr), SYSTIMER_TARGET0_INTERRUPT as int, old(self).priority),
    {
        let ghost r0 = *regs;
        let instant = now(regs, xtal_hz);
        proof {
            let m = ticks_per_us(xtal_hz);
            let c = count(r0, 0);
            assert(c < 0x10_0000_0000_0000);
            assert(instant.ticks <= c) by (nonlinear_arith)
                requires
                    instant.ticks == c / m,
                    m >= 1,
                    c >= 0;
        }
        let now_us = instant.duration_since_epoch().as_micros();
        let ghost r1 = *regs;
        let ghost s0 = *old(self);
        // Dequeue the due tasks and arm the alarm for the next one; should
        // that time have passed already, dequeue again at it.
        let mut next_expiration = now_us;
        let mut woken: Vec<u32> = Vec::new();
        loop
            invariant_except_break
                next_expiration == now_us,
                *regs == r1,
                *intr == *old(intr),
                self.queue.tasks@ == s0.queue.tasks@,
                self.queue_alarm == s0.queue_alarm,
                self.alarms@ == s0.alarms@,
                self.available == s0.available,
                self.timers@ == s0.timers@,
                self.priority == s0.priority,
            invariant
                r1 == latched(*old(regs), 0),
                now_us == now_micros(*old(regs), xtal_hz),
                old(regs).wf(),
                old(intr).wf(),
                xtal_ok(xtal_hz),
                s0.alarm_ready(),
                ({
                    let next = next_expiration_of(s0.queue.tasks@, now_us);
                    next == u64::MAX || (next - now_us) * ticks_per_us(xtal_hz) <= u64::MAX
                }),
            ensures
                final_dispatched(s0, *old(regs), now_us, xtal_hz, *self, *regs, woken@),
                regs.wf(),
                intr.wf(),
                self.priority == s0.priority,
                s0.queue_alarm is Some ==> *intr == *old(intr),
                s0.queue_alarm is None ==>
                    routed_and_enabled(*old(intr), *intr, SYSTIMER_TARGET0_INTERRUPT as int, s0.priority),
            decreases self.queue.tasks@.len(),
        {
            let (next, dequeued) = self.queue.next_expiration(next_expiration);
            proof { lemma_next_expiration_is_kept(s0.queue.tasks@, now_us); }
            next_expiration = next;
            woken = dequeued;
            let handle = match self.queue_alarm {
                Some(h) => h,
                None => {
                    let h = self.set_up_alarm(intr, regs);
                    self.queue_alarm = Some(h);
                    h
                },
            };
            let ghost r2 = *regs;
            assert(latched(r2, 0) == r2);
            let set = handle.update(self, next_expiration, regs, xtal_hz);
            if set {
                break;
            }
        }
        woken
    }

    /// Sets up the queue's alarm: allocates the first alarm at the queue's
    /// priority.
    pub fn set_up_alarm(&mut self, intr: &mut InterruptCoreRegs, regs: &mut SystimerRegs) -> (r: AlarmHandle)
        requires
            old(intr).wf(),
            old(self).alarms@.len() > 0,
            (old(self).alarms@[0] is Created),
            (old(self).available matches Some(t) && t < old(self).timers@.len()),
            old(self).priority != Priority::NoPriority,
        ensures
            r == (AlarmHandle { id: 0 }),
            final(intr).wf(),
            final(self).queue.tasks@ == old(self).queue.tasks@,
            final(self).queue_alarm == old(self).queue_alarm,
            final(self).priority == old(self).priority,
            final(self).timers@.len() == old(self).timers@.len(),
            ({
                let t = old(self).available->0;
                &&& final(self).alarms@ == old(self).alarms@.update(0, AlarmState::Initialized(t))
                &&& final(self).available == Some((t + 1) as usize)
                &&& final(self).timers@[t as int].inner == old(self).timers@[t as int].inner
                &&& final(self).timers@[t as int].handler == Some((InterruptHandler {
                    f: old(self).alarms@[0]->Created_0,
                    prio: old(self).priority,
                }))
                &&& forall|k: int| 0 <= k < old(self).timers@.len() && k != t ==>
                    #[trigger] final(self).timers@[k] == old(self).timers@[k]
                &&& routed_and_enabled(*old(intr), *final(intr), SYSTIMER_TARGET0_INTERRUPT as int, old(self).priority)
                &&& *final(regs) == interrupt_enabled(*old(regs), true)
            }),
    {
        match self.allocate_alarm(self.priority, intr, regs) {
            Some(h) => h,
            None => AlarmHandle::new(0),
        }
    }

    /// Handles the interrupt of alarm `id`: clears it, and processes the
    /// timer queue.
    pub fn on_interrupt(&mut self, id: usize, intr: &mut InterruptCoreRegs, regs: &mut SystimerRegs, xtal_hz: u32) -> (woken: Vec<u32>)
        requires
            old(self).handle_ok(AlarmHandle { id }),
            old(regs).wf(),
            old(intr).wf(),
            xtal_ok(xtal_hz),
            old(self).alarm_ready(),
            ({
                let now = now_micros(*old(regs), xtal_hz);
                let next = next_expiration_of(old(self).queue.tasks@, now as u64);
                next == u64::MAX || (next - now) * ticks_per_us(xtal_hz) <= u64::MAX
            }),
        ensures
            final(regs).wf(),
            final(intr).wf(),
            ({
                let r1 = cleared_interrupt(*old(regs));
                let now = now_micros(*old(regs), xtal_hz);
                let next = next_expiration_of(old(self).queue.tasks@, now as u64);
                &&& final(self).queue.tasks@ == kept_tasks(old(self).queue.tasks@, now as u64)
                &&& woken@ == due_tasks(old(self).queue.tasks@, now as u64)
                &&& *final(regs) == dispatched_regs(r1, old(self).queue_alarm is None, next, now, xtal_hz)
            }),
            final(self).queue_alarm is Some,
            final(self).alarm_ready(),
            old(self).queue_alarm is Some ==> *final(intr) == *old(intr),
            old(self).queue_alarm is None ==>
                routed_and_enabled(*old(intr), *final(intr), SYSTIMER_TARGET0_INTERRUPT as int, old(self).priority),
    {
        self.clear_alarm_interrupt(id, regs);
        self.dispatch(intr, regs, xtal_hz)
    }
}

impl AlarmHandle {
    /// Arms the alarm for `expiration`, unless that is never; `false` when
    /// it is not in the future.
    pub fn update<F: Copy>(&self, driver: &mut EmbassyTimer<F>, expiration: u64, regs: &mut SystimerRegs, xtal_hz: u32) -> (r: bool)
        requires
            old(driver).handle_ok(*self),
            old(regs).wf(),
            xtal_ok(xtal_hz),
            expiration != u64::MAX && expiration > now_micros(*old(regs), xtal_hz) ==>
                (expiration - now_micros(*old(regs), xtal_hz)) * ticks_per_us(xtal_hz) <= u64::MAX,
        ensures
            final(regs).wf(),
            final(driver).timers@ == old(driver).timers@,
            final(driver).alarms@ == old(driver).alarms@,
            final(driver).available == old(driver).available,
            final(driver).queue.tasks@ == old(driver).queue.tasks@,
            final(driver).queue_alarm == old(driver).queue_alarm,
            final(driver).priority == old(driver).priority,
            expiration == u64::MAX ==> r && *final(regs) == *old(regs),
            expiration != u64::MAX ==> {
                &&& r == (expiration > now_micros(*old(regs), xtal_hz))
                &&& r ==> *final(regs) == armed(latched(*old(regs), 0), (expiration - now_micros(*old(regs), xtal_hz)) as u64, xtal_hz)
                &&& !r ==> *final(regs) == work_enabled(latched(*old(regs), 0), false)
            },
    {
        if expiration == u64::MAX {
            true
        } else {
            driver.set_alarm(*self, expiration, regs, xtal_hz)
        }
    }
}

/// Whether the thread-mode executor has been given work since it last
/// looked: the pender sets it, and the executor clears it before polling
/// again.
pub struct ThreadModeSignal {
    pub work: bool,
}

impl ThreadModeSignal {
    /// No work signalled yet.
    pub fn new() -> (r: Self)
        ensures
            !r.work,
    {
        ThreadModeSignal { work: false }
    }

    /// Signals that there is work to be done.
    pub fn pend_thread_mode(&mut self)
        ensures
            final(self).work,
    {
        self.work = true;
    }

    /// What the executor does between two polls: it waits for an interrupt
    /// (`true`) when no work has been signalled, and then clears the signal.
    pub fn wait_impl(&mut self) -> (wait_for_interrupt: bool)
        ensures
            wait_for_interrupt == !old(self).work,
            !final(self).work,
    {
        let wait_for_interrupt = !self.work;
        self.work = false;
        wait_for_interrupt
    }
}

/// After the queue is processed at `now`, every task left is due later,
/// and every task is either woken, left, or dropped as never expiring.
pub proof fn lemma_kept_are_future(tasks: Seq<WaitingTask>, now: u64)
    ensures
        forall|k: int| 0 <= k < kept_tasks(tasks, now).len() ==>
            #[trigger] kept_tasks(tasks, now)[k].expires_at > now && kept_tasks(tasks, now)[k].expires_at != u64::MAX,
        kept_tasks(tasks, now).len() + due_tasks(tasks, now).len() <= tasks.len(),
    decreases tasks.len(),
{
    if tasks.len() > 0 {
        lemma_kept_are_future(tasks.drop_last(), now);
        let kp = kept_tasks(tasks.drop_last(), now);
        let kt = kept_tasks(tasks, now);
        assert forall|k: int| 0 <= k < kt.len() implies
            #[trigger] kt[k].expires_at > now && kt[k].expires_at != u64::MAX by {
            if k < kp.len() {
                assert(kt[k] == kp[k]);
            }
        }
    }
}

} // verus!
