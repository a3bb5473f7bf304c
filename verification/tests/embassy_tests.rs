use esp_hal::embassy::{
    arm, AlarmHandle, AlarmState, EmbassyTimer, RawQueue, ThreadModeSignal, WaitingTask, MAX_SUPPORTED_ALARM_COUNT,
};
use esp_hal::interrupt::{InterruptCoreRegs, Priority};
use esp_hal::system::{PeripheralClockControl, RefCounts, SystemRegs};
use esp_hal::time::now;
use esp_hal::timer::systimer::{SystemTimer, SystimerRegs};
use esp_hal::timer::OneShotTimer;

const XTAL: u32 = 40_000_000;

fn systimer_regs(counter: u64) -> SystimerRegs {
    SystimerRegs {
        conf: 0,
        unit0_op: 0,
        unit1_op: 0,
        unit0_value_hi: (counter >> 32) as u32,
        unit0_value_lo: counter as u32,
        unit1_value_hi: 0,
        unit1_value_lo: 0,
        target_conf: 0,
        trgt_hi: 0,
        trgt_lo: 0,
        comp_load: 0,
        int_ena: 0,
        int_clr: 0,
    }
}

fn intr_regs() -> InterruptCoreRegs {
    InterruptCoreRegs {
        intr_map: vec![5; 64],
        cpu_int_enable: 0,
        cpu_int_type: 0,
        cpu_int_pri: vec![0; 32],
        cpu_int_clear: 0,
        intr_status: [0, 0],
    }
}

fn one_shot() -> OneShotTimer<u32> {
    let mut ctl = PeripheralClockControl { ref_counts: RefCounts::new() };
    let mut sys = SystemRegs { perip_clk_en0: 0, perip_rst_en0: 0, cpu_per_conf: 0, cpu_intr_from_cpu_3: 0 };
    OneShotTimer::new(SystemTimer::new(&mut ctl, &mut sys).alarm0)
}

fn task(task: u32, expires_at: u64) -> WaitingTask {
    WaitingTask { task, expires_at }
}

#[test]
fn next_expiration_takes_out_due_and_never_expiring_tasks() {
    let mut queue = RawQueue::new();
    queue.tasks = vec![task(1, 100), task(2, 50), task(3, u64::MAX), task(4, 300), task(5, 200)];
    let (next, woken) = queue.next_expiration(100);
    assert_eq!(next, 200);
    assert_eq!(woken, vec![1, 2]);
    assert_eq!(queue.tasks, vec![task(4, 300), task(5, 200)]);
}

#[test]
fn next_expiration_of_an_empty_queue_is_never() {
    let mut queue = RawQueue::new();
    let (next, woken) = queue.next_expiration(0);
    assert_eq!(next, u64::MAX);
    assert!(woken.is_empty());
}

#[test]
fn dequeue_at_next_expiration_shrinks_the_queue() {
    let mut queue = RawQueue::new();
    queue.tasks = vec![task(1, 10), task(2, 30), task(3, 20)];
    let (next, _) = queue.next_expiration(5);
    assert_eq!(next, 10);
    let before = queue.tasks.len();
    queue.next_expiration(next);
    assert!(queue.tasks.len() < before);
    assert!(queue.tasks.iter().all(|t| t.expires_at > next));
}

#[test]
fn now_counts_sixteen_ticks_per_microsecond() {
    let mut r = systimer_regs(1600);
    assert_eq!(now(&mut r, XTAL).duration_since_epoch().as_micros(), 100);
}

#[test]
fn arm_sets_the_target_after_now() {
    let mut timer = one_shot();
    let mut r = systimer_regs(1600);
    assert!(arm(&mut timer, &mut r, 110, XTAL));
    assert_eq!(r.trgt_lo, 1600 + 160);
    assert_eq!(r.conf & (1 << 24), 1 << 24);
}

#[test]
fn arm_in_the_past_stops_the_timer() {
    let mut timer = one_shot();
    let mut r = systimer_regs(1600);
    r.conf = 1 << 24;
    assert!(!arm(&mut timer, &mut r, 100, XTAL));
    assert_eq!(r.conf & (1 << 24), 0);
}

#[test]
fn arm_halves_a_timeout_the_counter_cannot_take() {
    let mut timer = one_shot();
    let mut r = systimer_regs(0);
    assert!(arm(&mut timer, &mut r, 1u64 << 50, XTAL));
    // 2^50 us is 2^54 ticks; halved three times to 2^51 ticks
    assert_eq!(r.trgt_hi, 1 << 19);
    assert_eq!(r.trgt_lo, 0);
}

#[test]
fn driver_allocates_its_alarm_once() {
    let mut driver: EmbassyTimer<u32> = EmbassyTimer::new(7, vec![one_shot()]);
    assert_eq!(MAX_SUPPORTED_ALARM_COUNT, 1);
    assert!(driver.available.is_none());
    let mut r = systimer_regs(0);
    let mut intr = intr_regs();
    driver.init(&mut r);
    assert_eq!(driver.available, Some(0));
    let handle = driver.allocate_alarm(Priority::Priority2, &mut intr, &mut r);
    assert_eq!(handle, Some(AlarmHandle::new(0)));
    assert!(matches!(driver.alarms[0], AlarmState::Initialized(0)));
    assert_eq!(driver.available, Some(1));
    assert_eq!(r.int_ena & 1, 1);
    assert_eq!(intr.intr_map[37], 2);
    assert_eq!(intr.cpu_int_enable, 1 << 2);
    let handler = driver.timers[0].handler.as_ref().unwrap();
    assert_eq!(handler.f, 7);
    assert_eq!(handler.prio, Priority::Priority2);
    assert_eq!(driver.allocate_alarm(Priority::Priority2, &mut intr, &mut r), None);
}

#[test]
fn dispatch_wakes_due_tasks_and_arms_for_the_next() {
    let mut driver: EmbassyTimer<u32> = EmbassyTimer::new(7, vec![one_shot()]);
    let mut r = systimer_regs(1600);
    let mut intr = intr_regs();
    driver.init(&mut r);
    driver.queue.tasks = vec![task(1, 50), task(2, 200), task(3, 100)];
    let woken = driver.dispatch(&mut intr, &mut r, XTAL);
    assert_eq!(woken, vec![1, 3]);
    assert_eq!(driver.queue.tasks, vec![task(2, 200)]);
    assert_eq!(driver.queue_alarm, Some(AlarmHandle::new(0)));
    assert_eq!(driver.priority, Priority::Priority15);
    // armed for 200 us: 100 us after the counter's 1600 ticks
    assert_eq!(r.trgt_lo, 1600 + 1600);
    assert_eq!(r.int_ena & 1, 1);
    // the alarm's interrupt is routed at the queue's priority
    assert_eq!(intr.intr_map[37], 15);
    assert_eq!(intr.cpu_int_enable, 1 << 15);

    r.unit0_value_lo = 3200;
    intr.intr_map[37] = 6;
    let woken = driver.on_interrupt(0, &mut intr, &mut r, XTAL);
    // the alarm is set up already: the routing is left as it is
    assert_eq!(intr.intr_map[37], 6);
    assert_eq!(woken, vec![2]);
    assert!(driver.queue.tasks.is_empty());
    assert_eq!(r.int_clr, 1);
}

#[test]
fn set_up_alarm_allocates_at_the_queue_priority() {
    let mut driver: EmbassyTimer<u32> = EmbassyTimer::new(9, vec![one_shot()]);
    let mut r = systimer_regs(0);
    let mut intr = intr_regs();
    driver.init(&mut r);
    assert_eq!(driver.set_up_alarm(&mut intr, &mut r), AlarmHandle::new(0));
    assert_eq!(driver.timers[0].handler.as_ref().unwrap().prio, Priority::Priority15);
}

#[test]
fn executor_sleeps_only_without_work() {
    let mut signal = ThreadModeSignal::new();
    assert!(signal.wait_impl());
    signal.pend_thread_mode();
    assert!(!signal.wait_impl());
    assert!(!signal.work);
    assert!(signal.wait_impl());
}
