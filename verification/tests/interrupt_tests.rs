use esp_hal::interrupt::{
    _setup_interrupts, assigned_cpu_interrupt, configured_interrupts, disable, enable, init_vectoring, Error, interrupts_to_handle, priority,
    set_kind, set_priority, status, CpuInterrupt, InterruptCoreRegs, InterruptHandler, InterruptKind,
    InterruptStatus, Priority,
};
use esp_hal::interrupt::software::SoftwareInterrupt;
use esp_hal::system::SystemRegs;

fn regs() -> InterruptCoreRegs {
    InterruptCoreRegs {
        intr_map: vec![0; 64],
        cpu_int_enable: 0,
        cpu_int_type: 0,
        cpu_int_pri: vec![0; 32],
        cpu_int_clear: 0,
        intr_status: [0, 0],
    }
}

fn collect(status: &InterruptStatus) -> Vec<u8> {
    let mut it = status.iterator();
    let mut out = Vec::new();
    while let Some(n) = it.next() {
        out.push(n);
    }
    out
}

#[test]
fn status_iterator_yields_set_bits_ascending() {
    let mut s = InterruptStatus::empty();
    s.set(40);
    s.set(3);
    s.set(31);
    s.set(32);
    s.set(63);
    assert_eq!(collect(&s), vec![3, 31, 32, 40, 63]);
}

#[test]
fn status_iterator_of_empty_status_yields_nothing() {
    let s = InterruptStatus::empty();
    assert_eq!(collect(&s), Vec::<u8>::new());
}

#[test]
fn status_from_words() {
    let s = InterruptStatus::from(0b1010, 1);
    assert_eq!(collect(&s), vec![1, 3, 32]);
}

#[test]
fn handler_keeps_function_and_priority() {
    let h = InterruptHandler::new(7u32, Priority::Priority3);
    assert_eq!(h.handler(), 7);
    assert_eq!(h.priority(), Priority::Priority3);
}

#[test]
fn priority_bounds() {
    assert_eq!(Priority::max(), Priority::Priority15);
    assert_eq!(Priority::min(), Priority::Priority1);
    assert_eq!(Priority::from_level(9).as_u8(), 9);
}

#[test]
fn cpu_interrupt_numbers() {
    assert_eq!(CpuInterrupt::from_number(17).number(), 17);
    assert_eq!(CpuInterrupt::Interrupt31.number(), 31);
}

#[test]
fn init_vectoring_reserves_one_interrupt_per_priority() {
    let mut r = regs();
    r.cpu_int_type = 0xffff_ffff;
    init_vectoring(&mut r);
    assert_eq!(r.cpu_int_enable, 0x0000_fffe);
    assert_eq!(r.cpu_int_type, 0xffff_0001);
    for n in 1..16 {
        assert_eq!(r.cpu_int_pri[n], n as u32);
    }
    assert_eq!(r.cpu_int_pri[16], 0);
}

#[test]
fn kind_and_priority_of_a_cpu_interrupt() {
    let mut r = regs();
    set_kind(&mut r, CpuInterrupt::Interrupt5, InterruptKind::Edge);
    assert_eq!(r.cpu_int_type, 1 << 5);
    set_kind(&mut r, CpuInterrupt::Interrupt5, InterruptKind::Level);
    assert_eq!(r.cpu_int_type, 0);
    set_priority(&mut r, CpuInterrupt::Interrupt5, Priority::Priority7);
    assert_eq!(priority(&r, CpuInterrupt::Interrupt5), Priority::Priority7);
}

#[test]
fn assigned_cpu_interrupt_reads_the_map() {
    let mut r = regs();
    r.intr_map[10] = 4;
    assert_eq!(assigned_cpu_interrupt(&r, 10), Some(CpuInterrupt::Interrupt4));
    assert_eq!(assigned_cpu_interrupt(&r, 11), None);
    disable(&mut r, 10);
    assert_eq!(assigned_cpu_interrupt(&r, 10), None);
}

#[test]
fn configured_interrupts_filters_by_priority() {
    let mut r = regs();
    init_vectoring(&mut r);
    r.intr_map[2] = 3; // priority 3
    r.intr_map[35] = 3; // priority 3
    r.intr_map[7] = 5; // priority 5
    let mut s = InterruptStatus::empty();
    s.set(2);
    s.set(7);
    s.set(35);
    s.set(9); // not routed
    let at3 = configured_interrupts(&r, s, Priority::Priority3);
    assert_eq!(collect(&at3), vec![2, 35]);
    let at5 = configured_interrupts(&r, s, Priority::Priority5);
    assert_eq!(collect(&at5), vec![7]);
}

#[test]
fn interrupts_to_handle_clears_and_selects() {
    let mut r = regs();
    init_vectoring(&mut r);
    r.intr_map[21] = 1;
    r.intr_map[22] = 2;
    r.intr_status = [(1 << 21) | (1 << 22), 0];
    let st = status(&r);
    assert_eq!(collect(&st), vec![21, 22]);
    let to_handle = interrupts_to_handle(&mut r, CpuInterrupt::Interrupt2);
    assert_eq!(collect(&to_handle), vec![22]);
    assert_eq!(r.cpu_int_clear, 1 << 2);
}

#[test]
fn software_interrupt_three_raises() {
    let mut sys = SystemRegs { perip_clk_en0: 0, perip_rst_en0: 0, cpu_per_conf: 0, cpu_intr_from_cpu_3: 0 };
    let si: SoftwareInterrupt<3> = SoftwareInterrupt::steal();
    si.raise(&mut sys);
    assert_eq!(sys.cpu_intr_from_cpu_3, 1);
}

#[test]
fn setup_disables_every_peripheral_interrupt() {
    let mut r = regs();
    r.intr_map = (0..64).map(|n| n % 32).collect();
    r.cpu_int_enable = 1 << 20;
    _setup_interrupts(&mut r);
    assert!(r.intr_map.iter().all(|&m| m == 0));
    assert_eq!(r.cpu_int_enable, (1 << 20) | 0x0000_fffe);
    assert_eq!(r.cpu_int_pri[15], 15);
}

#[test]
fn enable_routes_to_the_cpu_interrupt_of_the_priority() {
    let mut r = regs();
    r.intr_map[9] = 7;
    assert_eq!(enable(&mut r, 37, Priority::Priority4), Ok(()));
    assert_eq!(r.intr_map[37], 4);
    assert_eq!(r.intr_map[9], 7);
    assert_eq!(r.cpu_int_enable, 1 << 4);
    assert_eq!(enable(&mut r, 9, Priority::Priority15), Ok(()));
    assert_eq!(r.intr_map[9], 15);
    assert_eq!(r.cpu_int_enable, (1 << 4) | (1 << 15));
}

#[test]
fn enable_without_a_priority_is_refused() {
    let mut r = regs();
    r.intr_map[37] = 6;
    assert_eq!(enable(&mut r, 37, Priority::NoPriority), Err(Error::InvalidInterruptPriority));
    assert_eq!(r.intr_map[37], 6);
    assert_eq!(r.cpu_int_enable, 0);
}

#[test]
fn an_enabled_interrupt_is_handled_at_its_priority() {
    let mut r = regs();
    _setup_interrupts(&mut r);
    enable(&mut r, 22, Priority::Priority5).unwrap();
    assert_eq!(assigned_cpu_interrupt(&r, 22), Some(CpuInterrupt::Interrupt5));
    assert_eq!(priority(&r, CpuInterrupt::Interrupt5), Priority::Priority5);
    let mut pending = InterruptStatus::empty();
    pending.set(22);
    pending.set(23);
    assert_eq!(collect(&configured_interrupts(&r, pending, Priority::Priority5)), vec![22]);
    assert_eq!(collect(&configured_interrupts(&r, pending, Priority::Priority4)), Vec::<u8>::new());
}
