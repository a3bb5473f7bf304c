//! Interrupt support: routing peripheral interrupt sources to CPU
//! interrupts, and finding the sources to handle when a CPU interrupt fires.
//!
//! CPU interrupts 1 through 15 are reserved, one for each of the interrupt
//! priorities.
use vstd::prelude::*;
use vstd::std_specs::bits::{axiom_u32_trailing_zeros, u32_trailing_zeros};
use crate::bits::{bit_of, field, field_of, lemma_bit_roundtrip, set_bit, with_bit};

pub mod software;

verus! {

/// A handler together with the priority at which it is to run.
pub struct InterruptHandler<F> {
    pub f: F,
    pub prio: Priority,
}

impl<F: Copy> InterruptHandler<F> {
    /// Creates a handler that calls `f` at priority `prio`.
    pub fn new(f: F, prio: Priority) -> (r: Self)
        ensures
            r.f == f,
            r.prio == prio,
    {
        InterruptHandler { f, prio }
    }

    /// The function to be called.
    pub fn handler(&self) -> (r: F)
        ensures
            r == self.f,
    {
        self.f
    }

    /// The priority to be used when registering the interrupt.
    pub fn priority(&self) -> (r: Priority)
        ensures
            r == self.prio,
    {
        self.prio
    }
}

/// The number of words of peripheral interrupt status.
pub const STATUS_WORDS: usize = 2;

/// The number of peripheral interrupt status bits.
pub const STATUS_BITS: usize = 64;

/// Whether bit `n % 32` of word `n / 32` of `words` is set.
pub open spec fn status_bit(words: Seq<u32>, n: int) -> bool {
    0 <= n < 64 && bit_of(words[n / 32], (n % 32) as u32)
}

/// Peripheral interrupt status bits: bit `n % 32` of word `n / 32` is that of
/// peripheral interrupt `n`.
#[derive(Clone, Copy)]
pub struct InterruptStatus {
    pub status: [u32; 2],
}

impl InterruptStatus {
    /// Whether bit `n` is set.
    pub open spec fn is_set(self, n: int) -> bool {
        status_bit(self.status@, n)
    }

    /// No bit set.
    pub fn empty() -> (r: Self)
        ensures
            forall|n: int| !r.is_set(n),
    {
        proof {
            assert forall|j: u32| j < 32 implies !#[trigger] bit_of(0u32, j) by {
                assert((0u32 >> j) & 1u32 == 0u32) by (bit_vector);
            }
        }
        InterruptStatus { status: [0u32; 2] }
    }

    /// The status made of two words.
    pub fn from(w0: u32, w1: u32) -> (r: Self)
        ensures
            r.status@ == seq![w0, w1],
    {
        InterruptStatus { status: [w0, w1] }
    }

    /// Sets the given interrupt status bit.
    pub fn set(&mut self, interrupt: u8)
        requires
            interrupt < 64,
        ensures
            forall|n: int| final(self).is_set(n) == (old(self).is_set(n) || n == interrupt),
    {
        let i: usize = interrupt as usize / 32;
        let b: u32 = (interrupt % 32) as u32;
        let w = self.status[i];
        self.status[i] = set_bit(w, b, true);
        proof {
            lemma_bit_roundtrip(w, b, true);
            assert forall|n: int| self.is_set(n) == (old(self).is_set(n) || n == interrupt) by {
                if 0 <= n < 64 && n / 32 == i && n != interrupt {
                    assert(((n % 32) as u32) != b);
                }
            }
        }
    }

    /// An iterator over the set bits, lowest first.
    pub fn iterator(&self) -> (r: InterruptStatusIterator)
        ensures
            r.status == *self,
            r.idx == 0,
            forall|n: int| r.pending(n) == self.is_set(n),
    {
        InterruptStatusIterator { status: *self, idx: 0 }
    }
}

/// An iterator over set interrupt status bits.
pub struct InterruptStatusIterator {
    pub status: InterruptStatus,
    pub idx: usize,
}

impl InterruptStatusIterator {
    /// Whether bit `n` is still to be yielded.
    pub open spec fn pending(self, n: int) -> bool {
        32 * self.idx <= n && self.status.is_set(n)
    }

    /// Yields the lowest bit still to be yielded and clears it, or `None`
    /// when there is none.
    pub fn next(&mut self) -> (r: Option<u8>)
        ensures
            match r {
                Some(n) => {
                    &&& old(self).pending(n as int)
                    &&& forall|m: int| m < n ==> !old(self).pending(m)
                    &&& forall|m: int| final(self).pending(m) == (old(self).pending(m) && m != n)
                },
                None => forall|m: int| !old(self).pending(m) && !final(self).pending(m),
            },
    {
        let mut i = self.idx;
        while i < 2
            invariant
                old(self).idx <= i,
                *self == *old(self),
                forall|m: int| 32 * old(self).idx <= m < 32 * i ==> !old(self).status.is_set(m),
            decreases 2 - i,
        {
            let w = self.status.status[i];
            if w != 0 {
                let bit = w.trailing_zeros();
                proof { axiom_u32_trailing_zeros(w); }
                let cleared = w & ((!1u32) << bit);
                proof {
                    assert(cleared == w & !(1u32 << bit)) by (bit_vector)
                        requires
                            cleared == w & ((!1u32) << bit),
                            bit < 32,
                            w << ((32 - bit) as u32) == 0u32;
                    lemma_bit_roundtrip(w, bit, false);
                }
                self.idx = i;
                self.status.status[i] = cleared;
                let n: u8 = (bit + 32 * i as u32) as u8;
                proof {
                    assert(n as int / 32 == i as int && n as int % 32 == bit as int);
                    assert forall|m: int| m < n implies !old(self).pending(m) by {
                        if 32 * i <= m < n {
                            let j = (m % 32) as u32;
                            assert(j < bit);
                            assert((w >> j) & 1u32 == 0u32);
                        }
                    }
                    assert forall|m: int| self.pending(m) == (old(self).pending(m) && m != n) by {
                        if 32 * i <= m < 32 * i + 32 {
                            let j = (m % 32) as u32;
                            if j < bit {
                                assert((w >> j) & 1u32 == 0u32);
                            }
                        }
                    }
                }
                return Some(n);
            }
            proof {
                assert forall|m: int| 32 * old(self).idx <= m < 32 * (i + 1) implies !old(self).status.is_set(m) by {
                    if 32 * i <= m < 32 * (i + 1) {
                        let j = (m % 32) as u32;
                        assert((0u32 >> j) & 1u32 == 0u32) by (bit_vector);
                    }
                }
            }
            i = i + 1;
        }
        self.idx = usize::MAX;
        None
    }
}

/// The kind of a CPU interrupt.
#[derive(Debug, Clone, Copy, PartialEq, Eq, Structural)]
pub enum InterruptKind {
    /// Level interrupt.
    Level,
    /// Edge interrupt.
    Edge,
}

/// The CPU interrupts.
#[derive(Debug, Clone, Copy, PartialEq, Eq, Structural)]
pub enum CpuInterrupt {
    /// Interrupt number 1.
    Interrupt1,
    /// Interrupt number 2.
    Interrupt2,
    /// Interrupt number 3.
    Interrupt3,
    /// Interrupt number 4.
    Interrupt4,
    /// Interrupt number 5.
    Interrupt5,
    /// Interrupt number 6.
    Interrupt6,
    /// Interrupt number 7.
    Interrupt7,
    /// Interrupt number 8.
    Interrupt8,
    /// Interrupt number 9.
    Interrupt9,
    /// Interrupt number 10.
    Interrupt10,
    /// Interrupt number 11.
    Interrupt11,
    /// Interrupt number 12.
    Interrupt12,
    /// Interrupt number 13.
    Interrupt13,
    /// Interrupt number 14.
    Interrupt14,
    /// Interrupt number 15.
    Interrupt15,
    /// Interrupt number 16.
    Interrupt16,
    /// Interrupt number 17.
    Interrupt17,
    /// Interrupt number 18.
    Interrupt18,
    /// Interrupt number 19.
    Interrupt19,
    /// Interrupt number 20.
    Interrupt20,
    /// Interrupt number 21.
    Interrupt21,
    /// Interrupt number 22.
    Interrupt22,
    /// Interrupt number 23.
    Interrupt23,
    /// Interrupt number 24.
    Interrupt24,
    /// Interrupt number 25.
    Interrupt25,
    /// Interrupt number 26.
    Interrupt26,
    /// Interrupt number 27.
    Interrupt27,
    /// Interrupt number 28.
    Interrupt28,
    /// Interrupt number 29.
    Interrupt29,
    /// Interrupt number 30.
    Interrupt30,
    /// Interrupt number 31.
    Interrupt31,
}

impl CpuInterrupt {
    /// The interrupt's number.
    pub open spec fn num(self) -> u32 {
        match self {
            CpuInterrupt::Interrupt1 => 1,
            CpuInterrupt::Interrupt2 => 2,
            CpuInterrupt::Interrupt3 => 3,
            CpuInterrupt::Interrupt4 => 4,
            CpuInterrupt::Interrupt5 => 5,
            CpuInterrupt::Interrupt6 => 6,
            CpuInterrupt::Interrupt7 => 7,
            CpuInterrupt::Interrupt8 => 8,
            CpuInterrupt::Interrupt9 => 9,
            CpuInterrupt::Interrupt10 => 10,
            CpuInterrupt::Interrupt11 => 11,
            CpuInterrupt::Interrupt12 => 12,
            CpuInterrupt::Interrupt13 => 13,
            CpuInterrupt::Interrupt14 => 14,
            CpuInterrupt::Interrupt15 => 15,
            CpuInterrupt::Interrupt16 => 16,
            CpuInterrupt::Interrupt17 => 17,
            CpuInterrupt::Interrupt18 => 18,
            CpuInterrupt::Interrupt19 => 19,
            CpuInterrupt::Interrupt20 => 20,
            CpuInterrupt::Interrupt21 => 21,
            CpuInterrupt::Interrupt22 => 22,
            CpuInterrupt::Interrupt23 => 23,
            CpuInterrupt::Interrupt24 => 24,
            CpuInterrupt::Interrupt25 => 25,
            CpuInterrupt::Interrupt26 => 26,
            CpuInterrupt::Interrupt27 => 27,
            CpuInterrupt::Interrupt28 => 28,
            CpuInterrupt::Interrupt29 => 29,
            CpuInterrupt::Interrupt30 => 30,
            CpuInterrupt::Interrupt31 => 31,
        }
    }

    /// The interrupt's number.
    pub fn number(self) -> (r: u32)
        ensures
            r == self.num(),
            1 <= r <= 31,
    {
        match self {
            CpuInterrupt::Interrupt1 => 1,
            CpuInterrupt::Interrupt2 => 2,
            CpuInterrupt::Interrupt3 => 3,
            CpuInterrupt::Interrupt4 => 4,
            CpuInterrupt::Interrupt5 => 5,
            CpuInterrupt::Interrupt6 => 6,
            CpuInterrupt::Interrupt7 => 7,
            CpuInterrupt::Interrupt8 => 8,
            CpuInterrupt::Interrupt9 => 9,
            CpuInterrupt::Interrupt10 => 10,
            CpuInterrupt::Interrupt11 => 11,
            CpuInterrupt::Interrupt12 => 12,
            CpuInterrupt::Interrupt13 => 13,
            CpuInterrupt::Interrupt14 => 14,
            CpuInterrupt::Interrupt15 => 15,
            CpuInterrupt::Interrupt16 => 16,
            CpuInterrupt::Interrupt17 => 17,
            CpuInterrupt::Interrupt18 => 18,
            CpuInterrupt::Interrupt19 => 19,
            CpuInterrupt::Interrupt20 => 20,
            CpuInterrupt::Interrupt21 => 21,
            CpuInterrupt::Interrupt22 => 22,
            CpuInterrupt::Interrupt23 => 23,
            CpuInterrupt::Interrupt24 => 24,
            CpuInterrupt::Interrupt25 => 25,
            CpuInterrupt::Interrupt26 => 26,
            CpuInterrupt::Interrupt27 => 27,
            CpuInterrupt::Interrupt28 => 28,
            CpuInterrupt::Interrupt29 => 29,
            CpuInterrupt::Interrupt30 => 30,
            CpuInterrupt::Interrupt31 => 31,
        }
    }

    /// The CPU interrupt of number `n`.
    pub fn from_number(n: u32) -> (r: Self)
        requires
            1 <= n <= 31,
        ensures
            r.num() == n,
    {
        match n {
            1 => CpuInterrupt::Interrupt1,
            2 => CpuInterrupt::Interrupt2,
            3 => CpuInterrupt::Interrupt3,
            4 => CpuInterrupt::Interrupt4,
            5 => CpuInterrupt::Interrupt5,
            6 => CpuInterrupt::Interrupt6,
            7 => CpuInterrupt::Interrupt7,
            8 => CpuInterrupt::Interrupt8,
            9 => CpuInterrupt::Interrupt9,
            10 => CpuInterrupt::Interrupt10,
            11 => CpuInterrupt::Interrupt11,
            12 => CpuInterrupt::Interrupt12,
            13 => CpuInterrupt::Interrupt13,
            14 => CpuInterrupt::Interrupt14,
            15 => CpuInterrupt::Interrupt15,
            16 => CpuInterrupt::Interrupt16,
            17 => CpuInterrupt::Interrupt17,
            18 => CpuInterrupt::Interrupt18,
            19 => CpuInterrupt::Interrupt19,
            20 => CpuInterrupt::Interrupt20,
            21 => CpuInterrupt::Interrupt21,
            22 => CpuInterrupt::Interrupt22,
            23 => CpuInterrupt::Interrupt23,
            24 => CpuInterrupt::Interrupt24,
            25 => CpuInterrupt::Interrupt25,
            26 => CpuInterrupt::Interrupt26,
            27 => CpuInterrupt::Interrupt27,
            28 => CpuInterrupt::Interrupt28,
            29 => CpuInterrupt::Interrupt29,
            30 => CpuInterrupt::Interrupt30,
            _ => CpuInterrupt::Interrupt31,
        }
    }
}

/// Interrupt priority levels.
#[derive(Debug, Clone, Copy, PartialEq, Eq, Structural, PartialOrd, Ord, Hash)]
pub enum Priority {
    /// No priority.
    NoPriority,
    /// Priority level 1.
    Priority1,
    /// Priority level 2.
    Priority2,
    /// Priority level 3.
    Priority3,
    /// Priority level 4.
    Priority4,
    /// Priority level 5.
    Priority5,
    /// Priority level 6.
    Priority6,
    /// Priority level 7.
    Priority7,
    /// Priority level 8.
    Priority8,
    /// Priority level 9.
    Priority9,
    /// Priority level 10.
    Priority10,
    /// Priority level 11.
    Priority11,
    /// Priority level 12.
    Priority12,
    /// Priority level 13.
    Priority13,
    /// Priority level 14.
    Priority14,
    /// Priority level 15.
    Priority15,
}

impl Priority {
    /// The priority's level.
    pub open spec fn level(self) -> u8 {
        match self {
            Priority::NoPriority => 0,
            Priority::Priority1 => 1,
            Priority::Priority2 => 2,
            Priority::Priority3 => 3,
            Priority::Priority4 => 4,
            Priority::Priority5 => 5,
            Priority::Priority6 => 6,
            Priority::Priority7 => 7,
            Priority::Priority8 => 8,
            Priority::Priority9 => 9,
            Priority::Priority10 => 10,
            Priority::Priority11 => 11,
            Priority::Priority12 => 12,
            Priority::Priority13 => 13,
            Priority::Priority14 => 14,
            Priority::Priority15 => 15,
        }
    }

    /// The priority's level.
    pub fn as_u8(self) -> (r: u8)
        ensures
            r == self.level(),
            r <= 15,
    {
        match self {
            Priority::NoPriority => 0,
            Priority::Priority1 => 1,
            Priority::Priority2 => 2,
            Priority::Priority3 => 3,
            Priority::Priority4 => 4,
            Priority::Priority5 => 5,
            Priority::Priority6 => 6,
            Priority::Priority7 => 7,
            Priority::Priority8 => 8,
            Priority::Priority9 => 9,
            Priority::Priority10 => 10,
            Priority::Priority11 => 11,
            Priority::Priority12 => 12,
            Priority::Priority13 => 13,
            Priority::Priority14 => 14,
            Priority::Priority15 => 15,
        }
    }

    /// The priority of level `n`.
    pub fn from_level(n: u8) -> (r: Self)
        requires
            n <= 15,
        ensures
            r.level() == n,
    {
        match n {
            0 => Priority::NoPriority,
            1 => Priority::Priority1,
            2 => Priority::Priority2,
            3 => Priority::Priority3,
            4 => Priority::Priority4,
            5 => Priority::Priority5,
            6 => Priority::Priority6,
            7 => Priority::Priority7,
            8 => Priority::Priority8,
            9 => Priority::Priority9,
            10 => Priority::Priority10,
            11 => Priority::Priority11,
            12 => Priority::Priority12,
            13 => Priority::Priority13,
            14 => Priority::Priority14,
            _ => Priority::Priority15,
        }
    }

    /// The maximum interrupt priority.
    pub fn max() -> (r: Priority)
        ensures
            r == Priority::Priority15,
            forall|p: Priority| p.level() <= r.level(),
    {
        Priority::Priority15
    }

    /// The minimum interrupt priority.
    pub fn min() -> (r: Priority)
        ensures
            r == Priority::Priority1,
            forall|p: Priority| p != Priority::NoPriority ==> r.level() <= p.level(),
    {
        Priority::Priority1
    }
}

/// The map value of a disabled peripheral interrupt.
pub const DISABLED_CPU_INTERRUPT: u32 = 0;

/// The offset of CPU interrupt numbers in the map values.
pub const EXTERNAL_INTERRUPT_OFFSET: u32 = 0;

/// The interrupt controller's registers.
pub struct InterruptCoreRegs {
    /// The CPU interrupt that each peripheral interrupt is mapped to.
    pub intr_map: Vec<u32>,
    /// `CPU_INT_ENABLE`.
    pub cpu_int_enable: u32,
    /// `CPU_INT_TYPE`: set for an edge interrupt.
    pub cpu_int_type: u32,
    /// `CPU_INT_PRI_n`, for each CPU interrupt.
    pub cpu_int_pri: Vec<u32>,
    /// `CPU_INT_CLEAR`.
    pub cpu_int_clear: u32,
    /// `INTR_STATUS_REG_0` and `INTR_STATUS_REG_1`.
    pub intr_status: [u32; 2],
}

impl InterruptCoreRegs {
    /// A map for each status bit, each a 5-bit field; a priority register
    /// for each CPU interrupt.
    pub open spec fn wf(&self) -> bool {
        &&& self.intr_map@.len() == 64
        &&& forall|i: int| 0 <= i < 64 ==> #[trigger] self.intr_map@[i] < 32
        &&& self.cpu_int_pri@.len() == 32
    }

    /// The registers after a write that leaves all but the given fields.
    pub open spec fn same_except_map(&self, other: &Self) -> bool {
        &&& self.cpu_int_enable == other.cpu_int_enable
        &&& self.cpu_int_type == other.cpu_int_type
        &&& self.cpu_int_pri@ == other.cpu_int_pri@
        &&& self.cpu_int_clear == other.cpu_int_clear
        &&& self.intr_status == other.intr_status
    }
}

/// The CPU interrupt that peripheral interrupt `n` is routed to, if any.
pub open spec fn assigned(regs: InterruptCoreRegs, n: int) -> Option<CpuInterrupt> {
    let v = regs.intr_map@[n];
    if v > 0 && v != DISABLED_CPU_INTERRUPT {
        Some(choose|c: CpuInterrupt| c.num() == v - EXTERNAL_INTERRUPT_OFFSET)
    } else {
        None
    }
}

/// The priority that CPU interrupt `c` is configured with.
pub open spec fn priority_of(regs: InterruptCoreRegs, c: CpuInterrupt) -> u32 {
    field_of(regs.cpu_int_pri@[c.num() as int], 0, 4)
}

/// Whether peripheral interrupt `n` is routed to a CPU interrupt of the given
/// priority.
pub open spec fn routed_at(regs: InterruptCoreRegs, n: int, priority: Priority) -> bool {
    match assigned(regs, n) {
        Some(c) => priority_of(regs, c) == priority.level(),
        None => false,
    }
}

/// Disables the given peripheral interrupt.
pub fn disable(regs: &mut InterruptCoreRegs, interrupt: u8)
    requires
        old(regs).wf(),
        interrupt < 64,
    ensures
        final(regs).wf(),
        final(regs).intr_map@ == old(regs).intr_map@.update(interrupt as int, DISABLED_CPU_INTERRUPT),
        final(regs).same_except_map(old(regs)),
{
    regs.intr_map.set(interrupt as usize, DISABLED_CPU_INTERRUPT);
}

/// Interrupt errors.
#[derive(Debug, Clone, Copy, PartialEq, Eq, Structural)]
pub enum Error {
    /// The priority is not one that an interrupt can be enabled at.
    InvalidInterruptPriority,
}

/// The registers `new` after peripheral interrupt `n` is enabled at `level`
/// in `old`: it is mapped to the CPU interrupt reserved for the level, and
/// that CPU interrupt is enabled; nothing else changes.
pub open spec fn routed_and_enabled(old: InterruptCoreRegs, new: InterruptCoreRegs, n: int, level: Priority) -> bool {
    &&& new.intr_map@ == old.intr_map@.update(n, (level.level() as u32 + EXTERNAL_INTERRUPT_OFFSET) as u32)
    &&& new.cpu_int_enable == with_bit(old.cpu_int_enable, level.level() as u32, true)
    &&& new.cpu_int_type == old.cpu_int_type
    &&& new.cpu_int_pri@ == old.cpu_int_pri@
    &&& new.cpu_int_clear == old.cpu_int_clear
    &&& new.intr_status == old.intr_status
}

/// Maps peripheral interrupt `interrupt` to CPU interrupt `which`.
pub fn map(regs: &mut InterruptCoreRegs, interrupt: u8, which: CpuInterrupt)
    requires
        old(regs).wf(),
        interrupt < 64,
    ensures
        final(regs).wf(),
        final(regs).intr_map@ == old(regs).intr_map@.update(interrupt as int, (which.num() + EXTERNAL_INTERRUPT_OFFSET) as u32),
        final(regs).same_except_map(old(regs)),
{
    let cpu_interrupt_number = which.number();
    regs.intr_map.set(interrupt as usize, cpu_interrupt_number + EXTERNAL_INTERRUPT_OFFSET);
}

/// Enables peripheral interrupt `interrupt` at priority `level`: maps it to
/// the CPU interrupt reserved for the level and enables that CPU interrupt.
/// Without a priority nothing is changed and the priority is refused.
pub fn enable(regs: &mut InterruptCoreRegs, interrupt: u8, level: Priority) -> (r: Result<(), Error>)
    requires
        old(regs).wf(),
        interrupt < 64,
    ensures
        final(regs).wf(),
        level == Priority::NoPriority ==> {
            &&& r == Err::<(), Error>(Error::InvalidInterruptPriority)
            &&& final(regs).intr_map@ == old(regs).intr_map@
            &&& final(regs).same_except_map(old(regs))
        },
        level != Priority::NoPriority ==> {
            &&& r == Ok::<(), Error>(())
            &&& routed_and_enabled(*old(regs), *final(regs), interrupt as int, level)
        },
{
    if let Priority::NoPriority = level {
        return Err(Error::InvalidInterruptPriority);
    }
    let prio = level.as_u8();
    let which = CpuInterrupt::from_number(priority_to_interrupt((prio - 1) as usize));
    map(regs, interrupt, which);
    let ghost mapped = regs.intr_map@;
    enable_cpu_interrupt(regs, which);
    assert(regs.intr_map@ == mapped);
    Ok(())
}

/// Once the CPU interrupts reserved for the priorities carry their own
/// priority (as `init_vectoring` leaves them), a peripheral interrupt that
/// is enabled at a priority is assigned the CPU interrupt `c` reserved for
/// that priority, which is enabled, and so is routed at that priority.
pub proof fn lemma_enabled_interrupt_routed_at(
    old: InterruptCoreRegs,
    new: InterruptCoreRegs,
    n: int,
    level: Priority,
    c: CpuInterrupt,
)
    requires
        old.wf(),
        0 <= n < 64,
        level != Priority::NoPriority,
        c.num() == level.level(),
        forall|k: int| 1 <= k <= 15 ==> #[trigger] old.cpu_int_pri@[k] == k as u32,
        routed_and_enabled(old, new, n, level),
    ensures
        assigned(new, n) == Some(c),
        priority_of(new, c) == level.level(),
        bit_of(new.cpu_int_enable, c.num()),
        routed_at(new, n, level),
{
    let v = new.intr_map@[n];
    assert(v == level.level());
    let w = choose|d: CpuInterrupt| d.num() == v - EXTERNAL_INTERRUPT_OFFSET;
    assert(w.num() == c.num());
    assert(w == c);
    let p = old.cpu_int_pri@[c.num() as int];
    assert(p == c.num());
    assert(p < 16 ==> (p >> 0u32) & 15u32 == p) by (bit_vector);
    assert(crate::bits::low_mask(4) == 15u32) by {
        assert(((1u32 << 4u32) as int) - 1 == 15) by (bit_vector);
    }
    lemma_bit_roundtrip(old.cpu_int_enable, level.level() as u32, true);
}

/// The status of the peripheral interrupts.
pub fn status(regs: &InterruptCoreRegs) -> (r: InterruptStatus)
    ensures
        r.status@ == regs.intr_status@,
{
    let r = InterruptStatus::from(regs.intr_status[0], regs.intr_status[1]);
    assert(r.status@ =~= regs.intr_status@);
    r
}

/// The CPU interrupt assigned to the given peripheral interrupt.
pub fn assigned_cpu_interrupt(regs: &InterruptCoreRegs, interrupt: u8) -> (r: Option<CpuInterrupt>)
    requires
        regs.wf(),
        interrupt < 64,
    ensures
        r == assigned(*regs, interrupt as int),
{
    let cpu_intr = regs.intr_map[interrupt as usize];
    if cpu_intr > 0 && cpu_intr != DISABLED_CPU_INTERRUPT {
        let c = CpuInterrupt::from_number(cpu_intr - EXTERNAL_INTERRUPT_OFFSET);
        proof {
            let w = choose|d: CpuInterrupt| d.num() == cpu_intr - EXTERNAL_INTERRUPT_OFFSET;
            assert(c.num() == cpu_intr - EXTERNAL_INTERRUPT_OFFSET);
            assert(w.num() == c.num());
            assert(w == c);
        }
        Some(c)
    } else {
        None
    }
}

/// Enables a CPU interrupt.
pub fn enable_cpu_interrupt(regs: &mut InterruptCoreRegs, which: CpuInterrupt)
    ensures
        *final(regs) == (InterruptCoreRegs { cpu_int_enable: with_bit(old(regs).cpu_int_enable, which.num(), true), ..*old(regs) }),
{
    regs.cpu_int_enable = set_bit(regs.cpu_int_enable, which.number(), true);
}

/// Sets the kind (level or edge) of a CPU interrupt.
pub fn set_kind(regs: &mut InterruptCoreRegs, which: CpuInterrupt, kind: InterruptKind)
    ensures
        *final(regs) == (InterruptCoreRegs {
            cpu_int_type: with_bit(old(regs).cpu_int_type, which.num(), kind == InterruptKind::Edge),
            ..*old(regs)
        }),
{
    let edge = match kind {
        InterruptKind::Level => false,
        InterruptKind::Edge => true,
    };
    regs.cpu_int_type = set_bit(regs.cpu_int_type, which.number(), edge);
}

/// Sets the priority of a CPU interrupt.
pub fn set_priority(regs: &mut InterruptCoreRegs, which: CpuInterrupt, priority: Priority)
    requires
        old(regs).wf(),
    ensures
        final(regs).wf(),
        final(regs).cpu_int_pri@ == old(regs).cpu_int_pri@.update(which.num() as int, priority.level() as u32),
        final(regs).intr_map@ == old(regs).intr_map@,
        final(regs).cpu_int_enable == old(regs).cpu_int_enable,
        final(regs).cpu_int_type == old(regs).cpu_int_type,
        final(regs).cpu_int_clear == old(regs).cpu_int_clear,
        final(regs).intr_status == old(regs).intr_status,
{
    regs.cpu_int_pri.set(which.number() as usize, priority.as_u8() as u32);
}

/// Clears a CPU interrupt.
pub fn clear(regs: &mut InterruptCoreRegs, which: CpuInterrupt)
    ensures
        *final(regs) == (InterruptCoreRegs { cpu_int_clear: 1u32 << which.num(), ..*old(regs) }),
{
    regs.cpu_int_clear = 1u32 << which.number();
}

/// The priority of a CPU interrupt.
pub fn priority(regs: &InterruptCoreRegs, cpu_interrupt: CpuInterrupt) -> (r: Priority)
    requires
        regs.wf(),
    ensures
        r.level() == priority_of(*regs, cpu_interrupt),
{
    let v = field(regs.cpu_int_pri[cpu_interrupt.number() as usize], 0, 4);
    proof { crate::bits::lemma_field_bound(regs.cpu_int_pri@[cpu_interrupt.num() as int], 0, 4); }
    assert(v < 16) by { assert(1u32 << 4u32 == 16u32) by (bit_vector); }
    Priority::from_level(v as u8)
}

/// The CPU interrupt reserved for priority `prio + 1`.
pub fn priority_to_interrupt(prio: usize) -> (r: u32)
    requires
        prio < 15,
    ensures
        r == prio + 1,
{
    (prio + 1) as u32
}

/// The priority that a reserved CPU interrupt stands for.
pub fn interrupt_to_priority(cpu_intr: u32) -> (r: u8)
    requires
        cpu_intr <= 15,
    ensures
        r == cpu_intr,
{
    cpu_intr as u8
}

/// Whether `n` is one of the CPU interrupts reserved for a priority.
pub open spec fn reserved(n: u32) -> bool {
    1 <= n <= 15
}

/// Sets up the CPU interrupts reserved for the priorities: each is a level
/// interrupt of its own priority, and enabled.
pub fn init_vectoring(regs: &mut InterruptCoreRegs)
    requires
        old(regs).wf(),
    ensures
        final(regs).wf(),
        forall|n: u32| n < 32 ==> #[trigger] bit_of(final(regs).cpu_int_type, n) == (bit_of(old(regs).cpu_int_type, n) && !reserved(n)),
        forall|n: u32| n < 32 ==> #[trigger] bit_of(final(regs).cpu_int_enable, n) == (bit_of(old(regs).cpu_int_enable, n) || reserved(n)),
        forall|n: int| 0 <= n < 32 ==> #[trigger] final(regs).cpu_int_pri@[n] == if reserved(n as u32) { n as u32 } else { old(regs).cpu_int_pri@[n] },
        final(regs).cpu_int_pri@.len() == 32,
        final(regs).intr_map@ == old(regs).intr_map@,
        final(regs).cpu_int_clear == old(regs).cpu_int_clear,
        final(regs).intr_status == old(regs).intr_status,
{
    let mut prio: usize = 0;
    while prio < 15
        invariant
            prio <= 15,
            regs.wf(),
            forall|n: u32| n < 32 ==> #[trigger] bit_of(regs.cpu_int_type, n) == (bit_of(old(regs).cpu_int_type, n) && !(1 <= n <= prio)),
            forall|n: u32| n < 32 ==> #[trigger] bit_of(regs.cpu_int_enable, n) == (bit_of(old(regs).cpu_int_enable, n) || (1 <= n <= prio)),
            forall|n: int| 0 <= n < 32 ==> #[trigger] regs.cpu_int_pri@[n] == if 1 <= n <= prio { n as u32 } else { old(regs).cpu_int_pri@[n] },
            regs.intr_map@ == old(regs).intr_map@,
            regs.cpu_int_clear == old(regs).cpu_int_clear,
            regs.intr_status == old(regs).intr_status,
        decreases 15 - prio,
    {
        let num = priority_to_interrupt(prio);
        let which = CpuInterrupt::from_number(num);
        let ghost t0 = regs.cpu_int_type;
        let ghost e0 = regs.cpu_int_enable;
        set_kind(regs, which, InterruptKind::Level);
        set_priority(regs, which, Priority::from_level((prio as u8) + 1));
        enable_cpu_interrupt(regs, which);
        proof {
            lemma_bit_roundtrip(t0, num, false);
            lemma_bit_roundtrip(e0, num, true);
        }
        prio = prio + 1;
    }
}

/// Sets up interrupt handling: every peripheral interrupt is disabled (some
/// are left enabled by the bootloader, such as the UART's), and the CPU
/// interrupts reserved for the priorities are set up.
pub fn _setup_interrupts(regs: &mut InterruptCoreRegs)
    requires
        old(regs).wf(),
    ensures
        final(regs).wf(),
        forall|n: int| 0 <= n < 64 ==> #[trigger] final(regs).intr_map@[n] == DISABLED_CPU_INTERRUPT,
        forall|n: u32| n < 32 ==> #[trigger] bit_of(final(regs).cpu_int_type, n) == (bit_of(old(regs).cpu_int_type, n) && !reserved(n)),
        forall|n: u32| n < 32 ==> #[trigger] bit_of(final(regs).cpu_int_enable, n) == (bit_of(old(regs).cpu_int_enable, n) || reserved(n)),
        forall|n: int| 0 <= n < 32 ==> #[trigger] final(regs).cpu_int_pri@[n] == if reserved(n as u32) { n as u32 } else { old(regs).cpu_int_pri@[n] },
        final(regs).cpu_int_clear == old(regs).cpu_int_clear,
        final(regs).intr_status == old(regs).intr_status,
{
    let mut peripheral_interrupt: u8 = 0;
    while peripheral_interrupt < 64
        invariant
            peripheral_interrupt <= 64,
            regs.wf(),
            regs.same_except_map(old(regs)),
            forall|n: int| 0 <= n < peripheral_interrupt ==> #[trigger] regs.intr_map@[n] == DISABLED_CPU_INTERRUPT,
        decreases 64 - peripheral_interrupt,
    {
        disable(regs, peripheral_interrupt);
        peripheral_interrupt = peripheral_interrupt + 1;
    }
    init_vectoring(regs);
}

/// The interrupts among `status` that are routed to a CPU interrupt of the
/// given priority.
pub fn configured_interrupts(regs: &InterruptCoreRegs, status: InterruptStatus, priority: Priority) -> (r: InterruptStatus)
    requires
        regs.wf(),
    ensures
        forall|n: int| r.is_set(n) == (status.is_set(n) && routed_at(*regs, n, priority)),
{
    let mut res = InterruptStatus::empty();
    let mut it = status.iterator();
    let ghost mut lo: int = 0;
    loop
        invariant
            regs.wf(),
            0 <= lo <= 64,
            forall|m: int| it.pending(m) ==> status.is_set(m) && lo <= m,
            forall|m: int| status.is_set(m) && lo <= m ==> it.pending(m),
            forall|m: int| res.is_set(m) == (status.is_set(m) && m < lo && routed_at(*regs, m, priority)),
        decreases 64 - lo,
    {
        match it.next() {
            Some(interrupt_nr) => {
                if let Some(cpu_interrupt) = assigned_cpu_interrupt(regs, interrupt_nr) {
                    if self::priority(regs, cpu_interrupt) == priority {
                        res.set(interrupt_nr);
                    }
                }
                proof { lo = interrupt_nr + 1; }
            },
            None => {
                proof {
                    assert forall|m: int| res.is_set(m) == (status.is_set(m) && routed_at(*regs, m, priority)) by {
                        if status.is_set(m) && m >= lo {
                            assert(false);
                        }
                    }
                }
                return res;
            },
        }
    }
}

/// Clears the CPU interrupt that fired and gives the peripheral interrupts to
/// handle for it: those pending at the priority that the CPU interrupt stands
/// for.
pub fn interrupts_to_handle(regs: &mut InterruptCoreRegs, cpu_intr: CpuInterrupt) -> (r: InterruptStatus)
    requires
        old(regs).wf(),
        reserved(cpu_intr.num()),
    ensures
        *final(regs) == (InterruptCoreRegs { cpu_int_clear: 1u32 << cpu_intr.num(), ..*old(regs) }),
        forall|n: int| r.is_set(n) == (
            status_bit(old(regs).intr_status@, n)
                && routed_at(*old(regs), n, choose|p: Priority| p.level() == cpu_intr.num())),
{
    clear(regs, cpu_intr);
    let prio = Priority::from_level(interrupt_to_priority(cpu_intr.number()));
    let st = status(regs);
    proof {
        let w = choose|p: Priority| p.level() == cpu_intr.num();
        assert(prio.level() == cpu_intr.num());
        assert(w.level() == prio.level());
        assert(w == prio);
    }
    configured_interrupts(regs, st, prio)
}

} // verus!
