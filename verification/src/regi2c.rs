//! The internal I2C bus to the analog blocks (REGI2C): 8-bit registers of a
//! block, and fields of bits within them.
use vstd::prelude::*;

verus! {

/// The registers of an analog block on the internal bus.
pub struct RegI2cBlock {
    /// The block's number.
    pub block: u8,
    /// The block's host.
    pub host_id: u8,
    /// The block's 8-bit registers, by address.
    pub regs: Vec<u8>,
}

impl RegI2cBlock {
    /// A register for each 8-bit address.
    pub open spec fn wf(&self) -> bool {
        self.regs@.len() == 256
    }
}

/// The bus master of an analog block.
#[derive(Clone, Copy, Debug, PartialEq, Eq, Structural)]
pub struct RegI2cMaster {
    pub master: u8,
    pub host_id: u8,
}

impl RegI2cMaster {
    /// The master of block `master` on host `host_id`.
    pub fn new(master: u8, host_id: u8) -> (r: Self)
        ensures
            r.master == master,
            r.host_id == host_id,
    {
        RegI2cMaster { master, host_id }
    }

    /// Whether `bus` is this master's block.
    pub open spec fn drives(self, bus: RegI2cBlock) -> bool {
        bus.wf() && bus.block == self.master && bus.host_id == self.host_id
    }

    /// Writes `data` to register `reg`.
    pub fn write(&self, bus: &mut RegI2cBlock, reg: u8, data: u8)
        requires
            self.drives(*old(bus)),
        ensures
            self.drives(*final(bus)),
            final(bus).regs@ == old(bus).regs@.update(reg as int, data),
    {
        bus.regs.set(reg as usize, data);
    }

    /// Reads register `reg`.
    pub fn read(&self, bus: &RegI2cBlock, reg: u8) -> (r: u8)
        requires
            self.drives(*bus),
        ensures
            r == bus.regs@[reg as int],
    {
        bus.regs[reg as usize]
    }
}

/// A register of an analog block.
#[derive(Clone, Copy, Debug, PartialEq, Eq, Structural)]
pub struct RegI2cRegister {
    pub master: RegI2cMaster,
    pub reg_add: u8,
}

impl RegI2cRegister {
    /// Register `reg_add` of `master`'s block.
    pub fn new(master: RegI2cMaster, reg_add: u8) -> (r: Self)
        ensures
            r.master == master,
            r.reg_add == reg_add,
    {
        RegI2cRegister { master, reg_add }
    }

    /// Writes the register.
    pub fn write_reg(&self, bus: &mut RegI2cBlock, data: u8)
        requires
            self.master.drives(*old(bus)),
        ensures
            self.master.drives(*final(bus)),
            final(bus).regs@ == old(bus).regs@.update(self.reg_add as int, data),
    {
        self.master.write(bus, self.reg_add, data);
    }

    /// Reads the register.
    pub fn read(&self, bus: &RegI2cBlock) -> (r: u8)
        requires
            self.master.drives(*bus),
        ensures
            r == bus.regs@[self.reg_add as int],
    {
        self.master.read(bus, self.reg_add)
    }
}

/// The bits of a register outside the field from bit `lsb` to bit `msb`.
pub open spec fn outside_field(msb: u8, lsb: u8) -> u8 {
    (!(u32::MAX << lsb) | (u32::MAX << (msb + 1) as u32)) as u8
}

/// The mask of a field as wide as from bit `lsb` to bit `msb`.
pub open spec fn field_width_mask(msb: u8, lsb: u8) -> u8 {
    !(u32::MAX << (msb - lsb + 1) as u32) as u8
}

/// `bits` with the field from bit `lsb` to bit `msb` replaced by the low
/// bits of `data`.
pub open spec fn field_written(bits: u8, msb: u8, lsb: u8, data: u8) -> u8 {
    (bits & outside_field(msb, lsb)) | ((data & field_width_mask(msb, lsb)) << lsb)
}

/// A field of bits, from bit `lsb` to bit `msb`, of an analog register.
#[derive(Clone, Copy, Debug, PartialEq, Eq, Structural)]
pub struct RawRegI2cField {
    pub register: RegI2cRegister,
    pub msb: u8,
    pub lsb: u8,
}

impl RawRegI2cField {
    /// The field from bit `lsb` to bit `msb` of `register`; the field spans
    /// at most 8 bits.
    pub fn new(register: RegI2cRegister, msb: u8, lsb: u8) -> (r: Self)
        requires
            msb < 8 + lsb,
        ensures
            r.register == register,
            r.msb == msb,
            r.lsb == lsb,
    {
        RawRegI2cField { register, msb, lsb }
    }

    /// Writes `data` to the field, keeping the register's other bits.
    pub fn write_field(&self, bus: &mut RegI2cBlock, data: u8)
        requires
            self.register.master.drives(*old(bus)),
            self.lsb <= self.msb < 8,
        ensures
            self.register.master.drives(*final(bus)),
            final(bus).regs@ == old(bus).regs@.update(
                self.register.reg_add as int,
                field_written(old(bus).regs@[self.register.reg_add as int], self.msb, self.lsb, data),
            ),
    {
        let bits = self.register.read(bus);
        let unwritten_bits = (!(u32::MAX << self.lsb) | (u32::MAX << (self.msb + 1))) as u8;
        let data_mask = !(u32::MAX << (self.msb - self.lsb + 1)) as u8;
        let data_bits = (data & data_mask) << self.lsb;
        self.register.write_reg(bus, (bits & unwritten_bits) | data_bits);
    }
}

/// A written field reads back the low bits of what was written, and the
/// register's other bits are as they were.
pub proof fn lemma_field_written(bits: u8, msb: u8, lsb: u8, data: u8)
    requires
        lsb <= msb < 8,
    ensures
        (field_written(bits, msb, lsb, data) >> lsb) & field_width_mask(msb, lsb) == data & field_width_mask(msb, lsb),
        field_written(bits, msb, lsb, data) & outside_field(msb, lsb) == bits & outside_field(msb, lsb),
{
    let keep = outside_field(msb, lsb);
    let m = field_width_mask(msb, lsb);
    assert(((((bits & keep) | ((data & m) << lsb)) >> lsb) & m == data & m)
        && ((((bits & keep) | ((data & m) << lsb)) & keep) == bits & keep)) by (bit_vector)
        requires
            lsb <= msb < 8u8,
            keep == (!(0xffff_ffffu32 << lsb) | (0xffff_ffffu32 << (msb + 1) as u32)) as u8,
            m == !(0xffff_ffffu32 << (msb - lsb + 1) as u32) as u8;
}

} // verus!
