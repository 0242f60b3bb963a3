use vstd::prelude::*;
use crate::bus::{BusError, I2cManager, Segment, Transfer, Transport, TIMEOUT_MS, transfer};

verus! {

/// Register that enables the power controller's interrupt sources.
pub const IRQ_EN_REG: u8 = 0x46;

/// Register that latches the power controller's pending interrupts.
pub const IRQ_STATUS_REG: u8 = 0x48;

/// Output control register that carries the backlight supply.
pub const BACKLIGHT_REG: u8 = 0x12;

/// Bit of `BACKLIGHT_REG` that switches the backlight supply.
pub const BACKLIGHT_MASK: u8 = 0x04;

/// `t` is the register read of `reg` on the device at `addr`: the register
/// number written, then one byte read back, in one request.
pub open spec fn is_register_read(t: Transfer, addr: u8, reg: u8) -> bool {
    &&& t.addr == addr
    &&& t.timeout_ms == TIMEOUT_MS as u32
    &&& t.segments.len() == 2
    &&& t.segments[0] == Segment::Write(seq![reg])
    &&& t.segments[1] is Read
    &&& t.segments[1]->Read_0.len() == 1
}

/// What a register read hands back: the byte received, or the bus error.
pub open spec fn read_value(t: Transfer) -> Result<u8, BusError> {
    match t.outcome {
        Ok(()) => Ok(t.segments[1]->Read_0[0]),
        Err(e) => Err(e),
    }
}

/// The register write of `value` into `reg`: both bytes in one request.
pub open spec fn register_write(addr: u8, reg: u8, value: u8, r: Result<(), BusError>) -> Transfer {
    transfer(addr, seq![Segment::Write(seq![reg, value])], r)
}

/// A register's new value once the bits of `mask` are set, or cleared.
pub open spec fn with_bits(v: u8, mask: u8, set: bool) -> u8 {
    if set {
        v | mask
    } else {
        v & !mask
    }
}

/// From `before` to `after` the bus saw a read of `reg`, then, only if the
/// read succeeded, a write of the value read with the bits of `mask` set (or
/// cleared); `r` is the failed read's error or the write's outcome.
pub open spec fn read_modify_write(
    before: Seq<Transfer>,
    after: Seq<Transfer>,
    addr: u8,
    reg: u8,
    mask: u8,
    set: bool,
    r: Result<(), BusError>,
) -> bool {
    let n = before.len() as int;
    &&& n < after.len()
    &&& after.subrange(0, n) == before
    &&& is_register_read(after[n], addr, reg)
    &&& match read_value(after[n]) {
        Err(e) => after.len() == n + 1 && r == Err::<(), BusError>(e),
        Ok(v) => after.len() == n + 2 && after[n + 1] == register_write(
            addr,
            reg,
            with_bits(v, mask, set),
            r,
        ),
    }
}

/// Growing a history by one request keeps what came before it.
proof fn lemma_pushed_prefix(before: Seq<Transfer>, after: Seq<Transfer>)
    requires
        after.len() == before.len() + 1,
        after.drop_last() == before,
    ensures
        after.subrange(0, before.len() as int) == before,
        after == before.push(after.last()),
        forall|i: int| 0 <= i < before.len() ==> after[i] == before[i],
{
    assert(after.subrange(0, before.len() as int) =~= after.drop_last());
    assert(after =~= before.push(after.last()));
}

/// Register-level client of a power-management controller.
#[verifier::reject_recursive_types(I2C)]
pub struct Axp192<I2C> {
    i2c: I2cManager<I2C>,
    address: u8,
}

impl<I2C: Transport> Axp192<I2C> {
    pub closed spec fn address(&self) -> u8 {
        self.address
    }

    /// The requests that this client has put on the bus, in order.
    pub closed spec fn transfers(&self) -> Seq<Transfer> {
        self.i2c.transfers()
    }

    pub fn new(i2c: I2cManager<I2C>, address: u8) -> (r: Self)
        ensures
            r.address() == address,
            r.transfers() == i2c.transfers(),
    {
        Self { i2c, address }
    }

    /// Reads one register.
    pub fn read_reg(&mut self, reg: u8) -> (r: Result<u8, BusError>)
        ensures
            final(self).address() == old(self).address(),
            final(self).transfers().drop_last() == old(self).transfers(),
            final(self).transfers().len() == old(self).transfers().len() + 1,
            is_register_read(final(self).transfers().last(), old(self).address(), reg),
            r == read_value(final(self).transfers().last()),
    {
        let cmd: Vec<u8> = vec![reg];
        let mut buf: Vec<u8> = vec![0u8];
        let res = self.i2c.write_read(self.address, cmd.as_slice(), buf.as_mut_slice());
        assert(cmd@ == seq![reg]);
        match res {
            Ok(()) => Ok(buf[0]),
            Err(e) => Err(e),
        }
    }
    /// Writes one register.
    pub fn write_reg(&mut self, reg: u8, value: u8) -> (r: Result<(), BusError>)
        ensures
            final(self).address() == old(self).address(),
            final(self).transfers() == old(self).transfers().push(
                register_write(old(self).address(), reg, value, r),
            ),
    {
        let cmd: Vec<u8> = vec![reg, value];
        let r = self.i2c.write(self.address, cmd.as_slice());
        assert(cmd@ == seq![reg, value]);
        r
    }

    /// Sets the bits of `mask` in a register, keeping the others.
    pub fn set_bits(&mut self, reg: u8, mask: u8) -> (r: Result<(), BusError>)
        ensures
            final(self).address() == old(self).address(),
            read_modify_write(
                old(self).transfers(),
                final(self).transfers(),
                old(self).address(),
                reg,
                mask,
                true,
                r,
            ),
    {
        let ghost before = self.transfers();
        let val = match self.read_reg(reg) {
            Ok(v) => v,
            Err(e) => {
                proof {
                    lemma_pushed_prefix(before, self.transfers());
                }
                return Err(e);
            },
        };
        let ghost mid = self.transfers();
        let r = self.write_reg(reg, val | mask);
        proof {
            lemma_pushed_prefix(before, mid);
            assert(self.transfers().drop_last() =~= mid);
            lemma_pushed_prefix(mid, self.transfers());
            assert(self.transfers().subrange(0, before.len() as int) =~= before);
        }
        r
    }

    /// Clears the bits of `mask` in a register, keeping the others.
    pub fn clear_bits(&mut self, reg: u8, mask: u8) -> (r: Result<(), BusError>)
        ensures
            final(self).address() == old(self).address(),
            read_modify_write(
                old(self).transfers(),
                final(self).transfers(),
                old(self).address(),
                reg,
                mask,
                false,
                r,
            ),
    {
        let ghost before = self.transfers();
        let val = match self.read_reg(reg) {
            Ok(v) => v,
            Err(e) => {
                proof {
                    lemma_pushed_prefix(before, self.transfers());
                }
                return Err(e);
            },
        };
        let ghost mid = self.transfers();
        let r = self.write_reg(reg, val & !mask);
        proof {
            lemma_pushed_prefix(before, mid);
            assert(self.transfers().drop_last() =~= mid);
            lemma_pushed_prefix(mid, self.transfers());
            assert(self.transfers().subrange(0, before.len() as int) =~= before);
        }
        r
    }

    /// Enables the interrupt sources of `mask`.
    pub fn enable_irq(&mut self, mask: u8) -> (r: Result<(), BusError>)
        ensures
            final(self).address() == old(self).address(),
            read_modify_write(
                old(self).transfers(),
                final(self).transfers(),
                old(self).address(),
                IRQ_EN_REG,
                mask,
                true,
                r,
            ),
    {
        self.set_bits(IRQ_EN_REG, mask)
    }

    /// Disables the interrupt sources of `mask`.
    pub fn disable_irq(&mut self, mask: u8) -> (r: Result<(), BusError>)
        ensures
            final(self).address() == old(self).address(),
            read_modify_write(
                old(self).transfers(),
                final(self).transfers(),
                old(self).address(),
                IRQ_EN_REG,
                mask,
                false,
                r,
            ),
    {
        self.clear_bits(IRQ_EN_REG, mask)
    }

    /// Reads the pending interrupts.
    pub fn read_irq_status(&mut self) -> (r: Result<u8, BusError>)
        ensures
            final(self).address() == old(self).address(),
            final(self).transfers().drop_last() == old(self).transfers(),
            final(self).transfers().len() == old(self).transfers().len() + 1,
            is_register_read(final(self).transfers().last(), old(self).address(), IRQ_STATUS_REG),
            r == read_value(final(self).transfers().last()),
    {
        self.read_reg(IRQ_STATUS_REG)
    }

    /// Acknowledges the pending interrupts of `mask`: the controller clears
    /// each status bit that is written as one.
    pub fn clear_irq_status(&mut self, mask: u8) -> (r: Result<(), BusError>)
        ensures
            final(self).address() == old(self).address(),
            final(self).transfers() == old(self).transfers().push(
                register_write(old(self).address(), IRQ_STATUS_REG, mask, r),
            ),
    {
        self.write_reg(IRQ_STATUS_REG, mask)
    }

    /// Switches the backlight supply on or off.
    pub fn set_backlight(&mut self, enable: bool) -> (r: Result<(), BusError>)
        ensures
            final(self).address() == old(self).address(),
            read_modify_write(
                old(self).transfers(),
                final(self).transfers(),
                old(self).address(),
                BACKLIGHT_REG,
                BACKLIGHT_MASK,
                enable,
                r,
            ),
    {
        if enable {
            self.set_bits(BACKLIGHT_REG, BACKLIGHT_MASK)
        } else {
            self.clear_bits(BACKLIGHT_REG, BACKLIGHT_MASK)
        }
    }
}

} // verus!
