//! A 16-line I/O expander with two 8-line banks, each with an input, an
//! output, a polarity and a configuration register.

use crate::bus::{error_of, ran, read_reg, update_plan, update_reg, verdict, write_reg};
use crate::bus::{I2cBus, Request, Transfer};
use crate::common::{answer_of, Command, Direction, PortDriver};
use crate::mode::Input;
use crate::mutex::create;
use crate::pin::Pin;
use vstd::prelude::*;

verus! {

/// The device as a whole: its driver, inside the lock that the pins share.
pub struct Pca9555<M>(M);

impl<I2C: I2cBus> Pca9555<shared_bus::NullMutex<Driver<I2C>>> {
    /// A device reached through `i2c`, in the state it has after reset.
    /// Nothing is sent.
    pub fn new(i2c: I2C) -> Self {
        Self::with_mutex(i2c)
    }

    /// A device reached through `i2c`: a fresh driver inside a new lock.
    pub fn with_mutex(i2c: I2C) -> Self {
        Self(create(Driver::new(i2c)))
    }

    /// The 16 pins of the device, one for each line.
    pub fn split<'a>(&'a mut self) -> (parts: Parts<'a, I2C>)
        ensures
            parts.numbered(),
    {
        Parts {
            io0_0: Pin::new(0, &self.0),
            io0_1: Pin::new(1, &self.0),
            io0_2: Pin::new(2, &self.0),
            io0_3: Pin::new(3, &self.0),
            io0_4: Pin::new(4, &self.0),
            io0_5: Pin::new(5, &self.0),
            io0_6: Pin::new(6, &self.0),
            io0_7: Pin::new(7, &self.0),
            io1_0: Pin::new(8, &self.0),
            io1_1: Pin::new(9, &self.0),
            io1_2: Pin::new(10, &self.0),
            io1_3: Pin::new(11, &self.0),
            io1_4: Pin::new(12, &self.0),
            io1_5: Pin::new(13, &self.0),
            io1_6: Pin::new(14, &self.0),
            io1_7: Pin::new(15, &self.0),
        }
    }
}

/// The pins of one device. `io0_n` is line `n` of bank 0, `io1_n` line `n` of
/// bank 1, which is line `8 + n` of the device.
#[verifier::reject_recursive_types(I2C)]
pub struct Parts<'a, I2C: I2cBus> {
    pub io0_0: Pin<'a, Input, Driver<I2C>>,
    pub io0_1: Pin<'a, Input, Driver<I2C>>,
    pub io0_2: Pin<'a, Input, Driver<I2C>>,
    pub io0_3: Pin<'a, Input, Driver<I2C>>,
    pub io0_4: Pin<'a, Input, Driver<I2C>>,
    pub io0_5: Pin<'a, Input, Driver<I2C>>,
    pub io0_6: Pin<'a, Input, Driver<I2C>>,
    pub io0_7: Pin<'a, Input, Driver<I2C>>,
    pub io1_0: Pin<'a, Input, Driver<I2C>>,
    pub io1_1: Pin<'a, Input, Driver<I2C>>,
    pub io1_2: Pin<'a, Input, Driver<I2C>>,
    pub io1_3: Pin<'a, Input, Driver<I2C>>,
    pub io1_4: Pin<'a, Input, Driver<I2C>>,
    pub io1_5: Pin<'a, Input, Driver<I2C>>,
    pub io1_6: Pin<'a, Input, Driver<I2C>>,
    pub io1_7: Pin<'a, Input, Driver<I2C>>,
}

impl<'a, I2C: I2cBus> Parts<'a, I2C> {
    /// Every pin stands for the line it is named after.
    pub open spec fn numbered(self) -> bool {
        &&& self.io0_0.index() == 0
        &&& self.io0_1.index() == 1
        &&& self.io0_2.index() == 2
        &&& self.io0_3.index() == 3
        &&& self.io0_4.index() == 4
        &&& self.io0_5.index() == 5
        &&& self.io0_6.index() == 6
        &&& self.io0_7.index() == 7
        &&& self.io1_0.index() == 8
        &&& self.io1_1.index() == 9
        &&& self.io1_2.index() == 10
        &&& self.io1_3.index() == 11
        &&& self.io1_4.index() == 12
        &&& self.io1_5.index() == 13
        &&& self.io1_6.index() == 14
        &&& self.io1_7.index() == 15
    }
}

/// The registers of the device.
#[allow(dead_code)]
#[derive(Debug, Clone, Copy, PartialEq, Eq)]
pub enum Regs {
    InputPort0,
    InputPort1,
    OutputPort0,
    OutputPort1,
    PolarityInversion0,
    PolarityInversion1,
    Configuration0,
    Configuration1,
}

impl Regs {
    /// The address of the register on the device.
    pub open spec fn address(self) -> u8 {
        match self {
            Regs::InputPort0 => 0x00,
            Regs::InputPort1 => 0x01,
            Regs::OutputPort0 => 0x02,
            Regs::OutputPort1 => 0x03,
            Regs::PolarityInversion0 => 0x04,
            Regs::PolarityInversion1 => 0x05,
            Regs::Configuration0 => 0x06,
            Regs::Configuration1 => 0x07,
        }
    }

    /// The address of the register, for the bus.
    pub fn addr(self) -> (b: u8)
        ensures
            b == self.address(),
    {
        match self {
            Regs::InputPort0 => 0x00,
            Regs::InputPort1 => 0x01,
            Regs::OutputPort0 => 0x02,
            Regs::OutputPort1 => 0x03,
            Regs::PolarityInversion0 => 0x04,
            Regs::PolarityInversion1 => 0x05,
            Regs::Configuration0 => 0x06,
            Regs::Configuration1 => 0x07,
        }
    }

    /// No two registers share an address.
    pub proof fn address_is_injective(a: Regs, b: Regs)
        requires
            a.address() == b.address(),
        ensures
            a == b,
    {
    }
}

/// The bus address of the device.
pub const ADDRESS: u8 = 0x41;

/// The 16 lines that `mask` selects; higher bits select nothing.
pub open spec fn lines(mask: u32) -> u16 {
    (mask & 0xFFFF) as u16
}

/// `mask` selects at least one of lines 0 to 7.
pub open spec fn touches_bank0(mask: u32) -> bool {
    mask & 0x00FF != 0
}

/// `mask` selects at least one of lines 8 to 15.
pub open spec fn touches_bank1(mask: u32) -> bool {
    mask & 0xFF00 != 0
}

/// The byte of bank 0 in a 16-line value.
pub open spec fn low_byte(v: u16) -> u8 {
    (v & 0xFF) as u8
}

/// The byte of bank 1 in a 16-line value.
pub open spec fn high_byte(v: u16) -> u8 {
    (v >> 8) as u8
}

/// The 16-line value made of a byte for each bank.
pub open spec fn joined(io0: u8, io1: u8) -> u16 {
    ((io1 as u16) << 8) | (io0 as u16)
}

/// The exchanges that bring the output registers up to date with `out`: one
/// write for each bank that `mask` touches, bank 0 first.
pub open spec fn output_plan(out: u16, mask: u32) -> Seq<Request> {
    (if touches_bank0(mask) {
        seq![Request::Write { addr: ADDRESS, reg: Regs::OutputPort0.address(), value: low_byte(out) }]
    } else {
        Seq::<Request>::empty()
    }) + (if touches_bank1(mask) {
        seq![Request::Write { addr: ADDRESS, reg: Regs::OutputPort1.address(), value: high_byte(out) }]
    } else {
        Seq::<Request>::empty()
    })
}

/// The exchanges that fetch the input levels: one read for each bank that
/// `mask` touches, bank 0 first.
pub open spec fn input_plan(mask: u32) -> Seq<Request> {
    (if touches_bank0(mask) {
        seq![Request::Read { addr: ADDRESS, reg: Regs::InputPort0.address() }]
    } else {
        Seq::<Request>::empty()
    }) + (if touches_bank1(mask) {
        seq![Request::Read { addr: ADDRESS, reg: Regs::InputPort1.address() }]
    } else {
        Seq::<Request>::empty()
    })
}

/// The input levels as the reads of `input_plan(mask)`, recorded in `post`
/// from position `at` on, brought them back. A bank that was not read counts
/// as all low.
pub open spec fn snapshot<E>(post: Seq<Transfer<E>>, at: int, mask: u32) -> u16 {
    let io0 = if touches_bank0(mask) {
        post[at].data()
    } else {
        0u8
    };
    let second = if touches_bank0(mask) {
        at + 1
    } else {
        at
    };
    let io1 = if touches_bank1(mask) {
        post[second].data()
    } else {
        0u8
    };
    joined(io0, io1)
}

/// The configuration bits to set when the lines of `mask` are switched to
/// `dir`: a set bit makes a line an input.
pub open spec fn config_set(mask: u32, dir: Direction) -> u16 {
    match dir {
        Direction::Input => lines(mask),
        Direction::Output => 0,
    }
}

/// The configuration bits to clear when the lines of `mask` are switched to
/// `dir`: a cleared bit makes a line an output.
pub open spec fn config_clear(mask: u32, dir: Direction) -> u16 {
    match dir {
        Direction::Input => 0,
        Direction::Output => lines(mask),
    }
}

/// The exchanges that switch the lines of `mask` to `dir`: a read-modify-write
/// of the configuration register of each bank that `mask` touches, bank 0
/// first. They are recorded in `post` from position `at` on.
pub open spec fn direction_plan<E>(post: Seq<Transfer<E>>, at: int, mask: u32, dir: Direction) -> Seq<
    Request,
> {
    let second = if touches_bank0(mask) {
        at + 2
    } else {
        at
    };
    (if touches_bank0(mask) {
        update_plan(
            post,
            at,
            ADDRESS,
            Regs::Configuration0.address(),
            low_byte(config_set(mask, dir)),
            low_byte(config_clear(mask, dir)),
        )
    } else {
        Seq::<Request>::empty()
    }) + (if touches_bank1(mask) {
        update_plan(
            post,
            second,
            ADDRESS,
            Regs::Configuration1.address(),
            high_byte(config_set(mask, dir)),
            high_byte(config_clear(mask, dir)),
        )
    } else {
        Seq::<Request>::empty()
    })
}

/// The low 16 bits of a mask.
fn low16(mask: u32) -> (m: u16)
    ensures
        m == lines(mask),
        (m & 0x00FF != 0) == touches_bank0(mask),
        (m & 0xFF00 != 0) == touches_bank1(mask),
{
    assert(mask & 0xFFFF <= 0xFFFF) by (bit_vector);
    let m: u16 = (mask & 0xFFFF) as u16;
    assert((m & 0x00FF != 0) == (mask & 0x00FF != 0)) by (bit_vector)
        requires
            m == (mask & 0xFFFF) as u16,
    ;
    assert((m & 0xFF00 != 0) == (mask & 0xFF00 != 0)) by (bit_vector)
        requires
            m == (mask & 0xFFFF) as u16,
    ;
    m
}

/// The byte of bank 0.
fn bank0_byte(v: u16) -> (b: u8)
    ensures
        b == low_byte(v),
{
    assert(v & 0xFF <= 0xFF) by (bit_vector);
    (v & 0xFF) as u8
}

/// The byte of bank 1.
fn bank1_byte(v: u16) -> (b: u8)
    ensures
        b == high_byte(v),
{
    assert(v >> 8 <= 0xFF) by (bit_vector);
    (v >> 8) as u8
}

/// The state of one device: the transport it is reached through, and the
/// levels last commanded on its 16 output lines.
pub struct Driver<I2C> {
    i2c: I2C,
    out: u16,
}

impl<I2C: I2cBus> Driver<I2C> {
    /// The commanded output levels, bit `i` for line `i`. This is what the
    /// driver last asked the output registers to hold; it is never read back.
    pub closed spec fn shadow(&self) -> u16 {
        self.out
    }

    /// Every exchange the driver's transport has seen.
    pub closed spec fn transfers(&self) -> Seq<Transfer<I2C::BusError>> {
        self.i2c.transfers()
    }

    /// A driver for a device fresh out of reset, when all outputs are high.
    /// Nothing is sent.
    pub fn new(i2c: I2C) -> (d: Self)
        ensures
            d.shadow() == 0xffff,
            d.transfers() == i2c.transfers(),
    {
        Self { i2c, out: 0xffff }
    }

    /// Gives the transport back and ends the driver.
    pub fn release(self) -> (i2c: I2C)
        ensures
            i2c.transfers() == self.transfers(),
    {
        self.i2c
    }

    /// Writes the shadow value to the output register of each bank that
    /// `mask` touches, and stops at the first error.
    fn write_outputs(&mut self, mask: u32) -> (r: Result<(), I2C::BusError>)
        ensures
            final(self).shadow() == old(self).shadow(),
            ran(
                old(self).transfers(),
                final(self).transfers(),
                output_plan(old(self).shadow(), mask),
            ),
            error_of(r) == verdict(old(self).transfers(), final(self).transfers()),
    {
        let ghost pre = self.i2c.transfers();
        let m: u16 = low16(mask);
        if m & 0x00FF != 0 {
            match write_reg(&mut self.i2c, ADDRESS, Regs::OutputPort0.addr(), bank0_byte(self.out)) {
                Err(e) => {
                    proof {
                        assert(self.i2c.transfers().subrange(0, pre.len() as int) =~= pre);
                    }
                    return Err(e);
                },
                Ok(_) => {},
            }
        }
        let r = if m & 0xFF00 != 0 {
            write_reg(&mut self.i2c, ADDRESS, Regs::OutputPort1.addr(), bank1_byte(self.out))
        } else {
            Ok(())
        };
        proof {
            assert(self.i2c.transfers().subrange(0, pre.len() as int) =~= pre);
        }
        r
    }
}

impl<I2C: I2cBus> PortDriver for Driver<I2C> {
    type Error = I2C::BusError;

    /// What each command does on this device. The operations below say the
    /// same, each for its own command.
    open spec fn effect(
        &self,
        after: &Self,
        command: Command,
        mask: u32,
        answer: Result<bool, Self::Error>,
    ) -> bool {
        let pre = self.transfers();
        let post = after.transfers();
        let acted = match verdict(pre, post) {
            Some(e) => Err::<bool, Self::Error>(e),
            None => Ok(true),
        };
        let levels = snapshot(post, pre.len() as int, mask) & lines(mask);
        match command {
            Command::SetHigh => {
                &&& after.shadow() == self.shadow() | lines(mask)
                &&& ran(pre, post, output_plan(after.shadow(), mask))
                &&& answer == acted
            },
            Command::SetLow => {
                &&& after.shadow() == self.shadow() & !lines(mask)
                &&& ran(pre, post, output_plan(after.shadow(), mask))
                &&& answer == acted
            },
            Command::IsSetHigh => {
                &&& after == self
                &&& answer == Ok::<bool, Self::Error>(self.shadow() & lines(mask) != 0)
            },
            Command::IsSetLow => {
                &&& after == self
                &&& answer == Ok::<bool, Self::Error>(self.shadow() & lines(mask) == 0)
            },
            Command::IsHigh => {
                &&& after.shadow() == self.shadow()
                &&& ran(pre, post, input_plan(mask))
                &&& answer == match verdict(pre, post) {
                    Some(e) => Err::<bool, Self::Error>(e),
                    None => Ok(levels != 0),
                }
            },
            Command::IsLow => {
                &&& after.shadow() == self.shadow()
                &&& ran(pre, post, input_plan(mask))
                &&& answer == match verdict(pre, post) {
                    Some(e) => Err::<bool, Self::Error>(e),
                    None => Ok(levels == 0),
                }
            },
            Command::SetDirection(dir) => {
                &&& after.shadow() == self.shadow()
                &&& ran(pre, post, direction_plan(post, pre.len() as int, mask, dir))
                &&& answer == acted
            },
        }
    }

    /// Commands the lines of `mask` high. The shadow value takes the new
    /// levels first, whatever happens on the bus; then each bank that `mask`
    /// touches has its byte of the shadow value written to its output
    /// register, bank 0 first. The first error ends the operation and is
    /// returned as it came.
    fn set_high(&mut self, mask: u32) -> (r: Result<(), Self::Error>)
        ensures
            final(self).shadow() == old(self).shadow() | lines(mask),
            ran(
                old(self).transfers(),
                final(self).transfers(),
                output_plan(final(self).shadow(), mask),
            ),
            error_of(r) == verdict(old(self).transfers(), final(self).transfers()),
    {
        self.out = self.out | low16(mask);
        self.write_outputs(mask)
    }

    /// Commands the lines of `mask` low; otherwise as `set_high`.
    fn set_low(&mut self, mask: u32) -> (r: Result<(), Self::Error>)
        ensures
            final(self).shadow() == old(self).shadow() & !lines(mask),
            ran(
                old(self).transfers(),
                final(self).transfers(),
                output_plan(final(self).shadow(), mask),
            ),
            error_of(r) == verdict(old(self).transfers(), final(self).transfers()),
    {
        self.out = self.out & !low16(mask);
        self.write_outputs(mask)
    }

    /// Whether any line of `mask` is commanded high. Answers from the shadow
    /// value alone: nothing is sent and nothing changes.
    fn is_set_high(&mut self, mask: u32) -> (r: Result<bool, Self::Error>)
        ensures
            *final(self) == *old(self),
            final(self).transfers() == old(self).transfers(),
            r == Ok::<bool, Self::Error>(old(self).shadow() & lines(mask) != 0),
    {
        Ok(self.out & low16(mask) != 0)
    }

    /// Whether no line of `mask` is commanded high. Answers from the shadow
    /// value alone: nothing is sent and nothing changes.
    fn is_set_low(&mut self, mask: u32) -> (r: Result<bool, Self::Error>)
        ensures
            *final(self) == *old(self),
            final(self).transfers() == old(self).transfers(),
            r == Ok::<bool, Self::Error>(old(self).shadow() & lines(mask) == 0),
    {
        Ok(self.out & low16(mask) == 0)
    }

    /// Whether any line of `mask` is high at the device right now. The input
    /// register of each bank that `mask` touches is read once, bank 0 first;
    /// the first error ends the operation and is returned as it came.
    fn is_high(&mut self, mask: u32) -> (r: Result<bool, Self::Error>)
        ensures
            final(self).shadow() == old(self).shadow(),
            ran(old(self).transfers(), final(self).transfers(), input_plan(mask)),
            r == match verdict(old(self).transfers(), final(self).transfers()) {
                Some(e) => Err::<bool, Self::Error>(e),
                None => Ok(
                    snapshot(final(self).transfers(), old(self).transfers().len() as int, mask)
                        & lines(mask) != 0,
                ),
            },
    {
        let ghost pre = self.i2c.transfers();
        let m: u16 = low16(mask);
        let io0: u8 = if m & 0x00FF != 0 {
            match read_reg(&mut self.i2c, ADDRESS, Regs::InputPort0.addr()) {
                Err(e) => {
                    proof {
                        assert(self.i2c.transfers().subrange(0, pre.len() as int) =~= pre);
                    }
                    return Err(e);
                },
                Ok(b) => b,
            }
        } else {
            0
        };
        let io1: u8 = if m & 0xFF00 != 0 {
            match read_reg(&mut self.i2c, ADDRESS, Regs::InputPort1.addr()) {
                Err(e) => {
                    proof {
                        assert(self.i2c.transfers().subrange(0, pre.len() as int) =~= pre);
                    }
                    return Err(e);
                },
                Ok(b) => b,
            }
        } else {
            0
        };
        proof {
            assert(self.i2c.transfers().subrange(0, pre.len() as int) =~= pre);
        }
        let in_: u16 = ((io1 as u16) << 8) | (io0 as u16);
        Ok(in_ & m != 0)
    }

    /// The negation of `is_high` over the same mask, from the same reads.
    fn is_low(&mut self, mask: u32) -> (r: Result<bool, Self::Error>)
        ensures
            final(self).shadow() == old(self).shadow(),
            ran(old(self).transfers(), final(self).transfers(), input_plan(mask)),
            r == match verdict(old(self).transfers(), final(self).transfers()) {
                Some(e) => Err::<bool, Self::Error>(e),
                None => Ok(
                    snapshot(final(self).transfers(), old(self).transfers().len() as int, mask)
                        & lines(mask) == 0,
                ),
            },
    {
        match self.is_high(mask) {
            Ok(b) => Ok(!b),
            Err(e) => Err(e),
        }
    }

    /// Switches the lines of `mask` to `dir`. The configuration register of
    /// each bank that `mask` touches goes through one read-modify-write, bank
    /// 0 first: the bits of the selected lines are set for `Input` and
    /// cleared for `Output`, all others are written back as they were read.
    /// The first error ends the operation and is returned as it came. The
    /// shadow value does not change.
    fn set_direction(&mut self, mask: u32, dir: Direction) -> (r: Result<(), Self::Error>)
        ensures
            final(self).shadow() == old(self).shadow(),
            ran(
                old(self).transfers(),
                final(self).transfers(),
                direction_plan(
                    final(self).transfers(),
                    old(self).transfers().len() as int,
                    mask,
                    dir,
                ),
            ),
            error_of(r) == verdict(old(self).transfers(), final(self).transfers()),
    {
        let ghost pre = self.i2c.transfers();
        let m: u16 = low16(mask);
        let (mask_set, mask_clear): (u16, u16) = match dir {
            Direction::Input => (m, 0),
            Direction::Output => (0, m),
        };
        if m & 0x00FF != 0 {
            match update_reg(
                &mut self.i2c,
                ADDRESS,
                Regs::Configuration0.addr(),
                bank0_byte(mask_set),
                bank0_byte(mask_clear),
            ) {
                Err(e) => {
                    return Err(e);
                },
                Ok(_) => {},
            }
        }
        let r = if m & 0xFF00 != 0 {
            update_reg(
                &mut self.i2c,
                ADDRESS,
                Regs::Configuration1.addr(),
                bank1_byte(mask_set),
                bank1_byte(mask_clear),
            )
        } else {
            Ok(())
        };
        proof {
            let post = self.i2c.transfers();
            assert(post.subrange(0, pre.len() as int) =~= pre);
        }
        r
    }
}

} // verus!
