//! A transport that plays back a script, for trying a driver without a device.

use crate::bus::{I2cBus, Transfer};
use vstd::prelude::*;

verus! {

/// What a scripted transport answers with when an exchange goes wrong.
#[derive(Debug, Clone, Copy, PartialEq, Eq)]
pub enum MockError {
    /// The exchange is not the one the script has next, or the script is over.
    Unexpected,
    /// The script asked for this exchange to fail, with this code.
    Scripted(u32),
}

/// One exchange of a script: what the transport is to be asked, and what it
/// answers. `byte` is the value written, or the value a read brings back.
#[derive(Debug, Clone, Copy, PartialEq, Eq)]
pub struct Step {
    pub write: bool,
    pub addr: u8,
    pub reg: u8,
    pub byte: u8,
    pub fault: Option<u32>,
}

impl Step {
    /// A write of `value` to register `reg` that succeeds.
    pub fn write(addr: u8, reg: u8, value: u8) -> (s: Step)
        ensures
            s == (Step { write: true, addr, reg, byte: value, fault: None }),
    {
        Step { write: true, addr, reg, byte: value, fault: None }
    }

    /// A read of register `reg` that brings back `response`.
    pub fn read(addr: u8, reg: u8, response: u8) -> (s: Step)
        ensures
            s == (Step { write: false, addr, reg, byte: response, fault: None }),
    {
        Step { write: false, addr, reg, byte: response, fault: None }
    }

    /// The same exchange, failing with `code`.
    pub fn failing(self, code: u32) -> (s: Step)
        ensures
            s == (Step { fault: Some(code), ..self }),
    {
        Step { write: self.write, addr: self.addr, reg: self.reg, byte: self.byte, fault: Some(code) }
    }

    /// The answer to a write, if this step is next in the script.
    pub open spec fn answer_write(self, addr: u8, reg: u8, value: u8) -> Result<(), MockError> {
        if self.write && self.addr == addr && self.reg == reg && self.byte == value {
            match self.fault {
                Some(code) => Err(MockError::Scripted(code)),
                None => Ok(()),
            }
        } else {
            Err(MockError::Unexpected)
        }
    }

    /// The answer to a read, if this step is next in the script.
    pub open spec fn answer_read(self, addr: u8, reg: u8) -> Result<u8, MockError> {
        if !self.write && self.addr == addr && self.reg == reg {
            match self.fault {
                Some(code) => Err(MockError::Scripted(code)),
                None => Ok(self.byte),
            }
        } else {
            Err(MockError::Unexpected)
        }
    }
}

/// A transport that answers from a script. Each exchange uses up one step,
/// whether it matches the step or not; once the script is over every
/// exchange is unexpected.
pub struct Mock {
    script: Vec<Step>,
    next: usize,
    log: Ghost<Seq<Transfer<MockError>>>,
}

impl Mock {
    #[verifier::type_invariant]
    spec fn in_range(self) -> bool {
        self.next <= self.script.len()
    }

    /// The script the transport was made with.
    pub closed spec fn script(self) -> Seq<Step> {
        self.script@
    }

    /// How many steps of the script are used up.
    pub closed spec fn position(self) -> nat {
        self.next as nat
    }

    /// A transport at the start of `script`, with no exchange behind it.
    pub fn new(script: Vec<Step>) -> (m: Mock)
        ensures
            m.script() == script@,
            m.position() == 0,
            m.transfers() == Seq::<Transfer<MockError>>::empty(),
    {
        Mock { script, next: 0, log: Ghost(Seq::empty()) }
    }

    /// Whether the whole script has been played.
    pub fn done(&self) -> (b: bool)
        ensures
            b == (self.position() == self.script().len()),
    {
        self.next == self.script.len()
    }
}

impl I2cBus for Mock {
    type BusError = MockError;

    closed spec fn transfers(&self) -> Seq<Transfer<MockError>> {
        self.log@
    }

    fn write_byte(&mut self, addr: u8, reg: u8, value: u8) -> (r: Result<(), MockError>)
        ensures
            final(self).script() == old(self).script(),
            final(self).position() == if old(self).position() < old(self).script().len() {
                old(self).position() + 1
            } else {
                old(self).position()
            },
            r == if old(self).position() < old(self).script().len() {
                old(self).script()[old(self).position() as int].answer_write(addr, reg, value)
            } else {
                Err::<(), MockError>(MockError::Unexpected)
            },
    {
        proof {
            use_type_invariant(&*self);
        }
        let r = if self.next < self.script.len() {
            let s = self.script[self.next];
            self.next = self.next + 1;
            if s.write && s.addr == addr && s.reg == reg && s.byte == value {
                match s.fault {
                    Some(code) => Err(MockError::Scripted(code)),
                    None => Ok(()),
                }
            } else {
                Err(MockError::Unexpected)
            }
        } else {
            Err(MockError::Unexpected)
        };
        self.log = Ghost(self.log@.push(Transfer::Write { addr, reg, value, done: r }));
        r
    }

    fn read_byte(&mut self, addr: u8, reg: u8) -> (r: Result<u8, MockError>)
        ensures
            final(self).script() == old(self).script(),
            final(self).position() == if old(self).position() < old(self).script().len() {
                old(self).position() + 1
            } else {
                old(self).position()
            },
            r == if old(self).position() < old(self).script().len() {
                old(self).script()[old(self).position() as int].answer_read(addr, reg)
            } else {
                Err::<u8, MockError>(MockError::Unexpected)
            },
    {
        proof {
            use_type_invariant(&*self);
        }
        let r = if self.next < self.script.len() {
            let s = self.script[self.next];
            self.next = self.next + 1;
            if !s.write && s.addr == addr && s.reg == reg {
                match s.fault {
                    Some(code) => Err(MockError::Scripted(code)),
                    None => Ok(s.byte),
                }
            } else {
                Err(MockError::Unexpected)
            }
        } else {
            Err(MockError::Unexpected)
        };
        self.log = Ghost(self.log@.push(Transfer::Read { addr, reg, got: r }));
        r
    }
}

} // verus!
