//! Vocabulary shared by all devices.

use vstd::prelude::*;

verus! {

/// Which way a line is switched.
#[derive(Debug, Clone, Copy, PartialEq, Eq)]
pub enum Direction {
    Input,
    Output,
}

/// One operation of a driver, as a value.
#[derive(Debug, Clone, Copy, PartialEq, Eq)]
pub enum Command {
    SetHigh,
    SetLow,
    IsSetHigh,
    IsSetLow,
    IsHigh,
    IsLow,
    SetDirection(Direction),
}

impl Command {
    /// Whether the command only acts and has no answer of its own.
    pub open spec fn acts(self) -> bool {
        match self {
            Command::SetHigh | Command::SetLow | Command::SetDirection(_) => true,
            _ => false,
        }
    }
}

/// The result of an operation that only acts, as the answer to a command:
/// success counts as `true`, an error stays what it is.
pub open spec fn answer_of<E>(r: Result<(), E>) -> Result<bool, E> {
    match r {
        Ok(_) => Ok(true),
        Err(e) => Err(e),
    }
}

/// The operations a device offers on a set of its lines. Bit `i` of `mask`
/// selects line `i`.
///
/// Each device says with `effect` what its operations do: how the driver
/// after a command relates to the driver before it, and which answer goes
/// with that. Every operation then promises the effect of its command.
pub trait PortDriver {
    type Error;

    /// Whether `command` with `mask`, on a driver in state `self`, may leave
    /// the driver as `after` and answer with `answer`.
    spec fn effect(
        &self,
        after: &Self,
        command: Command,
        mask: u32,
        answer: Result<bool, Self::Error>,
    ) -> bool;

    fn set_high(&mut self, mask: u32) -> (r: Result<(), Self::Error>)
        ensures
            old(self).effect(&*final(self), Command::SetHigh, mask, answer_of(r)),
    ;

    fn set_low(&mut self, mask: u32) -> (r: Result<(), Self::Error>)
        ensures
            old(self).effect(&*final(self), Command::SetLow, mask, answer_of(r)),
    ;

    fn is_set_high(&mut self, mask: u32) -> (r: Result<bool, Self::Error>)
        ensures
            old(self).effect(&*final(self), Command::IsSetHigh, mask, r),
    ;

    fn is_set_low(&mut self, mask: u32) -> (r: Result<bool, Self::Error>)
        ensures
            old(self).effect(&*final(self), Command::IsSetLow, mask, r),
    ;

    fn is_high(&mut self, mask: u32) -> (r: Result<bool, Self::Error>)
        ensures
            old(self).effect(&*final(self), Command::IsHigh, mask, r),
    ;

    fn is_low(&mut self, mask: u32) -> (r: Result<bool, Self::Error>)
        ensures
            old(self).effect(&*final(self), Command::IsLow, mask, r),
    ;

    fn set_direction(&mut self, mask: u32, dir: Direction) -> (r: Result<(), Self::Error>)
        ensures
            old(self).effect(&*final(self), Command::SetDirection(dir), mask, answer_of(r)),
    ;
}

/// `r` is what running `command` with `mask` gives on a driver that is
/// `before` when the command starts and `after` when it ends: the command has
/// its effect, and a command that only acts answers its success with `true`.
pub open spec fn answers<D: PortDriver>(
    before: D,
    after: D,
    command: Command,
    mask: u32,
    r: Result<bool, D::Error>,
) -> bool {
    &&& before.effect(&after, command, mask, r)
    &&& command.acts() && r is Ok ==> r == Ok::<bool, D::Error>(true)
}

/// `r` is an answer that a driver of kind `D` gives to `command` with
/// `mask`, in some state of the driver: nothing else can come back from a
/// command that ran on a driver one cannot see.
pub open spec fn some_answer<D: PortDriver>(
    command: Command,
    mask: u32,
    r: Result<bool, D::Error>,
) -> bool {
    exists|before: D, after: D| #[trigger] answers(before, after, command, mask, r)
}

/// Runs `command` on `driver` with `mask`: one call of the operation that
/// `command` names. A query gives its answer, an operation that only acts
/// gives `true`, and an error comes back as the driver gave it.
pub fn run<D: PortDriver>(driver: &mut D, command: Command, mask: u32) -> (r: Result<bool, D::Error>)
    ensures
        answers(*old(driver), *final(driver), command, mask, r),
{
    match command {
        Command::SetHigh => settled(driver.set_high(mask)),
        Command::SetLow => settled(driver.set_low(mask)),
        Command::IsSetHigh => driver.is_set_high(mask),
        Command::IsSetLow => driver.is_set_low(mask),
        Command::IsHigh => driver.is_high(mask),
        Command::IsLow => driver.is_low(mask),
        Command::SetDirection(dir) => settled(driver.set_direction(mask, dir)),
    }
}

/// The result of an operation that only acts, as the result of a query:
/// success becomes `true`, an error stays what it is.
pub fn settled<E>(r: Result<(), E>) -> (q: Result<bool, E>)
    ensures
        q == answer_of(r),
{
    match r {
        Ok(_) => Ok(true),
        Err(e) => Err(e),
    }
}

/// The result of a query, as the result of an operation that only acts: the
/// answer is dropped, an error stays what it is.
pub fn acted<E>(q: Result<bool, E>) -> (r: Result<(), E>)
    ensures
        answer_of(r) == match q {
            Ok(_) => Ok::<bool, E>(true),
            Err(e) => Err(e),
        },
{
    match q {
        Ok(_) => Ok(()),
        Err(e) => Err(e),
    }
}

} // verus!
