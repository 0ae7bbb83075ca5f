//! One line of a device, as a value of its own.

use crate::common::{acted, answers, some_answer, answer_of, Command, Direction, PortDriver};
use crate::mode::{Input, Output};
use crate::mutex::locked;
use core::marker::PhantomData;
use vstd::prelude::*;

verus! {

/// The mask that selects line `index` alone.
pub open spec fn line_mask(index: u8) -> u32 {
    1u32 << (index as u32)
}

/// The driver's answer behind the result of a change of mode: a pin came
/// back exactly when the driver answered with success, and an error is the
/// driver's own.
pub open spec fn switched<P, E>(r: Result<P, E>) -> Result<bool, E> {
    match r {
        Ok(_) => Ok(true),
        Err(e) => Err(e),
    }
}

/// Line `index` of the device behind a shared driver, switched to `MODE`.
///
/// A pin holds nothing but its number. Every operation takes the lock for
/// its own duration and hands the driver the mask `line_mask(index)`. What the
/// driver answers comes back unchanged.
#[verifier::reject_recursive_types(D)]
pub struct Pin<'a, MODE, D: PortDriver> {
    pin_number: u8,
    port_driver: &'a shared_bus::NullMutex<D>,
    _m: PhantomData<MODE>,
}

impl<'a, MODE, D: PortDriver> Pin<'a, MODE, D> {
    #[verifier::type_invariant]
    spec fn in_range(self) -> bool {
        self.pin_number < 32
    }

    /// The number of the line.
    pub closed spec fn index(self) -> u8 {
        self.pin_number
    }

    /// The pin for line `pin_number` of the device behind `port_driver`.
    pub fn new(pin_number: u8, port_driver: &'a shared_bus::NullMutex<D>) -> (p: Self)
        requires
            pin_number < 32,
        ensures
            p.index() == pin_number,
    {
        Self { pin_number, port_driver, _m: PhantomData }
    }

    /// The mask that selects this line alone.
    pub fn pin_mask(&self) -> (mask: u32)
        ensures
            mask == line_mask(self.index()),
            self.index() < 32,
    {
        proof {
            use_type_invariant(self);
        }
        1u32 << (self.pin_number as u32)
    }

    /// The pin in mode `NEW` when the driver answered the change of direction
    /// with success; the driver's error, and no pin, when it did not.
    fn retagged<NEW>(self, answer: Result<bool, D::Error>) -> (r: Result<
        Pin<'a, NEW, D>,
        D::Error,
    >)
        ensures
            match answer {
                Ok(_) => r matches Ok(p) && p.index() == self.index(),
                Err(e) => r matches Err(f) && f == e,
            },
    {
        proof {
            use_type_invariant(&self);
        }
        match answer {
            Ok(_) => Ok(
                Pin { pin_number: self.pin_number, port_driver: self.port_driver, _m: PhantomData },
            ),
            Err(e) => Err(e),
        }
    }

    /// Switches the line to input and hands back the pin in its new mode. The
    /// pin is used up either way: after an error there is none left.
    pub fn into_input(self) -> (r: Result<Pin<'a, Input, D>, D::Error>)
        ensures
            some_answer::<D>(
                Command::SetDirection(Direction::Input),
                line_mask(self.index()),
                switched(r),
            ),
            r matches Ok(p) ==> p.index() == self.index(),
    {
        let mask = self.pin_mask();
        let answer = locked(self.port_driver, Command::SetDirection(Direction::Input), mask);
        let r = self.retagged(answer);
        proof {
            let command = Command::SetDirection(Direction::Input);
            let (before, after) = choose|before: D, after: D| #[trigger]
                answers(before, after, command, mask, answer);
            assert(answers(before, after, command, mask, switched(r)));
        }
        r
    }

    /// Switches the line to output and hands back the pin in its new mode.
    /// The pin is used up either way: after an error there is none left.
    pub fn into_output(self) -> (r: Result<Pin<'a, Output, D>, D::Error>)
        ensures
            some_answer::<D>(
                Command::SetDirection(Direction::Output),
                line_mask(self.index()),
                switched(r),
            ),
            r matches Ok(p) ==> p.index() == self.index(),
    {
        let mask = self.pin_mask();
        let answer = locked(self.port_driver, Command::SetDirection(Direction::Output), mask);
        let r = self.retagged(answer);
        proof {
            let command = Command::SetDirection(Direction::Output);
            let (before, after) = choose|before: D, after: D| #[trigger]
                answers(before, after, command, mask, answer);
            assert(answers(before, after, command, mask, switched(r)));
        }
        r
    }
}

impl<'a, D: PortDriver> Pin<'a, Input, D> {
    /// Whether the line is high at the device right now.
    pub fn is_high(&self) -> (r: Result<bool, D::Error>)
        ensures
            some_answer::<D>(Command::IsHigh, line_mask(self.index()), r),
    {
        let mask = self.pin_mask();
        locked(self.port_driver, Command::IsHigh, mask)
    }

    /// Whether the line is low at the device right now.
    pub fn is_low(&self) -> (r: Result<bool, D::Error>)
        ensures
            some_answer::<D>(Command::IsLow, line_mask(self.index()), r),
    {
        let mask = self.pin_mask();
        locked(self.port_driver, Command::IsLow, mask)
    }
}

impl<'a, D: PortDriver> Pin<'a, Output, D> {
    /// Commands the line high.
    pub fn set_high(&self) -> (r: Result<(), D::Error>)
        ensures
            some_answer::<D>(Command::SetHigh, line_mask(self.index()), answer_of(r)),
    {
        let mask = self.pin_mask();
        let answer = locked(self.port_driver, Command::SetHigh, mask);
        let r = acted(answer);
        proof {
            let (before, after) = choose|before: D, after: D| #[trigger]
                answers(before, after, Command::SetHigh, mask, answer);
            assert(answers(before, after, Command::SetHigh, mask, answer_of(r)));
        }
        r
    }

    /// Commands the line low.
    pub fn set_low(&self) -> (r: Result<(), D::Error>)
        ensures
            some_answer::<D>(Command::SetLow, line_mask(self.index()), answer_of(r)),
    {
        let mask = self.pin_mask();
        let answer = locked(self.port_driver, Command::SetLow, mask);
        let r = acted(answer);
        proof {
            let (before, after) = choose|before: D, after: D| #[trigger]
                answers(before, after, Command::SetLow, mask, answer);
            assert(answers(before, after, Command::SetLow, mask, answer_of(r)));
        }
        r
    }

    /// Whether the line is commanded high.
    pub fn is_set_high(&self) -> (r: Result<bool, D::Error>)
        ensures
            some_answer::<D>(Command::IsSetHigh, line_mask(self.index()), r),
    {
        let mask = self.pin_mask();
        locked(self.port_driver, Command::IsSetHigh, mask)
    }

    /// Whether the line is commanded low.
    pub fn is_set_low(&self) -> (r: Result<bool, D::Error>)
        ensures
            some_answer::<D>(Command::IsSetLow, line_mask(self.index()), r),
    {
        let mask = self.pin_mask();
        locked(self.port_driver, Command::IsSetLow, mask)
    }
}

} // verus!
