//! The lock around a driver that its pins share.
//!
//! The lock keeps the driver in a cell, so what a locked operation returns
//! depends on everything the other pins did before it. What is said here of
//! a result is therefore only what holds in every state of the driver.

use crate::common::{run, some_answer, Command, PortDriver};
use vstd::prelude::*;

verus! {

#[verifier::external_type_specification]
#[verifier::external_body]
#[verifier::reject_recursive_types(T)]
pub struct ExNullMutex<T>(shared_bus::NullMutex<T>);

/// `shared_bus::BusMutex::create` for `NullMutex`: wraps a value in a new
/// lock. Nothing is claimed of the lock that comes back.
#[verifier::external_body]
pub(crate) fn create<D>(bus: D) -> shared_bus::NullMutex<D> {
    shared_bus::BusMutex::create(bus)
}

/// `shared_bus::BusMutex::lock` for `NullMutex`: borrows the driver inside
/// the lock, calls the closure on it once, and returns what the closure
/// returned. The closure is one call of `run` with `command` and `mask`, so
/// the result is what `run` gives on the driver as it was when the lock was
/// taken. Which state that was is not known here: the claim is that there is
/// one. The lock is free whenever this is called, since it is only ever taken
/// here and the command does not come back to it.
#[verifier::external_body]
pub(crate) fn locked<D: PortDriver>(
    m: &shared_bus::NullMutex<D>,
    command: Command,
    mask: u32,
) -> (r: Result<bool, D::Error>)
    ensures
        some_answer::<D>(command, mask, r),
{
    shared_bus::BusMutex::lock(m, |d: &mut D| run(d, command, mask))
}

} // verus!
