//! The register bus: what a transport has to offer, the record of what was
//! asked of it, and the three register accesses the drivers are built from.

use vstd::prelude::*;

verus! {

/// What was asked of the transport in one exchange.
pub enum Request {
    /// Store `value` in register `reg` of the device at `addr`.
    Write { addr: u8, reg: u8, value: u8 },
    /// Fetch register `reg` of the device at `addr`.
    Read { addr: u8, reg: u8 },
}

/// One exchange on the bus together with what the transport answered.
pub enum Transfer<E> {
    Write { addr: u8, reg: u8, value: u8, done: Result<(), E> },
    Read { addr: u8, reg: u8, got: Result<u8, E> },
}

impl<E> Transfer<E> {
    /// The exchange without its answer.
    pub open spec fn request(self) -> Request {
        match self {
            Transfer::Write { addr, reg, value, .. } => Request::Write { addr, reg, value },
            Transfer::Read { addr, reg, .. } => Request::Read { addr, reg },
        }
    }

    /// The error the transport answered with, if it did.
    pub open spec fn failure(self) -> Option<E> {
        match self {
            Transfer::Write { done: Err(e), .. } => Some(e),
            Transfer::Read { got: Err(e), .. } => Some(e),
            _ => None,
        }
    }

    /// The byte a successful read brought back; zero for anything else.
    pub open spec fn data(self) -> u8 {
        match self {
            Transfer::Read { got: Ok(b), .. } => b,
            _ => 0,
        }
    }
}

/// A transport that moves single bytes to and from device registers.
///
/// `transfers` is the record of every exchange the transport has been asked
/// for, oldest first. Each call adds exactly one entry, which holds the
/// arguments of the call and the value it returned, whether it succeeded or
/// not.
pub trait I2cBus {
    type BusError;

    spec fn transfers(&self) -> Seq<Transfer<Self::BusError>>;

    fn write_byte(&mut self, addr: u8, reg: u8, value: u8) -> (r: Result<(), Self::BusError>)
        ensures
            final(self).transfers() == old(self).transfers().push(
                Transfer::Write { addr, reg, value, done: r },
            ),
    ;

    fn read_byte(&mut self, addr: u8, reg: u8) -> (r: Result<u8, Self::BusError>)
        ensures
            final(self).transfers() == old(self).transfers().push(
                Transfer::Read { addr, reg, got: r },
            ),
    ;
}

/// `post` is `pre` followed by the exchanges of `plan`, in order, up to and
/// including the first one that failed; nothing is attempted after a failure.
pub open spec fn ran<E>(pre: Seq<Transfer<E>>, post: Seq<Transfer<E>>, plan: Seq<Request>) -> bool {
    &&& pre.len() <= post.len() <= pre.len() + plan.len()
    &&& post.subrange(0, pre.len() as int) == pre
    &&& forall|j: int|
        pre.len() <= j < post.len() ==> (#[trigger] post[j]).request() == plan[j - pre.len()]
    &&& forall|j: int| pre.len() <= j < post.len() - 1 ==> (#[trigger] post[j]).failure() is None
    &&& post.len() < pre.len() + plan.len() ==> post.len() > pre.len() && post.last().failure() is Some
}

/// The error that ended the exchanges added between `pre` and `post`, if one
/// did: only the last of them can have failed.
pub open spec fn verdict<E>(pre: Seq<Transfer<E>>, post: Seq<Transfer<E>>) -> Option<E> {
    if post.len() > pre.len() {
        post.last().failure()
    } else {
        None
    }
}

/// The error in a result, if it is one.
pub open spec fn error_of<T, E>(r: Result<T, E>) -> Option<E> {
    match r {
        Ok(_) => None,
        Err(e) => Some(e),
    }
}

/// The byte a register holds after a read-modify-write that found `current`:
/// the bits of `clear` are taken out, then the bits of `set` are put in.
pub open spec fn merged(current: u8, set: u8, clear: u8) -> u8 {
    (current & !clear) | set
}

/// The exchanges of one read-modify-write of `reg`. The value written depends
/// on the byte that the read, the exchange at position `at` of `post`, brought
/// back.
pub open spec fn update_plan<E>(
    post: Seq<Transfer<E>>,
    at: int,
    addr: u8,
    reg: u8,
    set: u8,
    clear: u8,
) -> Seq<Request> {
    seq![
        Request::Read { addr, reg },
        Request::Write { addr, reg, value: merged(post[at].data(), set, clear) },
    ]
}

/// Writes `value` to register `reg`: one write exchange, whose answer is
/// returned as it came.
pub fn write_reg<B: I2cBus>(bus: &mut B, addr: u8, reg: u8, value: u8) -> (r: Result<
    (),
    B::BusError,
>)
    ensures
        final(bus).transfers() == old(bus).transfers().push(
            Transfer::Write { addr, reg, value, done: r },
        ),
{
    bus.write_byte(addr, reg, value)
}

/// Reads register `reg`: one read exchange, whose answer is returned as it
/// came.
pub fn read_reg<B: I2cBus>(bus: &mut B, addr: u8, reg: u8) -> (r: Result<u8, B::BusError>)
    ensures
        final(bus).transfers() == old(bus).transfers().push(
            Transfer::Read { addr, reg, got: r },
        ),
{
    bus.read_byte(addr, reg)
}

/// Read-modify-write of register `reg`: reads the register, and if that
/// succeeded writes back what was read with the bits of `mask_clear` cleared
/// and the bits of `mask_set` set. A failed read ends the operation without a
/// write. The first error is returned unchanged.
pub fn update_reg<B: I2cBus>(bus: &mut B, addr: u8, reg: u8, mask_set: u8, mask_clear: u8) -> (r:
    Result<(), B::BusError>)
    ensures
        ran(
            old(bus).transfers(),
            final(bus).transfers(),
            update_plan(
                final(bus).transfers(),
                old(bus).transfers().len() as int,
                addr,
                reg,
                mask_set,
                mask_clear,
            ),
        ),
        error_of(r) == verdict(old(bus).transfers(), final(bus).transfers()),
{
    let ghost pre = bus.transfers();
    match bus.read_byte(addr, reg) {
        Err(e) => {
            proof {
                let post = bus.transfers();
                assert(post.subrange(0, pre.len() as int) =~= pre);
                assert(post.last() == Transfer::Read { addr, reg, got: Err::<u8, B::BusError>(e) });
            }
            Err(e)
        },
        Ok(current) => {
            let value: u8 = (current & !mask_clear) | mask_set;
            let r = bus.write_byte(addr, reg, value);
            proof {
                let post = bus.transfers();
                assert(post.subrange(0, pre.len() as int) =~= pre);
                assert(post.last() == Transfer::Write { addr, reg, value, done: r });
                assert(post[pre.len() as int].data() == current);
            }
            r
        },
    }
}

} // verus!
