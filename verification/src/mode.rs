//! Tags for what a pin is currently switched to.

use vstd::prelude::*;

verus! {

/// The line is an input: its level can be read.
pub struct Input;

/// The line is an output: its level can be commanded.
pub struct Output;

} // verus!
