//! The physical-output capability: a digital line that can be held HIGH
//! or LOW for a duration. The real driver lives outside this library;
//! here only the capability's contract is stated, as the pulse trace the
//! line has played.

use vstd::prelude::*;

use crate::radio::Signal;

verus! {

/// A digital output line. `played` is the trace of pulses the line has
/// carried; each call holds the line at one level for the given number
/// of microseconds and so appends one pulse.
pub trait DigitalOutput: Sized {
    /// The pulses this output has played so far, in order.
    spec fn played(&self) -> Seq<Signal>;

    /// Hold the line HIGH for `micros` microseconds.
    fn high_during(&mut self, micros: u64)
        ensures
            final(self).played() == old(self).played().push(Signal::HIGH(micros)),
    ;

    /// Hold the line LOW for `micros` microseconds.
    fn low_during(&mut self, micros: u64)
        ensures
            final(self).played() == old(self).played().push(Signal::LOW(micros)),
    ;
}

} // verus!
