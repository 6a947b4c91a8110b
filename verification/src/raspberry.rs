//! Outputs for the target board. The real GPIO pin driver lives outside
//! this library; the fake output here records the pulses it is asked to
//! play, for use on machines without the pin and in tests.

use vstd::prelude::*;

use crate::house::MyHouse;
use crate::pin::DigitalOutput;
use crate::radio::Signal;

verus! {

/// A digital output that records every pulse instead of driving a pin.
pub struct FakeDigitalOutput {
    /// The pulses played so far, in order.
    pub signals: Vec<Signal>,
}

impl FakeDigitalOutput {
    /// A fresh output with an empty trace.
    pub fn new() -> (r: Self)
        ensures
            r.played() == Seq::<Signal>::empty(),
    {
        FakeDigitalOutput { signals: Vec::new() }
    }
}

/// A house over a recording output, for machines without the real
/// pin: the pulses every command would play stay in the fake output's
/// trace.
pub fn create_fake_house() -> (r: MyHouse<FakeDigitalOutput>)
    ensures
        r.radio.signals@ == Seq::<Signal>::empty(),
{
    let pin = FakeDigitalOutput::new();
    MyHouse::new(pin)
}

impl DigitalOutput for FakeDigitalOutput {
    open spec fn played(&self) -> Seq<Signal> {
        self.signals@
    }

    fn high_during(&mut self, micros: u64) {
        self.signals.push(Signal::HIGH(micros));
    }

    fn low_during(&mut self, micros: u64) {
        self.signals.push(Signal::LOW(micros));
    }
}

} // verus!
