//! A blinking indicator light: ten on/off cycles with a pause after
//! every switch.

use vstd::prelude::*;

verus! {

/// Something that can be switched on and off. `states` is the trace of
/// switches so far: `true` for on, `false` for off.
pub trait Switchable: Sized {
    /// The switches seen so far, in order.
    spec fn states(&self) -> Seq<bool>;

    /// Switch on.
    fn switch_on(&mut self)
        ensures
            final(self).states() == old(self).states().push(true),
    ;

    /// Switch off.
    fn switch_off(&mut self)
        ensures
            final(self).states() == old(self).states().push(false),
    ;
}

/// A switchable that records its switches instead of driving anything.
pub struct InMemoryLed {
    /// The switches seen so far, in order.
    pub states: Vec<bool>,
}

impl InMemoryLed {
    /// A fresh recorder with an empty trace.
    pub fn new() -> (r: Self)
        ensures
            r.states@ == Seq::<bool>::empty(),
    {
        InMemoryLed { states: Vec::new() }
    }
}

impl Switchable for InMemoryLed {
    open spec fn states(&self) -> Seq<bool> {
        self.states@
    }

    fn switch_on(&mut self) {
        self.states.push(true);
    }

    fn switch_off(&mut self) {
        self.states.push(false);
    }
}

/// How long each half of a blink lasts, in microseconds.
pub const BLINK_PAUSE_MICROS: u64 = 500000;

/// `n` on/off cycles.
pub open spec fn blink_states(n: nat) -> Seq<bool>
    decreases n,
{
    if n == 0 {
        Seq::empty()
    } else {
        blink_states((n - 1) as nat) + seq![true, false]
    }
}

/// Blink the light ten times: switch on, pause, switch off, pause, ten
/// times over. The pause is handed to the caller's `pause` function
/// with the pause duration in microseconds.
pub fn blink<L: Switchable, F: Fn(u64)>(led: &mut L, pause: F)
    requires
        call_requires(pause, (BLINK_PAUSE_MICROS,)),
    ensures
        final(led).states() == old(led).states() + blink_states(10),
{
    let ghost start = led.states();
    for k in 0..10u32
        invariant
            led.states() == start + blink_states(k as nat),
            call_requires(pause, (BLINK_PAUSE_MICROS,)),
    {
        led.switch_on();
        pause(BLINK_PAUSE_MICROS);
        led.switch_off();
        pause(BLINK_PAUSE_MICROS);
        proof {
            assert(led.states() =~= start + blink_states((k + 1) as nat));
        }
    }
}

} // verus!
