//! The two-level pulse model and the transmission layer: playing a
//! protocol's pulse sequence through a physical output, with a fixed
//! per-pulse delay correction.

use vstd::prelude::*;

use crate::pin::DigitalOutput;
use crate::radio_emitter::bit_pulses;
use crate::radio_emitter::pulses_for_bits;
use crate::radio_protocol::ProtocolModel;
use crate::radio_protocol::RadioProtocol;

verus! {

/// One pulse: the output line held HIGH or LOW for a duration in
/// microseconds.
#[derive(Copy, Clone, Eq, PartialEq, Structural, Debug)]
pub enum Signal {
    HIGH(u64),
    LOW(u64),
}

impl Signal {
    /// The duration of the pulse, in microseconds.
    pub open spec fn duration(self) -> u64 {
        match self {
            Signal::HIGH(d) => d,
            Signal::LOW(d) => d,
        }
    }
}

/// The fixed per-pulse overhead of driving the output, in microseconds,
/// subtracted from every pulse before it is played. An empirical tuning
/// value for one specific transmitter; replaceable configuration when
/// porting to other hardware.
pub const DELAY_CORRECTION: u64 = 100;

/// Whether every pulse of the sequence lasts at least `c` microseconds.
pub open spec fn all_at_least(s: Seq<Signal>, c: u64) -> bool {
    forall|i: int| 0 <= i < s.len() ==> (#[trigger] s[i]).duration() >= c
}

/// One pulse with the delay correction taken off its duration.
pub open spec fn corrected_signal(s: Signal) -> Signal {
    match s {
        Signal::HIGH(d) => Signal::HIGH((d - DELAY_CORRECTION) as u64),
        Signal::LOW(d) => Signal::LOW((d - DELAY_CORRECTION) as u64),
    }
}

/// A pulse sequence with the delay correction taken off every pulse.
pub open spec fn corrected(s: Seq<Signal>) -> Seq<Signal> {
    s.map_values(|x: Signal| corrected_signal(x))
}

/// Whether a table can be played after correction: every pulse of its
/// four patterns must outlast the correction constant. A table that
/// breaks this is a configuration defect, not a runtime condition.
pub open spec fn correctable(p: ProtocolModel) -> bool {
    &&& all_at_least(p.header, DELAY_CORRECTION)
    &&& all_at_least(p.footer, DELAY_CORRECTION)
    &&& all_at_least(p.zero, DELAY_CORRECTION)
    &&& all_at_least(p.one, DELAY_CORRECTION)
}

/// A duration bound carries over concatenation.
proof fn lemma_all_at_least_concat(a: Seq<Signal>, b: Seq<Signal>, c: u64)
    requires
        all_at_least(a, c),
        all_at_least(b, c),
    ensures
        all_at_least(a + b, c),
{
    assert forall|i: int| 0 <= i < (a + b).len() implies (#[trigger] (a + b)[i]).duration()
        >= c by {
        if i < a.len() {
            assert((a + b)[i] == a[i]);
        } else {
            assert((a + b)[i] == b[i - a.len()]);
        }
    }
}

/// A duration bound on the bit patterns carries over to any bit
/// sequence's pulses.
proof fn lemma_pulses_for_bits_at_least(zero: Seq<Signal>, one: Seq<Signal>, bits: Seq<bool>, c: u64)
    requires
        all_at_least(zero, c),
        all_at_least(one, c),
    ensures
        all_at_least(pulses_for_bits(zero, one, bits), c),
    decreases bits.len(),
{
    if bits.len() == 0 {
    } else {
        lemma_pulses_for_bits_at_least(zero, one, bits.drop_last(), c);
        lemma_all_at_least_concat(
            pulses_for_bits(zero, one, bits.drop_last()),
            bit_pulses(zero, one, bits.last()),
            c,
        );
    }
}

/// A duration bound on the bit patterns carries over to a whole body.
proof fn lemma_body_pulses_at_least(p: ProtocolModel, bytes: Seq<u8>, c: u64)
    requires
        all_at_least(p.zero, c),
        all_at_least(p.one, c),
    ensures
        all_at_least(p.body_pulses(bytes), c),
    decreases bytes.len(),
{
    if bytes.len() == 0 {
    } else {
        lemma_body_pulses_at_least(p, bytes.drop_last(), c);
        lemma_pulses_for_bits_at_least(
            p.zero,
            p.one,
            crate::radio_emitter::window_bits(
                bytes.last(),
                crate::radio_emitter::Order::LittleEndian.spec_positions(),
            ),
            c,
        );
        lemma_all_at_least_concat(
            p.body_pulses(bytes.drop_last()),
            p.byte_pulses(bytes.last()),
            c,
        );
    }
}

/// A duration bound on all four patterns carries over to any number of
/// frames.
proof fn lemma_frames_at_least(p: ProtocolModel, bytes: Seq<u8>, n: nat, c: u64)
    requires
        all_at_least(p.header, c),
        all_at_least(p.footer, c),
        all_at_least(p.zero, c),
        all_at_least(p.one, c),
    ensures
        all_at_least(p.frames(bytes, n), c),
    decreases n,
{
    lemma_body_pulses_at_least(p, bytes, c);
    lemma_all_at_least_concat(p.header, p.body_pulses(bytes), c);
    lemma_all_at_least_concat(p.header + p.body_pulses(bytes), p.footer, c);
    if n == 0 {
    } else {
        lemma_frames_at_least(p, bytes, (n - 1) as nat, c);
        lemma_all_at_least_concat(p.frames(bytes, (n - 1) as nat), p.frame(bytes), c);
    }
}

/// Every pulse that a correctable table emits, for any message,
/// outlasts the correction constant.
pub proof fn lemma_timings_at_least(p: ProtocolModel, bytes: Seq<u8>, c: u64)
    requires
        all_at_least(p.header, c),
        all_at_least(p.footer, c),
        all_at_least(p.zero, c),
        all_at_least(p.one, c),
    ensures
        all_at_least(p.timings(bytes), c),
{
    lemma_frames_at_least(p, bytes, p.repetition, c);
}

/// Take the delay correction off every pulse of a sequence.
pub fn corrected_timings(timings: &Vec<Signal>) -> (r: Vec<Signal>)
    requires
        all_at_least(timings@, DELAY_CORRECTION),
    ensures
        r@ == corrected(timings@),
{
    let mut r: Vec<Signal> = Vec::new();
    for i in 0..timings.len()
        invariant
            all_at_least(timings@, DELAY_CORRECTION),
            r@.len() == i,
            forall|j: int| 0 <= j < i ==> r@[j] == corrected_signal(timings@[j]),
    {
        match timings[i] {
            Signal::HIGH(d) => r.push(Signal::HIGH(d - DELAY_CORRECTION)),
            Signal::LOW(d) => r.push(Signal::LOW(d - DELAY_CORRECTION)),
        }
    }
    proof {
        assert(r@ =~= corrected(timings@));
    }
    r
}

/// A transmitter: anything that can play a whole message's corrected
/// pulse sequence. `played` is the trace of pulses put on the air so
/// far.
pub trait Radio: Sized {
    /// The pulses this transmitter has played so far, in order.
    spec fn played(&self) -> Seq<Signal>;

    /// Encode the message under the table, take the delay correction
    /// off every pulse, and play the whole sequence, in order, blocking
    /// until it is done. The channel is one-way: there is no
    /// acknowledgement and no retry beyond the table's own repetition.
    fn send(&mut self, message: &Vec<u8>, protocol: &RadioProtocol)
        requires
            correctable(protocol@),
        ensures
            final(self).played() == old(self).played() + corrected(
                protocol@.timings(message@),
            ),
    ;
}

/// Every digital output is a transmitter: it plays each corrected pulse
/// by holding the line at the pulse's level for the pulse's duration.
impl<T: DigitalOutput> Radio for T {
    open spec fn played(&self) -> Seq<Signal> {
        DigitalOutput::played(self)
    }

    fn send(&mut self, message: &Vec<u8>, protocol: &RadioProtocol) {
        let timings = protocol.timings_for(message);
        proof {
            lemma_timings_at_least(protocol@, message@, DELAY_CORRECTION);
        }
        let to_play = corrected_timings(&timings);
        let ghost start = DigitalOutput::played(&*self);
        for i in 0..to_play.len()
            invariant
                DigitalOutput::played(self) == start + to_play@.take(i as int),
        {
            match to_play[i] {
                Signal::HIGH(d) => self.high_during(d),
                Signal::LOW(d) => self.low_during(d),
            }
            proof {
                assert(start + to_play@.take(i as int) + seq![to_play@[i as int]] =~= start
                    + to_play@.take(i + 1));
                assert((start + to_play@.take(i as int)).push(to_play@[i as int]) =~= start
                    + to_play@.take(i as int) + seq![to_play@[i as int]]);
            }
        }
        proof {
            assert(to_play@.take(to_play@.len() as int) =~= to_play@);
        }
    }
}

} // verus!
