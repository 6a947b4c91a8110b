//! The Blyss dialect's pulse patterns: an emitter that plays each bit,
//! header and footer on a digital output with this dialect's timings.

use vstd::prelude::*;

use crate::pin::DigitalOutput;
use crate::radio::Signal;
use crate::radio_emitter::Order;
use crate::radio_emitter::RadioEmitter;
use crate::radio_emitter::bit_at;
use crate::radio_emitter::lemma_pulses_for_bits_push;
use crate::radio_emitter::pulses_for_bits;
use crate::radio_emitter::window_bits;

verus! {

/// The base pulse duration of the dialect, in microseconds.
pub const T_TIME: u64 = 400;

/// The header pulse duration of the dialect, in microseconds.
pub const H_TIME: u64 = 2400;

/// A Blyss emitter over a digital output. A zero bit is LOW for two
/// base times then HIGH for one; a one bit is LOW for one base time
/// then HIGH for two; the header holds HIGH for the header time and
/// the footer holds LOW for ten header times.
pub struct Blyss<T: DigitalOutput> {
    /// The output the pulses are played on.
    pub emitter: T,
}

impl<T: DigitalOutput> Blyss<T> {
    /// Wrap an output in a Blyss emitter.
    pub fn new(emitter: T) -> (r: Self)
        ensures
            r.emitter == emitter,
    {
        Blyss { emitter }
    }

    /// Play the zero-bit pattern.
    fn zero(&mut self)
        ensures
            final(self).emitter.played() == old(self).emitter.played() + seq![
                Signal::LOW((2 * T_TIME) as u64),
                Signal::HIGH(T_TIME),
            ],
    {
        self.emitter.low_during(T_TIME * 2);
        self.emitter.high_during(T_TIME);
        proof {
            assert(self.emitter.played() =~= old(self).emitter.played() + seq![
                Signal::LOW((2 * T_TIME) as u64),
                Signal::HIGH(T_TIME),
            ]);
        }
    }

    /// Play the one-bit pattern.
    fn one(&mut self)
        ensures
            final(self).emitter.played() == old(self).emitter.played() + seq![
                Signal::LOW(T_TIME),
                Signal::HIGH((2 * T_TIME) as u64),
            ],
    {
        self.emitter.low_during(T_TIME);
        self.emitter.high_during(T_TIME * 2);
        proof {
            assert(self.emitter.played() =~= old(self).emitter.played() + seq![
                Signal::LOW(T_TIME),
                Signal::HIGH((2 * T_TIME) as u64),
            ]);
        }
    }
}

impl<T: DigitalOutput> RadioEmitter for Blyss<T> {
    open spec fn emitted(&self) -> Seq<Signal> {
        self.emitter.played()
    }

    open spec fn zero_pattern(&self) -> Seq<Signal> {
        seq![Signal::LOW((2 * T_TIME) as u64), Signal::HIGH(T_TIME)]
    }

    open spec fn one_pattern(&self) -> Seq<Signal> {
        seq![Signal::LOW(T_TIME), Signal::HIGH((2 * T_TIME) as u64)]
    }

    open spec fn header_pattern(&self) -> Seq<Signal> {
        seq![Signal::HIGH(H_TIME)]
    }

    open spec fn footer_pattern(&self) -> Seq<Signal> {
        seq![Signal::LOW((10 * H_TIME) as u64)]
    }

    fn send_bits(&mut self, data: u8, range: Order) {
        let positions = range.positions();
        proof {
            range.lemma_positions_in_range();
        }
        let ghost all_bits = window_bits(data, range.spec_positions());
        let ghost start = self.emitter.played();
        let ghost zero_pat = self.zero_pattern();
        let ghost one_pat = self.one_pattern();
        for k in 0..positions.len()
            invariant
                positions@ == range.spec_positions(),
                forall|i: int| 0 <= i < positions@.len() ==> #[trigger] positions@[i] < 8,
                all_bits == window_bits(data, range.spec_positions()),
                self.emitter.played() == start + pulses_for_bits(
                    zero_pat,
                    one_pat,
                    all_bits.take(k as int),
                ),
                self.zero_pattern() == zero_pat,
                self.one_pattern() == one_pat,
        {
            let n = positions[k];
            let mask = 0x01u8 << n;
            if (data & mask) == 0 {
                self.zero();
            } else {
                self.one();
            }
            proof {
                assert(all_bits.take(k + 1) =~= all_bits.take(k as int).push(
                    bit_at(data, positions@[k as int]),
                ));
                lemma_pulses_for_bits_push(
                    zero_pat,
                    one_pat,
                    all_bits.take(k as int),
                    bit_at(data, positions@[k as int]),
                );
            }
        }
        proof {
            assert(all_bits.take(all_bits.len() as int) =~= all_bits);
        }
    }

    fn header(&mut self) {
        self.emitter.high_during(H_TIME);
        proof {
            assert(self.emitter.played() =~= old(self).emitter.played() + seq![
                Signal::HIGH(H_TIME),
            ]);
        }
    }

    fn footer(&mut self) {
        self.emitter.low_during(H_TIME * 10);
        proof {
            assert(self.emitter.played() =~= old(self).emitter.played() + seq![
                Signal::LOW((10 * H_TIME) as u64),
            ]);
        }
    }
}

} // verus!
