//! The raw-capture replay path: plays a pre-captured list of
//! alternating pulse durations directly, bypassing the protocol table,
//! for dialects whose bit encoding was never modeled, only captured.

use vstd::prelude::*;

use crate::pin::DigitalOutput;
use crate::radio::Signal;

verus! {

/// The pulses of a raw capture. The even positions hold the line HIGH
/// and the odd ones LOW (the convention of this capture generation —
/// recorded captures must match it). A malformed, odd-length capture
/// yields nothing at all.
pub open spec fn replay_signals(timings: Seq<u64>) -> Seq<Signal> {
    if timings.len() % 2 != 0 {
        Seq::empty()
    } else {
        Seq::new(
            timings.len(),
            |i: int|
                if i % 2 == 0 {
                    Signal::HIGH(timings[i])
                } else {
                    Signal::LOW(timings[i])
                },
        )
    }
}

/// An odd-length capture produces no pulses at all; an even-length
/// capture of length 2k produces exactly its 2k durations as k
/// alternating HIGH/LOW pairs, matching the input values in order.
pub proof fn lemma_replay_signals(timings: Seq<u64>)
    ensures
        timings.len() % 2 != 0 ==> replay_signals(timings) == Seq::<Signal>::empty(),
        timings.len() % 2 == 0 ==> replay_signals(timings).len() == timings.len(),
        timings.len() % 2 == 0 ==> forall|i: int|
            0 <= i < timings.len() ==> #[trigger] replay_signals(timings)[i] == (if i % 2 == 0 {
                Signal::HIGH(timings[i])
            } else {
                Signal::LOW(timings[i])
            }),
{
}

/// A replayer of raw captures.
pub trait Replayer {
    /// Play a captured list of alternating durations.
    fn play(&mut self, timings: &[u64]);
}

/// A raw-capture player over a digital output.
pub struct Replay<T: DigitalOutput> {
    /// The output the capture is played on.
    pub output: T,
}

impl<T: DigitalOutput> Replay<T> {
    /// Wrap an output in a replayer.
    pub fn new(output: T) -> (r: Self)
        ensures
            r.output == output,
    {
        Replay { output }
    }
}

impl<T: DigitalOutput> Replayer for Replay<T> {
    /// Play the capture as alternating HIGH/LOW pulses, even positions
    /// HIGH, with no repetition and no correction: the capture already
    /// includes whatever repetition the original remote transmitted.
    /// A malformed, odd-length capture is silently ignored.
    fn play(&mut self, timings: &[u64])
        ensures
            final(self).output.played() == old(self).output.played() + replay_signals(timings@),
    {
        let ghost start = self.output.played();
        if timings.len() % 2 == 0 {
            for i in 0..timings.len()
                invariant
                    timings@.len() % 2 == 0,
                    self.output.played() == start + replay_signals(timings@).take(i as int),
            {
                let timing = timings[i];
                if i % 2 == 0 {
                    self.output.high_during(timing);
                } else {
                    self.output.low_during(timing);
                }
                proof {
                    assert(self.output.played() =~= start + replay_signals(timings@).take(i + 1));
                }
            }
            proof {
                assert(replay_signals(timings@).take(timings@.len() as int) =~= replay_signals(
                    timings@,
                ));
            }
        } else {
            proof {
                assert(self.output.played() =~= start + replay_signals(timings@));
            }
        }
    }
}

} // verus!
