//! The protocol timing table: a reusable encoder parameterized by
//! header, footer, zero-bit and one-bit pulse patterns plus a
//! repetition count, turning any byte sequence into a full pulse
//! sequence.

use vstd::prelude::*;

use crate::radio::Signal;
use crate::radio_emitter::Order;
use crate::radio_emitter::bit_at;
use crate::radio_emitter::lemma_pulses_for_bits_push;
use crate::radio_emitter::pulses_for_bits;
use crate::radio_emitter::pulses_for_byte;
use crate::radio_emitter::window_bits;

verus! {

/// The pulses that open every frame.
pub struct Header(pub Vec<Signal>);

/// The pulses that close every frame.
pub struct Footer(pub Vec<Signal>);

/// The pulse pattern of a zero bit.
pub struct Zero(pub Vec<Signal>);

/// The pulse pattern of a one bit.
pub struct One(pub Vec<Signal>);

/// A protocol timing table: four pulse patterns and a repetition count.
/// Constructed once per dialect and reused for every message of that
/// dialect.
pub struct RadioProtocol {
    header: Vec<Signal>,
    footer: Vec<Signal>,
    zero: Vec<Signal>,
    one: Vec<Signal>,
    repetition: u8,
}

/// The mathematical model of a protocol timing table.
#[verifier::ext_equal]
pub struct ProtocolModel {
    pub header: Seq<Signal>,
    pub footer: Seq<Signal>,
    pub zero: Seq<Signal>,
    pub one: Seq<Signal>,
    pub repetition: nat,
}

impl View for RadioProtocol {
    type V = ProtocolModel;

    closed spec fn view(&self) -> ProtocolModel {
        ProtocolModel {
            header: self.header@,
            footer: self.footer@,
            zero: self.zero@,
            one: self.one@,
            repetition: self.repetition as nat,
        }
    }
}

impl ProtocolModel {
    /// The pulses of one byte: eight bit patterns, most-significant
    /// bit first.
    pub open spec fn byte_pulses(self, data: u8) -> Seq<Signal> {
        pulses_for_byte(self.zero, self.one, data)
    }

    /// The pulses of a whole byte sequence, in order.
    pub open spec fn body_pulses(self, bytes: Seq<u8>) -> Seq<Signal>
        decreases bytes.len(),
    {
        if bytes.len() == 0 {
            Seq::empty()
        } else {
            self.body_pulses(bytes.drop_last()) + self.byte_pulses(bytes.last())
        }
    }

    /// One frame: header, then the body's bits, then footer.
    pub open spec fn frame(self, bytes: Seq<u8>) -> Seq<Signal> {
        self.header + self.body_pulses(bytes) + self.footer
    }

    /// `n` back-to-back copies of the frame.
    pub open spec fn frames(self, bytes: Seq<u8>, n: nat) -> Seq<Signal>
        decreases n,
    {
        if n == 0 {
            Seq::empty()
        } else {
            self.frames(bytes, (n - 1) as nat) + self.frame(bytes)
        }
    }

    /// The full pulse sequence of a message under this table: its frame
    /// repeated `repetition` times.
    pub open spec fn timings(self, bytes: Seq<u8>) -> Seq<Signal> {
        self.frames(bytes, self.repetition)
    }
}

/// Appending one byte to the body appends exactly that byte's pulses.
pub proof fn lemma_body_pulses_push(p: ProtocolModel, bytes: Seq<u8>, data: u8)
    ensures
        p.body_pulses(bytes.push(data)) == p.body_pulses(bytes) + p.byte_pulses(data),
{
    assert(bytes.push(data).drop_last() =~= bytes);
    assert(bytes.push(data).last() == data);
}

/// The pulse sequence is a function of the table and the bytes alone:
/// any two results of `timings_for` on equal inputs are equal.
pub proof fn lemma_timings_deterministic(
    p: ProtocolModel,
    bytes: Seq<u8>,
    r1: Seq<Signal>,
    r2: Seq<Signal>,
)
    requires
        r1 == p.timings(bytes),
        r2 == p.timings(bytes),
    ensures
        r1 == r2,
{
}

/// The length of a bit sequence's pulses, when the zero and the one
/// pattern are equally long: one pattern length per bit.
pub proof fn lemma_pulses_for_bits_len(zero: Seq<Signal>, one: Seq<Signal>, bits: Seq<bool>)
    requires
        zero.len() == one.len(),
    ensures
        pulses_for_bits(zero, one, bits).len() as int == bits.len() as int * zero.len() as int,
    decreases bits.len(),
{
    if bits.len() == 0 {
    } else {
        lemma_pulses_for_bits_len(zero, one, bits.drop_last());
        assert((bits.len() - 1) * zero.len() + zero.len() == bits.len() * zero.len())
            by (nonlinear_arith);
    }
}

/// The length of a body's pulses, when the zero and the one pattern are
/// equally long: eight pattern lengths per byte.
pub proof fn lemma_body_pulses_len(p: ProtocolModel, bytes: Seq<u8>)
    requires
        p.zero.len() == p.one.len(),
    ensures
        p.body_pulses(bytes).len() as int == bytes.len() as int * 8 * p.zero.len() as int,
    decreases bytes.len(),
{
    if bytes.len() == 0 {
        assert(bytes.len() as int * 8 * p.zero.len() as int == 0) by (nonlinear_arith)
            requires bytes.len() == 0;
    } else {
        lemma_body_pulses_len(p, bytes.drop_last());
        lemma_pulses_for_bits_len(
            p.zero,
            p.one,
            window_bits(bytes.last(), Order::LittleEndian.spec_positions()),
        );
        assert(window_bits(bytes.last(), Order::LittleEndian.spec_positions()).len() == 8);
        assert((bytes.len() - 1) * 8 * p.zero.len() + 8 * p.zero.len() == bytes.len() * 8
            * p.zero.len()) by (nonlinear_arith);
        assert(p.body_pulses(bytes).len() as int == bytes.len() as int * 8 * p.zero.len() as int);
    }
}

/// With repetition count `n` the output is exactly `n` concatenated
/// copies of header + body + footer; in particular its length is `n`
/// frame lengths, and with an empty header and footer the frame is
/// exactly the message's bit count times the pulses-per-bit length.
pub proof fn lemma_timings_repetition(p: ProtocolModel, bytes: Seq<u8>, n: nat)
    ensures
        p.frames(bytes, n).len() as int == n as int * p.frame(bytes).len() as int,
        p.header.len() == 0 && p.footer.len() == 0 && p.zero.len() == p.one.len()
            ==> p.frame(bytes).len() as int == bytes.len() as int * 8 * p.zero.len() as int,
    decreases n,
{
    if p.header.len() == 0 && p.footer.len() == 0 && p.zero.len() == p.one.len() {
        lemma_body_pulses_len(p, bytes);
    }
    if n == 0 {
        assert(n as int * p.frame(bytes).len() as int == 0) by (nonlinear_arith)
            requires n == 0;
    } else {
        lemma_timings_repetition(p, bytes, (n - 1) as nat);
        assert((n - 1) * p.frame(bytes).len() + p.frame(bytes).len() == n * p.frame(
            bytes,
        ).len()) by (nonlinear_arith);
        assert(p.frames(bytes, n).len() as int == n as int * p.frame(bytes).len() as int);
    }
}

impl RadioProtocol {
    /// Build a table from its four patterns and the repetition count.
    /// No validation happens here: a malformed table is a configuration
    /// defect, caught only by tests against known-good captures.
    pub fn new(header: Header, footer: Footer, zero: Zero, one: One, repetition: u8) -> (r: Self)
        ensures
            r@.header == header.0@,
            r@.footer == footer.0@,
            r@.zero == zero.0@,
            r@.one == one.0@,
            r@.repetition == repetition as nat,
    {
        RadioProtocol {
            header: header.0,
            footer: footer.0,
            zero: zero.0,
            one: one.0,
            repetition,
        }
    }

    /// The pulses of one byte, most-significant bit first: the
    /// zero-pattern for a clear bit, the one-pattern for a set bit.
    fn timings_for_byte(&self, data: u8) -> (r: Vec<Signal>)
        ensures
            r@ == self@.byte_pulses(data),
    {
        let positions = Order::LittleEndian.positions();
        proof {
            Order::LittleEndian.lemma_positions_in_range();
        }
        let mut r: Vec<Signal> = Vec::new();
        let ghost all_bits = window_bits(data, Order::LittleEndian.spec_positions());
        for k in 0..positions.len()
            invariant
                positions@ == Order::LittleEndian.spec_positions(),
                forall|i: int| 0 <= i < positions@.len() ==> #[trigger] positions@[i] < 8,
                r@ == pulses_for_bits(self@.zero, self@.one, all_bits.take(k as int)),
                all_bits == window_bits(data, Order::LittleEndian.spec_positions()),
        {
            let n = positions[k];
            let mask = 1u8 << n;
            let ghost r_before = r@;
            let pattern: &Vec<Signal> = if data & mask == 0 {
                &self.zero
            } else {
                &self.one
            };
            for j in 0..pattern.len()
                invariant
                    r@ == r_before + pattern@.take(j as int),
            {
                r.push(pattern[j]);
                proof {
                    assert(r@ =~= r_before + pattern@.take(j + 1));
                }
            }
            proof {
                assert(pattern@.take(pattern@.len() as int) =~= pattern@);
                assert(all_bits.take(k + 1) =~= all_bits.take(k as int).push(
                    bit_at(data, positions@[k as int]),
                ));
                lemma_pulses_for_bits_push(
                    self@.zero,
                    self@.one,
                    all_bits.take(k as int),
                    bit_at(data, positions@[k as int]),
                );
            }
        }
        proof {
            assert(all_bits.take(all_bits.len() as int) =~= all_bits);
        }
        r
    }

    /// The full pulse sequence for a message's bytes: `repetition`
    /// copies of header, then one pattern per bit of each byte in
    /// order, then footer. Identical table and message always yield an
    /// identical sequence.
    pub fn timings_for(&self, message: &Vec<u8>) -> (r: Vec<Signal>)
        ensures
            r@ == self@.timings(message@),
    {
        let mut r: Vec<Signal> = Vec::new();
        for rep in 0..self.repetition
            invariant
                r@ == self@.frames(message@, rep as nat),
        {
            let ghost frames_before = r@;
            for j in 0..self.header.len()
                invariant
                    r@ == frames_before + self.header@.take(j as int),
            {
                r.push(self.header[j]);
                proof {
                    assert(r@ =~= frames_before + self.header@.take(j + 1));
                }
            }
            proof {
                assert(self.header@.take(self.header@.len() as int) =~= self.header@);
            }
            let ghost with_header = r@;
            for b in 0..message.len()
                invariant
                    r@ == with_header + self@.body_pulses(message@.take(b as int)),
            {
                let mut byte_pulses = self.timings_for_byte(message[b]);
                r.append(&mut byte_pulses);
                proof {
                    assert(message@.take(b + 1) =~= message@.take(b as int).push(
                        message@[b as int],
                    ));
                    lemma_body_pulses_push(self@, message@.take(b as int), message@[b as int]);
                }
            }
            proof {
                assert(message@.take(message@.len() as int) =~= message@);
            }
            let ghost with_body = r@;
            for j in 0..self.footer.len()
                invariant
                    r@ == with_body + self.footer@.take(j as int),
            {
                r.push(self.footer[j]);
                proof {
                    assert(r@ =~= with_body + self.footer@.take(j + 1));
                }
            }
            proof {
                assert(self.footer@.take(self.footer@.len() as int) =~= self.footer@);
                assert(r@ =~= frames_before + self@.frame(message@));
            }
        }
        r
    }
}

} // verus!
