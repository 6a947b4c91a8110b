//! The bit/byte encoder: turns an 8-bit value into an ordered sequence of
//! bit positions (full byte, most-significant first, or a 4-bit window),
//! and the emitter interface that plays bits as pulse patterns.

use vstd::prelude::*;

use crate::radio::Signal;

verus! {

/// The bit window of a value that an emitter walks: all eight bits or
/// only the low nibble, both most-significant first.
#[derive(Copy, Clone, Eq, PartialEq, Structural, Debug)]
pub enum Order {
    LittleEndian,
    LeastSignificant,
}

impl Order {
    /// The bit positions of the window, most-significant first.
    pub open spec fn spec_positions(self) -> Seq<u8> {
        match self {
            Order::LittleEndian => seq![7u8, 6u8, 5u8, 4u8, 3u8, 2u8, 1u8, 0u8],
            Order::LeastSignificant => seq![3u8, 2u8, 1u8, 0u8],
        }
    }

    /// Every position of a window is a valid bit index of a byte.
    pub proof fn lemma_positions_in_range(self)
        ensures
            forall|i: int|
                0 <= i < self.spec_positions().len() ==> #[trigger] self.spec_positions()[i] < 8,
    {
        match self {
            Order::LittleEndian => {
                assert forall|i: int|
                    0 <= i < self.spec_positions().len() implies #[trigger] self.spec_positions()[i]
                    < 8 by {
                    assert(self.spec_positions() == seq![7u8, 6u8, 5u8, 4u8, 3u8, 2u8, 1u8, 0u8]);
                }
            },
            Order::LeastSignificant => {
                assert forall|i: int|
                    0 <= i < self.spec_positions().len() implies #[trigger] self.spec_positions()[i]
                    < 8 by {
                    assert(self.spec_positions() == seq![3u8, 2u8, 1u8, 0u8]);
                }
            },
        }
    }

    /// The bit positions of the window as a vector, most-significant first.
    pub fn positions(self) -> (r: Vec<u8>)
        ensures
            r@ == self.spec_positions(),
    {
        match self {
            Order::LittleEndian => {
                let v: Vec<u8> = vec![7, 6, 5, 4, 3, 2, 1, 0];
                assert(v@ =~= self.spec_positions());
                v
            },
            Order::LeastSignificant => {
                let v: Vec<u8> = vec![3, 2, 1, 0];
                assert(v@ =~= self.spec_positions());
                v
            },
        }
    }
}

/// Whether bit `n` (counted from the least significant end) of `data` is set.
pub open spec fn bit_at(data: u8, n: u8) -> bool {
    data & (1u8 << n) != 0
}

/// The bits of `data` selected by `positions`, in order.
pub open spec fn window_bits(data: u8, positions: Seq<u8>) -> Seq<bool> {
    positions.map_values(|n: u8| bit_at(data, n))
}

/// The pulse pattern of one bit: the one-pattern for a set bit, the
/// zero-pattern otherwise.
pub open spec fn bit_pulses(zero: Seq<Signal>, one: Seq<Signal>, b: bool) -> Seq<Signal> {
    if b {
        one
    } else {
        zero
    }
}

/// The concatenated pulse patterns of a bit sequence, in order.
pub open spec fn pulses_for_bits(zero: Seq<Signal>, one: Seq<Signal>, bits: Seq<bool>) -> Seq<
    Signal,
>
    decreases bits.len(),
{
    if bits.len() == 0 {
        Seq::empty()
    } else {
        pulses_for_bits(zero, one, bits.drop_last()) + bit_pulses(zero, one, bits.last())
    }
}

/// Appending one bit appends exactly that bit's pattern.
pub proof fn lemma_pulses_for_bits_push(zero: Seq<Signal>, one: Seq<Signal>, bits: Seq<bool>, b: bool)
    ensures
        pulses_for_bits(zero, one, bits.push(b)) == pulses_for_bits(zero, one, bits) + bit_pulses(
            zero,
            one,
            b,
        ),
{
    assert(bits.push(b).drop_last() =~= bits);
    assert(bits.push(b).last() == b);
}

/// The pulse patterns of a full byte, most-significant bit first.
pub open spec fn pulses_for_byte(zero: Seq<Signal>, one: Seq<Signal>, data: u8) -> Seq<Signal> {
    pulses_for_bits(zero, one, window_bits(data, Order::LittleEndian.spec_positions()))
}

/// The pulse patterns of the low nibble, most-significant bit first.
pub open spec fn pulses_for_nibble(zero: Seq<Signal>, one: Seq<Signal>, data: u8) -> Seq<Signal> {
    pulses_for_bits(zero, one, window_bits(data, Order::LeastSignificant.spec_positions()))
}

/// The pulse patterns of the window `order` of `data`.
pub open spec fn pulses_for_window(
    zero: Seq<Signal>,
    one: Seq<Signal>,
    data: u8,
    order: Order,
) -> Seq<Signal> {
    pulses_for_bits(zero, one, window_bits(data, order.spec_positions()))
}

/// The high byte of a 16-bit value.
pub open spec fn spec_msb(data: u16) -> u8 {
    (data / 256) as u8
}

/// The low byte of a 16-bit value.
pub open spec fn spec_lsb(data: u16) -> u8 {
    (data % 256) as u8
}

/// The two bytes of a 16-bit value recompose it: the high byte weighs 256.
pub proof fn lemma_address_split(data: u16)
    ensures
        spec_msb(data) as int * 256 + spec_lsb(data) as int == data as int,
{
    assert(data / 256 * 256 + data % 256 == data) by (nonlinear_arith);
}

/// The high byte of a 16-bit value, most significant first.
pub fn most_significant_bits(data: u16) -> (r: u8)
    ensures
        r == spec_msb(data),
{
    proof {
        assert(((data & 0xFF00) >> 8) as u8 == (data / 256) as u8) by (bit_vector);
    }
    ((data & 0xFF00) >> 8) as u8
}

/// The low byte of a 16-bit value.
pub fn least_significant_bits(data: u16) -> (r: u8)
    ensures
        r == spec_lsb(data),
{
    proof {
        assert((data & 0x00FF) as u8 == (data % 256) as u8) by (bit_vector);
    }
    (data & 0x00FF) as u8
}

/// An emitter that turns bits into pulse patterns on some output. Each
/// implementor fixes its own four patterns (header, footer, zero bit,
/// one bit); the contracts state how every call extends the emitted
/// pulse trace.
pub trait RadioEmitter: Sized {
    /// The pulses emitted so far.
    spec fn emitted(&self) -> Seq<Signal>;

    /// The pulse pattern of a zero bit.
    spec fn zero_pattern(&self) -> Seq<Signal>;

    /// The pulse pattern of a one bit.
    spec fn one_pattern(&self) -> Seq<Signal>;

    /// The pulse pattern that opens a frame.
    spec fn header_pattern(&self) -> Seq<Signal>;

    /// The pulse pattern that closes a frame.
    spec fn footer_pattern(&self) -> Seq<Signal>;

    /// Emit the selected bit window of `data`, most-significant first.
    fn send_bits(&mut self, data: u8, range: Order)
        ensures
            final(self).emitted() == old(self).emitted() + pulses_for_window(
                old(self).zero_pattern(),
                old(self).one_pattern(),
                data,
                range,
            ),
            final(self).zero_pattern() == old(self).zero_pattern(),
            final(self).one_pattern() == old(self).one_pattern(),
            final(self).header_pattern() == old(self).header_pattern(),
            final(self).footer_pattern() == old(self).footer_pattern(),
    ;

    /// Emit all eight bits of `data`, most-significant first.
    fn send_byte(&mut self, data: u8)
        ensures
            final(self).emitted() == old(self).emitted() + pulses_for_byte(
                old(self).zero_pattern(),
                old(self).one_pattern(),
                data,
            ),
            final(self).zero_pattern() == old(self).zero_pattern(),
            final(self).one_pattern() == old(self).one_pattern(),
            final(self).header_pattern() == old(self).header_pattern(),
            final(self).footer_pattern() == old(self).footer_pattern(),
    {
        self.send_bits(data, Order::LittleEndian);
    }

    /// Emit the two bytes of `data`, high byte first.
    fn send_2bytes(&mut self, data: u16)
        ensures
            final(self).emitted() == old(self).emitted() + pulses_for_byte(
                old(self).zero_pattern(),
                old(self).one_pattern(),
                spec_msb(data),
            ) + pulses_for_byte(old(self).zero_pattern(), old(self).one_pattern(), spec_lsb(data)),
            final(self).zero_pattern() == old(self).zero_pattern(),
            final(self).one_pattern() == old(self).one_pattern(),
            final(self).header_pattern() == old(self).header_pattern(),
            final(self).footer_pattern() == old(self).footer_pattern(),
    {
        let ghost e0 = self.emitted();
        let ghost z = self.zero_pattern();
        let ghost o = self.one_pattern();
        self.send_byte(most_significant_bits(data));
        self.send_byte(least_significant_bits(data));
        proof {
            assert(self.emitted() =~= e0 + pulses_for_byte(z, o, spec_msb(data))
                + pulses_for_byte(z, o, spec_lsb(data)));
        }
    }

    /// Emit the frame header.
    fn header(&mut self)
        ensures
            final(self).emitted() == old(self).emitted() + old(self).header_pattern(),
            final(self).zero_pattern() == old(self).zero_pattern(),
            final(self).one_pattern() == old(self).one_pattern(),
            final(self).header_pattern() == old(self).header_pattern(),
            final(self).footer_pattern() == old(self).footer_pattern(),
    ;

    /// Emit the frame footer.
    fn footer(&mut self)
        ensures
            final(self).emitted() == old(self).emitted() + old(self).footer_pattern(),
            final(self).zero_pattern() == old(self).zero_pattern(),
            final(self).one_pattern() == old(self).one_pattern(),
            final(self).header_pattern() == old(self).header_pattern(),
            final(self).footer_pattern() == old(self).footer_pattern(),
    ;
}

} // verus!
