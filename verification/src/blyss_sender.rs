//! The Blyss dialect's message layer: channel and sub-channel
//! addressing, the rolling-code generator, and the sender that plays a
//! whole message as thirteen repeated frames.

use vstd::prelude::*;

use crate::radio::Signal;
use crate::radio_emitter::Order;
use crate::radio_emitter::RadioEmitter;
use crate::radio_emitter::pulses_for_byte;
use crate::radio_emitter::pulses_for_nibble;
use crate::radio_emitter::spec_lsb;
use crate::radio_emitter::spec_msb;
use crate::sender::Sender;
use vstd::arithmetic::div_mod::lemma_add_mod_noop_right;
use vstd::arithmetic::div_mod::lemma_mod_division_less_than_divisor;
use vstd::arithmetic::div_mod::lemma_mod_multiples_vanish;
use vstd::arithmetic::div_mod::lemma_mod_self_0;
use vstd::arithmetic::div_mod::lemma_mod_sub_multiples_vanish;
use vstd::arithmetic::div_mod::lemma_small_mod;

verus! {

/// The on/off command, packed into a 4-bit field on the air.
#[derive(Copy, Clone, Debug, Eq, PartialEq, Structural)]
pub enum Status {
    On,
    Off,
}

impl Status {
    /// The wire code of the command.
    pub open spec fn spec_code(self) -> u8 {
        match self {
            Status::On => 0x00,
            Status::Off => 0x01,
        }
    }

    /// The wire code of the command.
    pub fn code(self) -> (r: u8)
        ensures
            r == self.spec_code(),
    {
        match self {
            Status::On => 0x00,
            Status::Off => 0x01,
        }
    }
}

/// The sub-channel selector: one of five receivers on a channel, or
/// all of them at once. Packed into a 4-bit field on the air.
#[derive(Copy, Clone, Debug, Eq, PartialEq, Structural)]
pub enum SubChannel {
    Channel1,
    Channel2,
    Channel3,
    Channel4,
    Channel5,
    AllChannels,
}

impl SubChannel {
    /// The wire code of the sub-channel.
    pub open spec fn spec_code(self) -> u8 {
        match self {
            SubChannel::Channel1 => 0x08,
            SubChannel::Channel2 => 0x04,
            SubChannel::Channel3 => 0x02,
            SubChannel::Channel4 => 0x01,
            SubChannel::Channel5 => 0x03,
            SubChannel::AllChannels => 0x00,
        }
    }

    /// The wire code of the sub-channel.
    pub fn code(self) -> (r: u8)
        ensures
            r == self.spec_code(),
    {
        match self {
            SubChannel::Channel1 => 0x08,
            SubChannel::Channel2 => 0x04,
            SubChannel::Channel3 => 0x02,
            SubChannel::Channel4 => 0x01,
            SubChannel::Channel5 => 0x03,
            SubChannel::AllChannels => 0x00,
        }
    }
}

/// The channel selector, packed into a 4-bit field on the air.
#[derive(Copy, Clone, Debug, Eq, PartialEq, Structural)]
pub enum Channel {
    ChannelA,
    ChannelB,
    ChannelC,
    ChannelD,
}

impl Channel {
    /// The wire code of the channel.
    pub open spec fn spec_code(self) -> u8 {
        match self {
            Channel::ChannelA => 0x00,
            Channel::ChannelB => 0x01,
            Channel::ChannelC => 0x02,
            Channel::ChannelD => 0x03,
        }
    }

    /// The wire code of the channel.
    pub fn code(self) -> (r: u8)
        ensures
            r == self.spec_code(),
    {
        match self {
            Channel::ChannelA => 0x00,
            Channel::ChannelB => 0x01,
            Channel::ChannelC => 0x02,
            Channel::ChannelD => 0x03,
        }
    }
}

/// One Blyss message: brand marker, 16-bit address, channel and
/// sub-channel selectors, on/off status, and the rolling-code pair.
#[derive(Copy, Clone, Debug, Eq, PartialEq, Structural)]
pub struct BlyssMessage {
    pub timestamp: u8,
    pub rolling_code: u8,
    pub status: Status,
    pub sub_channel: SubChannel,
    pub channel: Channel,
    pub address: u16,
    pub brand: u8,
}

/// The fixed brand marker every Blyss message carries.
pub const BRAND_VALUE: u8 = 0xFE;

/// The value of the trailing 4-bit padding field of every frame.
pub const PADDING_VALUE: u8 = 0;

/// The five-entry rolling-code table the generator cycles through.
pub open spec fn rolling_code_table() -> Seq<u8> {
    seq![0x98u8, 0xDAu8, 0x1Eu8, 0xE6u8, 0x67u8]
}

/// The timestamp component after `k` calls: 0, 10, 20, ... 250, then 0
/// again — a cycle of twenty-six values.
pub open spec fn rolling_timestamp_at(k: nat) -> u8 {
    (10 * (k % 26)) as u8
}

/// The rolling-code component after `k` calls: the table entry at
/// `k` modulo the table's five entries.
pub open spec fn rolling_code_at(k: nat) -> u8 {
    rolling_code_table()[(k % 5) as int]
}

/// The two components drift against each other: the rolling code
/// repeats every five calls while the timestamp has moved on by fifty
/// (modulo its 260-microsecond cycle); the timestamp repeats every
/// twenty-six calls; the pair as a whole repeats every 130 calls.
pub proof fn lemma_rolling_cycles(k: nat)
    ensures
        rolling_code_at(k + 5) == rolling_code_at(k),
        rolling_timestamp_at(k + 5) as int == (rolling_timestamp_at(k) as int + 50) % 260,
        rolling_timestamp_at(k + 26) == rolling_timestamp_at(k),
        rolling_code_at(k + 130) == rolling_code_at(k),
        rolling_timestamp_at(k + 130) == rolling_timestamp_at(k),
{
    let ki = k as int;
    lemma_mod_division_less_than_divisor(ki, 26);
    lemma_mod_division_less_than_divisor(ki, 5);
    lemma_mod_multiples_vanish(1, ki, 5);
    lemma_mod_multiples_vanish(1, ki, 26);
    lemma_mod_multiples_vanish(26, ki, 5);
    lemma_mod_multiples_vanish(5, ki, 26);
    lemma_add_mod_noop_right(5, ki, 26);
    let r = ki % 26;
    if r < 21 {
        lemma_small_mod((5 + r) as nat, 26);
        lemma_small_mod((10 * r + 50) as nat, 260);
    } else {
        lemma_mod_sub_multiples_vanish(5 + r, 26);
        lemma_small_mod((5 + r - 26) as nat, 26);
        lemma_mod_sub_multiples_vanish(10 * r + 50, 260);
        lemma_small_mod((10 * r + 50 - 260) as nat, 260);
    }
}

/// The rolling-code generator: produces, on each call, the
/// (timestamp, rolling-code) pair the dialect stamps into a message,
/// advancing both cycles by one step. Process-lifetime state with no
/// persisted form: a restart resets both cycles to their initial phase.
pub struct RollingCodeGenerator {
    timestamp: u8,
    index: u8,
    count: Ghost<nat>,
}

impl RollingCodeGenerator {
    /// Well-formedness: the two counters stand exactly where `calls`
    /// steps from the initial phase put them.
    pub closed spec fn wf(self) -> bool {
        &&& self.timestamp == rolling_timestamp_at(self.count@)
        &&& self.index == self.count@ % 5
    }

    /// How many pairs have been produced so far.
    pub closed spec fn calls(self) -> nat {
        self.count@
    }

    /// A generator at the initial phase of both cycles.
    pub fn new() -> (r: Self)
        ensures
            r.wf(),
            r.calls() == 0,
    {
        RollingCodeGenerator { timestamp: 0, index: 0, count: Ghost(0) }
    }

    /// Produce the next (timestamp, rolling-code) pair and advance both
    /// cycles by one step.
    pub fn next(&mut self) -> (r: (u8, u8))
        requires
            old(self).wf(),
        ensures
            final(self).wf(),
            final(self).calls() == old(self).calls() + 1,
            r.0 == rolling_timestamp_at(old(self).calls()),
            r.1 == rolling_code_at(old(self).calls()),
    {
        let ts = self.timestamp;
        let code = match self.index {
            0 => 0x98,
            1 => 0xDA,
            2 => 0x1E,
            3 => 0xE6,
            _ => 0x67,
        };
        proof {
            lemma_mod_division_less_than_divisor(self.count@ as int, 5);
            lemma_mod_division_less_than_divisor(self.count@ as int, 26);
        }
        self.timestamp = if self.timestamp == 250 {
            0
        } else {
            self.timestamp + 10
        };
        self.index = if self.index == 4 {
            0
        } else {
            self.index + 1
        };
        let ghost k = self.count@;
        proof {
            self.count@ = k + 1;
            lemma_add_mod_noop_right(1, k as int, 5);
            lemma_add_mod_noop_right(1, k as int, 26);
            if k % 5 == 4 {
                lemma_mod_self_0(5);
            } else {
                lemma_small_mod((k % 5 + 1) as nat, 5);
            }
            if k % 26 == 25 {
                lemma_mod_self_0(26);
            } else {
                lemma_small_mod((k % 26 + 1) as nat, 26);
            }
        }
        (ts, code)
    }
}

impl BlyssMessage {
    /// The generator of (timestamp, rolling-code) pairs, starting at
    /// the initial phase of both cycles.
    pub fn rolling_codes() -> (r: RollingCodeGenerator)
        ensures
            r.wf(),
            r.calls() == 0,
    {
        RollingCodeGenerator::new()
    }

    /// Build a message for the given address, channel, sub-channel and
    /// status, stamped with the given rolling-code pair. The brand
    /// marker is fixed.
    pub fn new(
        timestamp: u8,
        rolling_code: u8,
        address: u16,
        channel: Channel,
        sub_channel: SubChannel,
        status: Status,
    ) -> (r: Self)
        ensures
            r == (BlyssMessage {
                timestamp,
                rolling_code,
                status,
                sub_channel,
                channel,
                address,
                brand: BRAND_VALUE,
            }),
    {
        BlyssMessage {
            timestamp,
            brand: BRAND_VALUE,
            rolling_code,
            address,
            channel,
            sub_channel,
            status,
        }
    }
}

/// One frame of a Blyss message under the given patterns: header,
/// brand byte, channel nibble, address high byte, address low byte,
/// sub-channel nibble, status nibble, rolling-code byte, timestamp
/// byte, padding nibble, footer.
pub open spec fn blyss_frame(
    zero: Seq<Signal>,
    one: Seq<Signal>,
    header: Seq<Signal>,
    footer: Seq<Signal>,
    m: BlyssMessage,
) -> Seq<Signal> {
    header + pulses_for_byte(zero, one, m.brand) + pulses_for_nibble(
        zero,
        one,
        m.channel.spec_code(),
    ) + pulses_for_byte(zero, one, spec_msb(m.address)) + pulses_for_byte(
        zero,
        one,
        spec_lsb(m.address),
    ) + pulses_for_nibble(zero, one, m.sub_channel.spec_code()) + pulses_for_nibble(
        zero,
        one,
        m.status.spec_code(),
    ) + pulses_for_byte(zero, one, m.rolling_code) + pulses_for_byte(zero, one, m.timestamp)
        + pulses_for_nibble(zero, one, PADDING_VALUE) + footer
}

/// Dialect-A field positions: every frame of every message lays out,
/// in order, header, brand byte, channel nibble, address high byte,
/// address low byte, sub-channel nibble, status nibble, rolling-code
/// byte, timestamp byte, padding nibble, footer — and the two address
/// bytes recompose the address, high byte first.
pub proof fn lemma_blyss_field_positions(
    zero: Seq<Signal>,
    one: Seq<Signal>,
    header: Seq<Signal>,
    footer: Seq<Signal>,
    m: BlyssMessage,
)
    ensures
        blyss_frame(zero, one, header, footer, m) == header + pulses_for_byte(zero, one, m.brand)
            + pulses_for_nibble(zero, one, m.channel.spec_code()) + pulses_for_byte(
            zero,
            one,
            spec_msb(m.address),
        ) + pulses_for_byte(zero, one, spec_lsb(m.address)) + pulses_for_nibble(
            zero,
            one,
            m.sub_channel.spec_code(),
        ) + pulses_for_nibble(zero, one, m.status.spec_code()) + pulses_for_byte(
            zero,
            one,
            m.rolling_code,
        ) + pulses_for_byte(zero, one, m.timestamp) + pulses_for_nibble(zero, one, PADDING_VALUE)
            + footer,
        spec_msb(m.address) as int * 256 + spec_lsb(m.address) as int == m.address as int,
{
    crate::radio_emitter::lemma_address_split(m.address);
}

/// `n` back-to-back copies of a message's frame.
pub open spec fn blyss_frames(
    zero: Seq<Signal>,
    one: Seq<Signal>,
    header: Seq<Signal>,
    footer: Seq<Signal>,
    m: BlyssMessage,
    n: nat,
) -> Seq<Signal>
    decreases n,
{
    if n == 0 {
        Seq::empty()
    } else {
        blyss_frames(zero, one, header, footer, m, (n - 1) as nat) + blyss_frame(
            zero,
            one,
            header,
            footer,
            m,
        )
    }
}

/// How many times one message's frame is retransmitted back to back,
/// to compensate for radio receive misses.
pub const BLYSS_REPETITION: u8 = 13;

/// A Blyss message sender over any emitter.
pub struct MessageSender<T: RadioEmitter> {
    /// The emitter the frames are played through.
    pub radio: T,
}

impl<T: RadioEmitter> MessageSender<T> {
    /// Wrap an emitter in a message sender.
    pub fn new(radio: T) -> (r: Self)
        ensures
            r.radio == radio,
    {
        MessageSender { radio }
    }
}

impl<T: RadioEmitter> Sender for MessageSender<T> {
    type Message = BlyssMessage;

    /// Play the message as thirteen repeated frames: header, brand,
    /// channel, address, sub-channel, status, rolling code, timestamp,
    /// padding, footer.
    #[verifier::rlimit(100)]
    fn send(&mut self, message: BlyssMessage)
        ensures
            final(self).radio.emitted() == old(self).radio.emitted() + blyss_frames(
                old(self).radio.zero_pattern(),
                old(self).radio.one_pattern(),
                old(self).radio.header_pattern(),
                old(self).radio.footer_pattern(),
                message,
                BLYSS_REPETITION as nat,
            ),
            final(self).radio.zero_pattern() == old(self).radio.zero_pattern(),
            final(self).radio.one_pattern() == old(self).radio.one_pattern(),
            final(self).radio.header_pattern() == old(self).radio.header_pattern(),
            final(self).radio.footer_pattern() == old(self).radio.footer_pattern(),
    {
        let ghost e0 = self.radio.emitted();
        let ghost z = self.radio.zero_pattern();
        let ghost o = self.radio.one_pattern();
        let ghost h = self.radio.header_pattern();
        let ghost f = self.radio.footer_pattern();
        for rep in 0..BLYSS_REPETITION
            invariant
                self.radio.emitted() == e0 + blyss_frames(z, o, h, f, message, rep as nat),
                self.radio.zero_pattern() == z,
                self.radio.one_pattern() == o,
                self.radio.header_pattern() == h,
                self.radio.footer_pattern() == f,
        {
            let ghost before = self.radio.emitted();
            self.radio.header();
            self.radio.send_byte(message.brand);
            self.radio.send_bits(message.channel.code(), Order::LeastSignificant);
            self.radio.send_2bytes(message.address);
            self.radio.send_bits(message.sub_channel.code(), Order::LeastSignificant);
            self.radio.send_bits(message.status.code(), Order::LeastSignificant);
            self.radio.send_byte(message.rolling_code);
            self.radio.send_byte(message.timestamp);
            self.radio.send_bits(PADDING_VALUE, Order::LeastSignificant);
            self.radio.footer();
            proof {
                assert(self.radio.emitted() =~= before + blyss_frame(z, o, h, f, message));
            }
        }
    }
}

} // verus!
