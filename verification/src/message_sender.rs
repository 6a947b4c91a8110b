//! The first generation of the Blyss message layer: a fixed rolling
//! code and timestamp, and frames without the trailing padding field.
//! Kept alongside the newer layer because captures of this generation's
//! receivers still decode it.

use vstd::prelude::*;

use crate::radio::Signal;
use crate::radio_emitter::Order;
use crate::radio_emitter::RadioEmitter;
use crate::radio_emitter::pulses_for_byte;
use crate::radio_emitter::pulses_for_nibble;
use crate::radio_emitter::spec_lsb;
use crate::radio_emitter::spec_msb;

verus! {

/// The on/off command, packed into a 4-bit field on the air.
#[derive(Copy, Clone, Debug, Eq, PartialEq, Structural)]
pub enum Status {
    On,
    Off,
}

impl Status {
    /// The wire code of the command.
    pub open spec fn spec_code(self) -> u8 {
        match self {
            Status::On => 0x00,
            Status::Off => 0x01,
        }
    }

    /// The wire code of the command.
    pub fn code(self) -> (r: u8)
        ensures
            r == self.spec_code(),
    {
        match self {
            Status::On => 0x00,
            Status::Off => 0x01,
        }
    }
}

/// The sub-channel selector, packed into a 4-bit field on the air.
#[derive(Copy, Clone, Debug, Eq, PartialEq, Structural)]
pub enum SubChannel {
    Channel1,
    Channel2,
    Channel3,
    Channel4,
    Channel5,
    AllChannels,
}

impl SubChannel {
    /// The wire code of the sub-channel.
    pub open spec fn spec_code(self) -> u8 {
        match self {
            SubChannel::Channel1 => 0x08,
            SubChannel::Channel2 => 0x04,
            SubChannel::Channel3 => 0x02,
            SubChannel::Channel4 => 0x01,
            SubChannel::Channel5 => 0x03,
            SubChannel::AllChannels => 0x00,
        }
    }

    /// The wire code of the sub-channel.
    pub fn code(self) -> (r: u8)
        ensures
            r == self.spec_code(),
    {
        match self {
            SubChannel::Channel1 => 0x08,
            SubChannel::Channel2 => 0x04,
            SubChannel::Channel3 => 0x02,
            SubChannel::Channel4 => 0x01,
            SubChannel::Channel5 => 0x03,
            SubChannel::AllChannels => 0x00,
        }
    }
}

/// The channel selector, packed into a 4-bit field on the air.
#[derive(Copy, Clone, Debug, Eq, PartialEq, Structural)]
pub enum Channel {
    ChannelA,
    ChannelB,
    ChannelC,
    ChannelD,
}

impl Channel {
    /// The wire code of the channel.
    pub open spec fn spec_code(self) -> u8 {
        match self {
            Channel::ChannelA => 0x00,
            Channel::ChannelB => 0x01,
            Channel::ChannelC => 0x02,
            Channel::ChannelD => 0x03,
        }
    }

    /// The wire code of the channel.
    pub fn code(self) -> (r: u8)
        ensures
            r == self.spec_code(),
    {
        match self {
            Channel::ChannelA => 0x00,
            Channel::ChannelB => 0x01,
            Channel::ChannelC => 0x02,
            Channel::ChannelD => 0x03,
        }
    }
}

/// One message of this generation. The rolling-code pair is fixed at
/// the first entry of the rolling-code table.
#[derive(Copy, Clone, Debug, Eq, PartialEq, Structural)]
pub struct Message {
    pub timestamp: u8,
    pub rolling_code: u8,
    pub status: Status,
    pub sub_channel: SubChannel,
    pub channel: Channel,
    pub address: u16,
    pub brand: u8,
}

impl Message {
    /// Build a message for the given address, channel, sub-channel and
    /// status. Brand, rolling code and timestamp are fixed.
    pub fn new(address: u16, channel: Channel, sub_channel: SubChannel, status: Status) -> (r:
        Self)
        ensures
            r == (Message {
                timestamp: 0u8,
                rolling_code: 0x98u8,
                status,
                sub_channel,
                channel,
                address,
                brand: 0xFEu8,
            }),
    {
        Message {
            timestamp: 0,
            brand: 0xFE,
            rolling_code: 0x98,
            address,
            channel,
            sub_channel,
            status,
        }
    }
}

/// One frame of this generation: header, brand byte, channel nibble,
/// address bytes, sub-channel nibble, status nibble, rolling-code
/// byte, timestamp byte, footer — no padding field.
pub open spec fn message_frame(
    zero: Seq<Signal>,
    one: Seq<Signal>,
    header: Seq<Signal>,
    footer: Seq<Signal>,
    m: Message,
) -> Seq<Signal> {
    header + pulses_for_byte(zero, one, m.brand) + pulses_for_nibble(
        zero,
        one,
        m.channel.spec_code(),
    ) + pulses_for_byte(zero, one, spec_msb(m.address)) + pulses_for_byte(
        zero,
        one,
        spec_lsb(m.address),
    ) + pulses_for_nibble(zero, one, m.sub_channel.spec_code()) + pulses_for_nibble(
        zero,
        one,
        m.status.spec_code(),
    ) + pulses_for_byte(zero, one, m.rolling_code) + pulses_for_byte(zero, one, m.timestamp)
        + footer
}

/// `n` back-to-back copies of a message's frame.
pub open spec fn message_frames(
    zero: Seq<Signal>,
    one: Seq<Signal>,
    header: Seq<Signal>,
    footer: Seq<Signal>,
    m: Message,
    n: nat,
) -> Seq<Signal>
    decreases n,
{
    if n == 0 {
        Seq::empty()
    } else {
        message_frames(zero, one, header, footer, m, (n - 1) as nat) + message_frame(
            zero,
            one,
            header,
            footer,
            m,
        )
    }
}

/// A message sender of this generation over any emitter.
pub struct MessageSender<T: RadioEmitter> {
    /// The emitter the frames are played through.
    pub radio: T,
}

impl<T: RadioEmitter> MessageSender<T> {
    /// Wrap an emitter in a message sender.
    pub fn new(radio: T) -> (r: Self)
        ensures
            r.radio == radio,
    {
        MessageSender { radio }
    }

    /// Play the message as thirteen repeated frames.
    #[verifier::rlimit(100)]
    pub fn send(&mut self, message: &Message)
        ensures
            final(self).radio.emitted() == old(self).radio.emitted() + message_frames(
                old(self).radio.zero_pattern(),
                old(self).radio.one_pattern(),
                old(self).radio.header_pattern(),
                old(self).radio.footer_pattern(),
                *message,
                13,
            ),
            final(self).radio.zero_pattern() == old(self).radio.zero_pattern(),
            final(self).radio.one_pattern() == old(self).radio.one_pattern(),
            final(self).radio.header_pattern() == old(self).radio.header_pattern(),
            final(self).radio.footer_pattern() == old(self).radio.footer_pattern(),
    {
        let ghost e0 = self.radio.emitted();
        let ghost z = self.radio.zero_pattern();
        let ghost o = self.radio.one_pattern();
        let ghost h = self.radio.header_pattern();
        let ghost f = self.radio.footer_pattern();
        for rep in 0..13u8
            invariant
                self.radio.emitted() == e0 + message_frames(z, o, h, f, *message, rep as nat),
                self.radio.zero_pattern() == z,
                self.radio.one_pattern() == o,
                self.radio.header_pattern() == h,
                self.radio.footer_pattern() == f,
        {
            let ghost before = self.radio.emitted();
            self.radio.header();
            self.radio.send_byte(message.brand);
            self.radio.send_bits(message.channel.code(), Order::LeastSignificant);
            self.radio.send_2bytes(message.address);
            self.radio.send_bits(message.sub_channel.code(), Order::LeastSignificant);
            self.radio.send_bits(message.status.code(), Order::LeastSignificant);
            self.radio.send_byte(message.rolling_code);
            self.radio.send_byte(message.timestamp);
            self.radio.footer();
            proof {
                assert(self.radio.emitted() =~= before + message_frame(z, o, h, f, *message));
            }
        }
    }
}

} // verus!
