use janet::blyss::Blyss;
use janet::blyss_sender::BlyssMessage;
use janet::blyss_sender::Channel;
use janet::blyss_sender::MessageSender;
use janet::blyss_sender::Status;
use janet::blyss_sender::SubChannel;
use janet::message_sender::Channel as OldChannel;
use janet::message_sender::Message;
use janet::message_sender::MessageSender as OldMessageSender;
use janet::message_sender::Status as OldStatus;
use janet::message_sender::SubChannel as OldSubChannel;
use janet::radio::Signal;
use janet::radio_emitter::Order;
use janet::radio_emitter::RadioEmitter;
use janet::raspberry::FakeDigitalOutput;
use janet::sender::Sender;

fn zero_pulses(v: &mut Vec<Signal>) {
    v.push(Signal::LOW(800));
    v.push(Signal::HIGH(400));
}

fn one_pulses(v: &mut Vec<Signal>) {
    v.push(Signal::LOW(400));
    v.push(Signal::HIGH(800));
}

fn byte_pulses(v: &mut Vec<Signal>, data: u8) {
    for n in (0..8).rev() {
        if data & (1 << n) == 0 {
            zero_pulses(v);
        } else {
            one_pulses(v);
        }
    }
}

fn nibble_pulses(v: &mut Vec<Signal>, data: u8) {
    for n in (0..4).rev() {
        if data & (1 << n) == 0 {
            zero_pulses(v);
        } else {
            one_pulses(v);
        }
    }
}

#[test]
fn blyss_send_header() {
    let mut signal_pin = Blyss::new(FakeDigitalOutput::new());
    signal_pin.header();
    assert_eq!(signal_pin.emitter.signals, vec![Signal::HIGH(2400)]);
}

#[test]
fn blyss_send_footer() {
    let mut signal_pin = Blyss::new(FakeDigitalOutput::new());
    signal_pin.footer();
    assert_eq!(signal_pin.emitter.signals, vec![Signal::LOW(24000)]);
}

#[test]
fn blyss_send_a_byte() {
    for data in [0b00000000u8, 0b00000001, 0b11000001] {
        let mut expected: Vec<Signal> = Vec::new();
        byte_pulses(&mut expected, data);
        let mut signal_pin = Blyss::new(FakeDigitalOutput::new());
        signal_pin.send_bits(data, Order::LittleEndian);
        assert_eq!(signal_pin.emitter.signals, expected);
    }
}

#[test]
fn blyss_send_some_bits() {
    for data in [0b00000000u8, 0b11110000, 0b10000100, 0b10001010] {
        let mut expected: Vec<Signal> = Vec::new();
        nibble_pulses(&mut expected, data);
        let mut signal_pin = Blyss::new(FakeDigitalOutput::new());
        signal_pin.send_bits(data, Order::LeastSignificant);
        assert_eq!(signal_pin.emitter.signals, expected);
    }
}

#[test]
fn send_two_bytes() {
    for data in [0b0000000000000000u16, 0b1101010101010101] {
        let mut expected: Vec<Signal> = Vec::new();
        byte_pulses(&mut expected, (data >> 8) as u8);
        byte_pulses(&mut expected, (data & 0xFF) as u8);
        let mut signal_pin = Blyss::new(FakeDigitalOutput::new());
        signal_pin.send_2bytes(data);
        assert_eq!(signal_pin.emitter.signals, expected);
    }
}

#[test]
fn radio_emitter_send_header() {
    let mut emitter = Blyss::new(FakeDigitalOutput::new());
    emitter.header();
    assert_eq!(emitter.emitter.signals, vec![Signal::HIGH(2400)]);
}

#[test]
fn radio_emitter_send_footer() {
    let mut emitter = Blyss::new(FakeDigitalOutput::new());
    emitter.footer();
    assert_eq!(emitter.emitter.signals, vec![Signal::LOW(24000)]);
}

#[test]
fn radio_emitter_send_data() {
    let mut emitter = Blyss::new(FakeDigitalOutput::new());
    emitter.send_bits(10, Order::LittleEndian);
    emitter.send_bits(42, Order::LeastSignificant);
    emitter.send_byte(0x13);
    emitter.send_2bytes(0xabcd);
    let mut expected: Vec<Signal> = Vec::new();
    byte_pulses(&mut expected, 10);
    nibble_pulses(&mut expected, 42);
    byte_pulses(&mut expected, 0x13);
    byte_pulses(&mut expected, 0xab);
    byte_pulses(&mut expected, 0xcd);
    assert_eq!(emitter.emitter.signals, expected);
}

#[test]
fn message_sender_send_data() {
    let mut emitter = OldMessageSender::new(Blyss::new(FakeDigitalOutput::new()));
    let message = Message::new(
        0x7057,
        OldChannel::ChannelC,
        OldSubChannel::Channel1,
        OldStatus::On,
    );
    emitter.send(&message);
    let mut expected: Vec<Signal> = Vec::new();
    for _ in 0..13 {
        expected.push(Signal::HIGH(2400));
        byte_pulses(&mut expected, 0xFE);
        nibble_pulses(&mut expected, 0x02);
        byte_pulses(&mut expected, 0x70);
        byte_pulses(&mut expected, 0x57);
        nibble_pulses(&mut expected, 0x08);
        nibble_pulses(&mut expected, 0x00);
        byte_pulses(&mut expected, 0x98);
        byte_pulses(&mut expected, 0x00);
        expected.push(Signal::LOW(24000));
    }
    assert_eq!(emitter.radio.emitter.signals, expected);
}

#[test]
fn blyss_sender_send_data() {
    let mut emitter = MessageSender::new(Blyss::new(FakeDigitalOutput::new()));
    let message = BlyssMessage::new(
        0x12,
        0x34,
        0x7057,
        Channel::ChannelC,
        SubChannel::Channel1,
        Status::On,
    );
    emitter.send(message);
    let mut expected: Vec<Signal> = Vec::new();
    for _ in 0..13 {
        expected.push(Signal::HIGH(2400));
        byte_pulses(&mut expected, 0xFE);
        nibble_pulses(&mut expected, 0x02);
        byte_pulses(&mut expected, 0x70);
        byte_pulses(&mut expected, 0x57);
        nibble_pulses(&mut expected, 0x08);
        nibble_pulses(&mut expected, 0x00);
        byte_pulses(&mut expected, 0x34);
        byte_pulses(&mut expected, 0x12);
        nibble_pulses(&mut expected, 0x00);
        expected.push(Signal::LOW(24000));
    }
    assert_eq!(emitter.radio.emitter.signals, expected);
}

#[test]
fn generate_rolling_code() {
    let mut generator = BlyssMessage::rolling_codes();
    let mut generated: Vec<(u8, u8)> = Vec::new();
    for _ in 0..6 {
        generated.push(generator.next());
    }
    assert_eq!(
        generated,
        vec![(0, 0x98), (10, 0xDA), (20, 0x1E), (30, 0xE6), (40, 0x67), (50, 0x98)]
    );
}

#[test]
fn rolling_code_timestamp_wraps_after_26_calls() {
    let mut generator = BlyssMessage::rolling_codes();
    let mut generated: Vec<(u8, u8)> = Vec::new();
    for _ in 0..131 {
        generated.push(generator.next());
    }
    // the 26th pair is the last before the timestamp wraps
    assert_eq!(generated[25], (250, 0x98));
    // after 26 calls the timestamp is back at 0 with the code mid-cycle
    assert_eq!(generated[26], (0, 0xDA));
    // the full pair period is 130 calls
    assert_eq!(generated[130], generated[0]);
    assert_ne!(generated[26], generated[0]);
}
