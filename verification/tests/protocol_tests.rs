use janet::radio::Signal;
use janet::radio::corrected_timings;
use janet::radio_protocol::Footer;
use janet::radio_protocol::Header;
use janet::radio_protocol::One;
use janet::radio_protocol::RadioProtocol;
use janet::radio_protocol::Zero;

#[test]
fn send_byte() {
    let protocol = RadioProtocol::new(
        Header(vec![Signal::HIGH(13)]),
        Footer(vec![Signal::LOW(37)]),
        Zero(vec![Signal::HIGH(0)]),
        One(vec![Signal::LOW(1)]),
        1,
    );
    let timings = protocol.timings_for(&vec![5]);
    assert_eq!(
        timings,
        vec![
            Signal::HIGH(13),
            Signal::HIGH(0),
            Signal::HIGH(0),
            Signal::HIGH(0),
            Signal::HIGH(0),
            Signal::HIGH(0),
            Signal::LOW(1),
            Signal::HIGH(0),
            Signal::LOW(1),
            Signal::LOW(37)
        ]
    );
}

#[test]
fn send_bytes() {
    let z: u64 = 10;
    let o: u64 = 11;
    let protocol = RadioProtocol::new(
        Header(vec![Signal::HIGH(4), Signal::LOW(2)]),
        Footer(vec![Signal::HIGH(13), Signal::LOW(37)]),
        Zero(vec![Signal::HIGH(z)]),
        One(vec![Signal::LOW(o)]),
        2,
    );
    let timings = protocol.timings_for(&vec![3, 7]);
    let mut expected: Vec<Signal> = Vec::new();
    for _ in 0..2 {
        expected.push(Signal::HIGH(4));
        expected.push(Signal::LOW(2));
        // 0b00000011
        for _ in 0..6 {
            expected.push(Signal::HIGH(z));
        }
        for _ in 0..2 {
            expected.push(Signal::LOW(o));
        }
        // 0b00000111
        for _ in 0..5 {
            expected.push(Signal::HIGH(z));
        }
        for _ in 0..3 {
            expected.push(Signal::LOW(o));
        }
        expected.push(Signal::HIGH(13));
        expected.push(Signal::LOW(37));
    }
    assert_eq!(timings, expected);
}

#[test]
fn identical_inputs_give_identical_timings() {
    let make = || {
        RadioProtocol::new(
            Header(vec![Signal::HIGH(283), Signal::LOW(2793)]),
            Footer(vec![Signal::HIGH(283), Signal::LOW(10740)]),
            Zero(vec![Signal::HIGH(283), Signal::LOW(1355)]),
            One(vec![Signal::LOW(283), Signal::HIGH(1355)]),
            4,
        )
    };
    let message: Vec<u8> = vec![0x27, 0x12, 0x34, 0x90];
    let first = make().timings_for(&message);
    let second = make().timings_for(&message);
    assert_eq!(first, second);
}

#[test]
fn repetition_concatenates_frames() {
    let protocol = RadioProtocol::new(
        Header(vec![]),
        Footer(vec![]),
        Zero(vec![Signal::HIGH(7)]),
        One(vec![Signal::LOW(9)]),
        3,
    );
    let one_frame = RadioProtocol::new(
        Header(vec![]),
        Footer(vec![]),
        Zero(vec![Signal::HIGH(7)]),
        One(vec![Signal::LOW(9)]),
        1,
    )
    .timings_for(&vec![0xA5, 0x0F]);
    let repeated = protocol.timings_for(&vec![0xA5, 0x0F]);
    // with one repetition, empty header/footer and one pulse per bit,
    // the output length is exactly the message's bit count
    assert_eq!(one_frame.len(), 16);
    let mut expected: Vec<Signal> = Vec::new();
    for _ in 0..3 {
        expected.extend(one_frame.iter().cloned());
    }
    assert_eq!(repeated, expected);
}

#[test]
fn empty_message_still_frames() {
    let protocol = RadioProtocol::new(
        Header(vec![Signal::HIGH(1)]),
        Footer(vec![Signal::LOW(2)]),
        Zero(vec![Signal::HIGH(3)]),
        One(vec![Signal::LOW(4)]),
        2,
    );
    let timings = protocol.timings_for(&vec![]);
    assert_eq!(
        timings,
        vec![Signal::HIGH(1), Signal::LOW(2), Signal::HIGH(1), Signal::LOW(2)]
    );
}

#[test]
fn correction_shrinks_zero_pulse_to_nothing() {
    let protocol = RadioProtocol::new(
        Header(vec![Signal::HIGH(113)]),
        Footer(vec![Signal::LOW(137)]),
        Zero(vec![Signal::HIGH(100)]),
        One(vec![Signal::LOW(101)]),
        1,
    );
    let corrected = corrected_timings(&protocol.timings_for(&vec![0x00]));
    let mut expected: Vec<Signal> = vec![Signal::HIGH(13)];
    for _ in 0..8 {
        expected.push(Signal::HIGH(0));
    }
    expected.push(Signal::LOW(37));
    assert_eq!(corrected, expected);
}
