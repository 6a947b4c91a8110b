use std::cell::RefCell;

use janet::led::InMemoryLed;
use janet::led::blink;
use janet::radio::Radio;
use janet::radio::Signal;
use janet::radio_protocol::Footer;
use janet::radio_protocol::Header;
use janet::radio_protocol::One;
use janet::radio_protocol::RadioProtocol;
use janet::radio_protocol::Zero;
use janet::raspberry::FakeDigitalOutput;
use janet::replay::Replay;
use janet::replay::Replayer;
use janet::sender::Sender;

#[test]
fn radio_replay_timings() {
    let protocol = RadioProtocol::new(
        Header(vec![Signal::HIGH(13 + 100)]),
        Footer(vec![Signal::LOW(37 + 100)]),
        Zero(vec![Signal::LOW(0 + 100)]),
        One(vec![Signal::HIGH(1 + 100)]),
        1,
    );
    let mut radio = FakeDigitalOutput::new();
    radio.send(&vec![5], &protocol);
    assert_eq!(
        radio.signals,
        vec![
            Signal::HIGH(13),
            Signal::LOW(0),
            Signal::LOW(0),
            Signal::LOW(0),
            Signal::LOW(0),
            Signal::LOW(0),
            Signal::HIGH(1),
            Signal::LOW(0),
            Signal::HIGH(1),
            Signal::LOW(37),
        ]
    );
}

#[test]
fn replay_timings() {
    let mut replay = Replay::new(FakeDigitalOutput::new());
    replay.play(&vec![500, 23, 10, 20]);
    assert_eq!(
        replay.output.signals,
        vec![Signal::HIGH(500), Signal::LOW(23), Signal::HIGH(10), Signal::LOW(20)]
    );
}

#[test]
fn ignore_malformed_data() {
    let mut replay = Replay::new(FakeDigitalOutput::new());
    replay.play(&vec![500, 23, 10]);
    assert_eq!(replay.output.signals, Vec::<Signal>::new());
}

#[derive(Debug, Eq, PartialEq, Clone)]
pub struct InMemoryMessage {
    payload: String,
}

impl InMemoryMessage {
    pub fn new(payload: String) -> Self {
        InMemoryMessage { payload }
    }
}

pub struct InMemorySender<T> {
    pub messages: Vec<T>,
}

impl<T> InMemorySender<T> {
    pub fn new() -> Self {
        InMemorySender { messages: Vec::new() }
    }
}

impl<T> Sender for InMemorySender<T> {
    type Message = T;

    fn send(&mut self, message: T) {
        self.messages.push(message);
    }
}

#[test]
fn send_message() {
    let mut sender = InMemorySender::new();
    let message = InMemoryMessage::new("payload".to_string());
    sender.send(message.clone());
    assert_eq!(sender.messages, vec![message]);
}

#[test]
fn alternate_on_and_off() {
    let led_states = {
        let durations: RefCell<Vec<u64>> = RefCell::new(vec![]);
        let mut led = InMemoryLed::new();
        blink(&mut led, |d: u64| {
            durations.borrow_mut().push(d);
        });
        let vec = led.states;
        let truthfull = vec.iter().filter(|&&b| b).count();
        let falsefull = vec.iter().filter(|&&b| !b).count();
        assert_eq!(truthfull, 10);
        assert_eq!(truthfull, falsefull);
        assert_eq!(durations.borrow().len(), truthfull + falsefull);
        vec
    };
    assert_eq!(led_states.len(), 20);
}
