use janet::celexon;
use janet::dio;
use janet::dio::DioMessage;
use janet::dooya;
use janet::house::BlindStatus;
use janet::house::House;
use janet::house::LightStatus;
use janet::house::MyHouse;
use janet::house::Room;
use janet::radio::Signal;
use janet::radio::corrected_timings;
use janet::raspberry::FakeDigitalOutput;
use janet::raspberry::create_fake_house;

fn expected_dio(message: DioMessage) -> Vec<Signal> {
    corrected_timings(&dio::dio_protocol().timings_for(&message.to_bytes()))
}

#[test]
fn lights() {
    for (room, status, message) in vec![
        (Room::LivingRoom, LightStatus::ON, DioMessage::new(0x1337, dio::Status::ON)),
        (Room::LivingRoom, LightStatus::OFF, DioMessage::new(0x1337, dio::Status::OFF)),
        (Room::BedRoom, LightStatus::ON, DioMessage::new(0x985c, dio::Status::ON)),
        (Room::BedRoom, LightStatus::OFF, DioMessage::new(0x985c, dio::Status::OFF)),
        (Room::Kitchen, LightStatus::ON, DioMessage::new(0x0042, dio::Status::ON)),
        (Room::Kitchen, LightStatus::OFF, DioMessage::new(0x0042, dio::Status::OFF)),
    ] {
        let mut house = MyHouse::new(FakeDigitalOutput::new());
        house.light(room, status);
        assert_eq!(house.radio.signals, expected_dio(message));
    }
}

#[test]
fn blinds() {
    for (room, status, message) in vec![
        (Room::LivingRoom, BlindStatus::DOWN, DioMessage::new(0x0932, dio::Status::DOWN)),
        (Room::LivingRoom, BlindStatus::UP, DioMessage::new(0x0932, dio::Status::UP)),
        (Room::Kitchen, BlindStatus::DOWN, DioMessage::new(0x2600, dio::Status::DOWN)),
        (Room::Kitchen, BlindStatus::UP, DioMessage::new(0x2600, dio::Status::UP)),
    ] {
        let mut house = MyHouse::new(FakeDigitalOutput::new());
        house.blinds(room, status);
        assert_eq!(house.radio.signals, expected_dio(message));
    }
    for (room, status, message) in vec![
        (Room::BedRoom, BlindStatus::DOWN, celexon::Status::DOWN),
        (Room::BedRoom, BlindStatus::UP, celexon::Status::UP),
    ] {
        let mut house = MyHouse::new(FakeDigitalOutput::new());
        house.blinds(room, status);
        let expected =
            corrected_timings(&celexon::celexon_protocol().timings_for(&message.to_bytes()));
        assert_eq!(house.radio.signals, expected);
    }
}

#[test]
fn screen() {
    for (status, message) in vec![
        (BlindStatus::DOWN, dooya::Status::DOWN),
        (BlindStatus::UP, dooya::Status::UP),
    ] {
        let mut house = create_fake_house();
        house.screen(status);
        let expected =
            corrected_timings(&dooya::dooya_protocol().timings_for(&message.to_bytes()));
        assert_eq!(house.radio.signals, expected);
    }
}

#[test]
fn cinema_plays_all_five_commands() {
    let mut house = create_fake_house();
    house.cinema();
    let mut expected: Vec<Signal> = Vec::new();
    expected.extend(expected_dio(DioMessage::new(0x0932, dio::Status::DOWN)));
    expected.extend(expected_dio(DioMessage::new(0x2600, dio::Status::DOWN)));
    expected.extend(corrected_timings(
        &dooya::dooya_protocol().timings_for(&dooya::Status::DOWN.to_bytes()),
    ));
    expected.extend(expected_dio(DioMessage::new(0x1337, dio::Status::OFF)));
    expected.extend(expected_dio(DioMessage::new(0x0042, dio::Status::OFF)));
    assert_eq!(house.radio.signals, expected);
}

#[test]
fn parse_light_status() {
    assert_eq!("On".parse::<LightStatus>().unwrap(), LightStatus::ON);
    assert_eq!("ON".parse::<LightStatus>().unwrap(), LightStatus::ON);
    assert_eq!("on".parse::<LightStatus>().unwrap(), LightStatus::ON);
    assert_eq!("Off".parse::<LightStatus>().unwrap(), LightStatus::OFF);
    assert_eq!("OFF".parse::<LightStatus>().unwrap(), LightStatus::OFF);
    assert_eq!("off".parse::<LightStatus>().unwrap(), LightStatus::OFF);
    assert_eq!("plop".parse::<LightStatus>().is_err(), true);
}

#[test]
fn parse_blind_status() {
    for string in &["Down", "DOWN", "down"] {
        assert_eq!(string.parse::<BlindStatus>().unwrap(), BlindStatus::DOWN);
    }
    for string in &["Up", "UP", "up"] {
        assert_eq!(string.parse::<BlindStatus>().unwrap(), BlindStatus::UP);
    }
    assert_eq!("plop".parse::<BlindStatus>().is_err(), true);
}

#[test]
fn parse_room() {
    for string in &["Kitchen", "KITCHEN", "kitchen"] {
        assert_eq!(string.parse::<Room>().unwrap(), Room::Kitchen);
    }
    for string in &["LivingRoom", "LIVING_ROOM", "living_room", "Livingroom"] {
        assert_eq!(string.parse::<Room>().unwrap(), Room::LivingRoom);
    }
    for string in &["BedRoom", "BED_ROOM", "bed_room", "Bedroom"] {
        assert_eq!(string.parse::<Room>().unwrap(), Room::BedRoom);
    }
    assert_eq!("plop".parse::<Room>().is_err(), true);
}
