use janet::celexon;
use janet::dio;
use janet::dio::DioMessage;
use janet::dooya;

#[test]
fn dio_transforms_to_bytes_down() {
    let m = DioMessage::new(0x271234, dio::Status::DOWN);
    let bytes = m.to_bytes();
    assert_eq!(bytes, vec![0x27, 0x12, 0x34, 0x90]);
}

#[test]
fn transforms_to_bytes_down_7c_version() {
    let m = DioMessage::new(0x7c1234, dio::Status::DOWN);
    let bytes = m.to_bytes();
    assert_eq!(bytes, vec![0x7c, 0x12, 0x34, 0x91]);
}

#[test]
fn dio_transforms_to_bytes_up() {
    let m = DioMessage::new(0x271234, dio::Status::UP);
    let bytes = m.to_bytes();
    assert_eq!(bytes, vec![0x27, 0x12, 0x34, 0x80]);
}

#[test]
fn transforms_to_bytes_up_7c_version() {
    let m = DioMessage::new(0x7c1234, dio::Status::UP);
    let bytes = m.to_bytes();
    assert_eq!(bytes, vec![0x7c, 0x12, 0x34, 0x81]);
}

#[test]
fn dio_on_and_off_set_the_high_nibble() {
    let on = DioMessage::new(0x271234, dio::Status::ON);
    assert_eq!(on.to_bytes(), vec![0x27, 0x12, 0x34, 0x90]);
    let off = DioMessage::new(0x271234, dio::Status::OFF);
    assert_eq!(off.to_bytes(), vec![0x27, 0x12, 0x34, 0x80]);
}

#[test]
fn celexon_transforms_to_bytes_down() {
    let m = celexon::Status::DOWN;
    let bytes = m.to_bytes();
    assert_eq!(bytes, vec![0x53, 0xe1, 0x3e, 0xd4, 0xfe, 0xff, 0xbc, 0xb1]);
}

#[test]
fn celexon_transforms_to_bytes_up() {
    let m = celexon::Status::UP;
    let bytes = m.to_bytes();
    assert_eq!(bytes, vec![0x53, 0xe1, 0x3e, 0xd4, 0xfe, 0xff, 0xf4, 0xe9]);
}

#[test]
fn dooya_transforms_to_bytes_down() {
    let m = dooya::Status::DOWN;
    let bytes = m.to_bytes();
    assert_eq!(bytes, vec![0x06, 0x41, 0xdf, 0xd1, 0x33]);
}

#[test]
fn dooya_transforms_to_bytes_up() {
    let m = dooya::Status::UP;
    let bytes = m.to_bytes();
    assert_eq!(bytes, vec![0x06, 0x41, 0xdf, 0xd1, 0x11]);
}

#[test]
fn dio_largest_identifier() {
    let m = DioMessage::new(0xFFFFFF, dio::Status::ON);
    assert_eq!(m.to_bytes(), vec![0xFF, 0xFF, 0xFF, 0x90]);
}

#[test]
fn dio_smallest_identifier() {
    let m = DioMessage::new(0x000000, dio::Status::OFF);
    assert_eq!(m.to_bytes(), vec![0x00, 0x00, 0x00, 0x80]);
}
