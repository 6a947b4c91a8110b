//! The house: rooms, lights, blinds and the projector screen, each
//! command dispatched to its dialect's message encoder and timing
//! table. Methods take `&mut self`, so one house value is driven by at
//! most one caller at a time; callers that share a house across
//! threads wrap it in a lock for the full duration of one command.

use vstd::prelude::*;

use crate::celexon;
use crate::dio;
use crate::dio::DioMessage;
use crate::dooya;
use crate::radio::Radio;
use crate::radio::Signal;
use crate::radio::correctable;
use crate::radio::corrected;
use crate::radio_protocol::RadioProtocol;
use vstd::string::StringExecFns;

verus! {

/// A room of the house.
#[derive(Copy, Clone, Debug, Eq, PartialEq, Hash, Structural)]
pub enum Room {
    Kitchen,
    LivingRoom,
    BedRoom,
}

/// A blind or screen command.
#[derive(Copy, Clone, Debug, Eq, PartialEq, Hash, Structural)]
pub enum BlindStatus {
    UP,
    DOWN,
}

/// A light command.
#[derive(Copy, Clone, Debug, Eq, PartialEq, Hash, Structural)]
pub enum LightStatus {
    ON,
    OFF,
}

/// Whether two strings hold the same characters.
fn str_eq(a: &str, b: &str) -> (r: bool)
    ensures
        r == (a@ == b@),
{
    let owned_a = String::from_str(a);
    let owned_b = String::from_str(b);
    owned_a == owned_b
}

/// The room a name denotes, if any.
pub open spec fn spec_room_of(s: Seq<char>) -> Option<Room> {
    if s == "Kitchen"@ || s == "KITCHEN"@ || s == "kitchen"@ {
        Some(Room::Kitchen)
    } else if s == "LivingRoom"@ || s == "LIVING_ROOM"@ || s == "living_room"@ || s
        == "Livingroom"@ {
        Some(Room::LivingRoom)
    } else if s == "BedRoom"@ || s == "BED_ROOM"@ || s == "bed_room"@ || s == "Bedroom"@ {
        Some(Room::BedRoom)
    } else {
        None
    }
}

impl Room {
    /// Parse a room name; any name that `spec_room_of` knows is
    /// accepted, every other name is rejected.
    pub fn from_str(s: &str) -> (r: Result<Room, &'static str>)
        ensures
            forall|room: Room| spec_room_of(s@) == Some(room) ==> r == Ok::<
                Room,
                &'static str,
            >(room),
            spec_room_of(s@) is None ==> r is Err,
    {
        if str_eq(s, "Kitchen") || str_eq(s, "KITCHEN") || str_eq(s, "kitchen") {
            Ok(Room::Kitchen)
        } else if str_eq(s, "LivingRoom") || str_eq(s, "LIVING_ROOM") || str_eq(s, "living_room")
            || str_eq(s, "Livingroom") {
            Ok(Room::LivingRoom)
        } else if str_eq(s, "BedRoom") || str_eq(s, "BED_ROOM") || str_eq(s, "bed_room") || str_eq(
            s,
            "Bedroom",
        ) {
            Ok(Room::BedRoom)
        } else {
            Err("Unknown room")
        }
    }
}

/// The blind command a name denotes, if any.
pub open spec fn spec_blind_status_of(s: Seq<char>) -> Option<BlindStatus> {
    if s == "Down"@ || s == "DOWN"@ || s == "down"@ {
        Some(BlindStatus::DOWN)
    } else if s == "Up"@ || s == "UP"@ || s == "up"@ {
        Some(BlindStatus::UP)
    } else {
        None
    }
}

impl BlindStatus {
    /// Parse a blind command name.
    pub fn from_str(s: &str) -> (r: Result<BlindStatus, &'static str>)
        ensures
            forall|status: BlindStatus| spec_blind_status_of(s@) == Some(status) ==> r == Ok::<
                BlindStatus,
                &'static str,
            >(status),
            spec_blind_status_of(s@) is None ==> r is Err,
    {
        if str_eq(s, "Down") || str_eq(s, "DOWN") || str_eq(s, "down") {
            Ok(BlindStatus::DOWN)
        } else if str_eq(s, "Up") || str_eq(s, "UP") || str_eq(s, "up") {
            Ok(BlindStatus::UP)
        } else {
            Err("Unknown status")
        }
    }
}

/// The light command a name denotes, if any.
pub open spec fn spec_light_status_of(s: Seq<char>) -> Option<LightStatus> {
    if s == "On"@ || s == "ON"@ || s == "on"@ {
        Some(LightStatus::ON)
    } else if s == "Off"@ || s == "OFF"@ || s == "off"@ {
        Some(LightStatus::OFF)
    } else {
        None
    }
}

impl LightStatus {
    /// Parse a light command name.
    pub fn from_str(s: &str) -> (r: Result<LightStatus, &'static str>)
        ensures
            forall|status: LightStatus| spec_light_status_of(s@) == Some(status) ==> r == Ok::<
                LightStatus,
                &'static str,
            >(status),
            spec_light_status_of(s@) is None ==> r is Err,
    {
        if str_eq(s, "On") || str_eq(s, "ON") || str_eq(s, "on") {
            Ok(LightStatus::ON)
        } else if str_eq(s, "Off") || str_eq(s, "OFF") || str_eq(s, "off") {
            Ok(LightStatus::OFF)
        } else {
            Err("Unknown status")
        }
    }
}

/// The DiO identifier of a room's light.
pub open spec fn light_address(room: Room) -> u32 {
    match room {
        Room::LivingRoom => 0x1337,
        Room::Kitchen => 0x0042,
        Room::BedRoom => 0x985c,
    }
}

/// The DiO command of a light command.
pub open spec fn light_dio_status(status: LightStatus) -> dio::Status {
    match status {
        LightStatus::ON => dio::Status::ON,
        LightStatus::OFF => dio::Status::OFF,
    }
}

/// The corrected pulse sequence a light command puts on the air.
pub open spec fn light_timings(room: Room, status: LightStatus) -> Seq<Signal> {
    corrected(
        dio::dio_protocol_model().timings(
            dio::spec_dio_message(light_address(room), light_dio_status(status)).spec_bytes(),
        ),
    )
}

/// The DiO identifier of a room's blinds.
pub open spec fn blind_address(room: Room) -> u32 {
    match room {
        Room::LivingRoom => 0x0932,
        Room::Kitchen => 0x2600,
        Room::BedRoom => 0x0000,
    }
}

/// The DiO command of a blind command.
pub open spec fn blind_dio_status(status: BlindStatus) -> dio::Status {
    match status {
        BlindStatus::DOWN => dio::Status::DOWN,
        BlindStatus::UP => dio::Status::UP,
    }
}

/// The Celexon command of a blind command.
pub open spec fn blind_celexon_status(status: BlindStatus) -> celexon::Status {
    match status {
        BlindStatus::DOWN => celexon::Status::DOWN,
        BlindStatus::UP => celexon::Status::UP,
    }
}

/// The corrected pulse sequence a blind command puts on the air: the
/// bedroom blinds speak the Celexon dialect, every other room's speak
/// DiO.
pub open spec fn blinds_timings(room: Room, status: BlindStatus) -> Seq<Signal> {
    if room == Room::BedRoom {
        corrected(
            celexon::celexon_protocol_model().timings(blind_celexon_status(status).spec_bytes()),
        )
    } else {
        corrected(
            dio::dio_protocol_model().timings(
                dio::spec_dio_message(blind_address(room), blind_dio_status(status)).spec_bytes(),
            ),
        )
    }
}

/// The Dooya command of a screen command.
pub open spec fn screen_dooya_status(status: BlindStatus) -> dooya::Status {
    match status {
        BlindStatus::DOWN => dooya::Status::DOWN,
        BlindStatus::UP => dooya::Status::UP,
    }
}

/// The corrected pulse sequence a screen command puts on the air.
pub open spec fn screen_timings(status: BlindStatus) -> Seq<Signal> {
    corrected(dooya::dooya_protocol_model().timings(screen_dooya_status(status).spec_bytes()))
}

/// The house interface: one call per logical command; scenes are fixed
/// sequences of commands.
pub trait House {
    /// Switch a room's light.
    fn light(&mut self, room: Room, status: LightStatus);

    /// Drive a room's blinds.
    fn blinds(&mut self, room: Room, status: BlindStatus);

    /// Drive the projector screen.
    fn screen(&mut self, status: BlindStatus);

    /// The cinema scene.
    fn cinema(&mut self);

    /// The morning scene.
    fn goodmorning(&mut self);

    /// The night scene.
    fn goodnight(&mut self);
}

/// A house over one transmitter. The transmitter is the single
/// exclusive resource: `&mut self` keeps every command's pulse
/// sequence contiguous on the line.
pub struct MyHouse<R: Radio> {
    /// The transmitter all commands go out through.
    pub radio: R,
}

impl<R: Radio> MyHouse<R> {
    /// A house over the given transmitter.
    pub fn new(radio: R) -> (r: Self)
        ensures
            r.radio == radio,
    {
        MyHouse { radio }
    }

    /// Send one message through the transmitter.
    fn send(&mut self, message: &Vec<u8>, protocol: &RadioProtocol)
        requires
            correctable(protocol@),
        ensures
            final(self).radio.played() == old(self).radio.played() + corrected(
                protocol@.timings(message@),
            ),
    {
        self.radio.send(message, protocol);
    }
}

impl<R: Radio> House for MyHouse<R> {
    /// Switch a room's light: one DiO message at the room's light
    /// address.
    fn light(&mut self, room: Room, status: LightStatus)
        ensures
            final(self).radio.played() == old(self).radio.played() + light_timings(room, status),
    {
        let a: u32 = match room {
            Room::LivingRoom => 0x1337,
            Room::Kitchen => 0x0042,
            Room::BedRoom => 0x985c,
        };
        let s = match status {
            LightStatus::ON => dio::Status::ON,
            LightStatus::OFF => dio::Status::OFF,
        };
        let message = DioMessage::new(a, s);
        let bytes = message.to_bytes();
        proof {
            dio::lemma_dio_protocol_correctable();
        }
        let protocol = dio::dio_protocol();
        self.send(&bytes, &protocol);
    }

    /// Drive a room's blinds: the bedroom's speak Celexon, the others
    /// DiO at the room's blind address.
    fn blinds(&mut self, room: Room, status: BlindStatus)
        ensures
            final(self).radio.played() == old(self).radio.played() + blinds_timings(room, status),
    {
        if room == Room::BedRoom {
            let s = match status {
                BlindStatus::DOWN => celexon::Status::DOWN,
                BlindStatus::UP => celexon::Status::UP,
            };
            let bytes = s.to_bytes();
            proof {
                celexon::lemma_celexon_protocol_correctable();
            }
            let protocol = celexon::celexon_protocol();
            self.send(&bytes, &protocol);
        } else {
            let a: u32 = match room {
                Room::LivingRoom => 0x0932,
                Room::Kitchen => 0x2600,
                Room::BedRoom => 0x0000,
            };
            let s = match status {
                BlindStatus::DOWN => dio::Status::DOWN,
                BlindStatus::UP => dio::Status::UP,
            };
            let message = DioMessage::new(a, s);
            let bytes = message.to_bytes();
            proof {
                dio::lemma_dio_protocol_correctable();
            }
            let protocol = dio::dio_protocol();
            self.send(&bytes, &protocol);
        }
    }

    /// Drive the projector screen: one Dooya message.
    fn screen(&mut self, status: BlindStatus)
        ensures
            final(self).radio.played() == old(self).radio.played() + screen_timings(status),
    {
        let message = match status {
            BlindStatus::DOWN => dooya::Status::DOWN,
            BlindStatus::UP => dooya::Status::UP,
        };
        let bytes = message.to_bytes();
        proof {
            dooya::lemma_dooya_protocol_correctable();
        }
        let protocol = dooya::dooya_protocol();
        self.send(&bytes, &protocol);
    }

    /// The cinema scene: blinds down, screen down, lights off.
    fn cinema(&mut self)
        ensures
            final(self).radio.played() == old(self).radio.played() + blinds_timings(
                Room::LivingRoom,
                BlindStatus::DOWN,
            ) + blinds_timings(Room::Kitchen, BlindStatus::DOWN) + screen_timings(BlindStatus::DOWN)
                + light_timings(Room::LivingRoom, LightStatus::OFF) + light_timings(
                Room::Kitchen,
                LightStatus::OFF,
            ),
    {
        self.blinds(Room::LivingRoom, BlindStatus::DOWN);
        self.blinds(Room::Kitchen, BlindStatus::DOWN);
        self.screen(BlindStatus::DOWN);
        self.light(Room::LivingRoom, LightStatus::OFF);
        self.light(Room::Kitchen, LightStatus::OFF);
    }

    /// The morning scene: everything up, lights off.
    fn goodmorning(&mut self)
        ensures
            final(self).radio.played() == old(self).radio.played() + blinds_timings(
                Room::LivingRoom,
                BlindStatus::UP,
            ) + blinds_timings(Room::Kitchen, BlindStatus::UP) + blinds_timings(
                Room::BedRoom,
                BlindStatus::UP,
            ) + screen_timings(BlindStatus::UP) + light_timings(Room::LivingRoom, LightStatus::OFF)
                + light_timings(Room::BedRoom, LightStatus::OFF) + light_timings(
                Room::Kitchen,
                LightStatus::OFF,
            ),
    {
        self.blinds(Room::LivingRoom, BlindStatus::UP);
        self.blinds(Room::Kitchen, BlindStatus::UP);
        self.blinds(Room::BedRoom, BlindStatus::UP);
        self.screen(BlindStatus::UP);
        self.light(Room::LivingRoom, LightStatus::OFF);
        self.light(Room::BedRoom, LightStatus::OFF);
        self.light(Room::Kitchen, LightStatus::OFF);
    }

    /// The night scene: blinds down, screen up, lights off.
    fn goodnight(&mut self)
        ensures
            final(self).radio.played() == old(self).radio.played() + blinds_timings(
                Room::LivingRoom,
                BlindStatus::DOWN,
            ) + blinds_timings(Room::Kitchen, BlindStatus::DOWN) + blinds_timings(
                Room::BedRoom,
                BlindStatus::DOWN,
            ) + screen_timings(BlindStatus::UP) + light_timings(Room::LivingRoom, LightStatus::OFF)
                + light_timings(Room::BedRoom, LightStatus::OFF) + light_timings(
                Room::Kitchen,
                LightStatus::OFF,
            ),
    {
        self.blinds(Room::LivingRoom, BlindStatus::DOWN);
        self.blinds(Room::Kitchen, BlindStatus::DOWN);
        self.blinds(Room::BedRoom, BlindStatus::DOWN);
        self.screen(BlindStatus::UP);
        self.light(Room::LivingRoom, LightStatus::OFF);
        self.light(Room::BedRoom, LightStatus::OFF);
        self.light(Room::Kitchen, LightStatus::OFF);
    }
}


impl core::str::FromStr for Room {
    type Err = &'static str;

    /// Parse a room name, as `Room::from_str` does.
    fn from_str(s: &str) -> Result<Room, &'static str> {
        Room::from_str(s)
    }
}

impl core::str::FromStr for BlindStatus {
    type Err = &'static str;

    /// Parse a blind command name, as `BlindStatus::from_str` does.
    fn from_str(s: &str) -> Result<BlindStatus, &'static str> {
        BlindStatus::from_str(s)
    }
}

impl core::str::FromStr for LightStatus {
    type Err = &'static str;

    /// Parse a light command name, as `LightStatus::from_str` does.
    fn from_str(s: &str) -> Result<LightStatus, &'static str> {
        LightStatus::from_str(s)
    }
}

} // verus!
