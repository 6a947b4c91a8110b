//! The DiO dialect: a 24-bit identifier split into a brand byte and a
//! 16-bit address, plus a status byte. Two physical device families
//! share the encoding; the reserved brand marker 0x7c needs one extra
//! low status bit, an observed receiver behaviour kept as a fixed
//! lookup, not a formula.

use vstd::prelude::*;

use crate::radio::DELAY_CORRECTION;
use crate::radio::Signal;
use crate::radio::correctable;
use crate::radio_emitter::least_significant_bits;
use crate::radio_emitter::most_significant_bits;
use crate::radio_emitter::spec_lsb;
use crate::radio_emitter::spec_msb;
use crate::radio_protocol::Footer;
use crate::radio_protocol::Header;
use crate::radio_protocol::One;
use crate::radio_protocol::ProtocolModel;
use crate::radio_protocol::RadioProtocol;
use crate::radio_protocol::Zero;

verus! {

/// The command carried by a DiO message.
#[derive(Copy, Clone, Debug, Eq, PartialEq, Structural)]
pub enum Status {
    ON,
    OFF,
    UP,
    DOWN,
}

/// The brand marker that needs the compatibility bit set.
pub const RESERVED_BRAND: u8 = 0x7c;

/// The brand byte of a 24-bit identifier: its top eight used bits.
pub open spec fn spec_brand(address: u32) -> u8 {
    ((address / 0x10000) % 0x100) as u8
}

/// The status byte: 0x90 for on/down, 0x80 for off/up, with the low
/// bit set exactly when the brand is the reserved marker.
pub open spec fn spec_status_byte(brand: u8, status: Status) -> u8 {
    let base: u8 = match status {
        Status::ON | Status::DOWN => 0x90,
        _ => 0x80,
    };
    if brand == RESERVED_BRAND {
        (base + 1) as u8
    } else {
        base
    }
}

/// A DiO message: brand byte, 16-bit address, status byte.
#[derive(Copy, Clone, Debug, Eq, PartialEq, Structural)]
pub struct DioMessage {
    pub brand: u8,
    pub address: u16,
    pub status: u8,
}

/// The message a 24-bit identifier and a command construct.
pub open spec fn spec_dio_message(address: u32, status: Status) -> DioMessage {
    DioMessage {
        brand: spec_brand(address),
        address: (address % 0x10000) as u16,
        status: spec_status_byte(spec_brand(address), status),
    }
}

impl DioMessage {
    /// The four bytes the message flattens to: brand, address high,
    /// address low, status.
    pub open spec fn spec_bytes(self) -> Seq<u8> {
        seq![self.brand, spec_msb(self.address), spec_lsb(self.address), self.status]
    }

    /// Build a message from a 24-bit identifier and a command. The
    /// status byte's low bit is set if and only if the identifier's
    /// brand byte is the reserved marker; any other brand never sets
    /// it.
    pub fn new(address: u32, status: Status) -> (r: Self)
        ensures
            r == spec_dio_message(address, status),
            r.status % 2 == 1 <==> spec_brand(address) == RESERVED_BRAND,
    {
        let brand = ((0x00FF0000u32 & address) >> 16) as u8;
        proof {
            assert(((0x00FF0000u32 & address) >> 16) as u8 == ((address / 0x10000) % 0x100) as u8)
                by (bit_vector);
            assert((0x0000FFFFu32 & address) as u16 == (address % 0x10000) as u16) by (bit_vector);
        }
        let last_bit: u8 = if brand == RESERVED_BRAND {
            1
        } else {
            0
        };
        let base: u8 = match status {
            Status::ON | Status::DOWN => 0x90,
            _ => 0x80,
        };
        DioMessage { brand, address: (0x0000FFFF & address) as u16, status: base + last_bit }
    }

    /// Flatten the message to its four bytes.
    pub fn to_bytes(&self) -> (r: Vec<u8>)
        ensures
            r@ == self.spec_bytes(),
    {
        let v: Vec<u8> = vec![
            self.brand,
            most_significant_bits(self.address),
            least_significant_bits(self.address),
            self.status,
        ];
        proof {
            assert(v@ =~= self.spec_bytes());
        }
        v
    }
}

/// The DiO timing table's model: its four patterns and repetition.
pub open spec fn dio_protocol_model() -> ProtocolModel {
    ProtocolModel {
        header: seq![Signal::HIGH(283), Signal::LOW(2793)],
        footer: seq![Signal::HIGH(283), Signal::LOW(10740)],
        zero: seq![
            Signal::HIGH(283),
            Signal::LOW(283),
            Signal::HIGH(283),
            Signal::LOW(1355),
        ],
        one: seq![
            Signal::HIGH(283),
            Signal::LOW(1355),
            Signal::HIGH(283),
            Signal::LOW(283),
        ],
        repetition: 10,
    }
}

/// Every pulse of the DiO table outlasts the delay correction.
pub proof fn lemma_dio_protocol_correctable()
    ensures
        correctable(dio_protocol_model()),
{
    let p = dio_protocol_model();
    assert forall|i: int| 0 <= i < p.header.len() implies (#[trigger] p.header[i]).duration()
        >= DELAY_CORRECTION by {
        if i == 0 {
        } else {
            assert(i == 1);
        }
    }
    assert forall|i: int| 0 <= i < p.footer.len() implies (#[trigger] p.footer[i]).duration()
        >= DELAY_CORRECTION by {
        if i == 0 {
        } else {
            assert(i == 1);
        }
    }
    assert forall|i: int| 0 <= i < p.zero.len() implies (#[trigger] p.zero[i]).duration()
        >= DELAY_CORRECTION by {
        assert(0 <= i < 4);
    }
    assert forall|i: int| 0 <= i < p.one.len() implies (#[trigger] p.one[i]).duration()
        >= DELAY_CORRECTION by {
        assert(0 <= i < 4);
    }
}

/// The DiO timing table.
pub fn dio_protocol() -> (r: RadioProtocol)
    ensures
        r@ == dio_protocol_model(),
{
    let header: Vec<Signal> = vec![Signal::HIGH(283), Signal::LOW(2793)];
    let footer: Vec<Signal> = vec![Signal::HIGH(283), Signal::LOW(10740)];
    let zero: Vec<Signal> = vec![
        Signal::HIGH(283),
        Signal::LOW(283),
        Signal::HIGH(283),
        Signal::LOW(1355),
    ];
    let one: Vec<Signal> = vec![
        Signal::HIGH(283),
        Signal::LOW(1355),
        Signal::HIGH(283),
        Signal::LOW(283),
    ];
    proof {
        assert(header@ =~= dio_protocol_model().header);
        assert(footer@ =~= dio_protocol_model().footer);
        assert(zero@ =~= dio_protocol_model().zero);
        assert(one@ =~= dio_protocol_model().one);
    }
    let r = RadioProtocol::new(Header(header), Footer(footer), Zero(zero), One(one), 10);
    proof {
        assert(r@ =~= dio_protocol_model());
    }
    r
}

} // verus!
