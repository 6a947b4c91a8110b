//! The Celexon dialect (bedroom blind actuator): two named states,
//! each mapped to a fixed, pre-computed byte sequence. The captures
//! never decomposed cleanly into address and status fields, so the
//! byte content itself encodes device identity and command.

use vstd::prelude::*;

use crate::radio::DELAY_CORRECTION;
use crate::radio::Signal;
use crate::radio::correctable;
use crate::radio_protocol::Footer;
use crate::radio_protocol::Header;
use crate::radio_protocol::One;
use crate::radio_protocol::ProtocolModel;
use crate::radio_protocol::RadioProtocol;
use crate::radio_protocol::Zero;

verus! {

/// The command carried by a Celexon message.
#[derive(Copy, Clone, Debug, Eq, PartialEq, Structural)]
pub enum Status {
    UP,
    DOWN,
}

impl Status {
    /// The fixed byte sequence of the command.
    pub open spec fn spec_bytes(self) -> Seq<u8> {
        match self {
            Status::DOWN => seq![0x53u8, 0xe1u8, 0x3eu8, 0xd4u8, 0xfeu8, 0xffu8, 0xbcu8, 0xb1u8],
            Status::UP => seq![0x53u8, 0xe1u8, 0x3eu8, 0xd4u8, 0xfeu8, 0xffu8, 0xf4u8, 0xe9u8],
        }
    }

    /// Flatten the command to its fixed byte sequence.
    pub fn to_bytes(self) -> (r: Vec<u8>)
        ensures
            r@ == self.spec_bytes(),
    {
        match self {
            Status::DOWN => {
                let v: Vec<u8> = vec![0x53, 0xe1, 0x3e, 0xd4, 0xfe, 0xff, 0xbc, 0xb1];
                assert(v@ =~= self.spec_bytes());
                v
            },
            Status::UP => {
                let v: Vec<u8> = vec![0x53, 0xe1, 0x3e, 0xd4, 0xfe, 0xff, 0xf4, 0xe9];
                assert(v@ =~= self.spec_bytes());
                v
            },
        }
    }
}

/// The Celexon timing table's model.
pub open spec fn celexon_protocol_model() -> ProtocolModel {
    ProtocolModel {
        header: seq![Signal::HIGH(5164), Signal::LOW(581)],
        footer: seq![Signal::HIGH(581), Signal::LOW(248)],
        zero: seq![Signal::HIGH(581), Signal::LOW(199)],
        one: seq![Signal::HIGH(199), Signal::LOW(581)],
        repetition: 10,
    }
}

/// Every pulse of the Celexon table outlasts the delay correction.
pub proof fn lemma_celexon_protocol_correctable()
    ensures
        correctable(celexon_protocol_model()),
{
    let p = celexon_protocol_model();
    assert forall|i: int| 0 <= i < p.header.len() implies (#[trigger] p.header[i]).duration()
        >= DELAY_CORRECTION by {
        assert(0 <= i < 2);
    }
    assert forall|i: int| 0 <= i < p.footer.len() implies (#[trigger] p.footer[i]).duration()
        >= DELAY_CORRECTION by {
        assert(0 <= i < 2);
    }
    assert forall|i: int| 0 <= i < p.zero.len() implies (#[trigger] p.zero[i]).duration()
        >= DELAY_CORRECTION by {
        assert(0 <= i < 2);
    }
    assert forall|i: int| 0 <= i < p.one.len() implies (#[trigger] p.one[i]).duration()
        >= DELAY_CORRECTION by {
        assert(0 <= i < 2);
    }
}

/// The Celexon timing table.
pub fn celexon_protocol() -> (r: RadioProtocol)
    ensures
        r@ == celexon_protocol_model(),
{
    let header: Vec<Signal> = vec![Signal::HIGH(5164), Signal::LOW(581)];
    let footer: Vec<Signal> = vec![Signal::HIGH(581), Signal::LOW(248)];
    let zero: Vec<Signal> = vec![Signal::HIGH(581), Signal::LOW(199)];
    let one: Vec<Signal> = vec![Signal::HIGH(199), Signal::LOW(581)];
    proof {
        assert(header@ =~= celexon_protocol_model().header);
        assert(footer@ =~= celexon_protocol_model().footer);
        assert(zero@ =~= celexon_protocol_model().zero);
        assert(one@ =~= celexon_protocol_model().one);
    }
    let r = RadioProtocol::new(Header(header), Footer(footer), Zero(zero), One(one), 10);
    proof {
        assert(r@ =~= celexon_protocol_model());
    }
    r
}

} // verus!
