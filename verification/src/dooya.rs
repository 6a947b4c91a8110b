//! The Dooya dialect (projector screen actuator): two named states,
//! each mapped to a fixed, pre-computed byte sequence, exactly as
//! captured from the original remote.

use vstd::prelude::*;

use crate::radio::DELAY_CORRECTION;
use crate::radio::Signal;
use crate::radio::correctable;
use crate::radio_protocol::Footer;
use crate::radio_protocol::Header;
use crate::radio_protocol::One;
use crate::radio_protocol::ProtocolModel;
use crate::radio_protocol::RadioProtocol;
use crate::radio_protocol::Zero;

verus! {

/// The command carried by a Dooya message.
#[derive(Copy, Clone, Debug, Eq, PartialEq, Structural)]
pub enum Status {
    UP,
    DOWN,
}

impl Status {
    /// The fixed byte sequence of the command.
    pub open spec fn spec_bytes(self) -> Seq<u8> {
        match self {
            Status::DOWN => seq![0x06u8, 0x41u8, 0xdfu8, 0xd1u8, 0x33u8],
            Status::UP => seq![0x06u8, 0x41u8, 0xdfu8, 0xd1u8, 0x11u8],
        }
    }

    /// Flatten the command to its fixed byte sequence.
    pub fn to_bytes(self) -> (r: Vec<u8>)
        ensures
            r@ == self.spec_bytes(),
    {
        match self {
            Status::DOWN => {
                let v: Vec<u8> = vec![0x06, 0x41, 0xdf, 0xd1, 0x33];
                assert(v@ =~= self.spec_bytes());
                v
            },
            Status::UP => {
                let v: Vec<u8> = vec![0x06, 0x41, 0xdf, 0xd1, 0x11];
                assert(v@ =~= self.spec_bytes());
                v
            },
        }
    }
}

/// The Dooya timing table's model.
pub open spec fn dooya_protocol_model() -> ProtocolModel {
    ProtocolModel {
        header: seq![Signal::HIGH(4700), Signal::LOW(1400)],
        footer: seq![Signal::LOW(8500)],
        zero: seq![Signal::HIGH(250), Signal::LOW(650)],
        one: seq![Signal::HIGH(600), Signal::LOW(300)],
        repetition: 10,
    }
}

/// Every pulse of the Dooya table outlasts the delay correction.
pub proof fn lemma_dooya_protocol_correctable()
    ensures
        correctable(dooya_protocol_model()),
{
    let p = dooya_protocol_model();
    assert forall|i: int| 0 <= i < p.header.len() implies (#[trigger] p.header[i]).duration()
        >= DELAY_CORRECTION by {
        assert(0 <= i < 2);
    }
    assert forall|i: int| 0 <= i < p.footer.len() implies (#[trigger] p.footer[i]).duration()
        >= DELAY_CORRECTION by {
        assert(i == 0);
    }
    assert forall|i: int| 0 <= i < p.zero.len() implies (#[trigger] p.zero[i]).duration()
        >= DELAY_CORRECTION by {
        assert(0 <= i < 2);
    }
    assert forall|i: int| 0 <= i < p.one.len() implies (#[trigger] p.one[i]).duration()
        >= DELAY_CORRECTION by {
        assert(0 <= i < 2);
    }
}

/// The Dooya timing table.
pub fn dooya_protocol() -> (r: RadioProtocol)
    ensures
        r@ == dooya_protocol_model(),
{
    let header: Vec<Signal> = vec![Signal::HIGH(4700), Signal::LOW(1400)];
    let footer: Vec<Signal> = vec![Signal::LOW(8500)];
    let zero: Vec<Signal> = vec![Signal::HIGH(250), Signal::LOW(650)];
    let one: Vec<Signal> = vec![Signal::HIGH(600), Signal::LOW(300)];
    proof {
        assert(header@ =~= dooya_protocol_model().header);
        assert(footer@ =~= dooya_protocol_model().footer);
        assert(zero@ =~= dooya_protocol_model().zero);
        assert(one@ =~= dooya_protocol_model().one);
    }
    let r = RadioProtocol::new(Header(header), Footer(footer), Zero(zero), One(one), 10);
    proof {
        assert(r@ =~= dooya_protocol_model());
    }
    r
}

} // verus!
