//! The message-sending interface: one call per outgoing device message.

use vstd::prelude::*;

verus! {

/// Something that can send one kind of device message. Implementations
/// state in their own contracts what sending a message emits.
pub trait Sender {
    /// The device message this sender accepts.
    type Message;

    /// Send one message.
    fn send(&mut self, message: Self::Message);
}

} // verus!
