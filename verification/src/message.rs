//! The control wire protocol: one message kind, one byte on the wire.

use vstd::prelude::*;

verus! {

/// The opcode byte that carries an interrupt request.
pub const INTERRUPT_OPCODE: u8 = 0x1;

/// A control message delivered over the local control channel.
#[derive(Clone, Copy, Debug, PartialEq, Eq, Structural)]
pub enum Message {
    /// Request early termination of the running animation.
    Interrupt,
}

/// A violation of the control wire protocol.
#[derive(Clone, Copy, Debug, PartialEq, Eq, Structural)]
pub enum ProtocolError {
    /// The received byte is not a recognized opcode.
    UnrecognizedOpcode(u8),
}

/// The wire byte of a message.
pub open spec fn spec_encode(m: Message) -> u8 {
    match m {
        Message::Interrupt => INTERRUPT_OPCODE,
    }
}

/// The message a wire byte decodes to, or the protocol error it raises.
pub open spec fn spec_decode(b: u8) -> Result<Message, ProtocolError> {
    if b == INTERRUPT_OPCODE {
        Ok(Message::Interrupt)
    } else {
        Err(ProtocolError::UnrecognizedOpcode(b))
    }
}

impl Message {
    /// The wire representation of this message: exactly one byte.
    pub fn encode(self) -> (b: u8)
        ensures
            b == spec_encode(self),
    {
        match self {
            Message::Interrupt => INTERRUPT_OPCODE,
        }
    }

    /// Decode one byte read from the control channel. A byte that is not a
    /// recognized opcode is a recoverable protocol error, never a crash: the
    /// offending connection is rejected while the channel keeps listening.
    pub fn decode(b: u8) -> (r: Result<Message, ProtocolError>)
        ensures
            r == spec_decode(b),
    {
        if b == INTERRUPT_OPCODE {
            Ok(Message::Interrupt)
        } else {
            Err(ProtocolError::UnrecognizedOpcode(b))
        }
    }
}

/// Round trip of the wire format: every message survives encode-then-decode,
/// and every byte other than the interrupt opcode decodes to a protocol
/// error that names that byte.
pub proof fn lemma_message_round_trip()
    ensures
        forall|m: Message| spec_decode(spec_encode(m)) == Ok::<Message, ProtocolError>(m),
        forall|b: u8|
            b != INTERRUPT_OPCODE ==> spec_decode(b) == Err::<Message, ProtocolError>(
                ProtocolError::UnrecognizedOpcode(b),
            ),
{
}

} // verus!
