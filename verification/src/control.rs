//! The control channel's verified pieces: the capacity-one forwarding
//! discipline between the accept loop and the arbitration logic, and the
//! well-known rendezvous path. The socket itself is owned by the caller.

use vstd::prelude::*;
use vstd::string::StringExecFns;
use crate::message::Message;

verus! {

/// Capacity-one forwarding of decoded control messages: at most one message
/// waits; a second cannot be queued until the first is consumed. A fast
/// client is backpressured -- its message is neither dropped silently nor
/// duplicated -- because a refused offer leaves both slot and message with
/// the caller to try again.
pub struct MessageSlot {
    /// The message waiting to be consumed, if any.
    pub waiting: Option<Message>,
}

impl MessageSlot {
    /// An empty slot.
    pub fn new() -> (s: MessageSlot)
        ensures
            s.waiting is None,
    {
        MessageSlot { waiting: None }
    }

    /// Offer a decoded message for forwarding: accepted exactly when the
    /// slot is free, and refused with the slot unchanged otherwise.
    pub fn offer(&mut self, message: Message) -> (accepted: bool)
        ensures
            accepted == (old(self).waiting is None),
            final(self).waiting == (if old(self).waiting is None {
                Some(message)
            } else {
                old(self).waiting
            }),
    {
        match self.waiting {
            None => {
                self.waiting = Some(message);
                true
            },
            Some(_) => false,
        }
    }

    /// Consume the waiting message, freeing the slot.
    pub fn take(&mut self) -> (r: Option<Message>)
        ensures
            r == old(self).waiting,
            final(self).waiting is None,
    {
        let taken = self.waiting;
        self.waiting = None;
        taken
    }
}

/// The control channel's rendezvous path inside the runtime directory; the
/// server removes a stale artifact there before binding, and the client
/// connects to the same path.
pub fn socket_path(runtime_dir: &str) -> (p: String)
    ensures
        p@ == runtime_dir@ + "/ipc.socket"@,
{
    let base: String = runtime_dir.to_owned();
    base.concat("/ipc.socket")
}

} // verus!
