//! The life of a receive transfer: packets out of its queue, replies
//! back, until the message is whole.
//!
//! The loop itself runs in the caller, which owns the queue's far end and
//! the socket. For every packet it takes from the queue it calls
//! `RldpNode::receive_step`.

use vstd::prelude::*;
use crate::envelope::{MessagePart, RldpMessagePart, TransferId};
use crate::error::RldpError;
use crate::node::{with_send_state, RldpNode, TransferView};
use crate::recv::{assembled, process, RecvModel, RecvTransfer};
use crate::send::{replied, SendModel};

verus! {

/// What the caller has to do after a packet was taken in.
#[derive(Clone, Debug, PartialEq, Eq)]
pub struct Received {
    /// What to send back to the peer, if anything.
    pub reply: Option<RldpMessagePart>,
    /// Why the packet was rejected, if it was.
    pub error: Option<RldpError>,
    /// Whether the message is whole and the loop at its end.
    pub done: bool,
}

/// The reply in the result of a packet, if there is one.
pub open spec fn reply_of(reply: Result<Option<RldpMessagePart>, RldpError>) -> Option<
    RldpMessagePart,
> {
    match reply {
        Ok(reply) => reply,
        Err(_) => None,
    }
}

/// The error in the result of a packet, if there is one.
pub open spec fn error_of(reply: Result<Option<RldpMessagePart>, RldpError>) -> Option<RldpError> {
    match reply {
        Ok(_) => None,
        Err(e) => Some(e),
    }
}

/// A transfer after its liveness counter has counted one packet.
pub open spec fn counted(m: RecvModel) -> RecvModel {
    RecvModel {
        updates: if m.updates == u32::MAX {
            0
        } else {
            (m.updates + 1) as u32
        },
        ..m
    }
}

/// The send transfer that is still to be told of a reply, after a packet
/// has left the receive transfer as `m`: none once the transfer holds
/// any byte of the message.
pub open spec fn told(paired: Option<TransferId>, m: RecvModel) -> Option<TransferId> {
    if m.data.len() > 0 {
        None
    } else {
        paired
    }
}

/// The registry after a packet has left the receive transfer as `m`: the
/// paired send transfer, if one is still to be told, has its reply flag
/// set once the transfer holds any byte of the message.
pub open spec fn noted(
    transfers: Map<Seq<u8>, TransferView>,
    paired: Option<TransferId>,
    m: RecvModel,
) -> Map<Seq<u8>, TransferView> {
    match paired {
        Some(id) => if m.data.len() > 0 {
            with_send_state(transfers, id@, |s: SendModel| replied(s))
        } else {
            transfers
        },
        None => transfers,
    }
}

/// The loop of one receive transfer.
#[derive(Clone, Copy, Debug)]
pub struct ReceiveLoop {
    paired: Option<TransferId>,
}

impl ReceiveLoop {
    /// The send transfer that has not been told yet that the peer has
    /// begun to reply.
    pub closed spec fn paired(&self) -> Option<TransferId> {
        self.paired
    }

    /// A loop for a receive transfer. Where the transfer carries the
    /// answer to a query, `paired` names the send transfer of that query.
    pub fn new(paired: Option<TransferId>) -> (looped: Self)
        ensures
            looped.paired() == paired,
    {
        Self { paired }
    }
}

impl RldpNode {
    /// Takes one packet from the queue of a receive transfer in.
    ///
    /// The transfer processes the packet, and whatever it answers goes
    /// back to the peer. The packet is counted on the liveness counter
    /// whether it was taken or rejected. As soon as the transfer holds
    /// any byte of the message, the paired send transfer, if there is
    /// one, is told once that the peer has begun to reply. The loop is
    /// at its end when the message is whole.
    pub fn receive_step(
        &mut self,
        looped: &mut ReceiveLoop,
        transfer: &mut RecvTransfer,
        message: MessagePart,
    ) -> (received: Received)
        requires
            old(transfer).wf(),
        ensures
            final(transfer).wf(),
            final(transfer)@ == counted(process(old(transfer)@, message).post),
            received.reply == reply_of(process(old(transfer)@, message).reply),
            received.error == error_of(process(old(transfer)@, message).reply),
            received.done == assembled(final(transfer)@),
            final(looped).paired() == told(old(looped).paired(), final(transfer)@),
            final(self).transfers() == noted(
                old(self).transfers(),
                old(looped).paired(),
                final(transfer)@,
            ),
    {
        let (reply, error) = match transfer.process_chunk(message) {
            Ok(reply) => (reply, None),
            Err(e) => (None, Some(e)),
        };
        transfer.set_updates();
        if transfer.data().len() > 0 {
            match looped.paired.take() {
                Some(id) => {
                    self.set_reply(&id);
                },
                None => {},
            }
        }
        Received { reply, error, done: transfer.is_complete() }
    }
}

/// The reply flag of the paired send transfer is set only when the
/// receive transfer holds a byte of the message, and a packet that leaves
/// the transfer empty changes nothing in the registry.
pub proof fn reply_needs_payload(
    transfers: Map<Seq<u8>, TransferView>,
    paired: Option<TransferId>,
    m: RecvModel,
)
    ensures
        m.data.len() == 0 ==> noted(transfers, paired, m) == transfers && told(paired, m)
            == paired,
        noted(transfers, paired, m) != transfers ==> m.data.len() > 0,
{
}

} // verus!
