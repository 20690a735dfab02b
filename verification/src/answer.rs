//! The responder's side of a query: a request has come in under one
//! transfer and the answer goes back under the paired one.

use vstd::prelude::*;
use crate::envelope::{complement, complement_id, Answer, Query, TransferId};
use crate::error::RldpError;
use crate::node::{RldpNode, RldpTransfer, TransferView};
use crate::query::fresh_state;
use crate::send::{SendTransfer, SendTransferState};

verus! {

/// Whether an answer that takes `len` bytes once it is serialized is more
/// than the querier accepts.
pub open spec fn oversized(len: nat, max_answer_size: i64) -> bool {
    len > max_answer_size
}

/// What is sent back for a query, given what the subscribers made of it.
///
/// A query that no subscriber claimed is an error. A claimed query
/// without an answer is done with, and nothing is sent. An answer goes
/// out unless, serialized to `serialized_len` bytes, it is larger than
/// the querier accepts.
pub open spec fn decided(
    query: Query,
    claimed: bool,
    answer: Option<Answer>,
    serialized_len: usize,
) -> Result<Option<Answer>, RldpError> {
    if !claimed {
        Err(RldpError::NoSubscribers)
    } else {
        match answer {
            None => Ok(None),
            Some(answer) => if oversized(serialized_len as nat, query.max_answer_size) {
                Err(RldpError::AnswerTooBig)
            } else {
                Ok(Some(answer))
            },
        }
    }
}

/// Decides what is sent back for `query`, where `claimed` says whether a
/// subscriber took the query, `answer` is what it made of it, and
/// `serialized_len` is the number of bytes that the answer takes on the
/// wire; the number is not looked at where there is no answer.
pub fn answer_decision(
    query: &Query,
    claimed: bool,
    answer: Option<Answer>,
    serialized_len: usize,
) -> (reply: Result<Option<Answer>, RldpError>)
    ensures
        reply == decided(*query, claimed, answer, serialized_len),
{
    if !claimed {
        return Err(RldpError::NoSubscribers);
    }
    match answer {
        None => Ok(None),
        Some(answer) => {
            if query.max_answer_size < 0 || serialized_len as u64 > query.max_answer_size as u64 {
                Err(RldpError::AnswerTooBig)
            } else {
                Ok(Some(answer))
            }
        },
    }
}

impl RldpNode {
    /// Opens the send transfer that carries `data` back to the peer
    /// whose query came in under `transfer_id`: it runs under the
    /// complement of that identifier and is entered in the registry in
    /// place of whatever stood there.
    pub fn open_answer<'a>(&mut self, transfer_id: &TransferId, data: &'a [u8]) -> (send_transfer:
        SendTransfer<'a>)
        ensures
            send_transfer.wf(),
            send_transfer@.transfer_id@ == complement(transfer_id@),
            send_transfer@.data == data@,
            send_transfer@.part == 0,
            send_transfer@.encoder is None,
            final(self).transfers() == old(self).transfers().insert(
                complement(transfer_id@),
                TransferView::Send(fresh_state()),
            ),
    {
        let send_transfer_id = complement_id(transfer_id);
        let send_transfer = SendTransfer::new(data, Some(send_transfer_id));
        self.insert(send_transfer_id, RldpTransfer::Send(SendTransferState::new()));
        send_transfer
    }

    /// Forgets the transfer under which a query came in and, where an
    /// answer went out, the transfer that carried it. The caller does so
    /// when the time in which late packets are still answered has passed.
    pub fn forget_answer(&mut self, transfer_id: &TransferId, send_transfer_id: Option<TransferId>)
        ensures
            final(self).transfers() == match send_transfer_id {
                Some(id) => old(self).transfers().remove(id@).remove(transfer_id@),
                None => old(self).transfers().remove(transfer_id@),
            },
    {
        match send_transfer_id {
            Some(id) => {
                self.remove(&id);
            },
            None => {},
        }
        self.remove(transfer_id);
    }
}

/// A query that a subscriber claimed without an answer is done with:
/// nothing is sent back, and that is no error.
pub proof fn claimed_without_answer(query: Query, serialized_len: usize)
    ensures
        decided(query, true, None, serialized_len) == Ok::<Option<Answer>, RldpError>(None),
{
}

/// Whatever goes back for a query is what the subscriber made of it, and
/// is on the wire no larger than the querier accepts.
pub proof fn answer_sent_as_made(
    query: Query,
    claimed: bool,
    answer: Option<Answer>,
    serialized_len: usize,
    sent: Answer,
)
    requires
        decided(query, claimed, answer, serialized_len) == Ok::<Option<Answer>, RldpError>(
            Some(sent),
        ),
    ensures
        claimed,
        answer == Some(sent),
        serialized_len <= query.max_answer_size,
{
}

} // verus!
