//! The querier's side of a query: a request goes out under one transfer
//! and the answer comes back under the paired one.

use vstd::prelude::*;
use vstd::slice::slice_to_vec;
use crate::config::DEFAULT_MAX_ANSWER_SIZE;
use crate::envelope::{complement, complement_id, same_id, Answer, Query, QueryId, TransferId};
use crate::error::RldpError;
use crate::node::{
    averaged, empty_queue, source_of, timed_out, timeout_for, PacketSource, RldpNode,
    RldpTransfer, TransferView,
};
use crate::recv::{RecvModel, RecvTransfer};
use crate::send::{random_id, SendModel, SendTransfer, SendTransferState};

verus! {

/// Seconds that a querier gives its query: the longest wait, in seconds.
pub const QUERY_SECONDS: i32 = 10;

/// The answer size that goes into a query: the caller's, or the default
/// where the caller names none.
pub open spec fn answer_limit(max_answer_size: Option<i64>) -> i64 {
    match max_answer_size {
        Some(limit) => limit,
        None => DEFAULT_MAX_ANSWER_SIZE,
    }
}

/// The query that carries `data` under the identifier `query_id`, made at
/// the wall-clock second `now`.
pub fn query_with_id(query_id: QueryId, data: &[u8], max_answer_size: Option<i64>, now: i32) -> (query:
    Query)
    requires
        now + QUERY_SECONDS <= i32::MAX,
    ensures
        query.query_id == query_id,
        query.max_answer_size == answer_limit(max_answer_size),
        query.timeout == now + QUERY_SECONDS,
        query.data@ == data@,
{
    Query {
        query_id,
        max_answer_size: match max_answer_size {
            Some(limit) => limit,
            None => DEFAULT_MAX_ANSWER_SIZE,
        },
        timeout: now + QUERY_SECONDS,
        data: slice_to_vec(data),
    }
}

/// The query that carries `data` under a random identifier, made at the
/// wall-clock second `now`.
pub fn new_query(data: &[u8], max_answer_size: Option<i64>, now: i32) -> (query: Query)
    requires
        now + QUERY_SECONDS <= i32::MAX,
    ensures
        query.max_answer_size == answer_limit(max_answer_size),
        query.timeout == now + QUERY_SECONDS,
        query.data@ == data@,
{
    query_with_id(random_id(), data, max_answer_size, now)
}

/// The answer's bytes, if the answer echoes the identifier of the query.
pub fn check_answer(query_id: &QueryId, answer: Answer) -> (data: Result<Vec<u8>, RldpError>)
    ensures
        answer.query_id@ == query_id@ ==> data == Ok::<Vec<u8>, RldpError>(answer.data),
        answer.query_id@ != query_id@ ==> data == Err::<Vec<u8>, RldpError>(
            RldpError::UnknownQueryId,
        ),
{
    if same_id(&answer.query_id, query_id) {
        Ok(answer.data)
    } else {
        Err(RldpError::UnknownQueryId)
    }
}

/// The two transfers of a query, and the end of the queue from which the
/// receive transfer is fed.
pub struct QueryTransfers<'a> {
    pub send_transfer: SendTransfer<'a>,
    pub recv_transfer: RecvTransfer,
    pub queue_reader: PacketSource,
}

/// The shared state of a send transfer that has not sent anything.
pub open spec fn fresh_state() -> SendModel {
    SendModel { part: 0, reply: false, seqno_sent: 0, seqno_recv: 0 }
}

/// A receive transfer that has seen no packet.
pub open spec fn fresh_recv(transfer_id: TransferId) -> RecvModel {
    RecvModel {
        transfer_id,
        data: Seq::empty(),
        slices: Seq::empty(),
        total_size: None,
        part: 0,
        confirm_count: 0,
        decoder: None,
        updates: 0,
    }
}

/// The registry after a query was opened under `send_id`, with the new
/// and empty queue `queue` for the answer.
pub open spec fn with_query(transfers: Map<Seq<u8>, TransferView>, send_id: Seq<u8>, queue: int) -> Map<
    Seq<u8>,
    TransferView,
> {
    transfers.insert(send_id, TransferView::Send(fresh_state())).insert(
        complement(send_id),
        TransferView::Recv(empty_queue(queue)),
    )
}

/// The registry after a query was closed: its receive transfer is over,
/// and so is its send transfer where the query failed.
pub open spec fn without_query(
    transfers: Map<Seq<u8>, TransferView>,
    send_id: Seq<u8>,
    recv_id: Seq<u8>,
    failed: bool,
) -> Map<Seq<u8>, TransferView> {
    if failed {
        transfers.insert(send_id, TransferView::Done).insert(recv_id, TransferView::Done)
    } else {
        transfers.insert(recv_id, TransferView::Done)
    }
}

impl RldpNode {
    /// Opens the two transfers of a query whose request is `data`: a send
    /// transfer under a random identifier, and a receive transfer under
    /// the complement of that identifier. Both are entered in the
    /// registry in place of whatever stood there, and the end that is
    /// handed out reads the queue of the receive transfer.
    pub fn open_query<'a>(&mut self, data: &'a [u8]) -> (query: QueryTransfers<'a>)
        ensures
            query.send_transfer.wf(),
            query.send_transfer@.data == data@,
            query.send_transfer@.part == 0,
            query.send_transfer@.encoder is None,
            query.recv_transfer.wf(),
            query.recv_transfer@ == fresh_recv(query.recv_transfer@.transfer_id),
            query.recv_transfer@.transfer_id@ == complement(query.send_transfer@.transfer_id@),
            final(self).transfers() == with_query(
                old(self).transfers(),
                query.send_transfer@.transfer_id@,
                source_of(query.queue_reader),
            ),
    {
        let send_transfer = SendTransfer::new(data, None);
        let send_transfer_id = send_transfer.transfer_id();
        self.insert(send_transfer_id, RldpTransfer::Send(SendTransferState::new()));
        let recv_transfer_id = complement_id(&send_transfer_id);
        let recv_transfer = RecvTransfer::new(recv_transfer_id);
        let queue_reader = self.listen(recv_transfer_id);
        QueryTransfers { send_transfer, recv_transfer, queue_reader }
    }

    /// Marks the query's receive transfer as over, and its send transfer
    /// too where the query failed.
    pub fn close_query(&mut self, send_id: TransferId, recv_id: TransferId, failed: bool)
        ensures
            final(self).transfers() == without_query(
                old(self).transfers(),
                send_id@,
                recv_id@,
                failed,
            ),
    {
        if failed {
            self.mark_done(send_id);
        }
        self.mark_done(recv_id);
    }

    /// Forgets both transfers of a query. The caller does so when the
    /// time in which late packets are still answered has passed.
    pub fn forget_query(&mut self, send_id: &TransferId, recv_id: &TransferId)
        ensures
            final(self).transfers() == old(self).transfers().remove(send_id@).remove(recv_id@),
    {
        self.remove(send_id);
        self.remove(recv_id);
    }
}

/// Where the wait for an answer stands, as a mathematical value.
pub struct AnswerWaitModel {
    /// Milliseconds to wait for news before giving up.
    pub timeout: u64,
    /// Roundtrip estimate in milliseconds.
    pub roundtrip: u64,
    /// The receive transfer's liveness counter as it was seen last.
    pub updates: u32,
}

/// What the caller is to do next while it waits for the answer.
#[derive(Clone, Debug, PartialEq, Eq)]
pub enum Waited {
    /// Sleep for `SPINNER` milliseconds and look again.
    Sleep,
    /// The answer has come: these are its bytes and the roundtrip
    /// estimate to go on with.
    Answer(Vec<u8>, u64),
    /// No answer will be waited for any longer; this is the roundtrip
    /// estimate to go on with.
    GiveUp(u64),
}

/// What the caller is to do next, as a mathematical value.
pub enum WaitedModel {
    Sleep,
    Answer(Seq<u8>, u64),
    GiveUp(u64),
}

/// A wait together with what the caller is told.
pub struct WaitOutcome {
    pub wait: AnswerWaitModel,
    pub action: WaitedModel,
    /// Whether the caller is to start measuring time anew.
    pub reset_clock: bool,
}

/// One look at the receive transfer after a sleep.
///
/// A liveness counter that has risen is taken into the roundtrip estimate
/// and starts the clock anew. A counter that has not, beyond the wait,
/// ends the wait without an answer, even if one has just come. Else an
/// answer that has come ends the wait: the time since the clock was
/// started, which is nothing where it was started just now, goes into
/// the roundtrip estimate that is handed back with it.
pub open spec fn waited(
    w: AnswerWaitModel,
    new_updates: u32,
    elapsed: u64,
    answer: Option<Seq<u8>>,
) -> WaitOutcome {
    if new_updates > w.updates {
        let roundtrip = averaged(w.roundtrip, elapsed);
        let fresh = AnswerWaitModel {
            roundtrip,
            timeout: timeout_for(Some(roundtrip)),
            updates: new_updates,
        };
        match answer {
            Some(bytes) => WaitOutcome {
                wait: AnswerWaitModel { roundtrip: averaged(roundtrip, 0), ..fresh },
                action: WaitedModel::Answer(bytes, averaged(roundtrip, 0)),
                reset_clock: true,
            },
            None => WaitOutcome { wait: fresh, action: WaitedModel::Sleep, reset_clock: true },
        }
    } else if timed_out(w.timeout, w.updates, elapsed) {
        WaitOutcome { wait: w, action: WaitedModel::GiveUp(w.roundtrip), reset_clock: false }
    } else {
        match answer {
            Some(bytes) => WaitOutcome {
                wait: AnswerWaitModel { roundtrip: averaged(w.roundtrip, elapsed), ..w },
                action: WaitedModel::Answer(bytes, averaged(w.roundtrip, elapsed)),
                reset_clock: false,
            },
            None => WaitOutcome { wait: w, action: WaitedModel::Sleep, reset_clock: false },
        }
    }
}

impl View for Waited {
    type V = WaitedModel;

    open spec fn view(&self) -> WaitedModel {
        match self {
            Waited::Sleep => WaitedModel::Sleep,
            Waited::Answer(bytes, roundtrip) => WaitedModel::Answer(bytes@, *roundtrip),
            Waited::GiveUp(roundtrip) => WaitedModel::GiveUp(*roundtrip),
        }
    }
}

/// The wait for the answer to a query whose request has been sent.
#[derive(Clone, Copy, Debug)]
pub struct AnswerWait {
    timeout: u64,
    roundtrip: u64,
    updates: u32,
}

impl View for AnswerWait {
    type V = AnswerWaitModel;

    closed spec fn view(&self) -> AnswerWaitModel {
        AnswerWaitModel { timeout: self.timeout, roundtrip: self.roundtrip, updates: self.updates }
    }
}

impl AnswerWait {
    /// The wait that begins when the send loop has ended with the
    /// roundtrip estimate `roundtrip` and the receive transfer's liveness
    /// counter stands at `updates`.
    pub fn new(roundtrip: u64, updates: u32) -> (wait: Self)
        ensures
            wait@ == (AnswerWaitModel {
                timeout: timeout_for(Some(roundtrip)),
                roundtrip,
                updates,
            }),
    {
        Self { timeout: RldpNode::calc_timeout(Some(roundtrip)), roundtrip, updates }
    }

    /// The roundtrip estimate as it stands.
    pub fn roundtrip(&self) -> (roundtrip: u64)
        ensures
            roundtrip == self@.roundtrip,
    {
        self.roundtrip
    }

    /// Says what to do after a sleep: `new_updates` is the receive
    /// transfer's liveness counter, `elapsed` the milliseconds on the
    /// caller's clock, and `answer` the whole message if it has come.
    pub fn step(&mut self, new_updates: u32, elapsed: u64, answer: Option<Vec<u8>>) -> (step: (
        Waited,
        bool,
    ))
        ensures
            final(self)@ == waited(old(self)@, new_updates, elapsed, bytes_in(answer)).wait,
            step.0@ == waited(old(self)@, new_updates, elapsed, bytes_in(answer)).action,
            step.1 == waited(old(self)@, new_updates, elapsed, bytes_in(answer)).reset_clock,
    {
        let mut reset_clock = false;
        let mut elapsed = elapsed;
        if new_updates > self.updates {
            self.timeout = RldpNode::update_roundtrip(&mut self.roundtrip, elapsed);
            self.updates = new_updates;
            reset_clock = true;
            elapsed = 0;
        } else if RldpNode::is_timed_out(self.timeout, self.updates, elapsed) {
            return (Waited::GiveUp(self.roundtrip), false);
        }
        match answer {
            Some(bytes) => {
                let _ = RldpNode::update_roundtrip(&mut self.roundtrip, elapsed);
                (Waited::Answer(bytes, self.roundtrip), reset_clock)
            },
            None => (Waited::Sleep, reset_clock),
        }
    }
}

/// The bytes of an optional message.
pub open spec fn bytes_in(answer: Option<Vec<u8>>) -> Option<Seq<u8>> {
    match answer {
        Some(bytes) => Some(bytes@),
        None => None,
    }
}

/// How a query ends once its send loop is over.
pub enum Sent {
    /// The request was delivered: wait for the answer.
    Wait(AnswerWait),
    /// The request was not delivered: there will be no answer, and this
    /// is the roundtrip estimate to go on with.
    GiveUp(u64),
}

impl RldpNode {
    /// Takes note that the send loop of a query has ended: the send
    /// transfer is over, and where the request was delivered, the wait
    /// for the answer begins.
    pub fn sent_query(&mut self, send_id: TransferId, ok: bool, roundtrip: u64, updates: u32) -> (sent:
        Sent)
        ensures
            final(self).transfers() == old(self).transfers().insert(send_id@, TransferView::Done),
            ok ==> (sent matches Sent::Wait(wait) && wait@ == (AnswerWaitModel {
                timeout: timeout_for(Some(roundtrip)),
                roundtrip,
                updates,
            })),
            !ok ==> (sent matches Sent::GiveUp(r) && r == roundtrip),
    {
        self.mark_done(send_id);
        if ok {
            Sent::Wait(AnswerWait::new(roundtrip, updates))
        } else {
            Sent::GiveUp(roundtrip)
        }
    }
}

/// The two transfers of a query never share an identifier, and the
/// receive transfer's identifier leads back to the send transfer's.
pub proof fn query_ids_are_paired(transfers: Map<Seq<u8>, TransferView>, send_id: Seq<u8>, queue: int)
    requires
        send_id.len() > 0,
    ensures
        complement(send_id) != send_id,
        complement(complement(send_id)) == send_id,
        with_query(transfers, send_id, queue)[send_id] == TransferView::Send(fresh_state()),
        with_query(transfers, send_id, queue)[complement(send_id)] == TransferView::Recv(
            empty_queue(queue),
        ),
{
    crate::envelope::complement_differs(send_id);
    crate::envelope::complement_is_involution(send_id);
}

} // verus!
