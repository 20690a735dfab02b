//! The registry of transfers and the dispatcher of inbound packets.

use vstd::prelude::*;
use dashmap::DashMap;
use tokio::sync::mpsc::{UnboundedReceiver, UnboundedSender};
use crate::config::{TIMEOUT_MAX, TIMEOUT_MIN};
use crate::envelope::{Complete, Confirm, MessagePart, RldpMessagePart, TransferId};
use crate::send::{after_complete, after_confirm, in_step, replied, SendModel, SendTransferState};

verus! {

// ---------------------------------------------------------------------
// What is taken on trust from `dashmap` and `tokio`
// ---------------------------------------------------------------------

#[verifier::external_type_specification]
#[verifier::external_body]
#[verifier::reject_recursive_types(K)]
#[verifier::reject_recursive_types(V)]
#[verifier::reject_recursive_types(S)]
pub struct ExDashMap<K, V, S>(DashMap<K, V, S>);

#[verifier::external_type_specification]
#[verifier::external_body]
#[verifier::reject_recursive_types(T)]
pub struct ExUnboundedSender<T>(UnboundedSender<T>);

#[verifier::external_type_specification]
#[verifier::external_body]
#[verifier::reject_recursive_types(T)]
pub struct ExUnboundedReceiver<T>(UnboundedReceiver<T>);

/// The end of a receive transfer's queue into which packets are put.
pub type PacketQueue = UnboundedSender<Box<MessagePart>>;

/// The end of a receive transfer's queue from which packets are taken.
pub type PacketSource = UnboundedReceiver<Box<MessagePart>>;

/// What the registry holds under a transfer identifier.
#[derive(Clone)]
pub enum RldpTransfer {
    /// A receive transfer, with the queue that feeds it.
    Recv(PacketQueue),
    /// A send transfer, with the state it shares with the dispatcher.
    Send(SendTransferState),
    /// A transfer that is over; kept for a while so that late packets are
    /// answered instead of starting a transfer anew.
    Done,
}

/// The queue of a receive transfer as a mathematical value.
pub struct QueueModel {
    /// Which queue it is.
    pub queue: int,
    /// The packets that were handed to it, oldest first.
    pub handed: Seq<MessagePart>,
}

/// A registry entry as a mathematical value.
pub enum TransferView {
    Recv(QueueModel),
    Send(SendModel),
    Done,
}

impl View for RldpTransfer {
    type V = TransferView;

    open spec fn view(&self) -> TransferView {
        match self {
            RldpTransfer::Recv(queue) => TransferView::Recv(
                QueueModel { queue: queue_of(*queue), handed: queue_handed(*queue) },
            ),
            RldpTransfer::Send(state) => TransferView::Send(state@),
            RldpTransfer::Done => TransferView::Done,
        }
    }
}

/// Which queue a sending end leads to. Two ends lead to the same queue
/// where this is the same.
pub uninterp spec fn queue_of(queue: PacketQueue) -> int;

/// Which queue a receiving end takes its packets from.
pub uninterp spec fn source_of(source: PacketSource) -> int;

/// The packets that were handed to a queue through a sending end, and
/// through the ends that it is a copy of, oldest first.
pub uninterp spec fn queue_handed(queue: PacketQueue) -> Seq<MessagePart>;

/// The queue into which nothing has been put yet.
pub open spec fn empty_queue(queue: int) -> QueueModel {
    QueueModel { queue, handed: Seq::empty() }
}

/// The entries of a registry, each under the bytes of its identifier.
pub uninterp spec fn registry_entries(map: DashMap<TransferId, RldpTransfer>) -> Map<
    Seq<u8>,
    TransferView,
>;

/// The registry without entries.
pub open spec fn no_transfers() -> Map<Seq<u8>, TransferView> {
    Map::empty()
}

/// Calls `dashmap::DashMap::new`: a map without entries.
#[verifier::external_body]
fn registry_new() -> (registry: DashMap<TransferId, RldpTransfer>)
    ensures
        registry_entries(registry) == no_transfers(),
{
    DashMap::new()
}

/// Calls `dashmap::DashMap::get` and hands out a copy of what it finds:
/// the entry under `id` if there is one. The copy of a queue's end leads
/// to the same queue and has been handed the same packets.
#[verifier::external_body]
fn registry_get(map: &DashMap<TransferId, RldpTransfer>, id: &TransferId) -> (entry: Option<
    RldpTransfer,
>)
    ensures
        entry is Some <==> registry_entries(*map).contains_key(id@),
        entry matches Some(transfer) ==> transfer@ == registry_entries(*map)[id@],
{
    map.get(id).map(|entry| entry.value().clone())
}

/// Calls `dashmap::DashMap::insert`: afterwards `transfer` stands under
/// `id`, in place of what stood there before, and nothing else changed.
#[verifier::external_body]
fn registry_insert(map: &mut DashMap<TransferId, RldpTransfer>, id: TransferId, transfer: RldpTransfer)
    ensures
        registry_entries(*final(map)) == registry_entries(*old(map)).insert(id@, transfer@),
{
    map.insert(id, transfer);
}

/// Calls `dashmap::DashMap::remove`: afterwards nothing stands under
/// `id`, and nothing else changed.
#[verifier::external_body]
fn registry_remove(map: &mut DashMap<TransferId, RldpTransfer>, id: &TransferId)
    ensures
        registry_entries(*final(map)) == registry_entries(*old(map)).remove(id@),
{
    map.remove(id);
}

/// `Clone` of `tokio::sync::mpsc::UnboundedSender`: a further handle on
/// the same queue. Nothing is stated of it.
pub assume_specification<T>[ <UnboundedSender<T> as Clone>::clone ](
    queue: &UnboundedSender<T>,
) -> (handle: UnboundedSender<T>)
;

/// Calls `tokio::sync::mpsc::unbounded_channel` for a queue of packets:
/// both ends are ends of one queue, to which nothing has been handed.
#[verifier::external_body]
fn new_queue() -> (queue: (PacketQueue, PacketSource))
    ensures
        queue_of(queue.0) == source_of(queue.1),
        queue_handed(queue.0) == Seq::<MessagePart>::empty(),
{
    tokio::sync::mpsc::unbounded_channel()
}

/// Calls `tokio::sync::mpsc::UnboundedSender::send`: the packet is handed
/// to the queue that the end leads to. Whether it is taken out again
/// depends on the far end; a packet for a closed queue is dropped.
#[verifier::external_body]
fn enqueue(queue: &mut PacketQueue, message: MessagePart)
    ensures
        queue_of(*final(queue)) == queue_of(*old(queue)),
        queue_handed(*final(queue)) == queue_handed(*old(queue)).push(message),
{
    let _ = queue.send(Box::new(message));
}

// ---------------------------------------------------------------------
// Dispatching
// ---------------------------------------------------------------------

/// What the caller has to do after a packet was dispatched.
pub enum Dispatch {
    /// Nothing: a `Confirm` or `Complete` was taken in or passed over.
    Handled,
    /// Nothing: the packet went into the queue of its receive transfer.
    Queued,
    /// The transfer is over on this side: answer with both envelopes, so
    /// that the peer stops sending.
    Closed(Confirm, Complete),
    /// A receive transfer was opened for the packet, which is in its
    /// queue: run the transfer from this end of the queue.
    Opened(PacketSource),
}

/// A dispatch as a mathematical value.
pub enum DispatchView {
    Handled,
    Queued,
    Closed(Confirm, Complete),
    /// With the queue from which the end that is handed out takes its
    /// packets.
    Opened(int),
}

impl View for Dispatch {
    type V = DispatchView;

    open spec fn view(&self) -> DispatchView {
        match self {
            Dispatch::Handled => DispatchView::Handled,
            Dispatch::Queued => DispatchView::Queued,
            Dispatch::Closed(confirm, complete) => DispatchView::Closed(*confirm, *complete),
            Dispatch::Opened(source) => DispatchView::Opened(source_of(*source)),
        }
    }
}

/// A registry together with what the caller is told.
pub struct Dispatched {
    pub transfers: Map<Seq<u8>, TransferView>,
    pub action: DispatchView,
}

/// The registry after a change to the shared state of the send transfer
/// under `id`; a registry without such a transfer stays as it is.
pub open spec fn with_send_state(
    transfers: Map<Seq<u8>, TransferView>,
    id: Seq<u8>,
    change: spec_fn(SendModel) -> SendModel,
) -> Map<Seq<u8>, TransferView> {
    if transfers.contains_key(id) && transfers[id] is Send {
        transfers.insert(id, TransferView::Send(change(transfers[id]->Send_0)))
    } else {
        transfers
    }
}

/// The queue that the caller is handed an end of, where it is handed one.
pub open spec fn opened_queue(action: DispatchView) -> int {
    match action {
        DispatchView::Opened(queue) => queue,
        _ => 0,
    }
}

/// What a packet does to the registry, and what the caller is told.
///
/// A `Complete` or `Confirm` moves the shared state of the send transfer
/// it names and is passed over where there is none. A `MessagePart` is
/// handed to the queue of the receive transfer it names; where the
/// identifier belongs to a send transfer or to a transfer that is over,
/// it is answered with `Confirm` and `Complete`; where the identifier is
/// unknown, a receive transfer is opened under it with the new queue
/// `opened`, the packet is the first that is handed to that queue, and
/// the caller gets the end from which the queue is read.
pub open spec fn dispatched(
    transfers: Map<Seq<u8>, TransferView>,
    packet: RldpMessagePart,
    opened: int,
) -> Dispatched {
    match packet {
        RldpMessagePart::Complete(complete) => Dispatched {
            transfers: with_send_state(
                transfers,
                complete.transfer_id@,
                |m: SendModel| after_complete(m, complete.part),
            ),
            action: DispatchView::Handled,
        },
        RldpMessagePart::Confirm(confirm) => Dispatched {
            transfers: with_send_state(
                transfers,
                confirm.transfer_id@,
                |m: SendModel| after_confirm(m, confirm.part, confirm.seqno),
            ),
            action: DispatchView::Handled,
        },
        RldpMessagePart::MessagePart(message) => {
            let id = message.transfer_id@;
            if !transfers.contains_key(id) {
                Dispatched {
                    transfers: transfers.insert(
                        id,
                        TransferView::Recv(
                            QueueModel { queue: opened, handed: Seq::empty().push(message) },
                        ),
                    ),
                    action: DispatchView::Opened(opened),
                }
            } else if transfers[id] is Recv {
                Dispatched {
                    transfers: pushed(transfers, id, message),
                    action: DispatchView::Queued,
                }
            } else {
                Dispatched {
                    transfers,
                    action: DispatchView::Closed(
                        Confirm {
                            transfer_id: message.transfer_id,
                            part: message.part,
                            seqno: message.seqno,
                        },
                        Complete { transfer_id: message.transfer_id, part: message.part },
                    ),
                }
            }
        },
    }
}

/// The registry after `message` was handed to the queue of the receive
/// transfer under `id`; a registry without such a transfer stays as it is.
pub open spec fn pushed(transfers: Map<Seq<u8>, TransferView>, id: Seq<u8>, message: MessagePart) -> Map<
    Seq<u8>,
    TransferView,
> {
    if transfers.contains_key(id) && transfers[id] is Recv {
        let queue = transfers[id]->Recv_0;
        transfers.insert(
            id,
            TransferView::Recv(QueueModel { handed: queue.handed.push(message), ..queue }),
        )
    } else {
        transfers
    }
}

/// The wait without progress that goes with a roundtrip estimate: the
/// estimate itself, the longest wait where there is none, and never less
/// than the shortest wait.
pub open spec fn timeout_for(roundtrip: Option<u64>) -> u64 {
    let base = match roundtrip {
        Some(roundtrip) => roundtrip,
        None => TIMEOUT_MAX,
    };
    if base < TIMEOUT_MIN {
        TIMEOUT_MIN
    } else {
        base
    }
}

/// The roundtrip estimate after a further measurement: the measurement
/// itself where there was no estimate, else the mean of the two.
pub open spec fn averaged(roundtrip: u64, elapsed: u64) -> u64 {
    if roundtrip == 0 {
        elapsed
    } else {
        ((roundtrip + elapsed) / 2) as u64
    }
}

/// Whether `elapsed` milliseconds without news are too many: the wait is
/// stretched by a hundredth for every update seen so far.
pub open spec fn timed_out(timeout: u64, updates: u32, elapsed: u64) -> bool {
    elapsed > timeout + timeout * updates / 100
}

/// The transfers of one node.
pub struct RldpNode {
    transfers: DashMap<TransferId, RldpTransfer>,
}

impl RldpNode {
    /// The registry: what stands under which identifier. An identifier
    /// has one entry or none.
    pub closed spec fn transfers(&self) -> Map<Seq<u8>, TransferView> {
        registry_entries(self.transfers)
    }

    /// A node without transfers.
    pub fn new() -> (node: Self)
        ensures
            node.transfers() == no_transfers(),
    {
        Self { transfers: registry_new() }
    }

    /// What stands under `id`, if anything.
    pub fn lookup(&self, id: &TransferId) -> (entry: Option<RldpTransfer>)
        ensures
            entry is Some <==> self.transfers().contains_key(id@),
            entry matches Some(transfer) ==> transfer@ == self.transfers()[id@],
    {
        registry_get(&self.transfers, id)
    }

    /// Puts `transfer` under `id`, in place of what stood there.
    pub fn insert(&mut self, id: TransferId, transfer: RldpTransfer)
        ensures
            final(self).transfers() == old(self).transfers().insert(id@, transfer@),
    {
        registry_insert(&mut self.transfers, id, transfer);
    }

    /// Marks the transfer under `id` as over.
    pub fn mark_done(&mut self, id: TransferId)
        ensures
            final(self).transfers() == old(self).transfers().insert(id@, TransferView::Done),
    {
        registry_insert(&mut self.transfers, id, RldpTransfer::Done);
    }

    /// Forgets the transfer under `id`.
    pub fn remove(&mut self, id: &TransferId)
        ensures
            final(self).transfers() == old(self).transfers().remove(id@),
    {
        registry_remove(&mut self.transfers, id);
    }

    /// The shared state of the send transfer under `id`, if one stands
    /// there.
    pub fn send_state(&self, id: &TransferId) -> (state: Option<SendTransferState>)
        ensures
            state is Some <==> self.transfers().contains_key(id@) && self.transfers()[id@] is Send,
            state matches Some(s) ==> self.transfers()[id@] == TransferView::Send(s@) && in_step(
                s@,
            ),
    {
        match registry_get(&self.transfers, id) {
            Some(RldpTransfer::Send(state)) => {
                let _ = state.part();
                Some(state)
            },
            _ => None,
        }
    }

    /// Puts `state` in place of the shared state of the send transfer
    /// under `id`; does nothing where no send transfer stands there.
    pub fn store_send_state(&mut self, id: &TransferId, state: SendTransferState)
        ensures
            final(self).transfers() == with_send_state(
                old(self).transfers(),
                id@,
                |m: SendModel| state@,
            ),
    {
        match registry_get(&self.transfers, id) {
            Some(RldpTransfer::Send(_)) => {
                registry_insert(&mut self.transfers, *id, RldpTransfer::Send(state));
            },
            _ => {},
        }
    }

    /// Notes on the send transfer under `id` that the peer has begun to
    /// reply.
    pub fn set_reply(&mut self, id: &TransferId)
        ensures
            final(self).transfers() == with_send_state(
                old(self).transfers(),
                id@,
                |m: SendModel| replied(m),
            ),
    {
        match registry_get(&self.transfers, id) {
            Some(RldpTransfer::Send(mut state)) => {
                state.set_reply();
                registry_insert(&mut self.transfers, *id, RldpTransfer::Send(state));
            },
            _ => {},
        }
    }

    /// Puts a receive transfer under `id`, in place of what stood there,
    /// and hands out the end from which its queue, which is new and
    /// empty, is read.
    pub fn listen(&mut self, id: TransferId) -> (queue_reader: PacketSource)
        ensures
            final(self).transfers() == old(self).transfers().insert(
                id@,
                TransferView::Recv(empty_queue(source_of(queue_reader))),
            ),
    {
        let (queue_sender, queue_reader) = new_queue();
        registry_insert(&mut self.transfers, id, RldpTransfer::Recv(queue_sender));
        queue_reader
    }

    /// Opens a receive transfer under an identifier that is not in use,
    /// and hands out the end from which its queue, which is new and
    /// empty, is read. Does nothing where the identifier is in use.
    pub fn answer_transfer(&mut self, transfer_id: &TransferId) -> (queue_reader: Option<
        PacketSource,
    >)
        ensures
            queue_reader is Some <==> !old(self).transfers().contains_key(transfer_id@),
            queue_reader matches Some(source) ==> final(self).transfers() == old(
                self,
            ).transfers().insert(transfer_id@, TransferView::Recv(empty_queue(source_of(source)))),
            queue_reader is None ==> final(self).transfers() == old(self).transfers(),
    {
        match registry_get(&self.transfers, transfer_id) {
            Some(_) => None,
            None => Some(self.listen(*transfer_id)),
        }
    }

    /// Hands a packet to the queue of the receive transfer under `id`;
    /// does nothing where no receive transfer stands there.
    pub fn push(&mut self, id: &TransferId, message: MessagePart)
        ensures
            final(self).transfers() == pushed(old(self).transfers(), id@, message),
    {
        match registry_get(&self.transfers, id) {
            Some(RldpTransfer::Recv(mut queue_sender)) => {
                enqueue(&mut queue_sender, message);
                registry_insert(&mut self.transfers, *id, RldpTransfer::Recv(queue_sender));
            },
            _ => {},
        }
    }

    /// Takes one inbound packet to where it belongs.
    pub fn try_consume_custom(&mut self, packet: RldpMessagePart) -> (action: Dispatch)
        ensures
            final(self).transfers() == dispatched(
                old(self).transfers(),
                packet,
                opened_queue(action@),
            ).transfers,
            action@ == dispatched(old(self).transfers(), packet, opened_queue(action@)).action,
    {
        match packet {
            RldpMessagePart::Complete(complete) => {
                match registry_get(&self.transfers, &complete.transfer_id) {
                    Some(RldpTransfer::Send(mut state)) => {
                        state.on_complete(complete.part);
                        registry_insert(
                            &mut self.transfers,
                            complete.transfer_id,
                            RldpTransfer::Send(state),
                        );
                    },
                    _ => {},
                }
                Dispatch::Handled
            },
            RldpMessagePart::Confirm(confirm) => {
                match registry_get(&self.transfers, &confirm.transfer_id) {
                    Some(RldpTransfer::Send(mut state)) => {
                        state.on_confirm(confirm.part, confirm.seqno);
                        registry_insert(
                            &mut self.transfers,
                            confirm.transfer_id,
                            RldpTransfer::Send(state),
                        );
                    },
                    _ => {},
                }
                Dispatch::Handled
            },
            RldpMessagePart::MessagePart(message) => {
                let transfer_id = message.transfer_id;
                match registry_get(&self.transfers, &transfer_id) {
                    Some(RldpTransfer::Recv(_)) => {
                        self.push(&transfer_id, message);
                        Dispatch::Queued
                    },
                    Some(_) => Dispatch::Closed(
                        Confirm { transfer_id, part: message.part, seqno: message.seqno },
                        Complete { transfer_id, part: message.part },
                    ),
                    None => {
                        let queue_reader = self.listen(transfer_id);
                        self.push(&transfer_id, message);
                        Dispatch::Opened(queue_reader)
                    },
                }
            },
        }
    }

    /// The wait without progress that goes with a roundtrip estimate.
    pub fn calc_timeout(roundtrip: Option<u64>) -> (timeout: u64)
        ensures
            timeout == timeout_for(roundtrip),
            TIMEOUT_MIN <= timeout,
    {
        let base = match roundtrip {
            Some(roundtrip) => roundtrip,
            None => TIMEOUT_MAX,
        };
        if base < TIMEOUT_MIN {
            TIMEOUT_MIN
        } else {
            base
        }
    }

    /// Whether `elapsed` milliseconds without news are too many.
    pub fn is_timed_out(timeout: u64, updates: u32, elapsed: u64) -> (late: bool)
        ensures
            late == timed_out(timeout, updates, elapsed),
    {
        assert(0 <= timeout * updates <= 0x1_0000_0000_0000_0000 * 0x1_0000_0000) by (nonlinear_arith)
            requires
                0 <= timeout <= u64::MAX,
                0 <= updates <= u32::MAX,
        ;
        let product = (timeout as u128) * (updates as u128);
        (elapsed as u128) > (timeout as u128) + product / 100
    }

    /// Takes a further measurement into the roundtrip estimate and says
    /// how long to wait without progress from now on.
    pub fn update_roundtrip(roundtrip: &mut u64, elapsed: u64) -> (timeout: u64)
        ensures
            *final(roundtrip) == averaged(*old(roundtrip), elapsed),
            timeout == timeout_for(Some(*final(roundtrip))),
    {
        *roundtrip = if *roundtrip == 0 {
            elapsed
        } else {
            (((*roundtrip as u128) + (elapsed as u128)) / 2) as u64
        };
        Self::calc_timeout(Some(*roundtrip))
    }
}

// ---------------------------------------------------------------------
// Laws of the registry
// ---------------------------------------------------------------------

/// A packet touches no identifier but its own, and adds an entry only
/// under an identifier that had none: no identifier ever has two.
pub proof fn dispatch_is_local(
    transfers: Map<Seq<u8>, TransferView>,
    packet: RldpMessagePart,
    opened: int,
    other: Seq<u8>,
)
    requires
        other != packet_id(packet),
    ensures
        dispatched(transfers, packet, opened).transfers.contains_key(other) == transfers.contains_key(other),
        transfers.contains_key(other) ==> dispatched(transfers, packet, opened).transfers[other]
            == transfers[other],
        dispatched(transfers, packet, opened).transfers.dom() =~= transfers.dom() || (!transfers.contains_key(
            packet_id(packet),
        ) && dispatched(transfers, packet, opened).transfers.dom() =~= transfers.dom().insert(
            packet_id(packet),
        )),
{
}

/// The bytes of the transfer identifier that a packet names.
pub open spec fn packet_id(packet: RldpMessagePart) -> Seq<u8> {
    match packet {
        RldpMessagePart::MessagePart(message) => message.transfer_id@,
        RldpMessagePart::Confirm(confirm) => confirm.transfer_id@,
        RldpMessagePart::Complete(complete) => complete.transfer_id@,
    }
}

/// A packet never turns a receive transfer, or one that is over, into
/// anything else; where a transfer is over, a late packet for it is
/// answered and opens nothing.
pub proof fn dispatch_keeps_kinds(
    transfers: Map<Seq<u8>, TransferView>,
    packet: RldpMessagePart,
    opened: int,
)
    requires
        transfers.contains_key(packet_id(packet)),
    ensures
        dispatched(transfers, packet, opened).transfers.contains_key(packet_id(packet)),
        transfers[packet_id(packet)] is Recv ==> dispatched(transfers, packet, opened).transfers[packet_id(
            packet,
        )] is Recv,
        transfers[packet_id(packet)] is Done ==> dispatched(transfers, packet, opened).transfers
            == transfers,
        transfers[packet_id(packet)] is Recv ==> dispatched(
            transfers,
            packet,
            opened,
        ).transfers[packet_id(packet)]->Recv_0.queue == transfers[packet_id(packet)]->Recv_0.queue,
        transfers[packet_id(packet)] is Send ==> dispatched(transfers, packet, opened).transfers[packet_id(
            packet,
        )] is Send,
        packet is MessagePart && !(transfers[packet_id(packet)] is Recv) ==> dispatched(
            transfers,
            packet,
            opened,
        ).action is Closed,
{
}

/// A `Confirm` or `Complete` that is dispatched twice leaves the registry
/// as it was after the first time.
pub proof fn dispatch_twice(
    transfers: Map<Seq<u8>, TransferView>,
    packet: RldpMessagePart,
    opened: int,
)
    requires
        !(packet is MessagePart),
    ensures
        dispatched(dispatched(transfers, packet, opened).transfers, packet, opened).transfers =~= dispatched(
            transfers,
            packet,
            opened,
        ).transfers,
{
    let id = packet_id(packet);
    if transfers.contains_key(id) && transfers[id] is Send {
        let m = transfers[id]->Send_0;
        match packet {
            RldpMessagePart::Complete(complete) => {
                crate::send::duplicate_complete(m, complete.part);
            },
            RldpMessagePart::Confirm(confirm) => {
                crate::send::duplicate_confirm(m, confirm.part, confirm.seqno);
            },
            RldpMessagePart::MessagePart(_) => {},
        }
    }
}

/// Every send transfer in the registry has confirmed no more than it
/// has sent, and dispatching a packet keeps it so.
pub proof fn dispatch_keeps_step(
    transfers: Map<Seq<u8>, TransferView>,
    packet: RldpMessagePart,
    opened: int,
)
    requires
        forall|id: Seq<u8>| #[trigger]
            transfers.contains_key(id) && transfers[id] is Send ==> in_step(transfers[id]->Send_0),
    ensures
        forall|id: Seq<u8>| #[trigger]
            dispatched(transfers, packet, opened).transfers.contains_key(id) && dispatched(
                transfers,
                packet,
                opened,
            ).transfers[id] is Send ==> in_step(dispatched(transfers, packet, opened).transfers[id]->Send_0),
{
    let post = dispatched(transfers, packet, opened).transfers;
    assert forall|id: Seq<u8>| #[trigger] post.contains_key(id) && post[id] is Send implies in_step(
        post[id]->Send_0,
    ) by {
        if transfers.contains_key(id) && transfers[id] is Send {
            let m = transfers[id]->Send_0;
            crate::send::stays_in_step(m, 0, 0);
            match packet {
                RldpMessagePart::Complete(complete) => {
                    crate::send::stays_in_step(m, complete.part, 0);
                },
                RldpMessagePart::Confirm(confirm) => {
                    crate::send::stays_in_step(m, confirm.part, confirm.seqno);
                },
                RldpMessagePart::MessagePart(_) => {},
            }
        }
    }
}

/// A packet for a receive transfer is handed to the queue of that
/// transfer, after all that were handed to it before, and to no other;
/// a packet that opens a receive transfer is the first in the queue whose
/// reading end the caller gets.
pub proof fn dispatch_hands_to_queue(
    transfers: Map<Seq<u8>, TransferView>,
    message: MessagePart,
    opened: int,
)
    ensures
        ({
            let id = message.transfer_id@;
            let after = dispatched(transfers, RldpMessagePart::MessagePart(message), opened);
            &&& transfers.contains_key(id) && transfers[id] is Recv ==> after.action
                == DispatchView::Queued && after.transfers[id] == TransferView::Recv(
                QueueModel {
                    queue: transfers[id]->Recv_0.queue,
                    handed: transfers[id]->Recv_0.handed.push(message),
                },
            )
            &&& !transfers.contains_key(id) ==> after.action == DispatchView::Opened(opened)
                && after.transfers[id] == TransferView::Recv(
                QueueModel { queue: opened, handed: Seq::empty().push(message) },
            )
        }),
{
}

} // verus!
