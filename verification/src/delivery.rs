//! What a receive transfer makes of a message whose packets arrive in the
//! order in which a sender first hands them out.
//!
//! Everything here is stated on the condition that the codec keeps its
//! promise: that a decoder which is fed the source symbols of a slice in
//! rising order rebuilds the slice with the last of them, and not before.
//! That promise is the `raptorq` crate's and is not proved in this crate.

use vstd::prelude::*;
use crate::codec::{params_for, source_symbol, symbols_in, RaptorqDecoder};
use crate::config::{CONFIRM_EVERY, SLICE};
use crate::envelope::{FecType, MessagePart, RldpMessagePart, TransferId};
use crate::error::RldpError;
use crate::query::fresh_recv;
use crate::recv::{assembled, complete_for, confirm_for, process, DecoderModel, RecvModel};
use crate::send::{
    chunked, coherent, envelope, has_slice, slice_of, EncoderModel, SendModel, SendTransferModel,
};

verus! {

/// Number of source symbols of a slice of full length.
pub open spec fn slice_symbols() -> nat {
    symbols_in(SLICE as nat)
}

/// Message lengths whose slices can all be numbered.
pub open spec fn sendable(len: nat) -> bool {
    1 <= len <= 0x1_0000_0000 * SLICE
}

/// The first `count` source symbols of a slice, each with its identifier,
/// in rising order.
pub open spec fn source_feed(source: Seq<u8>, count: nat) -> Seq<(u32, Seq<u8>)> {
    Seq::new(count, |i: int| (i as u32, source_symbol(source, i)))
}

/// The codec's promise for one slice: fed its source symbols in rising
/// order, a decoder rebuilds the slice with the last of them and with
/// none before.
pub open spec fn rebuilds(source: Seq<u8>) -> bool {
    forall|count: nat|
        1 <= count <= symbols_in(source.len()) ==> #[trigger] RaptorqDecoder::outcome(
            params_for(source.len()),
            source_feed(source, count),
        ) == if count == symbols_in(source.len()) {
            Some(source)
        } else {
            None
        }
}

/// The codec's promise for every slice of a message.
pub open spec fn codec_rebuilds(data: Seq<u8>) -> bool {
    forall|part: nat| has_slice(data.len(), part) ==> rebuilds(#[trigger] slice_of(data, part))
}

/// Whether `message` is the packet with the source symbol `index` of the
/// slice `part` of the message `data`.
pub open spec fn carries(message: MessagePart, data: Seq<u8>, part: nat, index: nat) -> bool {
    let source = slice_of(data, part);
    &&& message.fec_type == FecType::RaptorQ(params_for(source.len()))
    &&& message.part == part
    &&& message.total_size == data.len()
    &&& message.seqno == index
    &&& message.data@ == source_symbol(source, index as int)
}

/// The first `len` bytes of a message, or all of it where it is shorter.
pub open spec fn head(data: Seq<u8>, len: int) -> Seq<u8> {
    if 0 <= len < data.len() {
        data.subrange(0, len)
    } else {
        data
    }
}

/// The first `count` slices of a message.
pub open spec fn slices_of(data: Seq<u8>, count: nat) -> Seq<Seq<u8>> {
    Seq::new(count, |p: int| slice_of(data, p as nat))
}

/// A receive transfer that has rebuilt the first `part` slices of the
/// message `data` and has taken `count` source symbols of the next one,
/// fewer than that slice has.
pub open spec fn delivered(transfer_id: TransferId, data: Seq<u8>, part: nat, count: nat) -> RecvModel {
    let source = slice_of(data, part);
    RecvModel {
        transfer_id,
        data: head(data, part * SLICE),
        slices: slices_of(data, part),
        total_size: if part == 0 && count == 0 {
            None
        } else {
            Some(data.len() as u64)
        },
        part: part as u32,
        confirm_count: count % (CONFIRM_EVERY as nat),
        decoder: if count == 0 {
            None
        } else {
            Some(
                DecoderModel {
                    params: params_for(source.len()),
                    fed: source_feed(source, count),
                    seqno: (count - 1) as u32,
                },
            )
        },
        updates: 0,
    }
}

/// Index of the last slice of a message of `len` bytes.
pub open spec fn last_part(len: nat) -> nat {
    ((len - 1) / (SLICE as int)) as nat
}

/// A receive transfer that has rebuilt the whole message `data`.
pub open spec fn arrived(transfer_id: TransferId, data: Seq<u8>) -> RecvModel {
    let part = last_part(data.len());
    let source = slice_of(data, part);
    let count = symbols_in(source.len());
    RecvModel {
        transfer_id,
        data,
        slices: slices_of(data, part + 1),
        total_size: Some(data.len() as u64),
        part: part as u32,
        confirm_count: ((count - 1) % (CONFIRM_EVERY as int)) as nat,
        decoder: Some(
            DecoderModel {
                params: params_for(source.len()),
                fed: source_feed(source, count),
                seqno: (count - 1) as u32,
            },
        ),
        updates: 0,
    }
}

/// What is sent back for the source symbol `index` of the slice `part`
/// when the packets arrive in order: a `Complete` for the last symbol of
/// the slice, a `Confirm` for every tenth symbol before it, else nothing.
pub open spec fn answered(transfer_id: TransferId, data: Seq<u8>, part: nat, index: nat) -> Option<
    RldpMessagePart,
> {
    if index + 1 == symbols_in(slice_of(data, part).len()) {
        Some(complete_for(transfer_id, part as u32))
    } else if (index + 1) % (CONFIRM_EVERY as nat) == 0 {
        Some(confirm_for(transfer_id, part as u32, index as u32))
    } else {
        None
    }
}

/// The receive transfer after the packet with the source symbol `index`
/// of the slice `part`, when the packets arrive in order.
pub open spec fn next_delivered(transfer_id: TransferId, data: Seq<u8>, part: nat, index: nat) -> RecvModel {
    if index + 1 < symbols_in(slice_of(data, part).len()) {
        delivered(transfer_id, data, part, index + 1)
    } else if has_slice(data.len(), part + 1) {
        delivered(transfer_id, data, part + 1, 0)
    } else {
        arrived(transfer_id, data)
    }
}

/// A slice of a message that has one is neither empty nor longer than
/// `SLICE`; it is of full length where another slice follows; and the
/// slices up to and with it make up the head of the message.
pub proof fn slice_facts(data: Seq<u8>, part: nat)
    requires
        has_slice(data.len(), part),
    ensures
        1 <= slice_of(data, part).len() <= SLICE,
        1 <= symbols_in(slice_of(data, part).len()) <= slice_symbols(),
        slice_symbols() == 2605,
        has_slice(data.len(), part + 1) ==> slice_of(data, part).len() == SLICE,
        head(data, part * SLICE) + slice_of(data, part) == head(data, (part + 1) * SLICE),
        slices_of(data, part).push(slice_of(data, part)) == slices_of(data, part + 1),
        !has_slice(data.len(), part + 1) <==> part == last_part(data.len()),
        part <= last_part(data.len()),
        RaptorqDecoder::supports(params_for(slice_of(data, part).len())),
{
    let len = data.len();
    let last = last_part(len);
    assert(last * SLICE <= len - 1 < last * SLICE + SLICE) by (nonlinear_arith)
        requires
            last == (len - 1) / (SLICE as int),
            SLICE == 2000000,
            len >= 1,
    ;
    if part > last {
        assert(part * SLICE >= (last + 1) * SLICE) by (nonlinear_arith)
            requires
                part >= last + 1,
        ;
    }
    if part < last {
        assert((part + 1) * SLICE <= last * SLICE) by (nonlinear_arith)
            requires
                part + 1 <= last,
        ;
    }
}

/// One packet in order: the receive transfer that has taken everything
/// before the source symbol `index` of the slice `part` takes that symbol
/// and is then where everything up to and with that symbol leaves it.
pub proof fn in_order_step(
    transfer_id: TransferId,
    data: Seq<u8>,
    part: nat,
    index: nat,
    message: MessagePart,
)
    requires
        sendable(data.len()),
        codec_rebuilds(data),
        has_slice(data.len(), part),
        index < symbols_in(slice_of(data, part).len()),
        carries(message, data, part, index),
    ensures
        process(delivered(transfer_id, data, part, index), message).post == next_delivered(
            transfer_id,
            data,
            part,
            index,
        ),
        process(delivered(transfer_id, data, part, index), message).reply == Ok::<
            Option<RldpMessagePart>,
            RldpError,
        >(answered(transfer_id, data, part, index)),
{
    let len = data.len();
    let source = slice_of(data, part);
    let count = symbols_in(source.len());
    slice_facts(data, part);
    assert(part < 0x1_0000_0000) by (nonlinear_arith)
        requires
            part * SLICE < len,
            len <= 0x1_0000_0000 * SLICE,
            SLICE == 2000000,
    ;
    // The symbols fed so far, and the one that comes now, are the first
    // `index + 1` source symbols of the slice.
    let fed = source_feed(source, index + 1);
    assert(fed =~= (if index == 0 {
        Seq::<(u32, Seq<u8>)>::empty()
    } else {
        source_feed(source, index)
    }).push((message.seqno, message.data@)));
    assert(RaptorqDecoder::outcome(params_for(source.len()), fed) == if index + 1 == count {
        Some(source)
    } else {
        None::<Seq<u8>>
    });
    if index + 1 == count && has_slice(len, part + 1) {
        assert(((part + 1) as nat) * SLICE <= len) by (nonlinear_arith)
            requires
                (part + 1) * SLICE < len,
        ;
    }
}

/// Packets played to a receive transfer one after the other.
pub open spec fn replay(pre: RecvModel, packets: Seq<MessagePart>) -> RecvModel
    decreases packets.len(),
{
    if packets.len() == 0 {
        pre
    } else {
        process(replay(pre, packets.drop_last()), packets.last()).post
    }
}

/// Where the packet with the source symbol `index` of the slice `part`
/// stands among the packets of a message.
pub open spec fn position(part: nat, index: nat) -> int {
    (part * slice_symbols() + index) as int
}

/// Number of source symbols of a whole message.
pub open spec fn symbols_of(data: Seq<u8>) -> nat {
    let part = last_part(data.len());
    part * slice_symbols() + symbols_in(slice_of(data, part).len())
}

/// Whether `packets` are the source symbols of the message `data`, slice
/// by slice and each slice in rising order, as a sender hands them out
/// that is told of every rebuilt slice before it goes on.
pub open spec fn in_order(packets: Seq<MessagePart>, data: Seq<u8>) -> bool {
    &&& packets.len() == symbols_of(data)
    &&& forall|part: nat, index: nat|
        has_slice(data.len(), part) && index < symbols_in(slice_of(data, part).len()) ==> carries(
            #[trigger] packets[position(part, index)],
            data,
            part,
            index,
        )
}

/// Playing one packet more is processing it after the others.
pub proof fn replay_one_more(pre: RecvModel, packets: Seq<MessagePart>, count: int)
    requires
        0 <= count < packets.len(),
    ensures
        replay(pre, packets.take(count + 1)) == process(
            replay(pre, packets.take(count)),
            packets[count],
        ).post,
{
    let longer = packets.take(count + 1);
    assert(longer.drop_last() =~= packets.take(count));
    assert(longer.last() == packets[count]);
}

/// The packets of a message stand slice by slice: the place after the
/// last symbol of a slice of full length is the first place of the next
/// slice, and every place lies within the packets.
pub proof fn position_facts(data: Seq<u8>, part: nat, index: nat)
    requires
        has_slice(data.len(), part),
        index < symbols_in(slice_of(data, part).len()),
    ensures
        slice_symbols() == 2605,
        position(part, index) == part * 2605 + index,
        0 <= position(part, index) < symbols_of(data),
        index > 0 ==> position(part, (index - 1) as nat) == position(part, index) - 1,
        index == 0 && part > 0 ==> position((part - 1) as nat, (slice_symbols() - 1) as nat)
            == position(part, index) - 1,
{
    slice_facts(data, part);
    let last = last_part(data.len());
    let symbols = slice_symbols();
    assert(part * symbols <= last * symbols) by (nonlinear_arith)
        requires
            part <= last,
    ;
    if part < last {
        assert(part * symbols + symbols <= last * symbols) by (nonlinear_arith)
            requires
                part + 1 <= last,
        ;
    }
    if part > 0 {
        assert((part - 1) * symbols + symbols == part * symbols) by (nonlinear_arith);
    }
}

/// What the packets before the source symbol `index` of the slice `part`
/// leave behind.
pub proof fn in_order_prefix(
    transfer_id: TransferId,
    data: Seq<u8>,
    packets: Seq<MessagePart>,
    part: nat,
    index: nat,
)
    requires
        sendable(data.len()),
        codec_rebuilds(data),
        in_order(packets, data),
        has_slice(data.len(), part),
        index < symbols_in(slice_of(data, part).len()),
    ensures
        0 <= position(part, index) < packets.len(),
        replay(fresh_recv(transfer_id), packets.take(position(part, index))) == delivered(
            transfer_id,
            data,
            part,
            index,
        ),
    decreases part, index,
{
    let at = position(part, index);
    let fresh = fresh_recv(transfer_id);
    position_facts(data, part, index);
    if index > 0 {
        let earlier = (index - 1) as nat;
        in_order_prefix(transfer_id, data, packets, part, earlier);
        assert(carries(packets[position(part, earlier)], data, part, earlier));
        in_order_step(transfer_id, data, part, earlier, packets[at - 1]);
        replay_one_more(fresh, packets, at - 1);
    } else if part > 0 {
        let earlier = (part - 1) as nat;
        let final_index = (slice_symbols() - 1) as nat;
        assert(earlier * SLICE < data.len()) by (nonlinear_arith)
            requires
                part * SLICE < data.len(),
                earlier == part - 1,
        ;
        slice_facts(data, earlier);
        in_order_prefix(transfer_id, data, packets, earlier, final_index);
        assert(carries(packets[position(earlier, final_index)], data, earlier, final_index));
        in_order_step(transfer_id, data, earlier, final_index, packets[at - 1]);
        replay_one_more(fresh, packets, at - 1);
    } else {
        assert(packets.take(0).len() == 0);
        assert(fresh =~= delivered(transfer_id, data, 0, 0));
    }
}

/// A message whose source symbols arrive in order, none lost, is rebuilt
/// as it was sent, and the transfer then knows that it is whole: the
/// bytes and their number are the sender's.
pub proof fn in_order_delivery(transfer_id: TransferId, data: Seq<u8>, packets: Seq<MessagePart>)
    requires
        sendable(data.len()),
        codec_rebuilds(data),
        in_order(packets, data),
    ensures
        replay(fresh_recv(transfer_id), packets) == arrived(transfer_id, data),
        replay(fresh_recv(transfer_id), packets).data == data,
        assembled(replay(fresh_recv(transfer_id), packets)),
{
    let len = data.len();
    let part = last_part(len);
    assert(part * SLICE <= len - 1 < part * SLICE + SLICE) by (nonlinear_arith)
        requires
            part == (len - 1) / (SLICE as int),
            SLICE == 2000000,
            len >= 1,
    ;
    slice_facts(data, part);
    let index = (symbols_in(slice_of(data, part).len()) - 1) as nat;
    let at = position(part, index);
    position_facts(data, part, index);
    in_order_prefix(transfer_id, data, packets, part, index);
    assert(carries(packets[position(part, index)], data, part, index));
    in_order_step(transfer_id, data, part, index, packets[at]);
    replay_one_more(fresh_recv(transfer_id), packets, at);
    assert(packets.take(at + 1) =~= packets);
}

/// While source symbols of a slice remain, the packet that a sender hands
/// out is the one with the next source symbol of that slice, whatever
/// the shared state is, and the one after it is the next.
pub proof fn sender_hands_out_in_order(t: SendTransferModel, m: SendModel, packet: MessagePart)
    requires
        coherent(t),
        t.data.len() <= u64::MAX,
        t.encoder matches Some(encoder) && encoder.next_source < symbols_in(encoder.source.len()),
        chunked(t, m).symbol == Ok::<(u32, Seq<u8>), RldpError>((packet.seqno, packet.data@)),
        packet == envelope(t, packet.seqno, packet.data),
    ensures
        carries(packet, t.data, t.part as nat, t.encoder.unwrap().next_source),
        chunked(t, m).transfer.encoder == Some(
            EncoderModel {
                next_source: t.encoder.unwrap().next_source + 1,
                ..t.encoder.unwrap()
            },
        ),
        coherent(chunked(t, m).transfer),
{
    slice_facts(t.data, t.part as nat);
}

} // verus!
