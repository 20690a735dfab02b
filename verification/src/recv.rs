//! The receiving end of one transfer: symbols in, message out.

use vstd::prelude::*;
use crate::codec::{bytes_of, RaptorqDecoder, SYMBOL_ID_LIMIT};
use crate::config::CONFIRM_EVERY;
use crate::envelope::{Complete, Confirm, FecParams, FecType, MessagePart, RldpMessagePart, TransferId};
use crate::error::RldpError;

verus! {

/// What is known of the decoder of the slice in progress.
pub struct DecoderModel {
    pub params: FecParams,
    /// Symbols fed so far, oldest first.
    pub fed: Seq<(u32, Seq<u8>)>,
    /// Identifier of the symbol fed last.
    pub seqno: u32,
}

/// A receive transfer as a mathematical value.
#[verifier::ext_equal]
pub struct RecvModel {
    pub transfer_id: TransferId,
    /// The message as far as it has been rebuilt.
    pub data: Seq<u8>,
    /// The slices rebuilt so far, in the order in which they came.
    pub slices: Seq<Seq<u8>>,
    /// Length of the whole message, known from the first packet on.
    pub total_size: Option<u64>,
    /// Index of the slice that is being rebuilt.
    pub part: u32,
    /// Symbols accepted since the last `Confirm` or slice.
    pub confirm_count: nat,
    pub decoder: Option<DecoderModel>,
    /// Counter that tells a watcher that packets are still coming.
    pub updates: u32,
}

/// A state together with what is sent back.
pub struct RecvStep {
    pub post: RecvModel,
    pub reply: Result<Option<RldpMessagePart>, RldpError>,
}

/// All slices laid end to end.
pub open spec fn concat(slices: Seq<Seq<u8>>) -> Seq<u8>
    decreases slices.len(),
{
    if slices.len() == 0 {
        Seq::empty()
    } else {
        concat(slices.drop_last()) + slices.last()
    }
}

/// Sum of the lengths of the slices.
pub open spec fn total_len(slices: Seq<Seq<u8>>) -> nat
    decreases slices.len(),
{
    if slices.len() == 0 {
        0
    } else {
        total_len(slices.drop_last()) + slices.last().len()
    }
}

/// The `Complete` envelope of a transfer for the slice `part`.
pub open spec fn complete_for(transfer_id: TransferId, part: u32) -> RldpMessagePart {
    RldpMessagePart::Complete(Complete { transfer_id, part })
}

/// The `Confirm` envelope of a transfer for the symbol `seqno` of `part`.
pub open spec fn confirm_for(transfer_id: TransferId, part: u32, seqno: u32) -> RldpMessagePart {
    RldpMessagePart::Confirm(Confirm { transfer_id, part, seqno })
}

/// What becomes of a transfer whose decoder has just rebuilt `slice`
/// from a symbol of the slice `part`. A slice that would overshoot the
/// announced length fails the transfer, and so does one after which no
/// further slice index exists. Otherwise the slice is appended and the
/// sender is told to move on; unless the message is now whole, the
/// decoder is dropped and the next slice begins.
pub open spec fn absorb(pre: RecvModel, part: u32, slice: Seq<u8>) -> RecvStep {
    let total = pre.total_size.unwrap();
    if pre.data.len() + slice.len() > total {
        RecvStep { post: pre, reply: Err(RldpError::TooBig) }
    } else if pre.data.len() + slice.len() == total {
        RecvStep {
            post: RecvModel { data: pre.data + slice, slices: pre.slices.push(slice), ..pre },
            reply: Ok(Some(complete_for(pre.transfer_id, part))),
        }
    } else if pre.part == u32::MAX {
        RecvStep { post: pre, reply: Err(RldpError::TooBig) }
    } else {
        RecvStep {
            post: RecvModel {
                data: pre.data + slice,
                slices: pre.slices.push(slice),
                decoder: None,
                part: (pre.part + 1) as u32,
                confirm_count: 0,
                ..pre
            },
            reply: Ok(Some(complete_for(pre.transfer_id, part))),
        }
    }
}

/// What becomes of a transfer that has taken a symbol of the slice
/// `part` without rebuilding it: every tenth such symbol is answered
/// with a `Confirm` that carries the identifier seen last.
pub open spec fn tick(pre: RecvModel, part: u32) -> RecvStep {
    if pre.confirm_count + 1 == CONFIRM_EVERY {
        RecvStep {
            post: RecvModel { confirm_count: 0, ..pre },
            reply: Ok(Some(confirm_for(pre.transfer_id, part, pre.decoder.unwrap().seqno))),
        }
    } else {
        RecvStep { post: RecvModel { confirm_count: pre.confirm_count + 1, ..pre }, reply: Ok(None) }
    }
}

/// What becomes of a transfer once the decoder has answered.
pub open spec fn settle(pre: RecvModel, part: u32, decoded: Option<Seq<u8>>) -> RecvStep {
    match decoded {
        Some(slice) => absorb(pre, part, slice),
        None => tick(pre, part),
    }
}

/// A symbol for the slice in progress. Parameters that differ from those
/// the slice began with, parameters no decoder exists for, and symbols the
/// decoder cannot take are rejected and leave the transfer as it is.
/// Otherwise the symbol goes into the decoder, which is made on the
/// slice's first symbol, and the decoder's answer is settled.
pub open spec fn feed(pre: RecvModel, params: FecParams, message: MessagePart) -> RecvStep {
    if pre.decoder is Some && pre.decoder.unwrap().params != params {
        RecvStep { post: pre, reply: Err(RldpError::ParamsMismatch) }
    } else if pre.decoder is None && !RaptorqDecoder::supports(params) {
        RecvStep { post: pre, reply: Err(RldpError::UnsupportedFecParams) }
    } else if !RaptorqDecoder::accepts(params, message.seqno, message.data@.len()) {
        RecvStep { post: pre, reply: Err(RldpError::InvalidSymbol) }
    } else {
        let fed = match pre.decoder {
            Some(decoder) => decoder.fed,
            None => Seq::empty(),
        }.push((message.seqno, message.data@));
        let decoder = DecoderModel { params, fed, seqno: message.seqno };
        settle(
            RecvModel { decoder: Some(decoder), ..pre },
            message.part,
            RaptorqDecoder::outcome(params, fed),
        )
    }
}

/// What one packet does to a receive transfer, and what is sent back.
///
/// A packet with another code than RaptorQ, or with another total size
/// than the first packet had, is rejected. The first packet fixes the
/// total size. A packet for a slice that is already rebuilt is answered
/// with `Complete` for that slice; one for a later slice is dropped; one
/// for the slice in progress is fed to the decoder.
pub open spec fn process(pre: RecvModel, message: MessagePart) -> RecvStep {
    match message.fec_type {
        FecType::RaptorQ(params) => {
            if pre.total_size is Some && pre.total_size != Some(message.total_size) {
                RecvStep { post: pre, reply: Err(RldpError::TotalSizeMismatch) }
            } else {
                let sized = RecvModel { total_size: Some(message.total_size), ..pre };
                if message.part < pre.part {
                    RecvStep {
                        post: sized,
                        reply: Ok(Some(complete_for(pre.transfer_id, message.part))),
                    }
                } else if message.part > pre.part {
                    RecvStep { post: sized, reply: Ok(None) }
                } else {
                    feed(sized, params, message)
                }
            }
        },
        _ => RecvStep { post: pre, reply: Err(RldpError::UnsupportedFecType) },
    }
}

/// The number of bytes that the slice of a packet has, as the packet's
/// parameters name it.
pub open spec fn slice_size(message: MessagePart) -> nat {
    match message.fec_type {
        FecType::RaptorQ(params) => params.data_size as nat,
        FecType::RoundRobin(params) => params.data_size as nat,
        FecType::Online(params) => params.data_size as nat,
    }
}

/// What holds of every receive transfer: the message is the slices laid
/// end to end and no longer than announced, nothing has arrived before a
/// length was announced, and every slice below the slice index has been
/// rebuilt.
pub open spec fn consistent(m: RecvModel) -> bool {
    &&& m.data == concat(m.slices)
    &&& m.total_size matches Some(total) ==> m.data.len() <= total
    &&& m.total_size is None ==> m.data.len() == 0 && m.decoder is None
    &&& m.part <= m.slices.len()
    &&& m.confirm_count < CONFIRM_EVERY
    &&& m.decoder matches Some(decoder) ==> RaptorqDecoder::supports(decoder.params)
}

/// Whether the whole message has been rebuilt.
pub open spec fn assembled(m: RecvModel) -> bool {
    m.total_size == Some(m.data.len() as u64)
}

/// Calls `Vec::try_reserve_exact`, which leaves the contents alone and
/// reports a failure instead of panicking; the report is not used.
#[verifier::external_body]
fn reserve_exactly(data: &mut Vec<u8>, additional: usize)
    ensures
        final(data)@ == old(data)@,
{
    let _ = data.try_reserve_exact(additional);
}

/// The counter by which a receive transfer shows that it is alive.
#[derive(Clone, Copy, Debug, PartialEq, Eq, Structural)]
pub struct RecvTransferState {
    updates: u32,
}

impl RecvTransferState {
    /// The counter's value.
    pub closed spec fn spec_updates(&self) -> u32 {
        self.updates
    }

    /// A counter at zero.
    pub fn new() -> (state: Self)
        ensures
            state.spec_updates() == 0,
    {
        Self { updates: 0 }
    }

    /// The counter's value.
    pub fn updates(&self) -> (updates: u32)
        ensures
            updates == self.spec_updates(),
    {
        self.updates
    }

    /// Counts one more packet; the counter wraps around at its end.
    pub fn set_updates(&mut self)
        ensures
            final(self).spec_updates() == if old(self).spec_updates() == u32::MAX {
                0
            } else {
                old(self).spec_updates() + 1
            },
    {
        self.updates = if self.updates == u32::MAX {
            0
        } else {
            self.updates + 1
        };
    }
}

/// The receiving end of one transfer.
pub struct RecvTransfer {
    transfer_id: TransferId,
    confirm_count: usize,
    data: Vec<u8>,
    decoder: Option<RaptorqDecoder>,
    part: u32,
    state: RecvTransferState,
    total_size: Option<u64>,
    slices: Ghost<Seq<Seq<u8>>>,
}

impl View for RecvTransfer {
    type V = RecvModel;

    closed spec fn view(&self) -> RecvModel {
        RecvModel {
            transfer_id: self.transfer_id,
            data: self.data@,
            slices: self.slices@,
            total_size: self.total_size,
            part: self.part,
            confirm_count: self.confirm_count as nat,
            decoder: match self.decoder {
                Some(decoder) => Some(
                    DecoderModel {
                        params: decoder.spec_params(),
                        fed: decoder.fed(),
                        seqno: decoder.spec_seqno(),
                    },
                ),
                None => None,
            },
            updates: self.state.spec_updates(),
        }
    }
}

impl RecvTransfer {
    /// The transfer's parts fit together.
    pub closed spec fn wf(&self) -> bool {
        &&& consistent(self@)
        &&& self.decoder matches Some(decoder) ==> decoder.wf()
    }

    /// A well-formed transfer is consistent.
    pub proof fn wf_is_consistent(&self)
        requires
            self.wf(),
        ensures
            consistent(self@),
    {
    }

    /// A transfer that has seen no packet yet.
    pub fn new(transfer_id: TransferId) -> (transfer: Self)
        ensures
            transfer.wf(),
            transfer@ == (RecvModel {
                transfer_id,
                data: Seq::empty(),
                slices: Seq::empty(),
                total_size: None,
                part: 0,
                confirm_count: 0,
                decoder: None,
                updates: 0,
            }),
    {
        Self {
            transfer_id,
            confirm_count: 0,
            data: Vec::new(),
            decoder: None,
            part: 0,
            state: RecvTransferState::new(),
            total_size: None,
            slices: Ghost(Seq::empty()),
        }
    }

    /// The `Complete` envelope of this transfer for the slice `part`.
    pub fn complete(&self, part: u32) -> (reply: RldpMessagePart)
        ensures
            reply == complete_for(self@.transfer_id, part),
    {
        RldpMessagePart::Complete(Complete { transfer_id: self.transfer_id, part })
    }

    /// The `Confirm` envelope of this transfer for a symbol of `part`.
    pub fn confirm(&self, part: u32, seqno: u32) -> (reply: RldpMessagePart)
        ensures
            reply == confirm_for(self@.transfer_id, part, seqno),
    {
        RldpMessagePart::Confirm(Confirm { transfer_id: self.transfer_id, part, seqno })
    }

    /// Takes one packet in and says what to send back, if anything.
    pub fn process_chunk(&mut self, message: MessagePart) -> (reply: Result<
        Option<RldpMessagePart>,
        RldpError,
    >)
        requires
            old(self).wf(),
        ensures
            final(self).wf(),
            final(self)@ == process(old(self)@, message).post,
            reply == process(old(self)@, message).reply,
            final(self)@.slices.len() > old(self)@.slices.len() ==> final(self)@.slices.last().len()
                == slice_size(message),
    {
        let params = match message.fec_type {
            FecType::RaptorQ(params) => params,
            _ => {
                return Err(RldpError::UnsupportedFecType);
            },
        };
        match self.total_size {
            Some(total_size) => {
                if total_size != message.total_size {
                    return Err(RldpError::TotalSizeMismatch);
                }
            },
            None => {
                self.total_size = Some(message.total_size);
                if message.total_size <= usize::MAX as u64 {
                    reserve_exactly(&mut self.data, message.total_size as usize);
                }
            },
        }
        if message.part < self.part {
            return Ok(Some(self.complete(message.part)));
        }
        if message.part > self.part {
            return Ok(None);
        }
        match &self.decoder {
            Some(decoder) => {
                if *decoder.params() != params {
                    return Err(RldpError::ParamsMismatch);
                }
            },
            None => {
                if !RaptorqDecoder::is_supported(&params) {
                    return Err(RldpError::UnsupportedFecParams);
                }
            },
        }
        if message.seqno >= SYMBOL_ID_LIMIT || message.data.len() as u64 != params.symbol_size as u64 {
            return Err(RldpError::InvalidSymbol);
        }
        let mut decoder = match self.decoder.take() {
            Some(decoder) => decoder,
            None => RaptorqDecoder::with_params(params),
        };
        let decoded = decoder.decode(message.seqno, message.data.as_slice());
        self.decoder = Some(decoder);
        self.apply_decoded(message.part, decoded)
    }

    /// Settles what the decoder answered to a symbol of the slice `part`:
    /// a rebuilt slice is appended, anything else is counted towards the
    /// next `Confirm`.
    pub fn apply_decoded(&mut self, part: u32, decoded: Option<Vec<u8>>) -> (reply: Result<
        Option<RldpMessagePart>,
        RldpError,
    >)
        requires
            old(self).wf(),
            old(self)@.total_size is Some,
            old(self)@.decoder is Some,
        ensures
            final(self).wf(),
            final(self)@ == settle(old(self)@, part, bytes_of(decoded)).post,
            reply == settle(old(self)@, part, bytes_of(decoded)).reply,
    {
        let total_size = match self.total_size {
            Some(total_size) => total_size,
            None => 0,
        };
        match decoded {
            Some(mut slice) => {
                let room = total_size - self.data.len() as u64;
                if slice.len() as u64 > room {
                    return Err(RldpError::TooBig);
                }
                let whole = slice.len() as u64 == room;
                if !whole && self.part == u32::MAX {
                    return Err(RldpError::TooBig);
                }
                proof {
                    let before = self.slices@;
                    let after = before.push(slice@);
                    assert(after.drop_last() =~= before);
                    self.slices@ = after;
                }
                self.data.append(&mut slice);
                if !whole {
                    self.decoder = None;
                    self.part += 1;
                    self.confirm_count = 0;
                }
                Ok(Some(self.complete(part)))
            },
            None => {
                if self.confirm_count + 1 == CONFIRM_EVERY {
                    let seqno = match &self.decoder {
                        Some(decoder) => decoder.seqno(),
                        None => 0,
                    };
                    self.confirm_count = 0;
                    Ok(Some(self.confirm(part, seqno)))
                } else {
                    self.confirm_count += 1;
                    Ok(None)
                }
            },
        }
    }

    /// Whether the whole message has been rebuilt.
    pub fn is_complete(&self) -> (done: bool)
        requires
            self.wf(),
        ensures
            done == assembled(self@),
    {
        match self.total_size {
            Some(total_size) => total_size == self.data.len() as u64,
            None => false,
        }
    }

    /// The message as far as it has been rebuilt.
    pub fn data(&self) -> (data: &Vec<u8>)
        ensures
            data@ == self@.data,
    {
        &self.data
    }

    /// Gives up the transfer for the bytes it has rebuilt.
    pub fn into_data(self) -> (data: Vec<u8>)
        ensures
            data@ == self@.data,
    {
        self.data
    }

    /// Length of the whole message, once a packet has announced it.
    pub fn total_size(&self) -> (total_size: Option<u64>)
        ensures
            total_size == self@.total_size,
    {
        self.total_size
    }

    /// Index of the slice that is being rebuilt.
    pub fn part(&self) -> (part: u32)
        ensures
            part == self@.part,
    {
        self.part
    }

    /// The liveness counter.
    pub fn updates(&self) -> (updates: u32)
        ensures
            updates == self@.updates,
    {
        self.state.updates()
    }

    /// Counts one more packet on the liveness counter.
    pub fn set_updates(&mut self)
        requires
            old(self).wf(),
        ensures
            final(self).wf(),
            final(self)@ == (RecvModel {
                updates: if old(self)@.updates == u32::MAX {
                    0
                } else {
                    (old(self)@.updates + 1) as u32
                },
                ..old(self)@
            }),
    {
        self.state.set_updates();
    }
}

/// The length of the slices laid end to end is the sum of their lengths.
pub proof fn concat_len(slices: Seq<Seq<u8>>)
    ensures
        concat(slices).len() == total_len(slices),
    decreases slices.len(),
{
    if slices.len() > 0 {
        concat_len(slices.drop_last());
    }
}

/// An assembled message is exactly as long as the first packet announced,
/// and that is the sum of the lengths of the slices that were rebuilt.
pub proof fn assembled_length(transfer: RecvTransfer)
    requires
        transfer.wf(),
        assembled(transfer@),
    ensures
        transfer@.total_size == Some(transfer@.data.len() as u64),
        transfer@.data.len() == total_len(transfer@.slices),
        transfer@.data == concat(transfer@.slices),
{
    concat_len(transfer@.slices);
}

/// The announced length is sticky, the slice index never falls, and the
/// message only grows at its end, whatever packet comes in.
pub proof fn process_is_monotone(pre: RecvModel, message: MessagePart)
    requires
        consistent(pre),
    ensures
        pre.total_size is Some ==> process(pre, message).post.total_size == pre.total_size,
        process(pre, message).post.part >= pre.part,
        process(pre, message).post.part <= pre.part + 1,
        process(pre, message).post.transfer_id == pre.transfer_id,
        pre.data.is_prefix_of(process(pre, message).post.data),
        pre.slices.is_prefix_of(process(pre, message).post.slices),
{
}

/// A `Complete` for a slice is only ever sent once that slice and all
/// before it have been rebuilt.
pub proof fn complete_means_rebuilt(pre: RecvModel, message: MessagePart, part: u32)
    requires
        consistent(pre),
        process(pre, message).reply == Ok::<Option<RldpMessagePart>, RldpError>(
            Some(complete_for(pre.transfer_id, part)),
        ),
    ensures
        part == message.part,
        process(pre, message).post.slices.len() > part,
{
}

/// The invariant of receive transfers survives every packet.
pub proof fn process_keeps_consistent(pre: RecvModel, message: MessagePart)
    requires
        consistent(pre),
    ensures
        consistent(process(pre, message).post),
{
    let post = process(pre, message).post;
    if post.slices != pre.slices {
        assert(post.slices.drop_last() =~= pre.slices);
    }
}

/// Whether symbols have come in rising order from zero without a gap:
/// the symbol that came as the `i`-th carries the identifier `i`.
pub open spec fn in_order(fed: Seq<(u32, Seq<u8>)>) -> bool {
    forall|i: int| 0 <= i < fed.len() ==> (#[trigger] fed[i]).0 == i
}

/// The symbols that the decoder of the slice in progress has seen.
pub open spec fn seen(m: RecvModel) -> Seq<(u32, Seq<u8>)> {
    match m.decoder {
        Some(decoder) => decoder.fed,
        None => Seq::empty(),
    }
}

/// A `Confirm` answers the packet that is the tenth since the last one,
/// and names that packet's slice and identifier; the decoder has seen the
/// symbol it names. Where the symbols of the slice have come in rising
/// order from zero without a gap, a `Confirm` for the identifier `n` says
/// that the `n + 1` symbols up to `n` have been seen.
pub proof fn confirm_names_seen_symbol(pre: RecvModel, message: MessagePart, part: u32, seqno: u32)
    requires
        consistent(pre),
        process(pre, message).reply == Ok::<Option<RldpMessagePart>, RldpError>(
            Some(confirm_for(pre.transfer_id, part, seqno)),
        ),
    ensures
        part == message.part,
        seqno == message.seqno,
        pre.confirm_count + 1 == CONFIRM_EVERY,
        seen(process(pre, message).post) == seen(pre).push((message.seqno, message.data@)),
        in_order(seen(pre)) && message.seqno == seen(pre).len() ==> in_order(
            seen(process(pre, message).post),
        ) && seen(process(pre, message).post).len() == seqno + 1,
{
}

} // verus!
