//! The sending end of one transfer: message in, symbols out.

use vstd::prelude::*;
use vstd::slice::slice_subrange;
use crate::codec::{
    params_for, raptorq_repair, source_symbol, symbols_in, RaptorqEncoder, SYMBOL_ID_LIMIT,
};
use crate::config::{SLICE, SYMBOL, WINDOW};
use crate::envelope::{FecParams, FecType, MessagePart, TransferId};
use crate::error::RldpError;

verus! {

// ---------------------------------------------------------------------
// The state that sender and dispatcher share
// ---------------------------------------------------------------------

/// The shared state of a send transfer as a mathematical value.
pub struct SendModel {
    /// Index of the slice that is being sent.
    pub part: u32,
    /// Whether the peer has begun to reply.
    pub reply: bool,
    /// Identifier up to which symbols have gone out.
    pub seqno_sent: u32,
    /// Identifier up to which the peer has confirmed.
    pub seqno_recv: u32,
}

/// The peer never confirms what has not been sent.
pub open spec fn in_step(m: SendModel) -> bool {
    m.seqno_recv <= m.seqno_sent
}

/// The state after the peer has confirmed `seqno`: the confirmed
/// identifier rises to `seqno` unless that is beyond what was sent or
/// not above what is already confirmed.
pub open spec fn confirmed(m: SendModel, seqno: u32) -> SendModel {
    if m.seqno_sent >= seqno && m.seqno_recv < seqno {
        SendModel { seqno_recv: seqno, ..m }
    } else {
        m
    }
}

/// The state after symbols up to `seqno` have gone out: the sent
/// identifier rises to `seqno` unless it is there already.
pub open spec fn sent(m: SendModel, seqno: u32) -> SendModel {
    if m.seqno_sent < seqno {
        SendModel { seqno_sent: seqno, ..m }
    } else {
        m
    }
}

/// The state after the peer asked for the slice `part`: the slice index
/// moves to `part` from the one just below it, and from nowhere else.
pub open spec fn advanced(m: SendModel, part: u32) -> SendModel {
    if part > 0 && m.part == part - 1 {
        SendModel { part, ..m }
    } else {
        m
    }
}

/// The state after the peer has begun to reply.
pub open spec fn replied(m: SendModel) -> SendModel {
    SendModel { reply: true, ..m }
}

/// The state after a `Confirm` for `seqno` of the slice `part` came in:
/// it counts only for the slice that is being sent.
pub open spec fn after_confirm(m: SendModel, part: u32, seqno: u32) -> SendModel {
    if m.part == part {
        confirmed(m, seqno)
    } else {
        m
    }
}

/// The state after a `Complete` for the slice `part` came in: the sender
/// moves from `part` to the next slice, and a `Complete` for any other
/// slice changes nothing.
pub open spec fn after_complete(m: SendModel, part: u32) -> SendModel {
    if part < u32::MAX {
        advanced(m, (part + 1) as u32)
    } else {
        m
    }
}

/// The state after the symbol `actual` was made from the offer of
/// `m.seqno_sent`. Within the window the sent identifier moves past a
/// source symbol that carries the offered identifier, and up to any other
/// symbol's identifier; beyond the window nothing moves.
pub open spec fn after_chunk(m: SendModel, actual: u32) -> SendModel {
    if actual <= m.seqno_recv + WINDOW {
        if actual == m.seqno_sent {
            sent(m, (actual + 1) as u32)
        } else {
            sent(m, actual)
        }
    } else {
        m
    }
}

/// Whether a message of `len` bytes has been delivered: the peer has
/// begun to reply and no slice lies beyond the one being sent.
pub open spec fn finished(m: SendModel, len: nat) -> bool {
    m.reply && (m.part + 1) * SLICE >= len
}

/// The state that sender, receiver and dispatcher share.
#[derive(Clone, Copy, Debug)]
pub struct SendTransferState {
    part: u32,
    reply: bool,
    seqno_sent: u32,
    seqno_recv: u32,
}

impl View for SendTransferState {
    type V = SendModel;

    closed spec fn view(&self) -> SendModel {
        SendModel {
            part: self.part,
            reply: self.reply,
            seqno_sent: self.seqno_sent,
            seqno_recv: self.seqno_recv,
        }
    }
}

impl SendTransferState {
    #[verifier::type_invariant]
    spec fn inv(self) -> bool {
        self.seqno_recv <= self.seqno_sent
    }

    /// The state of a transfer that has not sent anything.
    pub fn new() -> (state: Self)
        ensures
            state@ == (SendModel { part: 0, reply: false, seqno_sent: 0, seqno_recv: 0 }),
            in_step(state@),
    {
        Self { part: 0, reply: false, seqno_sent: 0, seqno_recv: 0 }
    }

    /// Whether the peer has begun to reply.
    pub fn has_reply(&self) -> (reply: bool)
        ensures
            reply == self@.reply,
            in_step(self@),
    {
        proof {
            use_type_invariant(self);
        }
        self.reply
    }

    /// Index of the slice that is being sent.
    pub fn part(&self) -> (part: u32)
        ensures
            part == self@.part,
            in_step(self@),
    {
        proof {
            use_type_invariant(self);
        }
        self.part
    }

    /// Identifier up to which the peer has confirmed.
    pub fn seqno_recv(&self) -> (seqno: u32)
        ensures
            seqno == self@.seqno_recv,
            seqno <= self@.seqno_sent,
    {
        proof {
            use_type_invariant(self);
        }
        self.seqno_recv
    }

    /// Identifier up to which symbols have gone out.
    pub fn seqno_sent(&self) -> (seqno: u32)
        ensures
            seqno == self@.seqno_sent,
            seqno >= self@.seqno_recv,
    {
        proof {
            use_type_invariant(self);
        }
        self.seqno_sent
    }

    /// Moves the slice index to `part` if it stands just below it.
    pub fn set_part(&mut self, part: u32)
        ensures
            final(self)@ == advanced(old(self)@, part),
            in_step(final(self)@),
    {
        proof {
            use_type_invariant(&*self);
        }
        if part > 0 && self.part == part - 1 {
            self.part = part;
        }
    }

    /// Notes that the peer has begun to reply.
    pub fn set_reply(&mut self)
        ensures
            final(self)@ == replied(old(self)@),
            in_step(final(self)@),
    {
        proof {
            use_type_invariant(&*self);
        }
        self.reply = true;
    }

    /// Raises the confirmed identifier to `seqno`, never beyond the
    /// sent one and never downwards.
    pub fn set_seqno_recv(&mut self, seqno: u32)
        ensures
            final(self)@ == confirmed(old(self)@, seqno),
            in_step(final(self)@),
    {
        proof {
            use_type_invariant(&*self);
        }
        if self.seqno_sent >= seqno {
            if self.seqno_recv < seqno {
                self.seqno_recv = seqno;
            }
        }
    }

    /// Raises the sent identifier to `seqno`, never downwards.
    pub fn set_seqno_sent(&mut self, seqno: u32)
        ensures
            final(self)@ == sent(old(self)@, seqno),
            in_step(final(self)@),
    {
        proof {
            use_type_invariant(&*self);
        }
        if self.seqno_sent < seqno {
            self.seqno_sent = seqno;
        }
    }

    /// Takes in a `Confirm` for the symbol `seqno` of the slice `part`.
    pub fn on_confirm(&mut self, part: u32, seqno: u32)
        ensures
            final(self)@ == after_confirm(old(self)@, part, seqno),
            in_step(final(self)@),
    {
        if self.part() == part {
            self.set_seqno_recv(seqno);
        }
    }

    /// Takes in a `Complete` for the slice `part`.
    pub fn on_complete(&mut self, part: u32)
        ensures
            final(self)@ == after_complete(old(self)@, part),
            in_step(final(self)@),
    {
        proof {
            use_type_invariant(&*self);
        }
        if part < u32::MAX {
            self.set_part(part + 1);
        }
    }
}

// ---------------------------------------------------------------------
// The sender's own side
// ---------------------------------------------------------------------

/// What is known of the encoder of the slice that is being sent.
pub struct EncoderModel {
    /// The slice.
    pub source: Seq<u8>,
    /// Identifier of the next source symbol; the number of source symbols
    /// once all have gone out.
    pub next_source: nat,
}

/// The sender's side of a send transfer as a mathematical value.
#[verifier::ext_equal]
pub struct SendTransferModel {
    pub transfer_id: TransferId,
    /// The message.
    pub data: Seq<u8>,
    /// Index of the slice that the encoder was made for.
    pub part: u32,
    /// Parameters of that slice.
    pub params: FecParams,
    pub encoder: Option<EncoderModel>,
}

/// The bytes of the slice `part` of a message.
pub open spec fn slice_of(data: Seq<u8>, part: nat) -> Seq<u8> {
    let start = part * SLICE;
    let end = if data.len() - start < SLICE {
        data.len() as int
    } else {
        start + SLICE
    };
    data.subrange(start as int, end)
}

/// Whether the slice `part` of a message of `len` bytes holds anything.
pub open spec fn has_slice(len: nat, part: nat) -> bool {
    part * SLICE < len
}

/// The envelope under which the symbol `seqno` of the current slice
/// travels.
pub open spec fn envelope(m: SendTransferModel, seqno: u32, data: Vec<u8>) -> MessagePart {
    MessagePart {
        transfer_id: m.transfer_id,
        fec_type: FecType::RaptorQ(m.params),
        part: m.part,
        total_size: m.data.len() as u64,
        seqno,
        data,
    }
}

/// Calls `rand::Rng::gen` on the thread's generator for 32 bytes. Nothing
/// is promised of them.
#[verifier::external_body]
pub(crate) fn random_id() -> (id: TransferId) {
    rand::Rng::gen(&mut rand::thread_rng())
}

/// The sender's side of one transfer.
pub struct SendTransfer<'a> {
    transfer_id: TransferId,
    data: &'a [u8],
    encoder: Option<RaptorqEncoder>,
    part: u32,
    params: FecParams,
}

impl<'a> View for SendTransfer<'a> {
    type V = SendTransferModel;

    closed spec fn view(&self) -> SendTransferModel {
        SendTransferModel {
            transfer_id: self.transfer_id,
            data: self.data@,
            part: self.part,
            params: self.params,
            encoder: match self.encoder {
                Some(encoder) => Some(
                    EncoderModel { source: encoder.source(), next_source: encoder.next_source() },
                ),
                None => None,
            },
        }
    }
}

/// What holds of every send transfer: an encoder, where there is one, is
/// the one for the slice that the envelope names, and has not run past
/// that slice's source symbols.
pub open spec fn coherent(m: SendTransferModel) -> bool {
    m.encoder matches Some(encoder) ==> {
        &&& has_slice(m.data.len(), m.part as nat)
        &&& encoder.source == slice_of(m.data, m.part as nat)
        &&& encoder.next_source <= symbols_in(encoder.source.len())
        &&& m.params == params_for(encoder.source.len())
    }
}

/// What asking whether the slice `part` is done comes to.
pub open spec fn checked(m: SendModel, len: nat, part: u32) -> Result<bool, RldpError> {
    if finished(m, len) {
        Ok(true)
    } else if m.part == part {
        Ok(false)
    } else if m.part == part + 1 {
        Ok(true)
    } else {
        Err(RldpError::PartMismatch)
    }
}

/// A sender's side together with the number of source symbols of the
/// slice it has started.
pub struct Started {
    pub transfer: SendTransferModel,
    pub symbols: u32,
}

/// What starting the next slice comes to: nothing, with zero symbols,
/// when the shared slice index points past the end of the message; else
/// a fresh encoder over the slice that the index names.
pub open spec fn started(t: SendTransferModel, m: SendModel) -> Started {
    if !has_slice(t.data.len(), m.part as nat) {
        Started { transfer: t, symbols: 0 }
    } else {
        let source = slice_of(t.data, m.part as nat);
        Started {
            transfer: SendTransferModel {
                part: m.part,
                params: params_for(source.len()),
                encoder: Some(EncoderModel { source, next_source: 0 }),
                ..t
            },
            symbols: symbols_in(source.len()) as u32,
        }
    }
}

/// Both sides of a send transfer after a chunk was asked for, with the
/// identifier and the bytes of the symbol that goes out.
pub struct Chunked {
    pub transfer: SendTransferModel,
    pub state: SendModel,
    pub symbol: Result<(u32, Seq<u8>), RldpError>,
}

/// What asking for the next chunk comes to.
///
/// Without an encoder there is none. While source symbols remain, the
/// next one goes out under its own identifier. After that a repair
/// symbol goes out whose identifier follows from the sent identifier,
/// unless that identifier is no 24-bit number. The shared state moves
/// as `after_chunk` says, and not at all on an error.
pub open spec fn chunked(t: SendTransferModel, m: SendModel) -> Chunked {
    match t.encoder {
        None => Chunked { transfer: t, state: m, symbol: Err(RldpError::EncoderNotReady) },
        Some(encoder) => {
            let repair = RaptorqEncoder::repair_id(encoder.source, m.seqno_sent);
            if encoder.next_source < symbols_in(encoder.source.len()) {
                let seqno = encoder.next_source as u32;
                Chunked {
                    transfer: SendTransferModel {
                        encoder: Some(
                            EncoderModel { next_source: encoder.next_source + 1, ..encoder },
                        ),
                        ..t
                    },
                    state: after_chunk(m, seqno),
                    symbol: Ok((seqno, source_symbol(encoder.source, seqno as int))),
                }
            } else if repair >= SYMBOL_ID_LIMIT {
                Chunked { transfer: t, state: m, symbol: Err(RldpError::CannotEncodeRepair) }
            } else {
                Chunked {
                    transfer: t,
                    state: after_chunk(m, repair as u32),
                    symbol: Ok((repair as u32, raptorq_repair(encoder.source, repair as u32))),
                }
            }
        },
    }
}

/// The identifier and the bytes of the symbol in a packet.
pub open spec fn symbol_of(packet: Result<MessagePart, RldpError>) -> Result<
    (u32, Seq<u8>),
    RldpError,
> {
    match packet {
        Ok(message) => Ok((message.seqno, message.data@)),
        Err(e) => Err(e),
    }
}

impl<'a> SendTransfer<'a> {
    /// The transfer's parts fit together.
    pub closed spec fn wf(&self) -> bool {
        &&& coherent(self@)
        &&& self.encoder matches Some(encoder) ==> encoder.wf() && encoder.spec_params()
            == self.params
    }

    /// A well-formed transfer is coherent.
    pub proof fn wf_is_coherent(&self)
        requires
            self.wf(),
        ensures
            coherent(self@),
    {
    }

    /// A transfer for `data` under the given identifier, or under a
    /// random one where none is given. No slice is started yet.
    pub fn new(data: &'a [u8], transfer_id: Option<TransferId>) -> (transfer: Self)
        ensures
            transfer.wf(),
            transfer@.data == data@,
            transfer@.part == 0,
            transfer@.params == (FecParams {
                data_size: 0,
                symbol_size: SYMBOL as u32,
                symbols_count: 0,
            }),
            transfer@.encoder is None,
            transfer_id matches Some(id) ==> transfer@.transfer_id == id,
    {
        let transfer_id = match transfer_id {
            Some(id) => id,
            None => random_id(),
        };
        Self {
            transfer_id,
            data,
            encoder: None,
            part: 0,
            params: FecParams { data_size: 0, symbol_size: SYMBOL as u32, symbols_count: 0 },
        }
    }

    /// The identifier under which the transfer runs.
    pub fn transfer_id(&self) -> (id: TransferId)
        ensures
            id == self@.transfer_id,
    {
        self.transfer_id
    }

    /// Whether the message has been delivered.
    pub fn is_finished(&self, state: &SendTransferState) -> (done: bool)
        ensures
            done == finished(state@, self@.data.len()),
    {
        let part = state.part() as u64;
        assert((part + 1) * (SLICE as u64) <= 0x1_0000_0000 * 2000000) by (nonlinear_arith)
            requires
                part <= u32::MAX,
                SLICE == 2000000,
        ;
        state.has_reply() && (part + 1) * (SLICE as u64) >= self.data.len() as u64
    }

    /// Whether the sender is done with the slice `part`: because the
    /// message is delivered, or because the peer has moved it on to the
    /// next slice. A shared slice index that is neither `part` nor its
    /// successor is an inconsistency.
    pub fn is_finished_or_next_part(&self, state: &SendTransferState, part: u32) -> (done: Result<
        bool,
        RldpError,
    >)
        ensures
            done == checked(state@, self@.data.len(), part),
    {
        if self.is_finished(state) {
            Ok(true)
        } else {
            let current = state.part();
            if current == part {
                Ok(false)
            } else if current as u64 == part as u64 + 1 {
                Ok(true)
            } else {
                Err(RldpError::PartMismatch)
            }
        }
    }

    /// Starts the slice that the shared state points at and says how many
    /// source symbols it has. Says zero, and changes nothing, when the
    /// message has no such slice.
    pub fn start_next_part(&mut self, state: &SendTransferState) -> (symbols: u32)
        requires
            old(self).wf(),
        ensures
            final(self).wf(),
            final(self)@ == started(old(self)@, state@).transfer,
            symbols == started(old(self)@, state@).symbols,
            symbols == 0 <==> !has_slice(old(self)@.data.len(), state@.part as nat),
            symbols <= 2605,
    {
        let part = state.part();
        let total = self.data.len() as u64;
        assert((part as u64) * (SLICE as u64) <= 0x1_0000_0000 * 2000000) by (nonlinear_arith)
            requires
                part <= u32::MAX,
                SLICE == 2000000,
        ;
        let processed = (part as u64) * (SLICE as u64);
        if processed >= total {
            return 0;
        }
        let chunk_size = if total - processed < SLICE as u64 {
            total - processed
        } else {
            SLICE as u64
        };
        let start = processed as usize;
        let end = (processed + chunk_size) as usize;
        let encoder = RaptorqEncoder::with_data(slice_subrange(self.data, start, end));
        let symbols = encoder.params().symbols_count;
        self.part = part;
        self.params = *encoder.params();
        self.encoder = Some(encoder);
        symbols
    }

    /// The next packet of the slice in progress, and what sending it does
    /// to the shared state.
    ///
    /// The encoder is offered the sent identifier and answers with the
    /// symbol and the identifier it really carries. The packet names the
    /// transfer, the slice and its parameters, and the length of the whole
    /// message. The shared state moves as `after_chunk` says.
    pub fn prepare_chunk(&mut self, state: &mut SendTransferState) -> (packet: Result<
        MessagePart,
        RldpError,
    >)
        requires
            old(self).wf(),
        ensures
            final(self).wf(),
            final(self)@ == chunked(old(self)@, old(state)@).transfer,
            final(state)@ == chunked(old(self)@, old(state)@).state,
            symbol_of(packet) == chunked(old(self)@, old(state)@).symbol,
            packet matches Ok(message) ==> message == envelope(
                old(self)@,
                message.seqno,
                message.data,
            ) && message.data@.len() == SYMBOL,
            in_step(final(state)@),
    {
        let mut encoder = match self.encoder.take() {
            Some(encoder) => encoder,
            None => {
                proof {
                    use_type_invariant(&*state);
                }
                return Err(RldpError::EncoderNotReady);
            },
        };
        let mut seqno_sent = state.seqno_sent();
        let offered = seqno_sent;
        let encoded = encoder.encode(&mut seqno_sent);
        self.encoder = Some(encoder);
        let chunk = match encoded {
            Ok(chunk) => chunk,
            Err(e) => {
                return Err(e);
            },
        };
        let message = MessagePart {
            transfer_id: self.transfer_id,
            fec_type: FecType::RaptorQ(self.params),
            part: self.part,
            total_size: self.data.len() as u64,
            seqno: seqno_sent,
            data: chunk,
        };
        let seqno_recv = state.seqno_recv();
        if seqno_sent as u64 <= seqno_recv as u64 + WINDOW as u64 {
            if offered == seqno_sent {
                seqno_sent += 1;
            }
            state.set_seqno_sent(seqno_sent);
        }
        Ok(message)
    }
}

// ---------------------------------------------------------------------
// Laws of the shared state
// ---------------------------------------------------------------------

/// Whatever happens to the shared state, the confirmed identifier stays
/// at or below the sent one.
pub proof fn stays_in_step(m: SendModel, part: u32, seqno: u32)
    requires
        in_step(m),
    ensures
        in_step(confirmed(m, seqno)),
        in_step(sent(m, seqno)),
        in_step(advanced(m, part)),
        in_step(replied(m)),
        in_step(after_confirm(m, part, seqno)),
        in_step(after_complete(m, part)),
        in_step(after_chunk(m, seqno)),
{
}

/// Nothing that happens to the shared state lowers the slice index or
/// either identifier.
pub proof fn never_falls(m: SendModel, part: u32, seqno: u32)
    ensures
        after_confirm(m, part, seqno).seqno_recv >= m.seqno_recv,
        after_confirm(m, part, seqno).seqno_sent == m.seqno_sent,
        after_confirm(m, part, seqno).part == m.part,
        after_complete(m, part).part >= m.part,
        after_complete(m, part).seqno_sent == m.seqno_sent,
        after_complete(m, part).seqno_recv == m.seqno_recv,
        after_chunk(m, seqno).seqno_sent >= m.seqno_sent,
        after_chunk(m, seqno).seqno_recv == m.seqno_recv,
        after_chunk(m, seqno).part == m.part,
{
}

/// A `Confirm` that comes a second time changes nothing, and a `Confirm`
/// never moves the confirmed identifier past the larger of its old value
/// and the one confirmed.
pub proof fn duplicate_confirm(m: SendModel, part: u32, seqno: u32)
    ensures
        after_confirm(after_confirm(m, part, seqno), part, seqno) == after_confirm(m, part, seqno),
        after_confirm(m, part, seqno).seqno_recv <= if m.seqno_recv >= seqno {
            m.seqno_recv
        } else {
            seqno
        },
{
}

/// A `Confirm` for a symbol at or below one already confirmed changes
/// nothing.
pub proof fn stale_confirm(m: SendModel, part: u32, seqno: u32)
    requires
        seqno <= m.seqno_recv,
    ensures
        after_confirm(m, part, seqno) == m,
{
}

/// A `Complete` that comes a second time changes nothing: however often
/// it is repeated, the slice index moves by one at most.
pub proof fn duplicate_complete(m: SendModel, part: u32)
    ensures
        after_complete(after_complete(m, part), part) == after_complete(m, part),
        after_complete(m, part).part <= m.part + 1,
        after_complete(m, part).part != m.part ==> m.part == part,
{
}

/// A message of exactly one slice length is sent as one slice of 2605
/// source symbols; one byte more makes a second slice of that one byte.
pub proof fn slice_boundaries(t: SendTransferModel, m: SendModel)
    ensures
        t.data.len() == SLICE && m.part == 0 ==> started(t, m).symbols == 2605,
        t.data.len() == SLICE && m.part == 1 ==> started(t, m).symbols == 0,
        t.data.len() == SLICE + 1 && m.part == 0 ==> started(t, m).symbols == 2605,
        t.data.len() == SLICE + 1 && m.part == 1 ==> started(t, m).symbols == 1 && started(
            t,
            m,
        ).transfer.params == (FecParams {
            data_size: 1,
            symbol_size: SYMBOL as u32,
            symbols_count: 1,
        }),
        t.data.len() == SLICE + 1 && m.part == 2 ==> started(t, m).symbols == 0,
{
}

/// Every packet of a send transfer names the slice that its encoder was
/// made for and the length of the whole message.
pub proof fn packet_names_slice_and_length(t: SendTransferModel, m: SendModel, seqno: u32, data: Vec<u8>)
    ensures
        envelope(t, seqno, data).part == t.part,
        envelope(t, seqno, data).total_size == t.data.len() as u64,
        envelope(t, seqno, data).transfer_id == t.transfer_id,
        started(t, m).symbols != 0 ==> started(t, m).transfer.part == m.part,
        started(t, m).transfer.data == t.data,
        chunked(t, m).transfer.part == t.part,
        chunked(t, m).transfer.data == t.data,
{
}

} // verus!
