//! The fountain code: symbols out of a slice, and a slice out of symbols.
//!
//! The RaptorQ arithmetic is the `raptorq` crate's. This module fixes the
//! domain on which the crate is called, names what it returns, and builds
//! the symbol-by-symbol encoder and decoder of the protocol on top.

use vstd::prelude::*;
use crate::config::{SLICE, SYMBOL};
use crate::envelope::FecParams;
use crate::error::RldpError;

verus! {

/// Symbol identifiers are 24-bit numbers: every identifier is below this.
pub const SYMBOL_ID_LIMIT: u32 = 16777216;

/// Number of the one block in which a slice is encoded.
pub const ONLY_BLOCK: u8 = 0;

/// Most source symbols that one RaptorQ block can hold.
pub const MAX_BLOCK_SYMBOLS: u32 = 56403;

/// One encoded symbol with the identifier under which it travels.
#[derive(Clone, Debug, PartialEq, Eq)]
pub struct EncodedSymbol {
    pub seqno: u32,
    pub data: Vec<u8>,
}

// ---------------------------------------------------------------------
// What is taken on trust from the `raptorq` crate
// ---------------------------------------------------------------------

#[verifier::external_type_specification]
#[verifier::external_body]
pub struct ExDecoder(raptorq::Decoder);

#[verifier::external_type_specification]
#[verifier::external_body]
pub struct ExEncoder(raptorq::Encoder);

/// The symbols a decoder has been handed so far, oldest first, each as its
/// identifier and its bytes.
pub uninterp spec fn decoder_fed(engine: raptorq::Decoder) -> Seq<(u32, Seq<u8>)>;

/// The slice length and the symbol size a decoder was made for.
pub uninterp spec fn decoder_shape(engine: raptorq::Decoder) -> (u64, u16);

/// What `raptorq::Decoder::decode` hands back from a decoder for
/// `data_size` bytes in symbols of `symbol_size` bytes, once the symbols
/// `fed` have gone into it in that order.
pub uninterp spec fn raptorq_decoded(data_size: u64, symbol_size: u16, fed: Seq<(u32, Seq<u8>)>) -> Option<Seq<u8>>;

/// The bytes an encoder was built over.
pub uninterp spec fn encoder_source(engine: raptorq::Encoder) -> Seq<u8>;

/// The padded symbol count that RaptorQ pairs with a block of `symbols`
/// source symbols.
pub uninterp spec fn raptorq_extended(symbols: u32) -> u32;

/// The bytes of the repair symbol with identifier `symbol_id` for the
/// slice `source`.
pub uninterp spec fn raptorq_repair(source: Seq<u8>, symbol_id: u32) -> Seq<u8>;

/// Slice lengths and symbol sizes for which a decoder can be built: one
/// block of symbols whose size the codec does not round.
pub open spec fn decodable(data_size: u64, symbol_size: u16) -> bool {
    &&& 1 <= symbol_size
    &&& symbol_size < 64 || symbol_size % 8 == 0
    &&& 1 <= data_size
    &&& data_size <= symbol_size * MAX_BLOCK_SYMBOLS
}

/// Slice lengths the encoder is built for.
pub open spec fn encodable(len: nat) -> bool {
    1 <= len <= SLICE
}

/// Number of symbols that `len` bytes fill, the last one padded.
pub open spec fn symbols_in(len: nat) -> nat {
    ((len + SYMBOL - 1) / (SYMBOL as int)) as nat
}

/// The `index`-th source symbol of `source`: its bytes from
/// `index * SYMBOL` on, with zeros after the end of the slice.
pub open spec fn source_symbol(source: Seq<u8>, index: int) -> Seq<u8> {
    Seq::new(
        SYMBOL as nat,
        |j: int|
            if index * SYMBOL + j < source.len() {
                source[index * SYMBOL + j]
            } else {
                0u8
            },
    )
}

/// Calls `raptorq::Decoder::new` on the default transmission parameters
/// for `data_size` and `symbol_size`. On the `decodable` domain the crate
/// lays the slice out as a single block and neither call panics; the
/// decoder starts with nothing fed.
#[verifier::external_body]
fn decoder_new(data_size: u64, symbol_size: u16) -> (engine: raptorq::Decoder)
    requires
        decodable(data_size, symbol_size),
    ensures
        decoder_fed(engine) == Seq::<(u32, Seq<u8>)>::empty(),
        decoder_shape(engine) == (data_size, symbol_size),
{
    raptorq::Decoder::new(
        raptorq::ObjectTransmissionInformation::with_defaults(data_size, symbol_size),
    )
}

/// Calls `raptorq::Decoder::decode` with one symbol of the block `block`.
/// A decoder for one block has the block zero only, and the crate indexes
/// by the block number; it panics on an identifier of 24 bits or more and
/// may panic on a symbol of another length than the decoder's; so all
/// three are required. The result is the named one; when it is a slice,
/// the crate has cut it to the length the decoder was made for.
#[verifier::external_body]
fn decoder_feed(engine: &mut raptorq::Decoder, block: u8, seqno: u32, data: &[u8]) -> (out: Option<
    Vec<u8>,
>)
    requires
        decodable(decoder_shape(*old(engine)).0, decoder_shape(*old(engine)).1),
        block == ONLY_BLOCK,
        seqno < SYMBOL_ID_LIMIT,
        data@.len() == decoder_shape(*old(engine)).1,
    ensures
        decoder_shape(*final(engine)) == decoder_shape(*old(engine)),
        decoder_fed(*final(engine)) == decoder_fed(*old(engine)).push((seqno, data@)),
        bytes_of(out) == raptorq_decoded(
            decoder_shape(*old(engine)).0,
            decoder_shape(*old(engine)).1,
            decoder_fed(*final(engine)),
        ),
        out matches Some(slice) ==> slice@.len() == decoder_shape(*old(engine)).0,
{
    engine.decode(raptorq::EncodingPacket::new(raptorq::PayloadId::new(block, seqno), data.to_vec()))
}

/// Calls `raptorq::Encoder::with_defaults` for symbols of `symbol_size`
/// bytes, which is the wire's symbol size. The crate divides by zero on an
/// empty slice; up to `SLICE` bytes in symbols of that size it builds one
/// block without sub-blocks.
#[verifier::external_body]
fn engine_new(data: &[u8], symbol_size: u16) -> (engine: raptorq::Encoder)
    requires
        encodable(data@.len()),
        symbol_size == SYMBOL,
    ensures
        encoder_source(engine) == data@,
{
    raptorq::Encoder::with_defaults(data, symbol_size)
}

/// Length of `raptorq::Encoder::get_block_encoders`: one block on the
/// `encodable` domain.
#[verifier::external_body]
fn engine_block_count(engine: &raptorq::Encoder) -> (count: usize)
    requires
        encodable(encoder_source(*engine).len()),
    ensures
        count == 1,
{
    engine.get_block_encoders().len()
}

/// Calls `raptorq::SourceBlockEncoder::source_packets` on the block
/// `block`. The crate numbers the source symbols from zero and each holds
/// the next `SYMBOL` bytes of the zero-padded slice.
#[verifier::external_body]
fn engine_source_symbols(engine: &raptorq::Encoder, block: usize) -> (symbols: Vec<EncodedSymbol>)
    requires
        encodable(encoder_source(*engine).len()),
        block == 0,
    ensures
        symbols@.len() == symbols_in(encoder_source(*engine).len()),
        forall|i: int|
            0 <= i < symbols@.len() ==> (#[trigger] symbols@[i]).seqno == i && symbols@[i].data@
                == source_symbol(encoder_source(*engine), i),
{
    engine.get_block_encoders()[block].source_packets().into_iter().map(
        |p| EncodedSymbol { seqno: p.payload_id().encoding_symbol_id(), data: p.data().to_vec() },
    ).collect()
}

/// Calls `raptorq::SourceBlockEncoder::repair_packets` for one packet on
/// the block `block`. The crate gives the packet the identifier `start`
/// plus the block's padded symbol count and panics where that is no
/// 24-bit number; the packet's bytes are the named ones, one symbol long.
#[verifier::external_body]
fn engine_repair_symbols(engine: &raptorq::Encoder, block: usize, start: u32) -> (repair: Vec<EncodedSymbol>)
    requires
        encodable(encoder_source(*engine).len()),
        block == 0,
        start + raptorq_extended(symbols_in(encoder_source(*engine).len()) as u32) < SYMBOL_ID_LIMIT,
    ensures
        repair@.len() == 1,
        repair@[0].seqno == start + raptorq_extended(
            symbols_in(encoder_source(*engine).len()) as u32,
        ),
        repair@[0].data@ == raptorq_repair(encoder_source(*engine), repair@[0].seqno),
        repair@[0].data@.len() == SYMBOL,
{
    engine.get_block_encoders()[block].repair_packets(start, 1).into_iter().map(
        |p| EncodedSymbol { seqno: p.payload_id().encoding_symbol_id(), data: p.data().to_vec() },
    ).collect()
}

/// Calls `raptorq::extended_source_block_symbols`: the first entry of the
/// RaptorQ table that is no smaller than `symbols`. The crate panics
/// above `MAX_BLOCK_SYMBOLS`, the table's last entry.
#[verifier::external_body]
fn padded_symbol_count(symbols: u32) -> (padded: u32)
    requires
        symbols <= MAX_BLOCK_SYMBOLS,
    ensures
        padded == raptorq_extended(symbols),
        symbols <= padded <= MAX_BLOCK_SYMBOLS,
{
    raptorq::extended_source_block_symbols(symbols)
}

/// The bytes of an optional buffer.
pub open spec fn bytes_of(out: Option<Vec<u8>>) -> Option<Seq<u8>> {
    match out {
        Some(bytes) => Some(bytes@),
        None => None,
    }
}

// ---------------------------------------------------------------------
// Decoder
// ---------------------------------------------------------------------

/// Rebuilds one slice from the symbols that arrive for it.
pub struct RaptorqDecoder {
    engine: raptorq::Decoder,
    params: FecParams,
    seqno: u32,
}

impl RaptorqDecoder {
    /// Parameters for which a decoder can be built.
    pub open spec fn supports(params: FecParams) -> bool {
        &&& params.symbol_size <= u16::MAX
        &&& decodable(params.data_size as u64, params.symbol_size as u16)
    }

    /// Symbols that a decoder for `params` can be fed.
    pub open spec fn accepts(params: FecParams, seqno: u32, len: nat) -> bool {
        seqno < SYMBOL_ID_LIMIT && len == params.symbol_size
    }

    /// The slice that comes out of a decoder for `params` after the
    /// symbols `fed`, if any does.
    pub open spec fn outcome(params: FecParams, fed: Seq<(u32, Seq<u8>)>) -> Option<Seq<u8>> {
        raptorq_decoded(params.data_size as u64, params.symbol_size as u16, fed)
    }

    /// The engine is the one that was made for the recorded parameters.
    pub closed spec fn wf(&self) -> bool {
        &&& Self::supports(self.params)
        &&& decoder_shape(self.engine) == (self.params.data_size as u64, self.params.symbol_size as u16)
    }

    /// The parameters the decoder was made with.
    pub closed spec fn spec_params(&self) -> FecParams {
        self.params
    }

    /// The symbols fed so far, oldest first.
    pub closed spec fn fed(&self) -> Seq<(u32, Seq<u8>)> {
        decoder_fed(self.engine)
    }

    /// Identifier of the symbol fed last; zero before the first.
    pub closed spec fn spec_seqno(&self) -> u32 {
        self.seqno
    }

    /// Whether a decoder can be built for `params`.
    pub fn is_supported(params: &FecParams) -> (ok: bool)
        ensures
            ok == Self::supports(*params),
    {
        let size = params.symbol_size;
        let data = params.data_size;
        if size < 1 || size > 65535 || data < 1 {
            return false;
        }
        if size >= 64 && size % 8 != 0 {
            return false;
        }
        assert((size as u64) * (MAX_BLOCK_SYMBOLS as u64) <= 65535 * 56403) by (nonlinear_arith)
            requires
                size <= 65535,
                MAX_BLOCK_SYMBOLS == 56403,
        ;
        (data as u64) <= (size as u64) * (MAX_BLOCK_SYMBOLS as u64)
    }

    /// A decoder for one slice with the given parameters.
    pub fn with_params(params: FecParams) -> (decoder: Self)
        requires
            Self::supports(params),
        ensures
            decoder.wf(),
            decoder.spec_params() == params,
            decoder.fed() == Seq::<(u32, Seq<u8>)>::empty(),
            decoder.spec_seqno() == 0,
    {
        Self {
            engine: decoder_new(params.data_size as u64, params.symbol_size as u16),
            params,
            seqno: 0,
        }
    }

    /// A decoder for `params`, or nothing where none can be built.
    pub fn try_with_params(params: FecParams) -> (decoder: Option<Self>)
        ensures
            decoder is Some <==> Self::supports(params),
            decoder matches Some(d) ==> d.wf() && d.spec_params() == params && d.fed() == Seq::<
                (u32, Seq<u8>),
            >::empty() && d.spec_seqno() == 0,
    {
        if Self::is_supported(&params) {
            Some(Self::with_params(params))
        } else {
            None
        }
    }

    /// Whether the decoder can be fed a symbol of `len` bytes under the
    /// identifier `seqno`.
    pub fn accepts_symbol(&self, seqno: u32, len: usize) -> (ok: bool)
        ensures
            ok == Self::accepts(self.spec_params(), seqno, len as nat),
    {
        seqno < SYMBOL_ID_LIMIT && len as u64 == self.params.symbol_size as u64
    }

    /// Feeds one symbol and hands back the slice as soon as it can be
    /// rebuilt. The identifier is kept as the last one seen.
    pub fn decode(&mut self, seqno: u32, data: &[u8]) -> (out: Option<Vec<u8>>)
        requires
            old(self).wf(),
            Self::accepts(old(self).spec_params(), seqno, data@.len()),
        ensures
            final(self).wf(),
            final(self).spec_params() == old(self).spec_params(),
            final(self).fed() == old(self).fed().push((seqno, data@)),
            final(self).spec_seqno() == seqno,
            bytes_of(out) == Self::outcome(old(self).spec_params(), final(self).fed()),
            out matches Some(slice) ==> slice@.len() == old(self).spec_params().data_size,
    {
        self.seqno = seqno;
        decoder_feed(&mut self.engine, ONLY_BLOCK, seqno, data)
    }

    /// Parameters the decoder was made with.
    pub fn params(&self) -> (params: &FecParams)
        ensures
            *params == self.spec_params(),
    {
        &self.params
    }

    /// Identifier of the symbol fed last.
    pub fn seqno(&self) -> (seqno: u32)
        ensures
            seqno == self.spec_seqno(),
    {
        self.seqno
    }
}

// ---------------------------------------------------------------------
// Encoder
// ---------------------------------------------------------------------

/// Parameters under which a slice of `len` bytes is sent.
pub open spec fn params_for(len: nat) -> FecParams {
    FecParams {
        data_size: len as u32,
        symbol_size: SYMBOL as u32,
        symbols_count: symbols_in(len) as u32,
    }
}

/// Turns one slice into symbols: first its source symbols in rising
/// order, then repair symbols for as long as they are asked for.
pub struct RaptorqEncoder {
    encoder_index: usize,
    engine: raptorq::Encoder,
    params: FecParams,
    source_packets: Vec<EncodedSymbol>,
    blocks: usize,
    padded: u32,
}

impl RaptorqEncoder {
    /// The source symbols still to go out are held last-first, so that
    /// taking from the end yields them in rising order.
    pub closed spec fn wf(&self) -> bool {
        let source = encoder_source(self.engine);
        let count = symbols_in(source.len());
        &&& encodable(source.len())
        &&& self.params == params_for(source.len())
        &&& self.blocks == 1
        &&& self.encoder_index < self.blocks
        &&& self.padded == raptorq_extended(count as u32)
        &&& count <= self.padded <= MAX_BLOCK_SYMBOLS
        &&& self.source_packets@.len() <= count
        &&& forall|j: int|
            0 <= j < self.source_packets@.len() ==> (#[trigger] self.source_packets@[j]).seqno
                == count - 1 - j && self.source_packets@[j].data@ == source_symbol(
                source,
                count - 1 - j,
            )
    }

    /// The slice that is being encoded.
    pub closed spec fn source(&self) -> Seq<u8> {
        encoder_source(self.engine)
    }

    /// Identifier of the next source symbol; the number of source symbols
    /// once all of them have gone out.
    pub closed spec fn next_source(&self) -> nat {
        (symbols_in(encoder_source(self.engine).len()) - self.source_packets@.len()) as nat
    }

    /// The parameters that describe the slice on the wire.
    pub closed spec fn spec_params(&self) -> FecParams {
        self.params
    }

    /// Identifier of the repair symbol that is produced when `offered` is
    /// handed in after the source symbols have run out.
    pub open spec fn repair_id(source: Seq<u8>, offered: u32) -> int {
        offered + raptorq_extended(symbols_in(source.len()) as u32)
    }

    /// An encoder over one slice.
    pub fn with_data(data: &[u8]) -> (encoder: Self)
        requires
            encodable(data@.len()),
        ensures
            encoder.wf(),
            encoder.source() == data@,
            encoder.next_source() == 0,
            encoder.spec_params() == params_for(data@.len()),
    {
        let engine = engine_new(data, SYMBOL as u16);
        let blocks = engine_block_count(&engine);
        let ghost count = symbols_in(data@.len());
        let mut source_packets: Vec<EncodedSymbol> = Vec::new();
        let mut block: usize = 0;
        while block < blocks
            invariant
                blocks == 1,
                block <= blocks,
                encoder_source(engine) == data@,
                encodable(data@.len()),
                count == symbols_in(data@.len()),
                block == 0 ==> source_packets@.len() == 0,
                block == 1 ==> source_packets@.len() == count,
                forall|j: int|
                    0 <= j < source_packets@.len() ==> (#[trigger] source_packets@[j]).seqno
                        == count - 1 - j && source_packets@[j].data@ == source_symbol(
                        data@,
                        count - 1 - j,
                    ),
            decreases blocks - block,
        {
            // Reverse order to send efficiently
            let mut packets = engine_source_symbols(&engine, block);
            let ghost all = packets@;
            while packets.len() > 0
                invariant
                    all.len() == count,
                    packets@.len() <= all.len(),
                    packets@ == all.subrange(0, packets@.len() as int),
                    source_packets@.len() + packets@.len() == all.len(),
                    forall|i: int|
                        0 <= i < all.len() ==> (#[trigger] all[i]).seqno == i && all[i].data@
                            == source_symbol(data@, i),
                    forall|j: int|
                        0 <= j < source_packets@.len() ==> (#[trigger] source_packets@[j]).seqno
                            == count - 1 - j && source_packets@[j].data@ == source_symbol(
                            data@,
                            count - 1 - j,
                        ),
                decreases packets@.len(),
            {
                match packets.pop() {
                    Some(packet) => {
                        source_packets.push(packet);
                    },
                    None => {},
                }
            }
            block += 1;
        }
        let symbols_count = source_packets.len() as u32;
        let padded = padded_symbol_count(symbols_count);
        Self {
            encoder_index: 0,
            engine,
            params: FecParams {
                data_size: data.len() as u32,
                symbol_size: SYMBOL as u32,
                symbols_count,
            },
            source_packets,
            blocks,
            padded,
        }
    }

    /// An encoder over one slice, or nothing where the slice is empty or
    /// longer than `SLICE`.
    pub fn try_with_data(data: &[u8]) -> (encoder: Option<Self>)
        ensures
            encoder is Some <==> encodable(data@.len()),
            encoder matches Some(e) ==> e.wf() && e.source() == data@ && e.next_source() == 0
                && e.spec_params() == params_for(data@.len()),
    {
        if data.len() >= 1 && data.len() <= SLICE {
            Some(Self::with_data(data))
        } else {
            None
        }
    }

    /// The next symbol of the slice. While source symbols remain, the
    /// next one goes out and `seqno` becomes its identifier. After that a
    /// repair symbol is made from the identifier handed in, `seqno`
    /// becomes the identifier it really carries, which is no source
    /// symbol's and lies above the one handed in, and the blocks take
    /// turns. Fails where the repair identifier would not fit in 24 bits,
    /// and then changes nothing.
    pub fn encode(&mut self, seqno: &mut u32) -> (chunk: Result<Vec<u8>, RldpError>)
        requires
            old(self).wf(),
        ensures
            final(self).wf(),
            final(self).source() == old(self).source(),
            final(self).spec_params() == old(self).spec_params(),
            chunk is Err <==> old(self).next_source() == symbols_in(old(self).source().len())
                && Self::repair_id(old(self).source(), *old(seqno)) >= SYMBOL_ID_LIMIT,
            chunk matches Err(e) ==> e == RldpError::CannotEncodeRepair && *final(seqno) == *old(
                seqno,
            ) && final(self).next_source() == old(self).next_source(),
            chunk matches Ok(data) ==> data@.len() == SYMBOL && if old(self).next_source()
                < symbols_in(old(self).source().len()) {
                &&& *final(seqno) == old(self).next_source()
                &&& data@ == source_symbol(old(self).source(), old(self).next_source() as int)
                &&& final(self).next_source() == old(self).next_source() + 1
            } else {
                &&& *final(seqno) == Self::repair_id(old(self).source(), *old(seqno))
                &&& *final(seqno) >= symbols_in(old(self).source().len())
                &&& *final(seqno) > *old(seqno)
                &&& data@ == raptorq_repair(old(self).source(), *final(seqno))
                &&& final(self).next_source() == old(self).next_source()
            },
    {
        let packet = match self.source_packets.pop() {
            Some(packet) => packet,
            None => {
                if (*seqno as u64) + (self.padded as u64) >= (SYMBOL_ID_LIMIT as u64) {
                    return Err(RldpError::CannotEncodeRepair);
                }
                let mut packets = engine_repair_symbols(&self.engine, self.encoder_index, *seqno);
                let packet = match packets.pop() {
                    Some(packet) => packet,
                    None => {
                        return Err(RldpError::CannotEncodeRepair);
                    },
                };
                self.encoder_index += 1;
                if self.encoder_index >= self.blocks {
                    self.encoder_index = 0;
                }
                packet
            },
        };
        *seqno = packet.seqno;
        Ok(packet.data)
    }

    /// Parameters that describe the slice on the wire.
    pub fn params(&self) -> (params: &FecParams)
        ensures
            *params == self.spec_params(),
    {
        &self.params
    }
}

} // verus!
