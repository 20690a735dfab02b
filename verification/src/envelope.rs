//! The envelopes that travel between two peers, as plain values.

use vstd::prelude::*;

verus! {

/// Identifier of one direction of one exchange.
pub type TransferId = [u8; 32];

/// Identifier that a querier picks and the responder echoes.
pub type QueryId = [u8; 32];

/// Number of bytes in a transfer or query identifier.
pub const ID_LEN: usize = 32;

/// Parameters of a forward-error-correction block.
#[derive(Clone, Copy, Debug, PartialEq, Eq, Structural)]
pub struct FecParams {
    /// Bytes of the slice that the block protects.
    pub data_size: u32,
    /// Bytes of one symbol.
    pub symbol_size: u32,
    /// Number of source symbols of the slice.
    pub symbols_count: u32,
}

/// The code that protects a slice, with its parameters.
#[derive(Clone, Copy, Debug, PartialEq, Eq, Structural)]
pub enum FecType {
    RaptorQ(FecParams),
    RoundRobin(FecParams),
    Online(FecParams),
}

/// One encoded symbol of one slice of a message.
#[derive(Clone, Debug, PartialEq, Eq)]
pub struct MessagePart {
    pub transfer_id: TransferId,
    pub fec_type: FecType,
    /// Index of the slice, counted from zero.
    pub part: u32,
    /// Length of the whole message in bytes.
    pub total_size: u64,
    /// Identifier of the symbol within its slice.
    pub seqno: u32,
    /// The symbol itself.
    pub data: Vec<u8>,
}

/// Receiver's note of the last symbol it has seen in a slice.
#[derive(Clone, Copy, Debug, PartialEq, Eq)]
pub struct Confirm {
    pub transfer_id: TransferId,
    pub part: u32,
    pub seqno: u32,
}

/// Receiver's note that a slice has been rebuilt.
#[derive(Clone, Copy, Debug, PartialEq, Eq)]
pub struct Complete {
    pub transfer_id: TransferId,
    pub part: u32,
}

/// Anything one peer may send to the other on the packet level.
#[derive(Clone, Debug, PartialEq, Eq)]
pub enum RldpMessagePart {
    MessagePart(MessagePart),
    Confirm(Confirm),
    Complete(Complete),
}

/// A request, carried as the payload of one transfer.
#[derive(Clone, Debug, PartialEq, Eq)]
pub struct Query {
    pub query_id: QueryId,
    /// Largest answer, in bytes, that the querier accepts.
    pub max_answer_size: i64,
    /// Wall-clock second after which the querier gives up.
    pub timeout: i32,
    pub data: Vec<u8>,
}

/// The response to a `Query`, carried by the paired transfer.
#[derive(Clone, Debug, PartialEq, Eq)]
pub struct Answer {
    pub query_id: QueryId,
    pub data: Vec<u8>,
}

/// The identifier whose every byte is the bitwise complement of `id`'s.
pub open spec fn complement(id: Seq<u8>) -> Seq<u8> {
    Seq::new(id.len(), |i: int| (id[i] ^ 0xFFu8))
}

/// Identifier of the transfer that runs against `id`: each byte flipped.
pub fn complement_id(id: &TransferId) -> (paired: TransferId)
    ensures
        paired@ == complement(id@),
{
    let mut paired: TransferId = *id;
    let mut i: usize = 0;
    while i < ID_LEN
        invariant
            i <= ID_LEN,
            paired@.len() == ID_LEN,
            forall|j: int| 0 <= j < i ==> paired@[j] == (id@[j] ^ 0xFFu8),
            forall|j: int| i <= j < ID_LEN ==> paired@[j] == id@[j],
        decreases ID_LEN - i,
    {
        paired[i] = paired[i] ^ 0xFF;
        i += 1;
    }
    paired
}

/// Whether two identifiers hold the same bytes.
pub fn same_id(a: &TransferId, b: &TransferId) -> (same: bool)
    ensures
        same == (a@ == b@),
{
    let mut i: usize = 0;
    while i < ID_LEN
        invariant
            i <= ID_LEN,
            forall|j: int| 0 <= j < i ==> a@[j] == b@[j],
        decreases ID_LEN - i,
    {
        if a[i] != b[i] {
            return false;
        }
        i += 1;
    }
    assert(a@ =~= b@);
    true
}

/// Pairing is an involution: the complement of the complement is the
/// identifier one started from.
pub proof fn complement_is_involution(id: Seq<u8>)
    ensures
        complement(complement(id)) == id,
{
    assert forall|i: int| 0 <= i < id.len() implies #[trigger] complement(complement(id))[i] == id[i] by {
        let b = id[i];
        assert(((b ^ 0xFFu8) ^ 0xFFu8) == b) by (bit_vector);
    }
}

/// An identifier never equals its own complement.
pub proof fn complement_differs(id: Seq<u8>)
    requires
        id.len() > 0,
    ensures
        complement(id) != id,
{
    let b = id[0];
    assert((b ^ 0xFFu8) != b) by (bit_vector);
}

} // verus!
