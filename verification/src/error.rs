//! What can go wrong in a transfer.

use vstd::prelude::*;

verus! {

/// Why a packet was rejected or a transfer torn down.
#[derive(Clone, Copy, Debug, PartialEq, Eq, Structural)]
pub enum RldpError {
    /// The packet names a code other than RaptorQ.
    UnsupportedFecType,
    /// The packet's RaptorQ parameters are none a decoder can be built for.
    UnsupportedFecParams,
    /// The symbol's identifier or length is none the decoder can take.
    InvalidSymbol,
    /// The packet's total size differs from the one seen first.
    TotalSizeMismatch,
    /// The packet's parameters differ from those the slice began with.
    ParamsMismatch,
    /// The rebuilt slice would make the message longer than announced.
    TooBig,
    /// A chunk was asked for before any slice was started.
    EncoderNotReady,
    /// No repair symbol can carry the identifier asked for.
    CannotEncodeRepair,
    /// The shared slice index is neither the expected one nor its successor.
    PartMismatch,
    /// The answer echoes another query identifier.
    UnknownQueryId,
    /// The answer is larger than the querier accepts.
    AnswerTooBig,
    /// No subscriber claimed the query.
    NoSubscribers,
    /// The registry holds no send transfer under the identifier.
    UnknownTransfer,
}

impl RldpError {
    /// The characters of the error's line for the log.
    pub open spec fn text(self) -> Seq<char> {
        match self {
            RldpError::UnsupportedFecType => "Unsupported FEC type in RLDP packet"@,
            RldpError::UnsupportedFecParams => "Unsupported FEC parameters in RLDP packet"@,
            RldpError::InvalidSymbol => "Invalid symbol in RLDP packet"@,
            RldpError::TotalSizeMismatch => "Incorrect total size in RLDP packet"@,
            RldpError::ParamsMismatch => "Incorrect parameters in RLDP packet"@,
            RldpError::TooBig => "Too big size for RLDP transfer"@,
            RldpError::EncoderNotReady => "Encoder is not ready"@,
            RldpError::CannotEncodeRepair => "INTERNAL ERROR: cannot encode repair packet"@,
            RldpError::PartMismatch => "INTERNAL ERROR: part # mismatch"@,
            RldpError::UnknownQueryId => "Unknown query ID in RLDP answer"@,
            RldpError::AnswerTooBig => "Exceeded max RLDP answer size"@,
            RldpError::NoSubscribers => "No subscribers for query"@,
            RldpError::UnknownTransfer => "Unknown RLDP transfer"@,
        }
    }

    /// A line for the log.
    pub fn message(&self) -> (text: String)
        ensures
            text@ == self.text(),
    {
        match self {
            RldpError::UnsupportedFecType => "Unsupported FEC type in RLDP packet".to_owned(),
            RldpError::UnsupportedFecParams => "Unsupported FEC parameters in RLDP packet".to_owned(),
            RldpError::InvalidSymbol => "Invalid symbol in RLDP packet".to_owned(),
            RldpError::TotalSizeMismatch => "Incorrect total size in RLDP packet".to_owned(),
            RldpError::ParamsMismatch => "Incorrect parameters in RLDP packet".to_owned(),
            RldpError::TooBig => "Too big size for RLDP transfer".to_owned(),
            RldpError::EncoderNotReady => "Encoder is not ready".to_owned(),
            RldpError::CannotEncodeRepair => "INTERNAL ERROR: cannot encode repair packet".to_owned(),
            RldpError::PartMismatch => "INTERNAL ERROR: part # mismatch".to_owned(),
            RldpError::UnknownQueryId => "Unknown query ID in RLDP answer".to_owned(),
            RldpError::AnswerTooBig => "Exceeded max RLDP answer size".to_owned(),
            RldpError::NoSubscribers => "No subscribers for query".to_owned(),
            RldpError::UnknownTransfer => "Unknown RLDP transfer".to_owned(),
        }
    }
}

} // verus!
