//! The fixed numbers of the protocol.

use vstd::prelude::*;

verus! {

/// Bytes of one slice of a message; every slice but the last has this length.
pub const SLICE: usize = 2000000;

/// Bytes of one symbol on the wire.
pub const SYMBOL: usize = 768;

/// Symbols that may be in flight beyond the last one the peer confirmed.
pub const WINDOW: u32 = 1000;

/// Queries that may run against one peer at a time.
pub const MAX_QUERIES: u32 = 3;

/// Packets sent in one burst before the sender yields.
pub const SIZE_TRANSFER_WAVE: u32 = 10;

/// Pause between two looks at the shared state, in milliseconds.
pub const SPINNER: u64 = 10;

/// Longest wait without progress, in milliseconds.
pub const TIMEOUT_MAX: u64 = 10000;

/// Time after which a receive transfer that was opened for a peer is
/// marked as over whatever has come of it, in milliseconds.
pub const CEILING: u64 = TIMEOUT_MAX;

/// Time for which a transfer that is over stays in the registry, so that
/// late packets are answered instead of opening it anew, in milliseconds.
pub const GRACE: u64 = 2 * TIMEOUT_MAX;

/// Shortest wait without progress, in milliseconds.
pub const TIMEOUT_MIN: u64 = 500;

/// Accepted symbols between two `Confirm` envelopes.
pub const CONFIRM_EVERY: usize = 10;

/// Answer size that a querier accepts when it names none.
pub const DEFAULT_MAX_ANSWER_SIZE: i64 = 131072;

} // verus!
