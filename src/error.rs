use vstd::prelude::*;

verus! {

/// Every way a request to the library can fail. Each variant carries the
/// offending value so that a caller can report it.
#[derive(Debug, Clone, PartialEq, Eq)]
pub enum SnowIdError {
    /// A node identity outside `0..=1023`.
    NodeOutOfRange { node: i16 },
    /// A namespace key that is zero or negative.
    NonPositiveKey { key: i32 },
    /// An identifier given as a negative signed integer.
    NegativeId { id: i64 },
    /// The registry already holds its maximum number of keys.
    CapacityExceeded { key: i32 },
    /// The underlying generator could not be built for this node identity.
    Construction { node_id: u16 },
    /// A freshly minted identifier was not above the last one handed out.
    ClockRegression { last: u64, minted: u64 },
    /// A minted identifier with its top bit set, which does not fit a signed
    /// 64-bit integer.
    IdOutOfRange { minted: u64 },
    /// Text that is not a fixed-width base62 identifier.
    InvalidBase62 { text: String },
}

} // verus!
