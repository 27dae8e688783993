use vstd::prelude::*;

use crate::base62::{encode_base62, is_base62_encoding};
use crate::error::SnowIdError;

verus! {

/// Bits below the timestamp field: ten of node identity, twelve of sequence.
pub const TIMESTAMP_SHIFT: u64 = 22;

/// Bits below the node field: the sequence counter.
pub const NODE_SHIFT: u64 = 12;

/// Largest node identity that fits the node field.
pub const MAX_NODE: u16 = 1023;

/// Milliseconds since the scheme's epoch stored in an identifier.
pub open spec fn id_timestamp(id: u64) -> u64 {
    id >> TIMESTAMP_SHIFT
}

/// Node identity stored in an identifier.
pub open spec fn id_node(id: u64) -> u64 {
    (id >> NODE_SHIFT) & 0x3ff
}

/// Whether `id` may be handed out after `last`: anything may come first, and
/// afterwards each identifier must lie strictly above the previous one.
pub open spec fn follows(last: Option<u64>, id: u64) -> bool {
    match last {
        None => true,
        Some(l) => l < id,
    }
}

/// What a generator hands out for a freshly minted value.
pub open spec fn issue(last: Option<u64>, minted: u64) -> Result<u64, SnowIdError> {
    match last {
        Some(l) if l >= minted => Err(SnowIdError::ClockRegression { last: l, minted }),
        _ => Ok(minted),
    }
}

/// `e` is the refusal of a minted value that is not above `last`, the last
/// identifier handed out.
pub open spec fn refused_as_regression(last: Option<u64>, e: SnowIdError) -> bool {
    match (last, e) {
        (Some(l), SnowIdError::ClockRegression { last: el, minted }) => el == l && minted <= l,
        _ => false,
    }
}

/// What a generator is, as plain values: the node identity it stamps into
/// every identifier, and the last identifier it handed out.
#[derive(Debug, Clone, Copy, PartialEq, Eq, Structural)]
pub struct GenState {
    pub node: u16,
    pub last: Option<u64>,
}

#[verifier::external_type_specification]
#[verifier::external_body]
pub struct ExSnowID(snowid::SnowID);

#[verifier::external_type_specification]
#[verifier::external_body]
pub struct ExSnowIDError(snowid::SnowIDError);

/// Relies on snowid::SnowID::new: it refuses a node identity above 1023 (and
/// also refuses when the wall clock lies outside its epoch's range).
#[verifier::external_body]
fn build_snowid(node: u16) -> (r: Result<snowid::SnowID, snowid::SnowIDError>)
    ensures
        node > MAX_NODE ==> r is Err,
{
    snowid::SnowID::new(node)
}

/// Decides whether a freshly minted value may be handed out after `last`:
/// it may when it lies strictly above it, and otherwise the clock has moved
/// backwards.
pub fn accept_minted(last: Option<u64>, minted: u64) -> (r: Result<u64, SnowIdError>)
    ensures
        r == issue(last, minted),
        r is Ok <==> follows(last, minted),
{
    match last {
        Some(l) => {
            if l >= minted {
                Err(SnowIdError::ClockRegression { last: l, minted })
            } else {
                Ok(minted)
            }
        },
        None => Ok(minted),
    }
}

/// Mints identifiers for one namespace key.
pub struct Generator {
    sid: snowid::SnowID,
    node_id: u16,
    last: Option<u64>,
}

impl View for Generator {
    type V = GenState;

    closed spec fn view(&self) -> GenState {
        GenState { node: self.node_id, last: self.last }
    }
}

impl Generator {
    /// A generator for node identity `node` that has handed out nothing yet.
    pub fn new(node: u16) -> (r: Result<Generator, SnowIdError>)
        ensures
            node > MAX_NODE ==> r is Err,
            match r {
                Ok(g) => g@ == (GenState { node, last: None }),
                Err(e) => e == (SnowIdError::Construction { node_id: node }),
            },
    {
        match build_snowid(node) {
            Ok(sid) => Ok(Generator { sid, node_id: node, last: None }),
            Err(_) => Err(SnowIdError::Construction { node_id: node }),
        }
    }

    /// Relies on snowid::SnowID::generate: the identifier it assembles holds
    /// the node identity that `new` built the `SnowID` with (the same value as
    /// `node_id`) in bits 12 to 21, the sequence below it and the timestamp
    /// above it.
    #[verifier::external_body]
    fn mint(&self) -> (r: u64)
        requires
            self@.node <= MAX_NODE,
        ensures
            id_node(r) == self@.node,
    {
        self.sid.generate()
    }

    /// Relies on snowid::SnowIDExtractor::timestamp: under the default
    /// configuration that `new` uses it is the 42 bits above bit 21.
    #[verifier::external_body]
    fn read_timestamp(&self, id: u64) -> (r: u64)
        ensures
            r == id_timestamp(id),
    {
        self.sid.extract.timestamp(id)
    }

    /// Node identity stamped into this generator's identifiers.
    pub fn node(&self) -> (r: u16)
        ensures
            r == self@.node,
    {
        self.node_id
    }

    /// Last identifier handed out, if any.
    pub fn last_id(&self) -> (r: Option<u64>)
        ensures
            r == self@.last,
    {
        self.last
    }

    /// Hands out the next identifier: always strictly above the previous one,
    /// carrying this generator's node identity. The first one is always
    /// handed out. After that, a minted value that is not above the previous
    /// one is refused as a clock regression and changes nothing. snowid
    /// itself never mints such a value: when the wall clock steps back it
    /// keeps counting from its own last timestamp, so a step back of the
    /// clock shows up here only as identifiers whose timestamp runs ahead of
    /// the clock, not as this error.
    pub fn generate(&mut self) -> (r: Result<u64, SnowIdError>)
        requires
            old(self)@.node <= MAX_NODE,
        ensures
            final(self)@.node == old(self)@.node,
            old(self)@.last is None ==> r is Ok,
            match r {
                Ok(id) => {
                    &&& follows(old(self)@.last, id)
                    &&& final(self)@.last == Some(id)
                    &&& id_node(id) == old(self)@.node
                },
                Err(e) => {
                    &&& refused_as_regression(old(self)@.last, e)
                    &&& final(self)@ == old(self)@
                },
            },
    {
        let minted = self.mint();
        let r = accept_minted(self.last, minted);
        if let Ok(id) = r {
            self.last = Some(id);
        }
        r
    }

    /// Hands out the next identifier in its fixed-width base62 text form.
    pub fn generate_base62(&mut self) -> (r: Result<String, SnowIdError>)
        requires
            old(self)@.node <= MAX_NODE,
        ensures
            final(self)@.node == old(self)@.node,
            old(self)@.last is None ==> r is Ok,
            match r {
                Ok(text) => exists|id: u64|
                    {
                        &&& follows(old(self)@.last, id)
                        &&& final(self)@.last == Some(id)
                        &&& id_node(id) == old(self)@.node
                        &&& is_base62_encoding(text@, id)
                    },
                Err(e) => {
                    &&& refused_as_regression(old(self)@.last, e)
                    &&& final(self)@ == old(self)@
                },
            },
    {
        match self.generate() {
            Ok(id) => Ok(encode_base62(id)),
            Err(e) => Err(e),
        }
    }

    /// The timestamp field of any identifier, whichever generator made it.
    pub fn extract_timestamp(&self, id: u64) -> (r: u64)
        ensures
            r == id_timestamp(id),
    {
        self.read_timestamp(id)
    }
}

} // verus!
