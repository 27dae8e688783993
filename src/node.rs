use vstd::prelude::*;

use crate::error::SnowIdError;
use crate::generator::MAX_NODE;

verus! {

/// Node identity a fresh runtime starts with.
pub const DEFAULT_NODE: i16 = 1;

/// Whether `n` is an acceptable node identity.
pub open spec fn node_in_range(n: i16) -> bool {
    0 <= n <= MAX_NODE
}

/// The value a cell holds after a request to store `n` in it.
pub open spec fn node_after_set(before: i16, n: i16) -> i16 {
    if node_in_range(n) { n } else { before }
}

/// The small integer that tells this node apart from the others sharing the
/// identifier space. It is always within `0..=1023`.
pub struct NodeIdentity {
    node: i16,
}

impl View for NodeIdentity {
    type V = i16;

    closed spec fn view(&self) -> i16 {
        self.node
    }
}

impl NodeIdentity {
    pub closed spec fn wf(&self) -> bool {
        node_in_range(self.node)
    }

    /// A cell holding the default identity.
    pub fn new() -> (r: NodeIdentity)
        ensures
            r.wf(),
            r@ == DEFAULT_NODE,
    {
        NodeIdentity { node: DEFAULT_NODE }
    }

    /// Stores `node` when it is within `0..=1023`; otherwise refuses it and
    /// keeps the value held before.
    pub fn set(&mut self, node: i16) -> (r: Result<(), SnowIdError>)
        requires
            old(self).wf(),
        ensures
            final(self).wf(),
            final(self)@ == node_after_set(old(self)@, node),
            r is Ok <==> node_in_range(node),
            r is Err ==> r == Err::<(), SnowIdError>(SnowIdError::NodeOutOfRange { node }),
    {
        if node < 0 || node > MAX_NODE as i16 {
            return Err(SnowIdError::NodeOutOfRange { node });
        }
        self.node = node;
        Ok(())
    }

    /// The identity currently held.
    pub fn get(&self) -> (r: i16)
        requires
            self.wf(),
        ensures
            r == self@,
            node_in_range(r),
    {
        self.node
    }

    /// The identity as the unsigned value stamped into identifiers.
    pub fn value(&self) -> (r: u16)
        requires
            self.wf(),
        ensures
            r == self@,
            r <= MAX_NODE,
    {
        self.node as u16
    }
}

/// After a successful store of `n`, reading the cell gives `n` back.
pub proof fn set_then_get(before: i16, n: i16)
    requires
        node_in_range(n),
    ensures
        node_after_set(before, n) == n,
{
}

/// A store of a value outside `0..=1023` leaves the held value as it was.
pub proof fn rejected_set_keeps_value(before: i16, n: i16)
    requires
        !node_in_range(n),
    ensures
        node_after_set(before, n) == before,
{
}

} // verus!
