//! The types that the transport speaks in: who a peer is, and the three
//! ways in which an exchange with it can fail.

use vstd::prelude::*;

verus! {

/// The number by which a cluster member is known.
pub type NodeId = u64;

/// `openraft::BasicNode`, the descriptor of a peer: its one field, `addr`,
/// is public, and is all that is read of it here.
#[verifier::external_type_specification]
pub struct ExBasicNode(openraft::BasicNode);

/// `Clone` as derived for `openraft::BasicNode`: the clone has the address
/// of the node it was made from.
pub assume_specification[ <openraft::BasicNode as Clone>::clone ](
    node: &openraft::BasicNode,
) -> (r: openraft::BasicNode)
    ensures
        r == *node,
;

/// The peer could not be reached: it is presumed down or unroutable. To try
/// again later, there or elsewhere, is in order.
#[derive(Debug, Clone, PartialEq, Eq)]
pub struct Unreachable {
    /// What stood in the way.
    pub reason: String,
}

/// The peer answered, and the answer could not be read. It is discarded
/// whole.
#[derive(Debug, Clone, PartialEq, Eq)]
pub struct NetworkError {
    /// What was being done with the answer.
    pub context: String,
    /// What was wrong with it.
    pub cause: String,
}

/// The peer answered, in order, that it rejects the request.
#[derive(Debug, Clone, PartialEq, Eq)]
pub struct RemoteError<E> {
    /// The peer that rejected it.
    pub target: NodeId,
    /// That peer's descriptor.
    pub target_node: Option<openraft::BasicNode>,
    /// The peer's own error.
    pub source: E,
}

/// What an exchange with a peer failed with.
#[derive(Debug, Clone, PartialEq, Eq)]
pub enum RPCError<E> {
    Unreachable(Unreachable),
    Network(NetworkError),
    RemoteError(RemoteError<E>),
}

} // verus!
