//! Connections to the peers, and the course of a call over one.
//!
//! Opening channels, encoding, sending and awaiting are the caller's work,
//! and so is taking turns at the pool where several callers share it.
//! What is decided here is what the caller does next: it reports each thing
//! that happened as an event and is told the next action, until the action
//! is to finish. A call that fails finishes in one of three ways, which the
//! consensus engine treats differently: the peer cannot be reached, its
//! reply cannot be read, or the peer itself rejects the request. Nothing is
//! retried or swallowed here.

use vstd::prelude::*;
use openraft::BasicNode;
use crate::grpc_helper::body_of;
use crate::grpc_helper::GrpcHelper;
use crate::grpc_helper::RaftReply;
use crate::grpc_helper::RaftRequest;
use crate::grpc_helper::ReplyBody;
use crate::state::raft_client::Pooled;
use crate::state::raft_client::RaftClient;
use crate::state::typ::NetworkError;
use crate::state::typ::NodeId;
use crate::state::typ::RPCError;
use crate::state::typ::RemoteError;
use crate::state::typ::Unreachable;

verus! {

/// The three calls that one member makes on another.
#[derive(Debug, Clone, Copy, PartialEq, Eq, Structural)]
pub enum RpcKind {
    AppendEntries,
    InstallSnapshot,
    Vote,
}

impl RpcKind {
    /// What is being done when the reply to a call of this kind is read.
    pub open spec fn reply_context(self) -> Seq<char> {
        match self {
            RpcKind::AppendEntries => "parse append_entries reply"@,
            RpcKind::InstallSnapshot => "parse install_snapshot reply"@,
            RpcKind::Vote => "parse vote reply"@,
        }
    }

    /// What is being done when the reply to a call of this kind is read.
    pub fn context(self) -> (r: &'static str)
        ensures
            r@ == self.reply_context(),
    {
        match self {
            RpcKind::AppendEntries => "parse append_entries reply",
            RpcKind::InstallSnapshot => "parse install_snapshot reply",
            RpcKind::Vote => "parse vote reply",
        }
    }
}

/// What happened in the course of a call.
#[derive(Debug, PartialEq)]
pub enum Event<C, T, E> {
    /// The call begins.
    Started,
    /// A channel to the peer's address was opened.
    Opened(C),
    /// No channel to the peer's address could be opened.
    NotOpened { reason: String },
    /// The request was encoded, for sending over `channel`.
    Encoded { channel: C, data: String },
    /// The request could not be encoded.
    NotEncoded { reason: String },
    /// The peer replied.
    Replied(RaftReply),
    /// The transport failed while the request was under way.
    NotDelivered { reason: String },
    /// The text of the reply was decoded: to the peer's response, or to
    /// the error by which it rejects the request.
    Decoded(Result<T, E>),
    /// The text of the reply could not be decoded.
    NotDecoded { cause: String },
}

/// What the caller is to do next.
#[derive(Debug, PartialEq)]
pub enum Action<C, T, E> {
    /// Open a channel to `addr`, and report `Opened` or `NotOpened`.
    Open { addr: String },
    /// Encode the request, and report `Encoded`, with this channel, or
    /// `NotEncoded`.
    Encode { channel: C },
    /// Send the request over the channel, and report `Replied` or
    /// `NotDelivered`.
    Send { channel: C, request: RaftRequest },
    /// Decode the text, as a response or as an error, and report `Decoded`
    /// or `NotDecoded`.
    Decode(ReplyBody),
    /// Hand this to the consensus engine: the call is over.
    Finish(Result<T, RPCError<E>>),
}

/// An error for a reply that could not be read: `msg` says what was being
/// done with it, `cause` what was wrong.
pub fn new_net_err(cause: String, msg: &str) -> (r: NetworkError)
    ensures
        r.cause == cause,
        r.context@ == msg@,
{
    NetworkError { context: msg.to_owned(), cause: cause }
}

/// Makes the connections, and owns the pool that their calls draw on: a
/// channel that was opened in one call serves every later call to the same
/// address, over whichever connection.
#[derive(Debug, PartialEq)]
pub struct Network<C> {
    pub raft_client: RaftClient<C>,
}

impl<C: Clone> Network<C> {
    /// A factory with an empty pool.
    pub fn new() -> (r: Self)
        ensures
            r.raft_client@ == Map::<Seq<char>, C>::empty(),
    {
        Network { raft_client: RaftClient::new() }
    }

    /// A connection to the peer `target`, which `node` describes. The
    /// descriptor is taken as it is now; the factory stays as it is.
    pub fn new_client(&mut self, target: NodeId, node: &BasicNode) -> (r: NetworkConnection)
        ensures
            r.target() == target,
            r.target_node() == *node,
            *final(self) == *old(self),
    {
        NetworkConnection { target: target, target_node: node.clone() }
    }
}

impl<C: Clone> Default for Network<C> {
    fn default() -> (r: Self)
        ensures
            r.raft_client@ == Map::<Seq<char>, C>::empty(),
    {
        Self::new()
    }
}

/// A connection to one peer.
#[derive(Debug, Clone, PartialEq, Eq)]
pub struct NetworkConnection {
    target: NodeId,
    target_node: BasicNode,
}

/// Whether `action` is what follows `event` in a call of kind `kind` on the
/// peer `target`, which `node` describes, and `after` what it makes of the
/// pool `before`.
pub open spec fn follows<C: Clone, T, E>(
    target: NodeId,
    node: BasicNode,
    kind: RpcKind,
    before: RaftClient<C>,
    after: RaftClient<C>,
    event: Event<C, T, E>,
    action: Action<C, T, E>,
) -> bool {
    match event {
        Event::Started => {
            &&& after == before
            &&& if before@.contains_key(node.addr@) {
                action matches Action::Encode { channel } && cloned(before@[node.addr@], channel)
            } else {
                action matches Action::Open { addr } && addr == node.addr
            }
        },
        Event::Opened(channel) => {
            &&& action == Action::<C, T, E>::Encode { channel }
            &&& after@.contains_key(node.addr@)
            &&& cloned(channel, after@[node.addr@])
            &&& after@ == before@.insert(node.addr@, after@[node.addr@])
        },
        Event::NotOpened { reason } => {
            &&& after == before
            &&& action == Action::<C, T, E>::Finish(
                Err(RPCError::Unreachable(Unreachable { reason })),
            )
        },
        Event::Encoded { channel, data } => {
            &&& after == before
            &&& action == Action::<C, T, E>::Send { channel, request: RaftRequest { data } }
        },
        Event::NotEncoded { reason } => {
            &&& after == before
            &&& action == Action::<C, T, E>::Finish(
                Err(RPCError::Unreachable(Unreachable { reason })),
            )
        },
        Event::Replied(reply) => {
            &&& after == before
            &&& match body_of(reply) {
                Some(body) => action == Action::<C, T, E>::Decode(body),
                None => {
                    &&& action matches Action::Finish(Err(RPCError::Network(e)))
                    &&& e.context@ == kind.reply_context()
                },
            }
        },
        Event::NotDelivered { reason } => {
            &&& after == before
            &&& action == Action::<C, T, E>::Finish(
                Err(RPCError::Unreachable(Unreachable { reason })),
            )
        },
        Event::Decoded(Ok(response)) => {
            &&& after == before
            &&& action == Action::<C, T, E>::Finish(Ok(response))
        },
        Event::Decoded(Err(source)) => {
            &&& after == before
            &&& action == Action::<C, T, E>::Finish(
                Err(RPCError::RemoteError(RemoteError { target, target_node: Some(node), source })),
            )
        },
        Event::NotDecoded { cause } => {
            &&& after == before
            &&& action matches Action::Finish(Err(RPCError::Network(e)))
            &&& e.cause == cause
            &&& e.context@ == kind.reply_context()
        },
    }
}

/// A channel that was opened in one call serves the next call to the same
/// address, over whichever connection and of whichever kind: the call
/// begins with the encoding, over a clone of the channel that the pool
/// kept, and the pool stays as it is.
pub proof fn lemma_opened_channel_is_reused<C: Clone, T, E>(
    first: (NodeId, BasicNode, RpcKind),
    second: (NodeId, BasicNode, RpcKind),
    pools: (RaftClient<C>, RaftClient<C>, RaftClient<C>),
    channel: C,
    actions: (Action<C, T, E>, Action<C, T, E>),
)
    requires
        first.1.addr@ == second.1.addr@,
        follows(first.0, first.1, first.2, pools.0, pools.1, Event::<C, T, E>::Opened(channel), actions.0),
        follows(second.0, second.1, second.2, pools.1, pools.2, Event::<C, T, E>::Started, actions.1),
    ensures
        pools.2 == pools.1,
        cloned(channel, pools.1@[first.1.addr@]),
        actions.1 matches Action::Encode { channel: reused } && cloned(
            pools.1@[first.1.addr@],
            reused,
        ),
{
}

/// Where the pool cannot produce a channel to the peer's address, the call
/// finishes as unreachable, whatever its kind: never as a reply that cannot
/// be read, never as the peer's rejection.
pub proof fn lemma_no_channel_is_unreachable<C: Clone, T, E>(
    target: NodeId,
    node: BasicNode,
    kind: RpcKind,
    pools: (RaftClient<C>, RaftClient<C>),
    reason: String,
    action: Action<C, T, E>,
)
    requires
        follows(target, node, kind, pools.0, pools.1, Event::<C, T, E>::NotOpened { reason }, action),
    ensures
        action matches Action::Finish(Err(RPCError::Unreachable(u))) && u.reason == reason,
{
}

/// A reply whose text is no JSON, or does not decode, finishes the call
/// with an error that names the kind of call whose reply it was: the
/// contexts of the three kinds differ.
pub proof fn lemma_unreadable_reply_names_the_call<C: Clone, T, E>(
    target: NodeId,
    node: BasicNode,
    kind: RpcKind,
    pools: (RaftClient<C>, RaftClient<C>),
    event: Event<C, T, E>,
    action: Action<C, T, E>,
)
    requires
        follows(target, node, kind, pools.0, pools.1, event, action),
        event is NotDecoded || (event matches Event::Replied(reply) && body_of(reply) is None),
    ensures
        action matches Action::Finish(Err(RPCError::Network(e))) && e.context@
            == kind.reply_context(),
        forall|other: RpcKind| other != kind ==> other.reply_context() != kind.reply_context(),
{
    reveal_strlit("parse append_entries reply");
    reveal_strlit("parse install_snapshot reply");
    reveal_strlit("parse vote reply");
    assert forall|other: RpcKind| other != kind implies other.reply_context()
        != kind.reply_context() by {
        assert(other.reply_context().len() != kind.reply_context().len());
    }
}

/// A rejection by the peer finishes the call with the peer's own error,
/// under the number and the descriptor of the peer that the connection
/// leads to.
pub proof fn lemma_rejection_carries_the_peer<C: Clone, T, E>(
    target: NodeId,
    node: BasicNode,
    kind: RpcKind,
    pools: (RaftClient<C>, RaftClient<C>),
    source: E,
    action: Action<C, T, E>,
)
    requires
        follows(target, node, kind, pools.0, pools.1, Event::<C, T, E>::Decoded(Err(source)), action),
    ensures
        action matches Action::Finish(Err(RPCError::RemoteError(e))) && e.target == target
            && e.target_node == Some(node) && e.source == source,
{
}

impl NetworkConnection {
    /// The peer that the connection leads to.
    pub closed spec fn target(&self) -> NodeId {
        self.target
    }

    /// The descriptor of that peer.
    pub closed spec fn target_node(&self) -> BasicNode {
        self.target_node
    }

    /// The peer that the connection leads to.
    pub fn peer(&self) -> (r: NodeId)
        ensures
            r == self.target(),
    {
        self.target
    }

    /// The descriptor of that peer.
    pub fn peer_node(&self) -> (r: &BasicNode)
        ensures
            *r == self.target_node(),
    {
        &self.target_node
    }

    /// Reports a peer that could not be reached.
    pub fn status_to_unreachable<E>(&self, status: String) -> (r: RPCError<E>)
        ensures
            r == RPCError::<E>::Unreachable(Unreachable { reason: status }),
    {
        RPCError::Unreachable(Unreachable { reason: status })
    }

    /// Reports the peer's own rejection: the error it gave, under the
    /// peer's number and descriptor.
    pub fn to_rpc_err<E>(&self, e: E) -> (r: RPCError<E>)
        ensures
            r == RPCError::RemoteError(
                RemoteError {
                    target: self.target(),
                    target_node: Some(self.target_node()),
                    source: e,
                },
            ),
    {
        RPCError::RemoteError(
            RemoteError {
                target: self.target,
                target_node: Some(self.target_node.clone()),
                source: e,
            },
        )
    }

    /// What follows `event` in a call of kind `kind` on the peer, with
    /// `pool` for the channels.
    pub fn advance<C: Clone, T, E>(
        &self,
        pool: &mut RaftClient<C>,
        kind: RpcKind,
        event: Event<C, T, E>,
    ) -> (r: Action<C, T, E>)
        ensures
            follows(self.target(), self.target_node(), kind, *old(pool), *final(pool), event, r),
    {
        match event {
            Event::Started => match pool.get(self.target_node.addr.as_str()) {
                Pooled::Reuse(channel) => Action::Encode { channel },
                Pooled::Connect => Action::Open { addr: self.target_node.addr.clone() },
            },
            Event::Opened(channel) => {
                pool.put(self.target_node.addr.clone(), channel.clone());
                proof {
                    assert(pool@ =~= old(pool)@.insert(
                        self.target_node.addr@,
                        pool@[self.target_node.addr@],
                    ));
                }
                Action::Encode { channel }
            },
            Event::NotOpened { reason } => Action::Finish(Err(self.status_to_unreachable(reason))),
            Event::Encoded { channel, data } => Action::Send {
                channel,
                request: GrpcHelper::into_req(data),
            },
            Event::NotEncoded { reason } => Action::Finish(Err(self.status_to_unreachable(reason))),
            Event::Replied(reply) => match GrpcHelper::parse_raft_reply(reply) {
                Ok(body) => Action::Decode(body),
                Err(complaint) => Action::Finish(
                    Err(RPCError::Network(new_net_err(complaint, kind.context()))),
                ),
            },
            Event::NotDelivered { reason } => Action::Finish(
                Err(self.status_to_unreachable(reason)),
            ),
            Event::Decoded(Ok(response)) => Action::Finish(Ok(response)),
            Event::Decoded(Err(source)) => Action::Finish(Err(self.to_rpc_err(source))),
            Event::NotDecoded { cause } => Action::Finish(
                Err(RPCError::Network(new_net_err(cause, kind.context()))),
            ),
        }
    }

    /// What follows `event` in an append-entries call.
    pub fn send_append_entries<C: Clone, T, E>(
        &mut self,
        pool: &mut RaftClient<C>,
        event: Event<C, T, E>,
    ) -> (r: Action<C, T, E>)
        ensures
            follows(
                old(self).target(),
                old(self).target_node(),
                RpcKind::AppendEntries,
                *old(pool),
                *final(pool),
                event,
                r,
            ),
            *final(self) == *old(self),
    {
        self.advance(pool, RpcKind::AppendEntries, event)
    }

    /// What follows `event` in an install-snapshot call.
    pub fn send_install_snapshot<C: Clone, T, E>(
        &mut self,
        pool: &mut RaftClient<C>,
        event: Event<C, T, E>,
    ) -> (r: Action<C, T, E>)
        ensures
            follows(
                old(self).target(),
                old(self).target_node(),
                RpcKind::InstallSnapshot,
                *old(pool),
                *final(pool),
                event,
                r,
            ),
            *final(self) == *old(self),
    {
        self.advance(pool, RpcKind::InstallSnapshot, event)
    }

    /// What follows `event` in a vote call.
    pub fn send_vote<C: Clone, T, E>(
        &mut self,
        pool: &mut RaftClient<C>,
        event: Event<C, T, E>,
    ) -> (r: Action<C, T, E>)
        ensures
            follows(
                old(self).target(),
                old(self).target_node(),
                RpcKind::Vote,
                *old(pool),
                *final(pool),
                event,
                r,
            ),
            *final(self) == *old(self),
    {
        self.advance(pool, RpcKind::Vote, event)
    }
}

} // verus!
