use indexify::grpc_helper::GrpcHelper;
use indexify::grpc_helper::RaftReply;
use indexify::grpc_helper::RaftRequest;
use indexify::grpc_helper::ReplyBody;
use indexify::state::network::new_net_err;
use indexify::state::network::Action;
use indexify::state::network::Event;
use indexify::state::network::Network;
use indexify::state::network::NetworkConnection;
use indexify::state::network::RpcKind;
use indexify::state::raft_client::Pooled;
use indexify::state::raft_client::RaftClient;
use indexify::state::typ::NetworkError;
use indexify::state::typ::RPCError;
use indexify::state::typ::RemoteError;
use indexify::state::typ::Unreachable;
use openraft::raft::VoteRequest;
use openraft::raft::VoteResponse;
use openraft::BasicNode;
use openraft::Vote;

fn connection(target: u64, addr: &str) -> (RaftClient<String>, NetworkConnection) {
    let mut network: Network<String> = Network::new();
    let conn = network.new_client(target, &BasicNode::new(addr));
    (network.raft_client, conn)
}

fn unreachable<E>(reason: &str) -> RPCError<E> {
    RPCError::Unreachable(Unreachable { reason: reason.to_string() })
}

fn finish<C, T, E>(action: Action<C, T, E>) -> Result<T, RPCError<E>> {
    match action {
        Action::Finish(result) => result,
        _ => panic!("the call is over"),
    }
}

#[test]
fn new_factory_has_an_empty_pool() {
    let network: Network<String> = Network::new();
    assert_eq!(network.raft_client, RaftClient::new());
    assert_eq!(network.raft_client.get("10.0.0.7:8950"), Pooled::Connect);
    assert_eq!(Network::<String>::default(), network);
}

#[test]
fn new_client_is_bound_to_the_peer() {
    let (_, conn) = connection(7, "10.0.0.7:8950");
    assert_eq!(conn.peer(), 7);
    assert_eq!(conn.peer_node(), &BasicNode::new("10.0.0.7:8950"));
}

#[test]
fn new_client_takes_the_descriptor_as_it_is_at_the_call() {
    let mut network: Network<String> = Network::default();
    let mut node = BasicNode::new("10.0.0.7:8950");
    let before = network.new_client(7, &node);
    node.addr = "10.0.0.8:8950".to_string();
    let after = network.new_client(7, &node);
    assert_eq!(before.peer_node().addr, "10.0.0.7:8950");
    assert_eq!(after.peer_node().addr, "10.0.0.8:8950");
    assert_eq!(network, Network::new());
}

#[test]
fn pool_keeps_one_channel_for_each_address() {
    let mut pool: RaftClient<u32> = RaftClient::new();
    assert_eq!(pool.get("a:1"), Pooled::Connect);
    pool.put("a:1".to_string(), 1);
    pool.put("b:1".to_string(), 2);
    assert_eq!(pool.get("a:1"), Pooled::Reuse(1));
    assert_eq!(pool.get("b:1"), Pooled::Reuse(2));
    pool.put("a:1".to_string(), 3);
    assert_eq!(pool.get("a:1"), Pooled::Reuse(3));
    assert_eq!(pool.get("b:1"), Pooled::Reuse(2));
    assert_eq!(pool.get("c:1"), Pooled::Connect);
}

#[test]
fn call_begins_by_opening_a_channel_where_the_pool_has_none() {
    let (mut pool, mut conn) = connection(7, "10.0.0.7:8950");
    let action: Action<String, u8, String> = conn.send_vote(&mut pool, Event::Started);
    assert_eq!(action, Action::Open { addr: "10.0.0.7:8950".to_string() });
    assert_eq!(pool, RaftClient::new());
}

#[test]
fn opened_channel_is_pooled_and_serves_every_connection() {
    let mut network: Network<String> = Network::new();
    let node = BasicNode::new("10.0.0.7:8950");
    let mut first = network.new_client(7, &node);
    let mut second = network.new_client(7, &node);
    let mut elsewhere = network.new_client(8, &BasicNode::new("10.0.0.8:8950"));
    let pool = &mut network.raft_client;
    let action: Action<String, u8, String> = first.send_vote(pool, Event::Opened("channel to 7".to_string()));
    assert_eq!(action, Action::Encode { channel: "channel to 7".to_string() });
    assert_eq!(pool.get("10.0.0.7:8950"), Pooled::Reuse("channel to 7".to_string()));
    let action: Action<String, u8, String> = second.send_append_entries(pool, Event::Started);
    assert_eq!(action, Action::Encode { channel: "channel to 7".to_string() });
    let action: Action<String, u8, String> = first.send_install_snapshot(pool, Event::Started);
    assert_eq!(action, Action::Encode { channel: "channel to 7".to_string() });
    let action: Action<String, u8, String> = elsewhere.send_vote(pool, Event::Started);
    assert_eq!(action, Action::Open { addr: "10.0.0.8:8950".to_string() });
}

#[test]
fn factories_do_not_share_a_pool() {
    let (mut pool, mut conn) = connection(7, "10.0.0.7:8950");
    let _: Action<String, u8, String> = conn.send_vote(&mut pool, Event::Opened("channel to 7".to_string()));
    let (mut other_pool, mut other) = connection(7, "10.0.0.7:8950");
    let action: Action<String, u8, String> = other.send_vote(&mut other_pool, Event::Started);
    assert_eq!(action, Action::Open { addr: "10.0.0.7:8950".to_string() });
}

#[test]
fn encoded_request_is_framed_and_sent() {
    let (mut pool, mut conn) = connection(7, "10.0.0.7:8950");
    let action: Action<String, u8, String> = conn.send_vote(
        &mut pool,
        Event::Encoded { channel: "c".to_string(), data: "{\"vote\":1}".to_string() },
    );
    assert_eq!(
        action,
        Action::Send { channel: "c".to_string(), request: RaftRequest { data: "{\"vote\":1}".to_string() } }
    );
}

#[test]
fn no_channel_is_unreachable_for_every_kind_of_call() {
    let (mut pool, mut conn) = connection(7, "10.0.0.7:8950");
    let reason = "status: Aborted, message: \"connection refused\"";
    let event = || -> Event<String, u8, String> { Event::NotOpened { reason: reason.to_string() } };
    for kind in [RpcKind::AppendEntries, RpcKind::InstallSnapshot, RpcKind::Vote] {
        assert_eq!(finish(conn.advance(&mut pool, kind, event())), Err(unreachable(reason)));
    }
    assert_eq!(finish(conn.send_append_entries(&mut pool, event())), Err(unreachable(reason)));
    assert_eq!(finish(conn.send_install_snapshot(&mut pool, event())), Err(unreachable(reason)));
    assert_eq!(finish(conn.send_vote(&mut pool, event())), Err(unreachable(reason)));
    assert_eq!(pool, RaftClient::new());
}

#[test]
fn encoding_and_transport_failures_are_unreachable() {
    let (mut pool, mut conn) = connection(7, "10.0.0.7:8950");
    let event: Event<String, u8, String> = Event::NotEncoded { reason: "key must be a string".to_string() };
    assert_eq!(finish(conn.send_vote(&mut pool, event)), Err(unreachable("key must be a string")));
    let event: Event<String, u8, String> = Event::NotDelivered { reason: "connection reset".to_string() };
    assert_eq!(finish(conn.send_append_entries(&mut pool, event)), Err(unreachable("connection reset")));
    let status: RPCError<String> = conn.status_to_unreachable("timed out".to_string());
    assert_eq!(status, unreachable("timed out"));
}

#[test]
fn undecodable_reply_names_the_call() {
    let (mut pool, mut conn) = connection(7, "10.0.0.7:8950");
    let event = || -> Event<String, u8, String> { Event::NotDecoded { cause: "missing field `vote`".to_string() } };
    let network = |context: &str| -> Result<u8, RPCError<String>> {
        Err(RPCError::Network(NetworkError {
            context: context.to_string(),
            cause: "missing field `vote`".to_string(),
        }))
    };
    assert_eq!(finish(conn.send_append_entries(&mut pool, event())), network("parse append_entries reply"));
    assert_eq!(finish(conn.send_install_snapshot(&mut pool, event())), network("parse install_snapshot reply"));
    assert_eq!(finish(conn.send_vote(&mut pool, event())), network("parse vote reply"));
    assert_eq!(RpcKind::AppendEntries.context(), "parse append_entries reply");
    assert_eq!(RpcKind::InstallSnapshot.context(), "parse install_snapshot reply");
    assert_eq!(RpcKind::Vote.context(), "parse vote reply");
}

#[test]
fn invalid_reply_body_is_a_decode_error_that_names_the_call() {
    let (mut pool, mut conn) = connection(7, "10.0.0.7:8950");
    let reply = GrpcHelper::ok_response("{\"term\":".to_string());
    let action: Action<String, u8, String> = conn.send_append_entries(&mut pool, Event::Replied(reply));
    match finish(action) {
        Err(RPCError::Network(e)) => assert_eq!(e.context, "parse append_entries reply"),
        _ => panic!("a reply that is no JSON is a decode error"),
    }
    let reply = GrpcHelper::err_response("not json".to_string());
    let action: Action<String, u8, String> = conn.send_vote(&mut pool, Event::Replied(reply));
    match finish(action) {
        Err(RPCError::Network(e)) => assert_eq!(e.context, "parse vote reply"),
        _ => panic!("a reply that is no JSON is a decode error"),
    }
}

#[test]
fn reply_that_is_json_is_handed_on_for_decoding() {
    let (mut pool, mut conn) = connection(7, "10.0.0.7:8950");
    let action: Action<String, u8, String> =
        conn.send_install_snapshot(&mut pool, Event::Replied(GrpcHelper::ok_response("{}".to_string())));
    assert_eq!(action, Action::Decode(ReplyBody::Data("{}".to_string())));
    let action: Action<String, u8, String> =
        conn.send_vote(&mut pool, Event::Replied(GrpcHelper::err_response("\"stale\"".to_string())));
    assert_eq!(action, Action::Decode(ReplyBody::Error("\"stale\"".to_string())));
}

#[test]
fn rejection_carries_the_peer() {
    let (mut pool, mut conn) = connection(7, "10.0.0.7:8950");
    let expected: Result<u8, RPCError<String>> = Err(RPCError::RemoteError(RemoteError {
        target: 7,
        target_node: Some(BasicNode::new("10.0.0.7:8950")),
        source: "seen a higher vote".to_string(),
    }));
    let rejected = || -> Event<String, u8, String> { Event::Decoded(Err("seen a higher vote".to_string())) };
    assert_eq!(finish(conn.send_vote(&mut pool, rejected())), expected);
    assert_eq!(finish(conn.send_append_entries(&mut pool, rejected())), expected);
    assert_eq!(finish(conn.send_install_snapshot(&mut pool, rejected())), expected);
    assert_eq!(conn.to_rpc_err("seen a higher vote".to_string()), expected.unwrap_err());
    let (mut other_pool, mut other) = connection(u64::MAX, "");
    match finish(other.send_vote(&mut other_pool, rejected())) {
        Err(RPCError::RemoteError(e)) => {
            assert_eq!(e.target, u64::MAX);
            assert_eq!(e.target_node, Some(BasicNode::new("")));
        }
        _ => panic!("a rejection is reported as the peer's error"),
    }
}

#[test]
fn response_is_handed_through() {
    let (mut pool, mut conn) = connection(7, "10.0.0.7:8950");
    let event: Event<String, u8, String> = Event::Decoded(Ok(9));
    assert_eq!(finish(conn.send_install_snapshot(&mut pool, event)), Ok(9));
}

#[test]
fn new_net_err_keeps_cause_and_context() {
    assert_eq!(
        new_net_err("EOF while parsing".to_string(), "parse vote reply"),
        NetworkError { context: "parse vote reply".to_string(), cause: "EOF while parsing".to_string() }
    );
}

#[test]
fn reply_with_data_is_read_as_a_response() {
    let reply = GrpcHelper::ok_response("{\"vote_granted\":true}".to_string());
    assert_eq!(reply, RaftReply { data: "{\"vote_granted\":true}".to_string(), error: String::new() });
    assert_eq!(GrpcHelper::parse_raft_reply(reply), Ok(ReplyBody::Data("{\"vote_granted\":true}".to_string())));
}

#[test]
fn reply_with_error_is_read_as_a_rejection() {
    let reply = GrpcHelper::err_response("{\"APIError\":\"x\"}".to_string());
    assert_eq!(reply, RaftReply { data: String::new(), error: "{\"APIError\":\"x\"}".to_string() });
    assert_eq!(GrpcHelper::parse_raft_reply(reply), Ok(ReplyBody::Error("{\"APIError\":\"x\"}".to_string())));
    let both = RaftReply { data: "1".to_string(), error: "2".to_string() };
    assert_eq!(GrpcHelper::parse_raft_reply(both), Ok(ReplyBody::Error("2".to_string())));
}

#[test]
fn reply_that_is_no_json_is_turned_down() {
    assert!(GrpcHelper::parse_raft_reply(GrpcHelper::ok_response("<html>".to_string())).is_err());
    assert!(GrpcHelper::parse_raft_reply(GrpcHelper::ok_response(String::new())).is_err());
    assert!(GrpcHelper::parse_raft_reply(GrpcHelper::err_response("oops".to_string())).is_err());
}

#[test]
fn vote_request_survives_the_wire() {
    let request = VoteRequest::<u64>::new(Vote::new(3, 7), None);
    let framed = GrpcHelper::into_req(serde_json::to_string(&request).unwrap());
    let data = GrpcHelper::into_data(framed);
    let decoded: VoteRequest<u64> = serde_json::from_str(&data).unwrap();
    assert_eq!(decoded, request);
}

#[test]
fn vote_response_survives_the_wire() {
    let response = VoteResponse::<u64> { vote: Vote::new_committed(4, 2), vote_granted: true, last_log_id: None };
    let reply = GrpcHelper::ok_response(serde_json::to_string(&response).unwrap());
    let (mut pool, mut conn) = connection(2, "10.0.0.2:8950");
    let action: Action<String, VoteResponse<u64>, String> = conn.send_vote(&mut pool, Event::Replied(reply));
    let event: Event<String, VoteResponse<u64>, String> = match action {
        Action::Decode(ReplyBody::Data(text)) => match serde_json::from_str(&text) {
            Ok(decoded) => Event::Decoded(Ok(decoded)),
            Err(e) => Event::NotDecoded { cause: e.to_string() },
        },
        _ => panic!("a response is read as a response"),
    };
    assert_eq!(finish(conn.send_vote(&mut pool, event)), Ok(response));
}

#[test]
fn a_whole_call_runs_from_start_to_finish() {
    let (mut pool, mut conn) = connection(2, "10.0.0.2:8950");
    let request = VoteRequest::<u64>::new(Vote::new(3, 7), None);
    let response = VoteResponse::<u64> { vote: Vote::new(3, 7), vote_granted: true, last_log_id: None };
    let mut event: Event<String, VoteResponse<u64>, String> = Event::Started;
    let mut steps = Vec::new();
    let result = loop {
        event = match conn.send_vote(&mut pool, event) {
            Action::Open { addr } => {
                steps.push("open");
                Event::Opened(format!("channel to {addr}"))
            }
            Action::Encode { channel } => {
                steps.push("encode");
                Event::Encoded { channel, data: serde_json::to_string(&request).unwrap() }
            }
            Action::Send { channel, request } => {
                steps.push("send");
                assert_eq!(channel, "channel to 10.0.0.2:8950");
                let asked: VoteRequest<u64> = serde_json::from_str(&request.data).unwrap();
                assert_eq!(asked.vote, Vote::new(3, 7));
                Event::Replied(GrpcHelper::ok_response(serde_json::to_string(&response).unwrap()))
            }
            Action::Decode(ReplyBody::Data(text)) => {
                steps.push("decode");
                Event::Decoded(Ok(serde_json::from_str(&text).unwrap()))
            }
            Action::Decode(ReplyBody::Error(text)) => Event::Decoded(Err(text)),
            Action::Finish(result) => break result,
        };
    };
    assert_eq!(result, Ok(response));
    assert_eq!(steps, vec!["open", "encode", "send", "decode"]);
    assert_eq!(pool.get("10.0.0.2:8950"), Pooled::Reuse("channel to 10.0.0.2:8950".to_string()));
}
