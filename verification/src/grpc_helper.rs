//! The envelope that consensus messages travel in.
//!
//! A request is one JSON text. A reply has two: the response, and the
//! error by which the peer rejects the request; the one that is not meant
//! is empty. What the texts mean is for their reader: this module frames
//! them, and turns away what is no JSON at all.

use vstd::prelude::*;
use crate::json::json_parse;
use crate::json::parse;

verus! {

/// A request on the wire.
#[derive(Debug, Clone, PartialEq, Eq)]
pub struct RaftRequest {
    pub data: String,
}

/// A reply on the wire.
#[derive(Debug, Clone, PartialEq, Eq)]
pub struct RaftReply {
    pub data: String,
    pub error: String,
}

/// The text of a reply that counts, and what it stands for.
#[derive(Debug, Clone, PartialEq, Eq)]
pub enum ReplyBody {
    /// The peer's response, as JSON text.
    Data(String),
    /// The error by which the peer rejects the request, as JSON text.
    Error(String),
}

/// The text of `reply` that counts: the error where there is one, and else
/// the data.
pub open spec fn body_text(reply: RaftReply) -> Seq<char> {
    if reply.error@.len() > 0 {
        reply.error@
    } else {
        reply.data@
    }
}

/// What `reply` is read as: nothing where its text is no JSON; else its
/// text, as an error or as a response.
pub open spec fn body_of(reply: RaftReply) -> Option<ReplyBody> {
    if json_parse(body_text(reply)) is None {
        None
    } else if reply.error@.len() > 0 {
        Some(ReplyBody::Error(reply.error))
    } else {
        Some(ReplyBody::Data(reply.data))
    }
}

pub struct GrpcHelper;

impl GrpcHelper {
    /// Frames an encoded request.
    pub fn into_req(data: String) -> (r: RaftRequest)
        ensures
            r.data == data,
    {
        RaftRequest { data: data }
    }

    /// Takes the encoded request out of its frame.
    pub fn into_data(request: RaftRequest) -> (r: String)
        ensures
            r == request.data,
    {
        request.data
    }

    /// Frames an encoded response.
    pub fn ok_response(data: String) -> (r: RaftReply)
        ensures
            r.data == data,
            r.error@.len() == 0,
    {
        RaftReply { data: data, error: String::new() }
    }

    /// Frames the encoded error of a request that is rejected.
    pub fn err_response(error: String) -> (r: RaftReply)
        ensures
            r.error == error,
            r.data@.len() == 0,
    {
        RaftReply { data: String::new(), error: error }
    }

    /// Reads a reply: the text that counts, where it is JSON, and else the
    /// parser's complaint.
    pub fn parse_raft_reply(reply: RaftReply) -> (r: Result<ReplyBody, String>)
        ensures
            match r {
                Ok(body) => body_of(reply) == Some(body),
                Err(_) => body_of(reply) is None,
            },
    {
        if reply.error.as_str().is_empty() {
            match parse(reply.data.as_str()) {
                Ok(_) => Ok(ReplyBody::Data(reply.data)),
                Err(complaint) => Err(complaint),
            }
        } else {
            match parse(reply.error.as_str()) {
                Ok(_) => Ok(ReplyBody::Error(reply.error)),
                Err(complaint) => Err(complaint),
            }
        }
    }
}

/// What goes into an envelope comes out of it: a reply that was framed as
/// a response is read as that response, and one that was framed as an
/// error as that error, where the text is JSON. An error that is the empty
/// text would be taken for none; no JSON text is empty.
pub proof fn lemma_reply_round_trip(reply: RaftReply)
    ensures
        reply.error@.len() == 0 && json_parse(reply.data@) is Some ==> body_of(reply) == Some(
            ReplyBody::Data(reply.data),
        ),
        reply.error@.len() > 0 && json_parse(reply.error@) is Some ==> body_of(reply) == Some(
            ReplyBody::Error(reply.error),
        ),
{
}

} // verus!
