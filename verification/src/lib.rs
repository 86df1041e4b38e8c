//! Replicated metadata for a content-extraction pipeline: the versioned
//! entity model with its upgrade path, the course of a call from one Raft
//! member to another and the report of its failure, and the text splitters
//! that cut documents into chunks.

pub mod cmd;
pub mod grpc_helper;
pub mod internal_api;
pub mod json;
pub mod state;
pub mod string_map;
pub mod text;
pub mod text_splitters;
