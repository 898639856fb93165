//! A sharded in-memory key-value store answering GET and SET requests.
//!
//! Keys are routed to one of a fixed number of independently locked shards
//! by a pure partition function; every request touches exactly one shard.
pub mod command;
pub mod error;
pub mod frame;
pub mod partition;
pub mod shard;
pub mod store;

pub use error::{ErrorKind, RedisError};
pub use partition::partition;
pub use shard::Shard;
pub use command::{Command, Reply, Response};
pub use store::RedisDB;
pub use frame::{classify, decode_frame, encode_response, ParseOutcome};

