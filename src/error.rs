use vstd::prelude::*;
use vstd::string::StringExecFns;

verus! {

/// What went wrong with a request or with building the store.
#[derive(Clone, Copy, Debug, PartialEq, Eq, Structural)]
pub enum ErrorKind {
    /// The store was asked for zero shards.
    Construction,
    /// The command is neither GET nor SET.
    UnsupportedCommand,
    /// A shard's lock was poisoned by a holder that panicked.
    ExclusionPoisoned,
    /// The frame could not be decoded, or the connection failed.
    Protocol,
}

/// An error of the store, with a human-readable description.
#[derive(Clone, Debug)]
pub struct RedisError {
    pub kind: ErrorKind,
    pub info: String,
}

impl RedisError {
    /// A protocol-level error carrying the given description.
    pub fn new(info: &str) -> (r: RedisError)
        ensures
            r.kind == ErrorKind::Protocol,
            r.info@ == info@,
    {
        RedisError { kind: ErrorKind::Protocol, info: info.to_owned() }
    }

    /// An error of the given kind carrying the given description.
    pub fn with_kind(kind: ErrorKind, info: String) -> (r: RedisError)
        ensures
            r.kind == kind,
            r.info@ == info@,
    {
        RedisError { kind, info }
    }

    /// The error's kind.
    pub fn kind(&self) -> (r: ErrorKind)
        ensures
            r == self.kind,
    {
        self.kind
    }

    /// The error as a reader sees it: `redis error; ` and the description.
    pub fn display_text(&self) -> (r: String)
        ensures
            r@ == "redis error; "@ + self.info@,
    {
        "redis error; ".to_owned().concat(self.info.as_str())
    }

    /// The error's description.
    pub fn message(&self) -> (r: String)
        ensures
            r@ == self.info@,
    {
        self.info.clone()
    }
}

} // verus!
