use vstd::prelude::*;

verus! {

/// A decoded client request.
pub enum Command {
    /// Read the value stored under `key`.
    Get { key: String },
    /// Store `value` under `key`.
    Put { key: String, value: Vec<u8> },
    /// Any other command the protocol knows, with a description of it.
    Other { description: String },
}

/// A successful answer to a request.
#[derive(Debug)]
pub enum Response {
    /// The value stored under the requested key.
    Value(Vec<u8>),
    /// No value is stored under the requested key.
    Absent,
    /// The value was stored.
    Acknowledged,
}

/// The mathematical form of a `Response`.
pub enum Reply {
    Value(Seq<u8>),
    Absent,
    Acknowledged,
}

impl View for Response {
    type V = Reply;

    open spec fn view(&self) -> Reply {
        match self {
            Response::Value(v) => Reply::Value(v@),
            Response::Absent => Reply::Absent,
            Response::Acknowledged => Reply::Acknowledged,
        }
    }
}

impl Response {
    /// The stored bytes, for a `Value` answer.
    pub fn value(&self) -> (r: Option<Vec<u8>>)
        ensures
            match self@ {
                Reply::Value(v) => r is Some && r->0@ == v,
                _ => r is None,
            },
    {
        match self {
            Response::Value(v) => {
                let c = v.clone();
                proof {
                    assert(c@ =~= v@);
                }
                Some(c)
            },
            _ => None,
        }
    }
}

} // verus!
