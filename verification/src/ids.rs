//! Request identifiers.

use vstd::prelude::*;

verus! {

/// A JSON-RPC request id: numeric or string, unique among the requests that
/// are in flight on one connection.
#[derive(Debug)]
pub enum RequestId {
    Num(u64),
    Str(String),
}

/// Two ids name the same request: numeric ids by value, string ids by their
/// character content.
pub open spec fn id_eq(a: RequestId, b: RequestId) -> bool {
    match (a, b) {
        (RequestId::Num(x), RequestId::Num(y)) => x == y,
        (RequestId::Str(x), RequestId::Str(y)) => x@ == y@,
        _ => false,
    }
}

impl RequestId {
    /// Decides `id_eq` on concrete ids.
    pub fn same(&self, other: &RequestId) -> (r: bool)
        ensures
            r == id_eq(*self, *other),
    {
        match (self, other) {
            (RequestId::Num(x), RequestId::Num(y)) => *x == *y,
            (RequestId::Str(x), RequestId::Str(y)) => *x == *y,
            _ => false,
        }
    }

    /// An owned copy naming the same request.
    pub fn duplicate(&self) -> (r: RequestId)
        ensures
            r == *self,
    {
        match self {
            RequestId::Num(x) => RequestId::Num(*x),
            RequestId::Str(s) => RequestId::Str(s.clone()),
        }
    }
}

} // verus!
