//! Session core of a language-server-protocol implementation: lifecycle
//! state machine, capability negotiation, request/notification dispatch,
//! pending-request bookkeeping, and length-prefixed framing of message
//! bodies. All decisions are made over plain values; transport wiring and
//! the language-analysis engine live outside this crate and talk to it
//! through the dispatcher's queries and replies.

pub mod capabilities;
pub mod codec;
pub mod dispatch;
pub mod docs;
pub mod ids;
pub mod methods;
pub mod pending;
pub mod protocol;
pub mod session;

use vstd::prelude::*;

verus! {

} // verus!
