//! Plain-value message model: envelopes, payloads, dispatch outcomes, and
//! the JSON-RPC error taxonomy.

use vstd::prelude::*;
use crate::capabilities::CapabilitySet;
use crate::capabilities::OffsetEncoding;
use crate::ids::RequestId;
use crate::methods::MethodKind;

verus! {

/// A position inside a document, counted in the negotiated offset encoding.
#[derive(Clone, Copy, PartialEq, Eq, Structural, Debug)]
pub struct Position {
    pub line: u32,
    pub character: u32,
}

/// A half-open span between two positions.
#[derive(Clone, Copy, PartialEq, Eq, Structural, Debug)]
pub struct Range {
    pub start: Position,
    pub end: Position,
}

/// A (document, range) pair naming a place in the workspace.
#[derive(Debug)]
pub struct Location {
    pub uri: String,
    pub range: Range,
}

/// One entry of a code-action answer: a full action or a bare command.
#[derive(Debug)]
pub enum ActionOrCommand {
    Action { title: String, command: String },
    Command { title: String, command: String },
}

/// One text replacement inside one document.
#[derive(Debug)]
pub struct DocumentEdit {
    pub uri: String,
    pub range: Range,
    pub new_text: String,
}

/// An edit plan over several documents, as the file-operation hooks return.
#[derive(Debug)]
pub struct WorkspaceEditData {
    pub edits: Vec<DocumentEdit>,
}

/// The JSON-RPC and LSP error taxonomy.
#[derive(Clone, Copy, PartialEq, Eq, Structural, Debug)]
pub enum ErrorCode {
    ParseError,
    InvalidRequest,
    MethodNotFound,
    InvalidParams,
    InternalError,
    ServerNotInitialized,
    RequestCancelled,
    ContentModified,
}

impl ErrorCode {
    /// The numeric code that goes on the wire for each error.
    pub open spec fn spec_code(self) -> i64 {
        match self {
            ErrorCode::ParseError => -32700i64,
            ErrorCode::InvalidRequest => -32600i64,
            ErrorCode::MethodNotFound => -32601i64,
            ErrorCode::InvalidParams => -32602i64,
            ErrorCode::InternalError => -32603i64,
            ErrorCode::ServerNotInitialized => -32002i64,
            ErrorCode::RequestCancelled => -32800i64,
            ErrorCode::ContentModified => -32801i64,
        }
    }

    /// Renders the wire code of a concrete error.
    pub fn code(&self) -> (n: i64)
        ensures
            n == self.spec_code(),
    {
        match self {
            ErrorCode::ParseError => -32700,
            ErrorCode::InvalidRequest => -32600,
            ErrorCode::MethodNotFound => -32601,
            ErrorCode::InvalidParams => -32602,
            ErrorCode::InternalError => -32603,
            ErrorCode::ServerNotInitialized => -32002,
            ErrorCode::RequestCancelled => -32800,
            ErrorCode::ContentModified => -32801,
        }
    }
}

/// Structured payload of an envelope, shaped per method family. `Opaque`
/// stands for any payload the session core does not inspect.
#[derive(Debug)]
pub enum Params {
    Missing,
    Initialize { client_supports_utf8: bool, root_uri: Option<String> },
    AtPosition { uri: String, position: Position },
    References { uri: String, position: Position, include_declaration: bool },
    OverRange { uri: String, range: Range },
    Action { action: ActionOrCommand },
    Files { uris: Vec<String> },
    DocVersioned { uri: String, version: i32 },
    Doc { uri: String },
    Cancel { id: RequestId },
    Opaque,
}

/// A request envelope: exactly one response is owed for its id.
#[derive(Debug)]
pub struct Request {
    pub id: RequestId,
    pub method: String,
    pub params: Params,
}

/// A notification envelope: no id, never answered.
#[derive(Debug)]
pub struct Notification {
    pub method: String,
    pub params: Params,
}

/// One decoded envelope.
#[derive(Debug)]
pub enum Message {
    Request(Request),
    Notification(Notification),
}

/// What a successful response carries.
#[derive(Debug)]
pub enum ResponseBody {
    Capabilities {
        caps: CapabilitySet,
        encoding: OffsetEncoding,
        server_name: String,
        server_version: String,
    },
    Null,
    Hover(Option<String>),
    Locations(Vec<Location>),
    Actions(Vec<ActionOrCommand>),
    ResolvedAction(ActionOrCommand),
    Edit(Option<WorkspaceEditData>),
}

/// A response frame, correlated to its request by id.
#[derive(Debug)]
pub struct Response {
    pub id: RequestId,
    pub result: Result<ResponseBody, ErrorCode>,
}

/// A validated request handed over for asynchronous handling against the
/// analysis engine. `revision` snapshots the addressed document's version
/// at dispatch time, so the engine answers against the state the client had
/// established when it asked.
#[derive(Debug)]
pub struct Task {
    pub id: RequestId,
    pub kind: MethodKind,
    pub params: Params,
    pub revision: Option<i32>,
}

/// What one incoming message produces at the dispatcher.
#[derive(Debug)]
pub enum Outcome {
    Reply(Response),
    Task(Task),
    Silent,
    Exit { clean: bool },
}

/// What the analysis engine hands back for a dispatched task.
#[derive(Debug)]
pub enum EngineReply {
    HoverText(Option<String>),
    Targets(Vec<Location>),
    Actions(Vec<ActionOrCommand>),
    ResolvedAction(ActionOrCommand),
    Edit(Option<WorkspaceEditData>),
}

} // verus!
