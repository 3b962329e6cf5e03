//! The dispatcher: routes each decoded envelope by (method name,
//! request-or-notification, lifecycle state) to a handler, an error
//! response, or a silent drop, and owns the session state, the pending
//! table and the document revisions while doing so.
//!
//! Requests the registry advertises are validated here and handed out as a
//! [`Task`] for the analysis engine; `on_engine_reply` shapes the engine's
//! answer into the one response frame owed for the task's id. Notifications
//! are applied inline, in receipt order, and never produce a frame.

use vstd::prelude::*;
use crate::capabilities::CapabilitySet;
use crate::capabilities::Feature;
use crate::capabilities::OffsetEncoding;
use crate::capabilities::negotiate_encoding;
use crate::capabilities::server_name;
use crate::capabilities::server_version;
use crate::docs::DocStore;
use crate::ids::RequestId;
use crate::ids::id_eq;
use crate::methods::FeatureGate;
use crate::methods::MethodKind;
use crate::methods::feature_gate;
use crate::methods::gate_of;
use crate::methods::is_notification_kind;
use crate::methods::kind_is_notification;
use crate::methods::kind_of_name;
use crate::methods::parse_method;
use crate::pending::PendingEntry;
use crate::pending::PendingTable;
use crate::protocol::EngineReply;
use crate::protocol::Message;
use crate::protocol::ErrorCode;
use crate::protocol::Notification;
use crate::protocol::Outcome;
use crate::protocol::Params;
use crate::protocol::Request;
use crate::protocol::Response;
use crate::protocol::ResponseBody;
use crate::protocol::Task;
use crate::session::LifecycleState;
use crate::session::initial_state;

verus! {

/// The kind a request envelope's method name resolves to.
pub open spec fn req_kind(req: Request) -> MethodKind {
    kind_of_name(req.method@)
}

/// The kind a notification envelope's method name resolves to.
pub open spec fn note_kind(n: Notification) -> MethodKind {
    kind_of_name(n.method@)
}

/// The lifecycle gate of the state machine: which error, if any, refuses a
/// request of kind `kind` while the session is in `state`. `None` means the
/// request may proceed to capability and payload checks.
pub open spec fn request_gate(state: LifecycleState, kind: MethodKind) -> Option<ErrorCode> {
    match state {
        LifecycleState::Uninitialized => if kind == MethodKind::Initialize {
            None
        } else {
            Some(ErrorCode::ServerNotInitialized)
        },
        LifecycleState::Initializing => if kind == MethodKind::Initialize {
            Some(ErrorCode::InvalidRequest)
        } else {
            Some(ErrorCode::ServerNotInitialized)
        },
        LifecycleState::Running => if kind == MethodKind::Initialize {
            Some(ErrorCode::InvalidRequest)
        } else {
            None
        },
        LifecycleState::ShuttingDown => Some(ErrorCode::InvalidRequest),
        LifecycleState::Exited => Some(ErrorCode::InvalidRequest),
    }
}

/// Whether a payload has the shape its method requires.
pub open spec fn params_shape_ok(kind: MethodKind, p: Params) -> bool {
    match kind {
        MethodKind::Initialize => p is Initialize,
        MethodKind::Hover => p is AtPosition,
        MethodKind::GotoDeclaration => p is AtPosition,
        MethodKind::GotoDefinition => p is AtPosition,
        MethodKind::GotoTypeDefinition => p is AtPosition,
        MethodKind::GotoImplementation => p is AtPosition,
        MethodKind::References => p is References,
        MethodKind::CodeAction => p is OverRange,
        MethodKind::CodeActionResolve => p is Action,
        MethodKind::WillCreateFiles => p is Files,
        MethodKind::WillRenameFiles => p is Files,
        MethodKind::WillDeleteFiles => p is Files,
        _ => true,
    }
}

/// The document a payload addresses, if it addresses one.
pub open spec fn doc_of_params(p: Params) -> Option<String> {
    match p {
        Params::AtPosition { uri, .. } => Some(uri),
        Params::References { uri, .. } => Some(uri),
        Params::OverRange { uri, .. } => Some(uri),
        _ => None,
    }
}

/// The addressed document's revision at dispatch time.
pub open spec fn snapshot_revision(c: Core, p: Params) -> Option<i32> {
    match doc_of_params(p) {
        Some(u) => c.doc_revision(u@),
        None => None,
    }
}

/// Whether the document snapshot a pending entry was dispatched against no
/// longer matches the current revision.
pub open spec fn snapshot_stale(e: PendingEntry, c: Core) -> bool {
    match e.doc {
        Some(u) => c.doc_revision(u@) != e.revision,
        None => false,
    }
}

/// The one step that may change the negotiated offset encoding: a
/// well-formed `initialize` that the lifecycle gate lets through. Once it
/// has responded, the encoding is immutable until the connection closes.
pub open spec fn negotiates(state: LifecycleState, req: Request) -> bool {
    &&& request_gate(state, req_kind(req)) is None
    &&& req_kind(req) == MethodKind::Initialize
    &&& req.params is Initialize
}

/// The dispatcher's full contract for one request, relating the core
/// before (`pre`) and after (`post`) to the outcome: every request is
/// given one answer or one task under its id; the lifecycle gate blocks
/// what is out of phase and moves no state; initialize negotiates;
/// shutdown holds for exit; a task records its id and revision snapshot.
pub open spec fn request_step_ok(pre: Core, post: Core, req: Request, out: Outcome) -> bool {
    &&& post.wf()
    &&& post.capability_set() == pre.capability_set()
    // a request is never dropped silently and never tears the session down
    &&& (out is Reply) || (out is Task)
    // whatever comes back carries the request's own id
    &&& (out matches Outcome::Reply(r) ==> id_eq(r.id, req.id))
    &&& (out matches Outcome::Task(t) ==> id_eq(t.id, req.id))
    // requests read the documents, they never write them
    &&& forall|u: Seq<char>| post.doc_revision(u) == pre.doc_revision(u)
    // an immediate reply leaves the pending table alone
    &&& (out is Reply ==> forall|id2: RequestId|
        post.pending_entry(id2) == pre.pending_entry(id2))
    // only a successful negotiation may move the offset encoding
    &&& (!negotiates(pre.lifecycle(), req) ==> post.offset_encoding() == pre.offset_encoding())
    // the lifecycle gate turns away requests that are out of phase,
    // and the state does not move
    &&& (request_gate(pre.lifecycle(), req_kind(req)) matches Some(e) ==>
        out == Outcome::Reply(Response { id: req.id, result: Err(e) })
        && post.lifecycle() == pre.lifecycle())
    // initialize: negotiate and run
    &&& (request_gate(pre.lifecycle(), req_kind(req)) is None
        && req_kind(req) == MethodKind::Initialize ==> {
        &&& (req.params matches Params::Initialize { client_supports_utf8, .. } ==> {
            &&& post.lifecycle() == LifecycleState::Running
            &&& post.offset_encoding() == (if client_supports_utf8 {
                OffsetEncoding::Utf8
            } else {
                OffsetEncoding::Utf16
            })
            &&& out matches Outcome::Reply(r)
            &&& r.id == req.id
            &&& r.result matches Ok(b)
            &&& b matches ResponseBody::Capabilities {
                caps,
                encoding,
                server_name: n,
                server_version: v,
            }
            &&& caps == pre.capability_set()
            &&& encoding == post.offset_encoding()
            &&& n@ == "Valkyrie Language Server"@
            &&& v@ == "0.1.0"@
        })
        &&& (!(req.params matches Params::Initialize { .. }) ==>
            out == Outcome::Reply(Response { id: req.id, result: Err(ErrorCode::InvalidParams) })
            && post.lifecycle() == pre.lifecycle())
    })
    // shutdown: acknowledge and hold for exit
    &&& (request_gate(pre.lifecycle(), req_kind(req)) is None
        && req_kind(req) == MethodKind::Shutdown ==>
        post.lifecycle() == LifecycleState::ShuttingDown
        && out == Outcome::Reply(Response { id: req.id, result: Ok(ResponseBody::Null) }))
    // every other legal request leaves the lifecycle alone
    &&& (request_gate(pre.lifecycle(), req_kind(req)) is None
        && req_kind(req) != MethodKind::Initialize
        && req_kind(req) != MethodKind::Shutdown ==> {
        &&& post.lifecycle() == pre.lifecycle()
        // a request under a notification-only method is structurally invalid
        &&& (is_notification_kind(req_kind(req)) ==>
            out == Outcome::Reply(Response { id: req.id, result: Err(ErrorCode::InvalidRequest) }))
        &&& (!is_notification_kind(req_kind(req)) ==> {
            // a method the registry does not advertise is answered
            // MethodNotFound, never an internal failure
            &&& (gate_of(req_kind(req)) == FeatureGate::NotAdvertised ==>
                out == Outcome::Reply(Response { id: req.id, result: Err(ErrorCode::MethodNotFound) }))
            &&& (gate_of(req_kind(req)) matches FeatureGate::Needs(f) ==> {
                &&& (!pre.capability_set().spec_enabled(f) ==>
                    out == Outcome::Reply(Response { id: req.id, result: Err(ErrorCode::MethodNotFound) }))
                &&& (pre.capability_set().spec_enabled(f) ==> {
                    &&& (!params_shape_ok(req_kind(req), req.params) ==>
                        out == Outcome::Reply(Response { id: req.id, result: Err(ErrorCode::InvalidParams) }))
                    &&& (params_shape_ok(req_kind(req), req.params)
                        && pre.request_in_flight(req.id) ==>
                        out == Outcome::Reply(Response { id: req.id, result: Err(ErrorCode::InvalidRequest) }))
                    // the accepted case: register the id and hand the
                    // task on, with the document revision the request
                    // must be answered against
                    &&& (params_shape_ok(req_kind(req), req.params)
                        && !pre.request_in_flight(req.id) ==> {
                        &&& out == Outcome::Task(Task {
                            id: req.id,
                            kind: req_kind(req),
                            params: req.params,
                            revision: snapshot_revision(pre, req.params),
                        })
                        &&& forall|id2: RequestId|
                            post.pending_entry(id2) == (if id_eq(req.id, id2) {
                                Some(PendingEntry {
                                    id: req.id,
                                    kind: req_kind(req),
                                    cancelled: false,
                                    doc: doc_of_params(req.params),
                                    revision: snapshot_revision(pre, req.params),
                                })
                            } else {
                                pre.pending_entry(id2)
                            })
                    })
                })
            })
        })
    })
}

/// The dispatcher's full contract for one notification: never a response
/// frame, exit honoured in every state, cancellation flags its entry, and
/// document-sync notifications update exactly the addressed document, in
/// receipt order.
pub open spec fn notification_step_ok(pre: Core, post: Core, n: Notification, out: Outcome) -> bool {
    &&& post.wf()
    &&& post.capability_set() == pre.capability_set()
    &&& post.offset_encoding() == pre.offset_encoding()
    // no response frame is ever emitted for a notification
    &&& !(out is Reply)
    &&& !(out is Task)
    // exit drives the session to its terminal state, from every state
    &&& (note_kind(n) == MethodKind::Exit ==> {
        &&& out == (Outcome::Exit {
            clean: pre.lifecycle() == LifecycleState::ShuttingDown,
        })
        &&& post.lifecycle() == LifecycleState::Exited
        &&& forall|id2: RequestId| post.pending_entry(id2) == pre.pending_entry(id2)
        &&& forall|u: Seq<char>| post.doc_revision(u) == pre.doc_revision(u)
    })
    &&& (note_kind(n) != MethodKind::Exit ==> out == Outcome::Silent
        && post.lifecycle() == pre.lifecycle())
    // outside the running state, non-exit notifications are ignored
    &&& (note_kind(n) != MethodKind::Exit && pre.lifecycle() != LifecycleState::Running ==> {
        &&& forall|id2: RequestId| post.pending_entry(id2) == pre.pending_entry(id2)
        &&& forall|u: Seq<char>| post.doc_revision(u) == pre.doc_revision(u)
    })
    &&& (note_kind(n) != MethodKind::Exit && pre.lifecycle() == LifecycleState::Running ==> {
        // cancellation flags the in-flight entry, cooperatively
        &&& (note_kind(n) == MethodKind::CancelRequest ==> {
            &&& forall|u: Seq<char>| post.doc_revision(u) == pre.doc_revision(u)
            &&& (n.params matches Params::Cancel { id } ==> forall|id2: RequestId|
                post.pending_entry(id2) == (if id_eq(id, id2) {
                    match pre.pending_entry(id) {
                        Some(e) => Some(PendingEntry { cancelled: true, ..e }),
                        None => None,
                    }
                } else {
                    pre.pending_entry(id2)
                }))
            &&& (!(n.params matches Params::Cancel { .. }) ==> forall|id2: RequestId|
                post.pending_entry(id2) == pre.pending_entry(id2))
        })
        &&& (note_kind(n) != MethodKind::CancelRequest ==> forall|id2: RequestId|
            post.pending_entry(id2) == pre.pending_entry(id2))
        // document-mutating notifications are applied in receipt
        // order, before any later message is looked at
        &&& ((note_kind(n) == MethodKind::DidOpen || note_kind(n) == MethodKind::DidChange) ==> {
            &&& (n.params matches Params::DocVersioned { uri, version } ==>
                (pre.capability_set().spec_enabled(Feature::DocumentSync) ==>
                forall|u: Seq<char>|
                    post.doc_revision(u) == (if u == uri@ {
                        Some(version)
                    } else {
                        pre.doc_revision(u)
                    })))
            &&& (!(pre.capability_set().spec_enabled(Feature::DocumentSync)
                && n.params matches Params::DocVersioned { .. }) ==>
                forall|u: Seq<char>| post.doc_revision(u) == pre.doc_revision(u))
        })
        &&& (note_kind(n) == MethodKind::DidClose ==> {
            &&& (n.params matches Params::Doc { uri } ==>
                (pre.capability_set().spec_enabled(Feature::DocumentSync) ==>
                forall|u: Seq<char>|
                    post.doc_revision(u) == (if u == uri@ {
                        None::<i32>
                    } else {
                        pre.doc_revision(u)
                    })))
            &&& (!(pre.capability_set().spec_enabled(Feature::DocumentSync)
                && n.params matches Params::Doc { .. }) ==>
                forall|u: Seq<char>| post.doc_revision(u) == pre.doc_revision(u))
        })
        // everything else leaves the core's state alone
        &&& (note_kind(n) != MethodKind::DidOpen && note_kind(n) != MethodKind::DidChange
            && note_kind(n) != MethodKind::DidClose ==>
            forall|u: Seq<char>| post.doc_revision(u) == pre.doc_revision(u))
    })
}

/// How an engine answer is shaped into a response body for a task of the
/// given kind. A navigation or reference answer is always a list, so "no
/// target" is the empty list, never a null body and never an error; an
/// answer of the wrong shape is an internal failure, caught here at the
/// dispatcher boundary.
pub open spec fn spec_shape(kind: MethodKind, reply: EngineReply) -> Result<ResponseBody, ErrorCode> {
    match reply {
        EngineReply::HoverText(t) => if kind == MethodKind::Hover {
            Ok(ResponseBody::Hover(t))
        } else {
            Err(ErrorCode::InternalError)
        },
        EngineReply::Targets(v) => if kind == MethodKind::GotoDeclaration
            || kind == MethodKind::GotoDefinition || kind == MethodKind::GotoTypeDefinition
            || kind == MethodKind::GotoImplementation || kind == MethodKind::References {
            Ok(ResponseBody::Locations(v))
        } else {
            Err(ErrorCode::InternalError)
        },
        EngineReply::Actions(v) => if kind == MethodKind::CodeAction {
            Ok(ResponseBody::Actions(v))
        } else {
            Err(ErrorCode::InternalError)
        },
        EngineReply::ResolvedAction(a) => if kind == MethodKind::CodeActionResolve {
            Ok(ResponseBody::ResolvedAction(a))
        } else {
            Err(ErrorCode::InternalError)
        },
        EngineReply::Edit(e) => if kind == MethodKind::WillCreateFiles
            || kind == MethodKind::WillRenameFiles || kind == MethodKind::WillDeleteFiles {
            Ok(ResponseBody::Edit(e))
        } else {
            Err(ErrorCode::InternalError)
        },
    }
}

/// Decides `params_shape_ok` on a concrete payload.
fn params_ok(kind: MethodKind, p: &Params) -> (r: bool)
    ensures
        r == params_shape_ok(kind, *p),
{
    match kind {
        MethodKind::Initialize => matches!(p, Params::Initialize { .. }),
        MethodKind::Hover => matches!(p, Params::AtPosition { .. }),
        MethodKind::GotoDeclaration => matches!(p, Params::AtPosition { .. }),
        MethodKind::GotoDefinition => matches!(p, Params::AtPosition { .. }),
        MethodKind::GotoTypeDefinition => matches!(p, Params::AtPosition { .. }),
        MethodKind::GotoImplementation => matches!(p, Params::AtPosition { .. }),
        MethodKind::References => matches!(p, Params::References { .. }),
        MethodKind::CodeAction => matches!(p, Params::OverRange { .. }),
        MethodKind::CodeActionResolve => matches!(p, Params::Action { .. }),
        MethodKind::WillCreateFiles => matches!(p, Params::Files { .. }),
        MethodKind::WillRenameFiles => matches!(p, Params::Files { .. }),
        MethodKind::WillDeleteFiles => matches!(p, Params::Files { .. }),
        _ => true,
    }
}

/// Decides `spec_shape` on a concrete answer.
pub fn shape_reply(kind: MethodKind, reply: EngineReply) -> (r: Result<ResponseBody, ErrorCode>)
    ensures
        r == spec_shape(kind, reply),
{
    match reply {
        EngineReply::HoverText(t) => if kind == MethodKind::Hover {
            Ok(ResponseBody::Hover(t))
        } else {
            Err(ErrorCode::InternalError)
        },
        EngineReply::Targets(v) => if kind == MethodKind::GotoDeclaration
            || kind == MethodKind::GotoDefinition || kind == MethodKind::GotoTypeDefinition
            || kind == MethodKind::GotoImplementation || kind == MethodKind::References {
            Ok(ResponseBody::Locations(v))
        } else {
            Err(ErrorCode::InternalError)
        },
        EngineReply::Actions(v) => if kind == MethodKind::CodeAction {
            Ok(ResponseBody::Actions(v))
        } else {
            Err(ErrorCode::InternalError)
        },
        EngineReply::ResolvedAction(a) => if kind == MethodKind::CodeActionResolve {
            Ok(ResponseBody::ResolvedAction(a))
        } else {
            Err(ErrorCode::InternalError)
        },
        EngineReply::Edit(e) => if kind == MethodKind::WillCreateFiles
            || kind == MethodKind::WillRenameFiles || kind == MethodKind::WillDeleteFiles {
            Ok(ResponseBody::Edit(e))
        } else {
            Err(ErrorCode::InternalError)
        },
    }
}

fn opt_version_eq(a: Option<i32>, b: Option<i32>) -> (r: bool)
    ensures
        r == (a == b),
{
    match (a, b) {
        (Some(x), Some(y)) => x == y,
        (None, None) => true,
        _ => false,
    }
}

/// The session core: lifecycle state, negotiated encoding, the capability
/// registry, the pending-request table and the document revisions, owned by
/// the dispatcher's single logical thread of control.
#[derive(Debug)]
pub struct Core {
    state: LifecycleState,
    caps: CapabilitySet,
    encoding: OffsetEncoding,
    pending: PendingTable,
    docs: DocStore,
}

impl Core {
    /// The connection's lifecycle phase.
    pub closed spec fn lifecycle(self) -> LifecycleState {
        self.state
    }

    /// The registry this instance advertises.
    pub closed spec fn capability_set(self) -> CapabilitySet {
        self.caps
    }

    /// The negotiated offset encoding.
    pub closed spec fn offset_encoding(self) -> OffsetEncoding {
        self.encoding
    }

    /// The pending entry registered under an id, if one is in flight.
    pub closed spec fn pending_entry(self, id: RequestId) -> Option<PendingEntry> {
        self.pending.spec_lookup(id)
    }

    /// Whether a response is still owed under an id.
    pub open spec fn request_in_flight(self, id: RequestId) -> bool {
        self.pending_entry(id) is Some
    }

    /// The version last established for a document.
    pub closed spec fn doc_revision(self, uri: Seq<char>) -> Option<i32> {
        self.docs.spec_revision(uri)
    }

    /// The tables keep their keys pairwise distinct.
    pub closed spec fn wf(self) -> bool {
        self.pending.wf() && self.docs.wf()
    }

    /// A fresh connection: uninitialized, nothing in flight, no documents,
    /// the protocol-default encoding until negotiation says otherwise.
    pub fn new(caps: CapabilitySet) -> (c: Core)
        ensures
            c.wf(),
            c.lifecycle() == LifecycleState::Uninitialized,
            c.capability_set() == caps,
            c.offset_encoding() == OffsetEncoding::Utf16,
            forall|id: RequestId| c.pending_entry(id) is None,
            forall|u: Seq<char>| c.doc_revision(u) is None,
    {
        Core {
            state: initial_state(),
            caps,
            encoding: OffsetEncoding::Utf16,
            pending: PendingTable::new(),
            docs: DocStore::new(),
        }
    }

    /// The lifecycle phase, as an observer sees it.
    pub fn lifecycle_state(&self) -> (s: LifecycleState)
        ensures
            s == self.lifecycle(),
    {
        self.state
    }

    /// The negotiated offset encoding, as an observer sees it.
    pub fn current_encoding(&self) -> (e: OffsetEncoding)
        ensures
            e == self.offset_encoding(),
    {
        self.encoding
    }

    /// The advertised registry, as an observer sees it.
    pub fn registry(&self) -> (c: CapabilitySet)
        ensures
            c == self.capability_set(),
    {
        self.caps
    }

    /// Whether a response is still owed under `id`.
    pub fn in_flight(&self, id: &RequestId) -> (r: bool)
        requires
            self.wf(),
        ensures
            r == self.request_in_flight(*id),
    {
        self.pending.contains(id)
    }

    /// The version last established for a document.
    pub fn document_revision(&self, uri: &String) -> (r: Option<i32>)
        requires
            self.wf(),
        ensures
            r == self.doc_revision(uri@),
    {
        self.docs.revision_of(uri)
    }

    /// Routes one request. Every request is answered immediately or handed
    /// on as a task whose id is deregistered again when the engine answers:
    /// either way exactly one response frame will carry its id.
    #[verifier::rlimit(50)]
    pub fn on_request(&mut self, req: Request) -> (out: Outcome)
        requires
            old(self).wf(),
        ensures
            request_step_ok(*old(self), *final(self), req, out),
    {
        let kind = parse_method(req.method.as_str());
        let gate_err: Option<ErrorCode> = match self.state {
            LifecycleState::Uninitialized => if kind == MethodKind::Initialize {
                None
            } else {
                Some(ErrorCode::ServerNotInitialized)
            },
            LifecycleState::Initializing => if kind == MethodKind::Initialize {
                Some(ErrorCode::InvalidRequest)
            } else {
                Some(ErrorCode::ServerNotInitialized)
            },
            LifecycleState::Running => if kind == MethodKind::Initialize {
                Some(ErrorCode::InvalidRequest)
            } else {
                None
            },
            LifecycleState::ShuttingDown => Some(ErrorCode::InvalidRequest),
            LifecycleState::Exited => Some(ErrorCode::InvalidRequest),
        };
        match gate_err {
            Some(e) => {
                return Outcome::Reply(Response { id: req.id, result: Err(e) });
            },
            None => {},
        }
        if kind == MethodKind::Initialize {
            match req.params {
                Params::Initialize { client_supports_utf8, root_uri: _ } => {
                    self.state = LifecycleState::Initializing;
                    self.encoding = negotiate_encoding(client_supports_utf8);
                    self.state = LifecycleState::Running;
                    let body = ResponseBody::Capabilities {
                        caps: self.caps,
                        encoding: self.encoding,
                        server_name: server_name(),
                        server_version: server_version(),
                    };
                    return Outcome::Reply(Response { id: req.id, result: Ok(body) });
                },
                _ => {
                    return Outcome::Reply(Response { id: req.id, result: Err(ErrorCode::InvalidParams) });
                },
            }
        }
        if kind == MethodKind::Shutdown {
            self.state = LifecycleState::ShuttingDown;
            return Outcome::Reply(Response { id: req.id, result: Ok(ResponseBody::Null) });
        }
        if kind_is_notification(kind) {
            return Outcome::Reply(Response { id: req.id, result: Err(ErrorCode::InvalidRequest) });
        }
        let feat = match feature_gate(kind) {
            FeatureGate::Needs(f) => f,
            FeatureGate::Lifecycle => {
                return Outcome::Reply(Response { id: req.id, result: Err(ErrorCode::MethodNotFound) });
            },
            FeatureGate::NotAdvertised => {
                return Outcome::Reply(Response { id: req.id, result: Err(ErrorCode::MethodNotFound) });
            },
        };
        if !self.caps.enabled(feat) {
            return Outcome::Reply(Response { id: req.id, result: Err(ErrorCode::MethodNotFound) });
        }
        if !params_ok(kind, &req.params) {
            return Outcome::Reply(Response { id: req.id, result: Err(ErrorCode::InvalidParams) });
        }
        if self.pending.contains(&req.id) {
            return Outcome::Reply(Response { id: req.id, result: Err(ErrorCode::InvalidRequest) });
        }
        let doc: Option<String> = match &req.params {
            Params::AtPosition { uri, .. } => Some(uri.clone()),
            Params::References { uri, .. } => Some(uri.clone()),
            Params::OverRange { uri, .. } => Some(uri.clone()),
            _ => None,
        };
        let revision: Option<i32> = match &req.params {
            Params::AtPosition { uri, .. } => self.docs.revision_of(uri),
            Params::References { uri, .. } => self.docs.revision_of(uri),
            Params::OverRange { uri, .. } => self.docs.revision_of(uri),
            _ => None,
        };
        let entry = PendingEntry {
            id: req.id.duplicate(),
            kind,
            cancelled: false,
            doc,
            revision,
        };
        self.pending.insert(entry);
        Outcome::Task(Task { id: req.id, kind, params: req.params, revision })
    }

    /// Applies one notification inline. A notification never produces a
    /// response frame; `exit` is honoured in every state and tears the
    /// session down, cleanly when `shutdown` preceded it.
    #[verifier::rlimit(50)]
    pub fn on_notification(&mut self, note: Notification) -> (out: Outcome)
        requires
            old(self).wf(),
        ensures
            notification_step_ok(*old(self), *final(self), note, out),
    {
        let kind = parse_method(note.method.as_str());
        if kind == MethodKind::Exit {
            let clean = self.state == LifecycleState::ShuttingDown;
            self.state = LifecycleState::Exited;
            return Outcome::Exit { clean };
        }
        if !(self.state == LifecycleState::Running) {
            return Outcome::Silent;
        }
        if kind == MethodKind::CancelRequest {
            match note.params {
                Params::Cancel { id } => {
                    let _ = self.pending.cancel(&id);
                },
                _ => {},
            }
            return Outcome::Silent;
        }
        if kind == MethodKind::DidOpen || kind == MethodKind::DidChange {
            if self.caps.enabled(Feature::DocumentSync) {
                match note.params {
                    Params::DocVersioned { uri, version } => {
                        self.docs.record(uri, version);
                    },
                    _ => {},
                }
            }
            return Outcome::Silent;
        }
        if kind == MethodKind::DidClose {
            if self.caps.enabled(Feature::DocumentSync) {
                match note.params {
                    Params::Doc { uri } => {
                        self.docs.close(&uri);
                    },
                    _ => {},
                }
            }
            return Outcome::Silent;
        }
        Outcome::Silent
    }

    /// Correlates an engine answer with the pending table. An id that is in
    /// flight is deregistered and answered with exactly one frame carrying
    /// that id: its cancellation flag wins, then a moved document snapshot,
    /// then the shaped answer. An id that is not in flight gets nothing —
    /// its one response was already sent, or it was never accepted.
    pub fn on_engine_reply(&mut self, id: RequestId, reply: EngineReply) -> (out: Option<
        Response,
    >)
        requires
            old(self).wf(),
        ensures
            final(self).wf(),
            final(self).lifecycle() == old(self).lifecycle(),
            final(self).capability_set() == old(self).capability_set(),
            final(self).offset_encoding() == old(self).offset_encoding(),
            forall|u: Seq<char>|
                final(self).doc_revision(u) == old(self).doc_revision(u),
            (old(self).pending_entry(id) is None ==> out is None && forall|id2: RequestId|
                final(self).pending_entry(id2) == old(self).pending_entry(id2)),
            (old(self).pending_entry(id) matches Some(e) ==> {
                &&& forall|id2: RequestId|
                    final(self).pending_entry(id2) == (if id_eq(id, id2) {
                        None::<PendingEntry>
                    } else {
                        old(self).pending_entry(id2)
                    })
                &&& out matches Some(r)
                &&& r.id == id
                &&& r.result == (if e.cancelled {
                    Err::<ResponseBody, ErrorCode>(ErrorCode::RequestCancelled)
                } else if snapshot_stale(e, *old(self)) {
                    Err::<ResponseBody, ErrorCode>(ErrorCode::ContentModified)
                } else {
                    spec_shape(e.kind, reply)
                })
            }),
    {
        let removed = self.pending.remove(&id);
        proof {
            if old(self).pending.spec_lookup(id) is None {
                assert forall|id2: RequestId|
                    self.pending.spec_lookup(id2) == old(self).pending.spec_lookup(id2) by {
                    if id_eq(id, id2) {
                        old(self).pending.lemma_respects_id_eq(id, id2);
                    }
                }
            }
        }
        match removed {
            None => None,
            Some(e) => {
                let result: Result<ResponseBody, ErrorCode> = if e.cancelled {
                    Err(ErrorCode::RequestCancelled)
                } else {
                    let stale: bool = match &e.doc {
                        Some(u) => {
                            let cur = self.docs.revision_of(u);
                            !opt_version_eq(cur, e.revision)
                        },
                        None => false,
                    };
                    if stale {
                        Err(ErrorCode::ContentModified)
                    } else {
                        shape_reply(e.kind, reply)
                    }
                };
                Some(Response { id, result })
            },
        }
    }

    /// Routes one decoded envelope: requests are always answered under their
    /// own id, notifications never are.
    pub fn on_message(&mut self, msg: Message) -> (out: Outcome)
        requires
            old(self).wf(),
        ensures
            final(self).wf(),
            // a request envelope is routed under the request contract in
            // full: answered or tasked under its own id, gated by phase
            (msg matches Message::Request(req) ==> request_step_ok(
                *old(self),
                *final(self),
                req,
                out,
            )),
            // a notification envelope is routed under the notification
            // contract in full: never a response frame, exit always honoured
            (msg matches Message::Notification(n) ==> notification_step_ok(
                *old(self),
                *final(self),
                n,
                out,
            )),
    {
        match msg {
            Message::Request(req) => self.on_request(req),
            Message::Notification(note) => self.on_notification(note),
        }
    }
}

/// Law: a second `initialize`, in any state but the starting one, is gated
/// to an `InvalidRequest` answer before any handler can run.
pub proof fn lemma_second_initialize_refused(state: LifecycleState)
    requires
        state != LifecycleState::Uninitialized,
    ensures
        request_gate(state, MethodKind::Initialize) == Some(ErrorCode::InvalidRequest),
{
}

/// Law: while uninitialized, every request but `initialize` is gated to a
/// `ServerNotInitialized` answer.
pub proof fn lemma_uninitialized_refuses(kind: MethodKind)
    requires
        kind != MethodKind::Initialize,
    ensures
        request_gate(LifecycleState::Uninitialized, kind) == Some(ErrorCode::ServerNotInitialized),
{
}

/// Law: while shutting down, every request is gated to an `InvalidRequest`
/// answer; only the `exit` notification is still acted on.
pub proof fn lemma_shutting_down_refuses(kind: MethodKind)
    ensures
        request_gate(LifecycleState::ShuttingDown, kind) == Some(ErrorCode::InvalidRequest),
{
}

/// Law: `negotiates` holds in no state but the first. Together with the
/// encoding clause of `request_step_ok`, the negotiated values are final.
pub proof fn lemma_negotiation_is_once(state: LifecycleState, req: Request)
    requires
        state != LifecycleState::Uninitialized,
    ensures
        !negotiates(state, req),
{
}

/// Law: a query dispatched after an edit has been applied carries that
/// edit's revision. `on_notification` ensures that a `didChange` for a URI
/// establishes its version in the document store before it returns, and
/// `on_request` ensures that the task it hands out snapshots exactly
/// `snapshot_revision` of the core it saw — so a read that follows a write
/// in receipt order reflects that write.
pub proof fn lemma_query_sees_applied_revision(c: Core, p: Params, uri: String, version: i32)
    requires
        doc_of_params(p) matches Some(u) && u@ == uri@,
        c.doc_revision(uri@) == Some(version),
    ensures
        snapshot_revision(c, p) == Some(version),
{
}

/// Law: a navigation or reference task always answers with the engine's
/// list of locations, so a position with no known target gets the empty
/// list — a successful body, never null and never an error.
pub proof fn lemma_no_target_answers_empty_list(kind: MethodKind, v: Vec<crate::protocol::Location>)
    requires
        kind == MethodKind::GotoDeclaration || kind == MethodKind::GotoDefinition
            || kind == MethodKind::GotoTypeDefinition || kind == MethodKind::GotoImplementation
            || kind == MethodKind::References,
    ensures
        spec_shape(kind, EngineReply::Targets(v)) == Ok::<ResponseBody, ErrorCode>(
            ResponseBody::Locations(v),
        ),
{
}

} // verus!
