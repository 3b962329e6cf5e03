use valkyrie_lsp::capabilities::CapabilitySet;
use valkyrie_lsp::capabilities::OffsetEncoding;
use valkyrie_lsp::dispatch::Core;
use valkyrie_lsp::ids::RequestId;
use valkyrie_lsp::protocol::EngineReply;
use valkyrie_lsp::protocol::ErrorCode;
use valkyrie_lsp::protocol::Outcome;
use valkyrie_lsp::protocol::Params;
use valkyrie_lsp::protocol::Position;
use valkyrie_lsp::protocol::Request;
use valkyrie_lsp::protocol::Notification;
use valkyrie_lsp::protocol::ResponseBody;
use valkyrie_lsp::session::LifecycleState;

fn init_request(id: u64, utf8: bool) -> Request {
    Request {
        id: RequestId::Num(id),
        method: "initialize".to_string(),
        params: Params::Initialize {
            client_supports_utf8: utf8,
            root_uri: Some("file:///proj".to_string()),
        },
    }
}

fn hover_request(id: u64, uri: &str) -> Request {
    Request {
        id: RequestId::Num(id),
        method: "textDocument/hover".to_string(),
        params: Params::AtPosition {
            uri: uri.to_string(),
            position: Position { line: 0, character: 0 },
        },
    }
}

fn notification(method: &str, params: Params) -> Notification {
    Notification { method: method.to_string(), params }
}

fn running_core() -> Core {
    let mut core = Core::new(CapabilitySet::server_default());
    let out = core.on_request(init_request(1, true));
    assert!(matches!(out, Outcome::Reply(_)));
    core
}

#[test]
fn end_to_end_session() {
    let mut core = Core::new(CapabilitySet::server_default());
    assert_eq!(core.lifecycle_state(), LifecycleState::Uninitialized);

    let out = core.on_request(init_request(1, true));
    match out {
        Outcome::Reply(r) => {
            assert!(matches!(r.id, RequestId::Num(1)));
            match r.result {
                Ok(ResponseBody::Capabilities { caps, encoding, server_name, .. }) => {
                    assert!(caps.hover);
                    assert_eq!(encoding, OffsetEncoding::Utf8);
                    assert_eq!(server_name, "Valkyrie Language Server");
                }
                other => panic!("unexpected initialize result: {:?}", other),
            }
        }
        other => panic!("initialize must be answered immediately: {:?}", other),
    }
    assert_eq!(core.lifecycle_state(), LifecycleState::Running);

    let out = core.on_notification(notification("initialized", Params::Missing));
    assert!(matches!(out, Outcome::Silent));

    let out = core.on_request(hover_request(2, "file:///proj/a.src"));
    let task = match out {
        Outcome::Task(t) => t,
        other => panic!("hover must be handed to the engine: {:?}", other),
    };
    assert!(matches!(task.id, RequestId::Num(2)));
    let answer = core.on_engine_reply(
        task.id,
        EngineReply::HoverText(Some("a symbol".to_string())),
    );
    match answer {
        Some(r) => {
            assert!(matches!(r.id, RequestId::Num(2)));
            match r.result {
                Ok(ResponseBody::Hover(Some(text))) => assert_eq!(text, "a symbol"),
                other => panic!("hover must return non-null markup here: {:?}", other),
            }
        }
        None => panic!("an in-flight id must be answered"),
    }

    let out = core.on_request(Request {
        id: RequestId::Num(3),
        method: "shutdown".to_string(),
        params: Params::Missing,
    });
    match out {
        Outcome::Reply(r) => assert!(matches!(r.result, Ok(ResponseBody::Null))),
        other => panic!("shutdown must succeed: {:?}", other),
    }
    assert_eq!(core.lifecycle_state(), LifecycleState::ShuttingDown);

    let out = core.on_notification(notification("exit", Params::Missing));
    assert!(matches!(out, Outcome::Exit { clean: true }));
    assert_eq!(core.lifecycle_state(), LifecycleState::Exited);
}

#[test]
fn notifications_never_get_a_response() {
    let mut core = running_core();
    let notes = [
        ("initialized", Params::Missing),
        ("textDocument/didOpen", Params::DocVersioned { uri: "file:///a".to_string(), version: 1 }),
        ("textDocument/didChange", Params::DocVersioned { uri: "file:///a".to_string(), version: 2 }),
        ("textDocument/didSave", Params::Doc { uri: "file:///a".to_string() }),
        ("textDocument/didClose", Params::Doc { uri: "file:///a".to_string() }),
        ("workspace/didChangeConfiguration", Params::Opaque),
        ("workspace/didChangeWatchedFiles", Params::Opaque),
        ("some/unknownNotification", Params::Opaque),
    ];
    for (method, params) in notes {
        let out = core.on_notification(notification(method, params));
        assert!(matches!(out, Outcome::Silent), "{} must stay silent", method);
    }
}

#[test]
fn accepted_id_is_answered_exactly_once() {
    let mut core = running_core();
    let out = core.on_request(hover_request(7, "file:///a"));
    assert!(matches!(out, Outcome::Task(_)));
    assert!(core.in_flight(&RequestId::Num(7)));

    // a duplicate id while the first is still in flight is refused
    let out = core.on_request(hover_request(7, "file:///a"));
    match out {
        Outcome::Reply(r) => assert_eq!(r.result.unwrap_err(), ErrorCode::InvalidRequest),
        other => panic!("duplicate id must be refused: {:?}", other),
    }

    let first = core.on_engine_reply(RequestId::Num(7), EngineReply::HoverText(None));
    assert!(first.is_some());
    assert!(!core.in_flight(&RequestId::Num(7)));
    let second = core.on_engine_reply(RequestId::Num(7), EngineReply::HoverText(None));
    assert!(second.is_none(), "a second engine answer must not produce a second frame");
}

#[test]
fn second_initialize_is_invalid_in_every_state() {
    // while running
    let mut core = running_core();
    let out = core.on_request(init_request(9, true));
    match out {
        Outcome::Reply(r) => assert_eq!(r.result.unwrap_err(), ErrorCode::InvalidRequest),
        other => panic!("second initialize must be refused: {:?}", other),
    }
    // while shutting down
    let out = core.on_request(Request {
        id: RequestId::Num(10),
        method: "shutdown".to_string(),
        params: Params::Missing,
    });
    assert!(matches!(out, Outcome::Reply(_)));
    let out = core.on_request(init_request(11, true));
    match out {
        Outcome::Reply(r) => assert_eq!(r.result.unwrap_err(), ErrorCode::InvalidRequest),
        other => panic!("initialize while shutting down must be refused: {:?}", other),
    }
}

#[test]
fn uninitialized_serves_only_initialize() {
    let mut core = Core::new(CapabilitySet::server_default());
    let out = core.on_request(hover_request(1, "file:///a"));
    match out {
        Outcome::Reply(r) => assert_eq!(r.result.unwrap_err(), ErrorCode::ServerNotInitialized),
        other => panic!("early request must be refused: {:?}", other),
    }
    let out = core.on_request(Request {
        id: RequestId::Num(2),
        method: "shutdown".to_string(),
        params: Params::Missing,
    });
    match out {
        Outcome::Reply(r) => assert_eq!(r.result.unwrap_err(), ErrorCode::ServerNotInitialized),
        other => panic!("early shutdown must be refused: {:?}", other),
    }
}

#[test]
fn exit_is_accepted_in_every_state() {
    // from uninitialized: accepted, but not a clean exit
    let mut core = Core::new(CapabilitySet::server_default());
    let out = core.on_notification(notification("exit", Params::Missing));
    assert!(matches!(out, Outcome::Exit { clean: false }));
    assert_eq!(core.lifecycle_state(), LifecycleState::Exited);

    // from running: accepted, not clean without a shutdown
    let mut core = running_core();
    let out = core.on_notification(notification("exit", Params::Missing));
    assert!(matches!(out, Outcome::Exit { clean: false }));
    assert_eq!(core.lifecycle_state(), LifecycleState::Exited);
}

#[test]
fn shutting_down_refuses_every_request() {
    let mut core = running_core();
    let out = core.on_request(Request {
        id: RequestId::Num(2),
        method: "shutdown".to_string(),
        params: Params::Missing,
    });
    assert!(matches!(out, Outcome::Reply(_)));
    for (i, method) in ["textDocument/hover", "textDocument/definition", "shutdown"]
        .iter()
        .enumerate()
    {
        let out = core.on_request(Request {
            id: RequestId::Num(100 + i as u64),
            method: method.to_string(),
            params: Params::Opaque,
        });
        match out {
            Outcome::Reply(r) => assert_eq!(r.result.unwrap_err(), ErrorCode::InvalidRequest),
            other => panic!("{} must be invalid while shutting down: {:?}", method, other),
        }
    }
    // non-exit notifications are ignored without effect
    let out = core.on_notification(notification(
        "textDocument/didOpen",
        Params::DocVersioned { uri: "file:///a".to_string(), version: 1 },
    ));
    assert!(matches!(out, Outcome::Silent));
    assert_eq!(core.document_revision(&"file:///a".to_string()), None);
}

#[test]
fn string_ids_correlate_by_content() {
    let mut core = running_core();
    let out = core.on_request(Request {
        id: RequestId::Str("alpha".to_string()),
        method: "textDocument/hover".to_string(),
        params: Params::AtPosition {
            uri: "file:///a".to_string(),
            position: Position { line: 1, character: 2 },
        },
    });
    assert!(matches!(out, Outcome::Task(_)));
    let answer = core.on_engine_reply(
        RequestId::Str("alpha".to_string()),
        EngineReply::HoverText(None),
    );
    match answer {
        Some(r) => assert!(matches!(r.id, RequestId::Str(s) if s == "alpha")),
        None => panic!("string ids must correlate by content"),
    }
}
