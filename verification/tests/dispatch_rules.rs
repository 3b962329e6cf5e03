use valkyrie_lsp::capabilities::CapabilitySet;
use valkyrie_lsp::capabilities::OffsetEncoding;
use valkyrie_lsp::dispatch::Core;
use valkyrie_lsp::ids::RequestId;
use valkyrie_lsp::methods::MethodKind;
use valkyrie_lsp::methods::parse_method;
use valkyrie_lsp::protocol::EngineReply;
use valkyrie_lsp::protocol::ErrorCode;
use valkyrie_lsp::protocol::Location;
use valkyrie_lsp::protocol::Notification;
use valkyrie_lsp::protocol::Outcome;
use valkyrie_lsp::protocol::Params;
use valkyrie_lsp::protocol::Position;
use valkyrie_lsp::protocol::Range;
use valkyrie_lsp::protocol::Request;
use valkyrie_lsp::protocol::ResponseBody;

fn running_core() -> Core {
    let mut core = Core::new(CapabilitySet::server_default());
    let out = core.on_request(Request {
        id: RequestId::Num(1),
        method: "initialize".to_string(),
        params: Params::Initialize { client_supports_utf8: false, root_uri: None },
    });
    assert!(matches!(out, Outcome::Reply(_)));
    core
}

fn position_params(uri: &str) -> Params {
    Params::AtPosition {
        uri: uri.to_string(),
        position: Position { line: 3, character: 4 },
    }
}

#[test]
fn utf16_is_the_fallback_encoding() {
    let core = running_core();
    assert_eq!(core.current_encoding(), OffsetEncoding::Utf16);
}

#[test]
fn negotiated_encoding_is_immutable_after_initialize() {
    let mut core = Core::new(CapabilitySet::server_default());
    let out = core.on_request(Request {
        id: RequestId::Num(1),
        method: "initialize".to_string(),
        params: Params::Initialize { client_supports_utf8: true, root_uri: None },
    });
    assert!(matches!(out, Outcome::Reply(_)));
    assert_eq!(core.current_encoding(), OffsetEncoding::Utf8);

    // a late initialize asking for the other encoding is refused and moves nothing
    let out = core.on_request(Request {
        id: RequestId::Num(2),
        method: "initialize".to_string(),
        params: Params::Initialize { client_supports_utf8: false, root_uri: None },
    });
    match out {
        Outcome::Reply(r) => assert_eq!(r.result.unwrap_err(), ErrorCode::InvalidRequest),
        other => panic!("second initialize must be refused: {:?}", other),
    }
    assert_eq!(core.current_encoding(), OffsetEncoding::Utf8);

    // shutdown does not touch the negotiation either
    let out = core.on_request(Request {
        id: RequestId::Num(3),
        method: "shutdown".to_string(),
        params: Params::Missing,
    });
    assert!(matches!(out, Outcome::Reply(_)));
    assert_eq!(core.current_encoding(), OffsetEncoding::Utf8);
    assert!(core.registry().hover);
}

#[test]
fn goto_definition_with_no_target_returns_empty_list() {
    let mut core = running_core();
    let out = core.on_request(Request {
        id: RequestId::Num(2),
        method: "textDocument/definition".to_string(),
        params: position_params("file:///proj/a.src"),
    });
    assert!(matches!(out, Outcome::Task(_)));
    let answer = core.on_engine_reply(RequestId::Num(2), EngineReply::Targets(Vec::new()));
    match answer {
        Some(r) => match r.result {
            Ok(ResponseBody::Locations(v)) => assert!(v.is_empty()),
            other => panic!("no target must be an empty list, got {:?}", other),
        },
        None => panic!("definition must be answered"),
    }
}

#[test]
fn goto_declaration_may_return_several_locations() {
    let mut core = running_core();
    let out = core.on_request(Request {
        id: RequestId::Num(2),
        method: "textDocument/declaration".to_string(),
        params: position_params("file:///proj/a.src"),
    });
    assert!(matches!(out, Outcome::Task(_)));
    let loc = |line: u32| Location {
        uri: "file:///proj/a.src".to_string(),
        range: Range {
            start: Position { line, character: 0 },
            end: Position { line, character: 5 },
        },
    };
    let answer = core.on_engine_reply(RequestId::Num(2), EngineReply::Targets(vec![loc(1), loc(9)]));
    match answer {
        Some(r) => match r.result {
            Ok(ResponseBody::Locations(v)) => assert_eq!(v.len(), 2),
            other => panic!("unexpected declaration answer: {:?}", other),
        },
        None => panic!("declaration must be answered"),
    }
}

#[test]
fn hover_reflects_the_latest_revision() {
    let mut core = running_core();
    let uri = "file:///proj/a.src".to_string();
    core.on_notification(Notification {
        method: "textDocument/didOpen".to_string(),
        params: Params::DocVersioned { uri: uri.clone(), version: 1 },
    });
    core.on_notification(Notification {
        method: "textDocument/didChange".to_string(),
        params: Params::DocVersioned { uri: uri.clone(), version: 7 },
    });
    assert_eq!(core.document_revision(&uri), Some(7));

    let out = core.on_request(Request {
        id: RequestId::Num(2),
        method: "textDocument/hover".to_string(),
        params: position_params(&uri),
    });
    match out {
        Outcome::Task(t) => assert_eq!(t.revision, Some(7)),
        other => panic!("hover must be dispatched: {:?}", other),
    }
    let answer = core.on_engine_reply(RequestId::Num(2), EngineReply::HoverText(Some("v7".to_string())));
    assert!(matches!(answer, Some(r) if matches!(r.result, Ok(ResponseBody::Hover(Some(_))))));
}

#[test]
fn an_edit_between_dispatch_and_answer_invalidates_the_query() {
    let mut core = running_core();
    let uri = "file:///proj/a.src".to_string();
    core.on_notification(Notification {
        method: "textDocument/didOpen".to_string(),
        params: Params::DocVersioned { uri: uri.clone(), version: 1 },
    });
    let out = core.on_request(Request {
        id: RequestId::Num(2),
        method: "textDocument/hover".to_string(),
        params: position_params(&uri),
    });
    assert!(matches!(out, Outcome::Task(_)));
    core.on_notification(Notification {
        method: "textDocument/didChange".to_string(),
        params: Params::DocVersioned { uri: uri.clone(), version: 2 },
    });
    let answer = core.on_engine_reply(RequestId::Num(2), EngineReply::HoverText(None));
    match answer {
        Some(r) => assert_eq!(r.result.unwrap_err(), ErrorCode::ContentModified),
        None => panic!("the id was in flight and must be answered"),
    }
}

#[test]
fn cancellation_is_cooperative() {
    let mut core = running_core();
    let out = core.on_request(Request {
        id: RequestId::Num(2),
        method: "textDocument/references".to_string(),
        params: Params::References {
            uri: "file:///a".to_string(),
            position: Position { line: 0, character: 0 },
            include_declaration: true,
        },
    });
    assert!(matches!(out, Outcome::Task(_)));
    let out = core.on_notification(Notification {
        method: "$/cancelRequest".to_string(),
        params: Params::Cancel { id: RequestId::Num(2) },
    });
    assert!(matches!(out, Outcome::Silent));
    let answer = core.on_engine_reply(RequestId::Num(2), EngineReply::Targets(Vec::new()));
    match answer {
        Some(r) => assert_eq!(r.result.unwrap_err(), ErrorCode::RequestCancelled),
        None => panic!("a cancelled request is still answered, with an error"),
    }
}

#[test]
fn unknown_and_disabled_methods_are_method_not_found() {
    let mut core = running_core();
    for method in [
        "textDocument/completion",
        "textDocument/formatting",
        "textDocument/semanticTokens/full",
        "workspace/executeCommand",
        "textDocument/willSaveWaitUntil",
        "no/such/method",
    ] {
        let out = core.on_request(Request {
            id: RequestId::Num(50),
            method: method.to_string(),
            params: Params::Opaque,
        });
        match out {
            Outcome::Reply(r) => assert_eq!(
                r.result.unwrap_err(),
                ErrorCode::MethodNotFound,
                "{} must be MethodNotFound",
                method
            ),
            other => panic!("{} must be answered immediately: {:?}", method, other),
        }
    }
    // a feature that this instance has switched off is routed the same way
    let mut caps = CapabilitySet::server_default();
    caps.hover = false;
    let mut core = Core::new(caps);
    let out = core.on_request(Request {
        id: RequestId::Num(1),
        method: "initialize".to_string(),
        params: Params::Initialize { client_supports_utf8: true, root_uri: None },
    });
    assert!(matches!(out, Outcome::Reply(_)));
    let out = core.on_request(Request {
        id: RequestId::Num(2),
        method: "textDocument/hover".to_string(),
        params: position_params("file:///a"),
    });
    match out {
        Outcome::Reply(r) => assert_eq!(r.result.unwrap_err(), ErrorCode::MethodNotFound),
        other => panic!("disabled hover must be MethodNotFound: {:?}", other),
    }
}

#[test]
fn malformed_payloads_are_invalid_params() {
    let mut core = running_core();
    let out = core.on_request(Request {
        id: RequestId::Num(2),
        method: "textDocument/hover".to_string(),
        params: Params::Opaque,
    });
    match out {
        Outcome::Reply(r) => assert_eq!(r.result.unwrap_err(), ErrorCode::InvalidParams),
        other => panic!("bad hover payload must be InvalidParams: {:?}", other),
    }
    let out = core.on_request(Request {
        id: RequestId::Num(3),
        method: "textDocument/codeAction".to_string(),
        params: Params::Missing,
    });
    match out {
        Outcome::Reply(r) => assert_eq!(r.result.unwrap_err(), ErrorCode::InvalidParams),
        other => panic!("bad codeAction payload must be InvalidParams: {:?}", other),
    }
}

#[test]
fn a_request_under_a_notification_method_is_invalid() {
    let mut core = running_core();
    let out = core.on_request(Request {
        id: RequestId::Num(2),
        method: "exit".to_string(),
        params: Params::Missing,
    });
    match out {
        Outcome::Reply(r) => assert_eq!(r.result.unwrap_err(), ErrorCode::InvalidRequest),
        other => panic!("a request named exit is invalid: {:?}", other),
    }
}

#[test]
fn mismatched_engine_answer_is_an_internal_error() {
    let mut core = running_core();
    let out = core.on_request(Request {
        id: RequestId::Num(2),
        method: "textDocument/hover".to_string(),
        params: position_params("file:///a"),
    });
    assert!(matches!(out, Outcome::Task(_)));
    let answer = core.on_engine_reply(RequestId::Num(2), EngineReply::Targets(Vec::new()));
    match answer {
        Some(r) => assert_eq!(r.result.unwrap_err(), ErrorCode::InternalError),
        None => panic!("the id was in flight and must be answered"),
    }
}

#[test]
fn wire_codes_match_the_taxonomy() {
    assert_eq!(ErrorCode::ParseError.code(), -32700);
    assert_eq!(ErrorCode::InvalidRequest.code(), -32600);
    assert_eq!(ErrorCode::MethodNotFound.code(), -32601);
    assert_eq!(ErrorCode::InvalidParams.code(), -32602);
    assert_eq!(ErrorCode::InternalError.code(), -32603);
    assert_eq!(ErrorCode::ServerNotInitialized.code(), -32002);
    assert_eq!(ErrorCode::RequestCancelled.code(), -32800);
    assert_eq!(ErrorCode::ContentModified.code(), -32801);
}

#[test]
fn the_method_table_resolves_names() {
    assert_eq!(parse_method("initialize"), MethodKind::Initialize);
    assert_eq!(parse_method("textDocument/hover"), MethodKind::Hover);
    assert_eq!(parse_method("typeHierarchy/supertypes"), MethodKind::Supertypes);
    assert_eq!(parse_method("workspace/didChangeWatchedFiles"), MethodKind::DidChangeWatchedFiles);
    assert_eq!(parse_method("codeAction/resolve"), MethodKind::CodeActionResolve);
    assert_eq!(parse_method("textDocument/Hover"), MethodKind::Unknown);
    assert_eq!(parse_method(""), MethodKind::Unknown);
}

#[test]
fn did_close_forgets_the_document() {
    let mut core = running_core();
    let uri = "file:///proj/a.src".to_string();
    core.on_notification(Notification {
        method: "textDocument/didOpen".to_string(),
        params: Params::DocVersioned { uri: uri.clone(), version: 4 },
    });
    assert_eq!(core.document_revision(&uri), Some(4));
    core.on_notification(Notification {
        method: "textDocument/didClose".to_string(),
        params: Params::Doc { uri: uri.clone() },
    });
    assert_eq!(core.document_revision(&uri), None);
}
