use valkyrie_lsp::capabilities::CapabilitySet;
use valkyrie_lsp::dispatch::Core;
use valkyrie_lsp::ids::RequestId;
use valkyrie_lsp::protocol::ActionOrCommand;
use valkyrie_lsp::protocol::DocumentEdit;
use valkyrie_lsp::protocol::EngineReply;
use valkyrie_lsp::protocol::ErrorCode;
use valkyrie_lsp::protocol::Message;
use valkyrie_lsp::protocol::Notification;
use valkyrie_lsp::protocol::Outcome;
use valkyrie_lsp::protocol::Params;
use valkyrie_lsp::protocol::Position;
use valkyrie_lsp::protocol::Range;
use valkyrie_lsp::protocol::Request;
use valkyrie_lsp::protocol::ResponseBody;
use valkyrie_lsp::protocol::WorkspaceEditData;
use valkyrie_lsp::session::LifecycleState;

fn whole_line(line: u32) -> Range {
    Range {
        start: Position { line, character: 0 },
        end: Position { line, character: 80 },
    }
}

fn core_with(caps: CapabilitySet) -> Core {
    let mut core = Core::new(caps);
    let out = core.on_request(Request {
        id: RequestId::Num(1),
        method: "initialize".to_string(),
        params: Params::Initialize { client_supports_utf8: true, root_uri: None },
    });
    assert!(matches!(out, Outcome::Reply(_)));
    core
}

#[test]
fn code_action_returns_the_engine_entries() {
    let mut core = core_with(CapabilitySet::server_default());
    let out = core.on_request(Request {
        id: RequestId::Num(2),
        method: "textDocument/codeAction".to_string(),
        params: Params::OverRange {
            uri: "file:///a".to_string(),
            range: whole_line(3),
        },
    });
    assert!(matches!(out, Outcome::Task(_)));
    let entries = vec![
        ActionOrCommand::Action {
            title: "organize imports".to_string(),
            command: "organizeImports".to_string(),
        },
        ActionOrCommand::Command {
            title: "run checks".to_string(),
            command: "runChecks".to_string(),
        },
    ];
    let answer = core.on_engine_reply(RequestId::Num(2), EngineReply::Actions(entries));
    match answer {
        Some(r) => match r.result {
            Ok(ResponseBody::Actions(v)) => {
                assert_eq!(v.len(), 2);
                assert!(matches!(&v[0], ActionOrCommand::Action { title, .. } if title == "organize imports"));
            }
            other => panic!("unexpected codeAction answer: {:?}", other),
        },
        None => panic!("codeAction must be answered"),
    }
}

#[test]
fn resolving_the_same_action_twice_yields_the_same_edit() {
    let action = || ActionOrCommand::Action {
        title: "organize imports".to_string(),
        command: "organizeImports".to_string(),
    };
    let mut results = Vec::new();
    for id in [2u64, 3u64] {
        let mut core = core_with(CapabilitySet::server_default());
        let out = core.on_request(Request {
            id: RequestId::Num(id),
            method: "codeAction/resolve".to_string(),
            params: Params::Action { action: action() },
        });
        assert!(matches!(out, Outcome::Task(_)));
        let answer = core.on_engine_reply(RequestId::Num(id), EngineReply::ResolvedAction(action()));
        match answer {
            Some(r) => match r.result {
                Ok(ResponseBody::ResolvedAction(a)) => results.push(format!("{:?}", a)),
                other => panic!("unexpected resolve answer: {:?}", other),
            },
            None => panic!("resolve must be answered"),
        }
    }
    assert_eq!(results[0], results[1]);
}

#[test]
fn file_operation_hooks_obey_their_registry_flag() {
    // switched off in the default build: MethodNotFound
    let mut core = core_with(CapabilitySet::server_default());
    let out = core.on_request(Request {
        id: RequestId::Num(2),
        method: "workspace/willRenameFiles".to_string(),
        params: Params::Files { uris: vec!["file:///a".to_string()] },
    });
    match out {
        Outcome::Reply(r) => assert_eq!(r.result.unwrap_err(), ErrorCode::MethodNotFound),
        other => panic!("disabled hook must be MethodNotFound: {:?}", other),
    }

    // switched on: dispatched, and answered with the engine's edit plan
    let mut caps = CapabilitySet::server_default();
    caps.file_operations = true;
    let mut core = core_with(caps);
    let out = core.on_request(Request {
        id: RequestId::Num(2),
        method: "workspace/willRenameFiles".to_string(),
        params: Params::Files { uris: vec!["file:///a".to_string()] },
    });
    assert!(matches!(out, Outcome::Task(_)));
    let plan = WorkspaceEditData {
        edits: vec![DocumentEdit {
            uri: "file:///a".to_string(),
            range: whole_line(0),
            new_text: "renamed".to_string(),
        }],
    };
    let answer = core.on_engine_reply(RequestId::Num(2), EngineReply::Edit(Some(plan)));
    match answer {
        Some(r) => match r.result {
            Ok(ResponseBody::Edit(Some(p))) => assert_eq!(p.edits.len(), 1),
            other => panic!("unexpected hook answer: {:?}", other),
        },
        None => panic!("the hook must be answered"),
    }
}

#[test]
fn envelopes_route_like_their_parts() {
    let mut core = Core::new(CapabilitySet::server_default());
    let out = core.on_message(Message::Request(Request {
        id: RequestId::Num(1),
        method: "initialize".to_string(),
        params: Params::Initialize { client_supports_utf8: true, root_uri: None },
    }));
    assert!(matches!(out, Outcome::Reply(_)));
    let out = core.on_message(Message::Notification(Notification {
        method: "initialized".to_string(),
        params: Params::Missing,
    }));
    assert!(matches!(out, Outcome::Silent));
    let out = core.on_message(Message::Notification(Notification {
        method: "exit".to_string(),
        params: Params::Missing,
    }));
    assert!(matches!(out, Outcome::Exit { clean: false }));
    assert_eq!(core.lifecycle_state(), LifecycleState::Exited);
}
