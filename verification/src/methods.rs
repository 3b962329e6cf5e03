//! The dispatcher's method table: every method name the server routes, its
//! request-or-notification nature, and the capability flag that gates it.

use vstd::prelude::*;
use crate::capabilities::Feature;

verus! {

/// One routable method of the protocol surface. `Unknown` stands for any
/// name outside the table.
#[derive(Clone, Copy, PartialEq, Eq, Structural, Debug)]
pub enum MethodKind {
    Initialize,
    Initialized,
    Shutdown,
    Exit,
    CancelRequest,
    DidOpen,
    DidChange,
    WillSave,
    WillSaveWaitUntil,
    DidSave,
    DidClose,
    GotoDeclaration,
    GotoDefinition,
    GotoTypeDefinition,
    GotoImplementation,
    References,
    PrepareCallHierarchy,
    IncomingCalls,
    OutgoingCalls,
    PrepareTypeHierarchy,
    Supertypes,
    Subtypes,
    DocumentHighlight,
    DocumentLink,
    DocumentLinkResolve,
    Hover,
    CodeLens,
    CodeLensResolve,
    FoldingRange,
    SelectionRange,
    DocumentSymbol,
    SemanticTokensFull,
    SemanticTokensFullDelta,
    SemanticTokensRange,
    InlineValue,
    InlayHint,
    InlayHintResolve,
    Moniker,
    Completion,
    CompletionResolve,
    Diagnostic,
    WorkspaceDiagnostic,
    SignatureHelp,
    CodeAction,
    CodeActionResolve,
    DocumentColor,
    ColorPresentation,
    Formatting,
    RangeFormatting,
    OnTypeFormatting,
    Rename,
    PrepareRename,
    LinkedEditingRange,
    Symbol,
    SymbolResolve,
    DidChangeConfiguration,
    DidChangeWorkspaceFolders,
    WillCreateFiles,
    DidCreateFiles,
    WillRenameFiles,
    DidRenameFiles,
    WillDeleteFiles,
    DidDeleteFiles,
    DidChangeWatchedFiles,
    ExecuteCommand,
    Unknown,
}

/// How a method is gated: lifecycle methods are always routable, feature
/// methods need their registry flag, and everything else is never
/// advertised by this server.
#[derive(Clone, Copy, PartialEq, Eq, Structural, Debug)]
pub enum FeatureGate {
    Lifecycle,
    Needs(Feature),
    NotAdvertised,
}

/// The name each table entry answers to, read off the wire.
pub open spec fn kind_of_name(m: Seq<char>) -> MethodKind {
    if m == "initialize"@ {
        MethodKind::Initialize
    } else if m == "initialized"@ {
        MethodKind::Initialized
    } else if m == "shutdown"@ {
        MethodKind::Shutdown
    } else if m == "exit"@ {
        MethodKind::Exit
    } else if m == "$/cancelRequest"@ {
        MethodKind::CancelRequest
    } else if m == "textDocument/didOpen"@ {
        MethodKind::DidOpen
    } else if m == "textDocument/didChange"@ {
        MethodKind::DidChange
    } else if m == "textDocument/willSave"@ {
        MethodKind::WillSave
    } else if m == "textDocument/willSaveWaitUntil"@ {
        MethodKind::WillSaveWaitUntil
    } else if m == "textDocument/didSave"@ {
        MethodKind::DidSave
    } else if m == "textDocument/didClose"@ {
        MethodKind::DidClose
    } else if m == "textDocument/declaration"@ {
        MethodKind::GotoDeclaration
    } else if m == "textDocument/definition"@ {
        MethodKind::GotoDefinition
    } else if m == "textDocument/typeDefinition"@ {
        MethodKind::GotoTypeDefinition
    } else if m == "textDocument/implementation"@ {
        MethodKind::GotoImplementation
    } else if m == "textDocument/references"@ {
        MethodKind::References
    } else if m == "textDocument/prepareCallHierarchy"@ {
        MethodKind::PrepareCallHierarchy
    } else if m == "callHierarchy/incomingCalls"@ {
        MethodKind::IncomingCalls
    } else if m == "callHierarchy/outgoingCalls"@ {
        MethodKind::OutgoingCalls
    } else if m == "textDocument/prepareTypeHierarchy"@ {
        MethodKind::PrepareTypeHierarchy
    } else if m == "typeHierarchy/supertypes"@ {
        MethodKind::Supertypes
    } else if m == "typeHierarchy/subtypes"@ {
        MethodKind::Subtypes
    } else if m == "textDocument/documentHighlight"@ {
        MethodKind::DocumentHighlight
    } else if m == "textDocument/documentLink"@ {
        MethodKind::DocumentLink
    } else if m == "documentLink/resolve"@ {
        MethodKind::DocumentLinkResolve
    } else if m == "textDocument/hover"@ {
        MethodKind::Hover
    } else if m == "textDocument/codeLens"@ {
        MethodKind::CodeLens
    } else if m == "codeLens/resolve"@ {
        MethodKind::CodeLensResolve
    } else if m == "textDocument/foldingRange"@ {
        MethodKind::FoldingRange
    } else if m == "textDocument/selectionRange"@ {
        MethodKind::SelectionRange
    } else if m == "textDocument/documentSymbol"@ {
        MethodKind::DocumentSymbol
    } else if m == "textDocument/semanticTokens/full"@ {
        MethodKind::SemanticTokensFull
    } else if m == "textDocument/semanticTokens/full/delta"@ {
        MethodKind::SemanticTokensFullDelta
    } else if m == "textDocument/semanticTokens/range"@ {
        MethodKind::SemanticTokensRange
    } else if m == "textDocument/inlineValue"@ {
        MethodKind::InlineValue
    } else if m == "textDocument/inlayHint"@ {
        MethodKind::InlayHint
    } else if m == "inlayHint/resolve"@ {
        MethodKind::InlayHintResolve
    } else if m == "textDocument/moniker"@ {
        MethodKind::Moniker
    } else if m == "textDocument/completion"@ {
        MethodKind::Completion
    } else if m == "completionItem/resolve"@ {
        MethodKind::CompletionResolve
    } else if m == "textDocument/diagnostic"@ {
        MethodKind::Diagnostic
    } else if m == "workspace/diagnostic"@ {
        MethodKind::WorkspaceDiagnostic
    } else if m == "textDocument/signatureHelp"@ {
        MethodKind::SignatureHelp
    } else if m == "textDocument/codeAction"@ {
        MethodKind::CodeAction
    } else if m == "codeAction/resolve"@ {
        MethodKind::CodeActionResolve
    } else if m == "textDocument/documentColor"@ {
        MethodKind::DocumentColor
    } else if m == "textDocument/colorPresentation"@ {
        MethodKind::ColorPresentation
    } else if m == "textDocument/formatting"@ {
        MethodKind::Formatting
    } else if m == "textDocument/rangeFormatting"@ {
        MethodKind::RangeFormatting
    } else if m == "textDocument/onTypeFormatting"@ {
        MethodKind::OnTypeFormatting
    } else if m == "textDocument/rename"@ {
        MethodKind::Rename
    } else if m == "textDocument/prepareRename"@ {
        MethodKind::PrepareRename
    } else if m == "textDocument/linkedEditingRange"@ {
        MethodKind::LinkedEditingRange
    } else if m == "workspace/symbol"@ {
        MethodKind::Symbol
    } else if m == "workspaceSymbol/resolve"@ {
        MethodKind::SymbolResolve
    } else if m == "workspace/didChangeConfiguration"@ {
        MethodKind::DidChangeConfiguration
    } else if m == "workspace/didChangeWorkspaceFolders"@ {
        MethodKind::DidChangeWorkspaceFolders
    } else if m == "workspace/willCreateFiles"@ {
        MethodKind::WillCreateFiles
    } else if m == "workspace/didCreateFiles"@ {
        MethodKind::DidCreateFiles
    } else if m == "workspace/willRenameFiles"@ {
        MethodKind::WillRenameFiles
    } else if m == "workspace/didRenameFiles"@ {
        MethodKind::DidRenameFiles
    } else if m == "workspace/willDeleteFiles"@ {
        MethodKind::WillDeleteFiles
    } else if m == "workspace/didDeleteFiles"@ {
        MethodKind::DidDeleteFiles
    } else if m == "workspace/didChangeWatchedFiles"@ {
        MethodKind::DidChangeWatchedFiles
    } else if m == "workspace/executeCommand"@ {
        MethodKind::ExecuteCommand
    } else {
        MethodKind::Unknown
    }
}

/// Character-content equality of two string slices.
fn str_eq(a: &str, b: &str) -> (r: bool)
    ensures
        r == (a@ == b@),
{
    let x: String = a.to_owned();
    let y: String = b.to_owned();
    x == y
}

/// Look a method name up in the table.
#[verifier::rlimit(60)]
pub fn parse_method(name: &str) -> (k: MethodKind)
    ensures
        k == kind_of_name(name@),
{
    if str_eq(name, "initialize") {
        MethodKind::Initialize
    } else if str_eq(name, "initialized") {
        MethodKind::Initialized
    } else if str_eq(name, "shutdown") {
        MethodKind::Shutdown
    } else if str_eq(name, "exit") {
        MethodKind::Exit
    } else if str_eq(name, "$/cancelRequest") {
        MethodKind::CancelRequest
    } else if str_eq(name, "textDocument/didOpen") {
        MethodKind::DidOpen
    } else if str_eq(name, "textDocument/didChange") {
        MethodKind::DidChange
    } else if str_eq(name, "textDocument/willSave") {
        MethodKind::WillSave
    } else if str_eq(name, "textDocument/willSaveWaitUntil") {
        MethodKind::WillSaveWaitUntil
    } else if str_eq(name, "textDocument/didSave") {
        MethodKind::DidSave
    } else if str_eq(name, "textDocument/didClose") {
        MethodKind::DidClose
    } else if str_eq(name, "textDocument/declaration") {
        MethodKind::GotoDeclaration
    } else if str_eq(name, "textDocument/definition") {
        MethodKind::GotoDefinition
    } else if str_eq(name, "textDocument/typeDefinition") {
        MethodKind::GotoTypeDefinition
    } else if str_eq(name, "textDocument/implementation") {
        MethodKind::GotoImplementation
    } else if str_eq(name, "textDocument/references") {
        MethodKind::References
    } else if str_eq(name, "textDocument/prepareCallHierarchy") {
        MethodKind::PrepareCallHierarchy
    } else if str_eq(name, "callHierarchy/incomingCalls") {
        MethodKind::IncomingCalls
    } else if str_eq(name, "callHierarchy/outgoingCalls") {
        MethodKind::OutgoingCalls
    } else if str_eq(name, "textDocument/prepareTypeHierarchy") {
        MethodKind::PrepareTypeHierarchy
    } else if str_eq(name, "typeHierarchy/supertypes") {
        MethodKind::Supertypes
    } else if str_eq(name, "typeHierarchy/subtypes") {
        MethodKind::Subtypes
    } else if str_eq(name, "textDocument/documentHighlight") {
        MethodKind::DocumentHighlight
    } else if str_eq(name, "textDocument/documentLink") {
        MethodKind::DocumentLink
    } else if str_eq(name, "documentLink/resolve") {
        MethodKind::DocumentLinkResolve
    } else if str_eq(name, "textDocument/hover") {
        MethodKind::Hover
    } else if str_eq(name, "textDocument/codeLens") {
        MethodKind::CodeLens
    } else if str_eq(name, "codeLens/resolve") {
        MethodKind::CodeLensResolve
    } else if str_eq(name, "textDocument/foldingRange") {
        MethodKind::FoldingRange
    } else if str_eq(name, "textDocument/selectionRange") {
        MethodKind::SelectionRange
    } else if str_eq(name, "textDocument/documentSymbol") {
        MethodKind::DocumentSymbol
    } else if str_eq(name, "textDocument/semanticTokens/full") {
        MethodKind::SemanticTokensFull
    } else if str_eq(name, "textDocument/semanticTokens/full/delta") {
        MethodKind::SemanticTokensFullDelta
    } else if str_eq(name, "textDocument/semanticTokens/range") {
        MethodKind::SemanticTokensRange
    } else if str_eq(name, "textDocument/inlineValue") {
        MethodKind::InlineValue
    } else if str_eq(name, "textDocument/inlayHint") {
        MethodKind::InlayHint
    } else if str_eq(name, "inlayHint/resolve") {
        MethodKind::InlayHintResolve
    } else if str_eq(name, "textDocument/moniker") {
        MethodKind::Moniker
    } else if str_eq(name, "textDocument/completion") {
        MethodKind::Completion
    } else if str_eq(name, "completionItem/resolve") {
        MethodKind::CompletionResolve
    } else if str_eq(name, "textDocument/diagnostic") {
        MethodKind::Diagnostic
    } else if str_eq(name, "workspace/diagnostic") {
        MethodKind::WorkspaceDiagnostic
    } else if str_eq(name, "textDocument/signatureHelp") {
        MethodKind::SignatureHelp
    } else if str_eq(name, "textDocument/codeAction") {
        MethodKind::CodeAction
    } else if str_eq(name, "codeAction/resolve") {
        MethodKind::CodeActionResolve
    } else if str_eq(name, "textDocument/documentColor") {
        MethodKind::DocumentColor
    } else if str_eq(name, "textDocument/colorPresentation") {
        MethodKind::ColorPresentation
    } else if str_eq(name, "textDocument/formatting") {
        MethodKind::Formatting
    } else if str_eq(name, "textDocument/rangeFormatting") {
        MethodKind::RangeFormatting
    } else if str_eq(name, "textDocument/onTypeFormatting") {
        MethodKind::OnTypeFormatting
    } else if str_eq(name, "textDocument/rename") {
        MethodKind::Rename
    } else if str_eq(name, "textDocument/prepareRename") {
        MethodKind::PrepareRename
    } else if str_eq(name, "textDocument/linkedEditingRange") {
        MethodKind::LinkedEditingRange
    } else if str_eq(name, "workspace/symbol") {
        MethodKind::Symbol
    } else if str_eq(name, "workspaceSymbol/resolve") {
        MethodKind::SymbolResolve
    } else if str_eq(name, "workspace/didChangeConfiguration") {
        MethodKind::DidChangeConfiguration
    } else if str_eq(name, "workspace/didChangeWorkspaceFolders") {
        MethodKind::DidChangeWorkspaceFolders
    } else if str_eq(name, "workspace/willCreateFiles") {
        MethodKind::WillCreateFiles
    } else if str_eq(name, "workspace/didCreateFiles") {
        MethodKind::DidCreateFiles
    } else if str_eq(name, "workspace/willRenameFiles") {
        MethodKind::WillRenameFiles
    } else if str_eq(name, "workspace/didRenameFiles") {
        MethodKind::DidRenameFiles
    } else if str_eq(name, "workspace/willDeleteFiles") {
        MethodKind::WillDeleteFiles
    } else if str_eq(name, "workspace/didDeleteFiles") {
        MethodKind::DidDeleteFiles
    } else if str_eq(name, "workspace/didChangeWatchedFiles") {
        MethodKind::DidChangeWatchedFiles
    } else if str_eq(name, "workspace/executeCommand") {
        MethodKind::ExecuteCommand
    } else {
        MethodKind::Unknown
    }
}

/// Whether the table lists this method as a notification (no id, never
/// answered) rather than a request.
pub open spec fn is_notification_kind(k: MethodKind) -> bool {
    match k {
        MethodKind::Initialized => true,
        MethodKind::Exit => true,
        MethodKind::CancelRequest => true,
        MethodKind::DidOpen => true,
        MethodKind::DidChange => true,
        MethodKind::WillSave => true,
        MethodKind::DidSave => true,
        MethodKind::DidClose => true,
        MethodKind::DidChangeConfiguration => true,
        MethodKind::DidChangeWorkspaceFolders => true,
        MethodKind::DidCreateFiles => true,
        MethodKind::DidRenameFiles => true,
        MethodKind::DidDeleteFiles => true,
        MethodKind::DidChangeWatchedFiles => true,
        _ => false,
    }
}

/// Decides `is_notification_kind` on a concrete kind.
pub fn kind_is_notification(k: MethodKind) -> (r: bool)
    ensures
        r == is_notification_kind(k),
{
    match k {
        MethodKind::Initialized => true,
        MethodKind::Exit => true,
        MethodKind::CancelRequest => true,
        MethodKind::DidOpen => true,
        MethodKind::DidChange => true,
        MethodKind::WillSave => true,
        MethodKind::DidSave => true,
        MethodKind::DidClose => true,
        MethodKind::DidChangeConfiguration => true,
        MethodKind::DidChangeWorkspaceFolders => true,
        MethodKind::DidCreateFiles => true,
        MethodKind::DidRenameFiles => true,
        MethodKind::DidDeleteFiles => true,
        MethodKind::DidChangeWatchedFiles => true,
        _ => false,
    }
}

/// Which flag of the capability registry gates a request of this kind.
pub open spec fn gate_of(k: MethodKind) -> FeatureGate {
    match k {
        MethodKind::Initialize => FeatureGate::Lifecycle,
        MethodKind::Shutdown => FeatureGate::Lifecycle,
        MethodKind::Hover => FeatureGate::Needs(Feature::Hover),
        MethodKind::GotoDeclaration => FeatureGate::Needs(Feature::Declaration),
        MethodKind::GotoDefinition => FeatureGate::Needs(Feature::Definition),
        MethodKind::GotoTypeDefinition => FeatureGate::Needs(Feature::TypeDefinition),
        MethodKind::GotoImplementation => FeatureGate::Needs(Feature::Implementation),
        MethodKind::References => FeatureGate::Needs(Feature::References),
        MethodKind::CodeAction => FeatureGate::Needs(Feature::CodeAction),
        MethodKind::CodeActionResolve => FeatureGate::Needs(Feature::CodeActionResolve),
        MethodKind::WillCreateFiles => FeatureGate::Needs(Feature::FileOperations),
        MethodKind::WillRenameFiles => FeatureGate::Needs(Feature::FileOperations),
        MethodKind::WillDeleteFiles => FeatureGate::Needs(Feature::FileOperations),
        _ => FeatureGate::NotAdvertised,
    }
}

/// Decides `gate_of` on a concrete kind.
pub fn feature_gate(k: MethodKind) -> (g: FeatureGate)
    ensures
        g == gate_of(k),
{
    match k {
        MethodKind::Initialize => FeatureGate::Lifecycle,
        MethodKind::Shutdown => FeatureGate::Lifecycle,
        MethodKind::Hover => FeatureGate::Needs(Feature::Hover),
        MethodKind::GotoDeclaration => FeatureGate::Needs(Feature::Declaration),
        MethodKind::GotoDefinition => FeatureGate::Needs(Feature::Definition),
        MethodKind::GotoTypeDefinition => FeatureGate::Needs(Feature::TypeDefinition),
        MethodKind::GotoImplementation => FeatureGate::Needs(Feature::Implementation),
        MethodKind::References => FeatureGate::Needs(Feature::References),
        MethodKind::CodeAction => FeatureGate::Needs(Feature::CodeAction),
        MethodKind::CodeActionResolve => FeatureGate::Needs(Feature::CodeActionResolve),
        MethodKind::WillCreateFiles => FeatureGate::Needs(Feature::FileOperations),
        MethodKind::WillRenameFiles => FeatureGate::Needs(Feature::FileOperations),
        MethodKind::WillDeleteFiles => FeatureGate::Needs(Feature::FileOperations),
        _ => FeatureGate::NotAdvertised,
    }
}

} // verus!
