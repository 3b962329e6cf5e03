//! The capability registry: the fixed table of features this server build
//! advertises, and the negotiation that `initialize` performs over it.

use vstd::prelude::*;

verus! {

/// The unit used for the `character` field of a position.
#[derive(Clone, Copy, PartialEq, Eq, Structural, Debug)]
pub enum OffsetEncoding {
    Utf8,
    Utf16,
}

/// A named optional feature of the server, each independently toggled in the
/// registry.
#[derive(Clone, Copy, PartialEq, Eq, Structural, Debug)]
pub enum Feature {
    Hover,
    Declaration,
    Definition,
    TypeDefinition,
    Implementation,
    References,
    CodeAction,
    CodeActionResolve,
    DocumentSync,
    WorkspaceFolders,
    FileOperations,
}

/// The statically-configured feature flags of one server instance. Immutable
/// once `initialize` has responded.
#[derive(Clone, Copy, PartialEq, Eq, Structural, Debug)]
pub struct CapabilitySet {
    pub hover: bool,
    pub declaration: bool,
    pub definition: bool,
    pub type_definition: bool,
    pub implementation: bool,
    pub references: bool,
    pub code_action: bool,
    pub code_action_resolve: bool,
    pub document_sync: bool,
    pub workspace_folders: bool,
    pub file_operations: bool,
}

impl CapabilitySet {
    /// Whether a feature is on. Resolving a code action additionally needs
    /// the code-action feature itself.
    pub open spec fn spec_enabled(self, f: Feature) -> bool {
        match f {
            Feature::Hover => self.hover,
            Feature::Declaration => self.declaration,
            Feature::Definition => self.definition,
            Feature::TypeDefinition => self.type_definition,
            Feature::Implementation => self.implementation,
            Feature::References => self.references,
            Feature::CodeAction => self.code_action,
            Feature::CodeActionResolve => self.code_action && self.code_action_resolve,
            Feature::DocumentSync => self.document_sync,
            Feature::WorkspaceFolders => self.workspace_folders,
            Feature::FileOperations => self.file_operations,
        }
    }

    /// Decides `spec_enabled` on a concrete registry.
    pub fn enabled(&self, f: Feature) -> (r: bool)
        ensures
            r == self.spec_enabled(f),
    {
        match f {
            Feature::Hover => self.hover,
            Feature::Declaration => self.declaration,
            Feature::Definition => self.definition,
            Feature::TypeDefinition => self.type_definition,
            Feature::Implementation => self.implementation,
            Feature::References => self.references,
            Feature::CodeAction => self.code_action,
            Feature::CodeActionResolve => self.code_action && self.code_action_resolve,
            Feature::DocumentSync => self.document_sync,
            Feature::WorkspaceFolders => self.workspace_folders,
            Feature::FileOperations => self.file_operations,
        }
    }

    /// The registry this server build ships with: navigation, hover,
    /// references, code actions with resolution, document synchronisation
    /// and workspace-folder awareness on; file-operation hooks off.
    pub open spec fn spec_server_default() -> CapabilitySet {
        CapabilitySet {
            hover: true,
            declaration: true,
            definition: true,
            type_definition: true,
            implementation: true,
            references: true,
            code_action: true,
            code_action_resolve: true,
            document_sync: true,
            workspace_folders: true,
            file_operations: false,
        }
    }

    /// The concrete default registry.
    pub fn server_default() -> (c: CapabilitySet)
        ensures
            c == CapabilitySet::spec_server_default(),
    {
        CapabilitySet {
            hover: true,
            declaration: true,
            definition: true,
            type_definition: true,
            implementation: true,
            references: true,
            code_action: true,
            code_action_resolve: true,
            document_sync: true,
            workspace_folders: true,
            file_operations: false,
        }
    }
}

/// Select the offset encoding: prefer UTF-8 when the client advertises it,
/// otherwise fall back to the protocol default.
pub fn negotiate_encoding(client_supports_utf8: bool) -> (e: OffsetEncoding)
    ensures
        e == (if client_supports_utf8 {
            OffsetEncoding::Utf8
        } else {
            OffsetEncoding::Utf16
        }),
{
    if client_supports_utf8 {
        OffsetEncoding::Utf8
    } else {
        OffsetEncoding::Utf16
    }
}

/// The server name reported in the negotiation payload.
pub fn server_name() -> (s: String)
    ensures
        s@ == "Valkyrie Language Server"@,
{
    "Valkyrie Language Server".to_owned()
}

/// The server version reported in the negotiation payload.
pub fn server_version() -> (s: String)
    ensures
        s@ == "0.1.0"@,
{
    "0.1.0".to_owned()
}

} // verus!
