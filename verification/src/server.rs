//! The binding of method names to handlers, and the answers to requests.
//!
//! A host binds handlers to method names. The table of bindings decides which
//! incoming requests and notifications reach a handler; the catalog names the
//! methods of the Language Server Protocol that a server handles.
use crate::json::Json;
use crate::jsonrpc::{
    outcome_view, Error, ErrorCode, ErrorView, Request, RequestView, Response, ResponseView,
};
use crate::text::str_eq;
use vstd::prelude::*;

verus! {

/// Whether a method expects an answer.
#[derive(Clone, Copy, Debug, PartialEq, Eq, Structural)]
pub enum MethodKind {
    Request,
    Notification,
}

/// A binding: the name of a method, and whether it is a request or a
/// notification.
#[derive(Debug)]
pub struct JsonRpcMethodArgs {
    pub name: String,
    pub kind: MethodKind,
}

impl View for JsonRpcMethodArgs {
    type V = (Seq<char>, MethodKind);

    open spec fn view(&self) -> (Seq<char>, MethodKind) {
        (self.name@, self.kind)
    }
}

impl JsonRpcMethodArgs {
    /// The binding of `name` as a method of the given kind.
    pub fn new(name: &str, kind: MethodKind) -> (binding: Self)
        ensures
            binding@ == (name@, kind),
    {
        JsonRpcMethodArgs { name: name.to_owned(), kind }
    }
}

/// The bindings of a table as plain values.
pub open spec fn bindings(methods: Seq<JsonRpcMethodArgs>) -> Seq<(Seq<char>, MethodKind)> {
    Seq::new(methods.len(), |i: int| methods[i]@)
}

/// Whether a table binds `name` as a method of the given kind.
pub open spec fn binds(table: Seq<(Seq<char>, MethodKind)>, name: Seq<char>, kind: MethodKind) -> bool {
    exists|i: int| 0 <= i < table.len() && #[trigger] table[i] == (name, kind)
}

/// Whether a table binds `name` as a method of the given kind.
pub fn is_bound(methods: &Vec<JsonRpcMethodArgs>, name: &str, kind: MethodKind) -> (bound: bool)
    ensures
        bound == binds(bindings(methods@), name@, kind),
{
    let mut i: usize = 0;
    while i < methods.len()
        invariant
            i <= methods@.len(),
            forall|k: int| 0 <= k < i ==> (#[trigger] bindings(methods@)[k]) != (name@, kind),
        decreases methods@.len() - i,
    {
        if methods[i].kind == kind && str_eq(methods[i].name.as_str(), name) {
            assert(bindings(methods@)[i as int] == (name@, kind));
            return true;
        }
        i = i + 1;
    }
    false
}

/// The methods that a language server handles.
pub open spec fn server_catalog() -> Seq<(Seq<char>, MethodKind)> {
    seq![
        ("initialize"@, MethodKind::Request),
        ("initialized"@, MethodKind::Notification),
        ("shutdown"@, MethodKind::Request),
        ("exit"@, MethodKind::Notification),
        ("window/workDoneProgress/cancel"@, MethodKind::Notification),
        ("workspace/didChangeWorkspaceFolders"@, MethodKind::Notification),
        ("workspace/didChangeConfiguration"@, MethodKind::Notification),
        ("workspace/didChangeWatchedFiles"@, MethodKind::Notification),
        ("workspace/symbol"@, MethodKind::Request),
        ("workspace/executeCommand"@, MethodKind::Request),
        ("textDocument/didOpen"@, MethodKind::Notification),
        ("textDocument/didChange"@, MethodKind::Notification),
        ("textDocument/willSave"@, MethodKind::Notification),
        ("textDocument/willSaveWaitUntil"@, MethodKind::Request),
        ("textDocument/didSave"@, MethodKind::Notification),
        ("textDocument/didClose"@, MethodKind::Notification),
        ("textDocument/completion"@, MethodKind::Request),
        ("completionItem/resolve"@, MethodKind::Request),
        ("textDocument/hover"@, MethodKind::Request),
        ("textDocument/signatureHelp"@, MethodKind::Request),
        ("textDocument/declaration"@, MethodKind::Request),
        ("textDocument/definition"@, MethodKind::Request),
        ("textDocument/typeDefinition"@, MethodKind::Request),
        ("textDocument/implementation"@, MethodKind::Request),
        ("textDocument/references"@, MethodKind::Request),
        ("textDocument/documentHighlight"@, MethodKind::Request),
        ("textDocument/documentSymbol"@, MethodKind::Request),
        ("textDocument/codeAction"@, MethodKind::Request),
        ("textDocument/codeLens"@, MethodKind::Request),
        ("codeLens/resolve"@, MethodKind::Request),
        ("textDocument/documentLink"@, MethodKind::Request),
        ("documentLink/resolve"@, MethodKind::Request),
        ("textDocument/documentColor"@, MethodKind::Request),
        ("textDocument/colorPresentation"@, MethodKind::Request),
        ("textDocument/formatting"@, MethodKind::Request),
        ("textDocument/rangeFormatting"@, MethodKind::Request),
        ("textDocument/onTypeFormatting"@, MethodKind::Request),
        ("textDocument/rename"@, MethodKind::Request),
        ("textDocument/prepareRename"@, MethodKind::Request),
        ("textDocument/foldingRange"@, MethodKind::Request),
        ("textDocument/selectionRange"@, MethodKind::Request),
    ]
}

/// The table that binds every method of a language server.
pub fn language_server_methods() -> (methods: Vec<JsonRpcMethodArgs>)
    ensures
        bindings(methods@) == server_catalog(),
{
    let mut methods: Vec<JsonRpcMethodArgs> = Vec::new();
    methods.push(JsonRpcMethodArgs::new("initialize", MethodKind::Request));
    methods.push(JsonRpcMethodArgs::new("initialized", MethodKind::Notification));
    methods.push(JsonRpcMethodArgs::new("shutdown", MethodKind::Request));
    methods.push(JsonRpcMethodArgs::new("exit", MethodKind::Notification));
    methods.push(JsonRpcMethodArgs::new("window/workDoneProgress/cancel", MethodKind::Notification));
    methods.push(JsonRpcMethodArgs::new("workspace/didChangeWorkspaceFolders", MethodKind::Notification));
    methods.push(JsonRpcMethodArgs::new("workspace/didChangeConfiguration", MethodKind::Notification));
    methods.push(JsonRpcMethodArgs::new("workspace/didChangeWatchedFiles", MethodKind::Notification));
    methods.push(JsonRpcMethodArgs::new("workspace/symbol", MethodKind::Request));
    methods.push(JsonRpcMethodArgs::new("workspace/executeCommand", MethodKind::Request));
    methods.push(JsonRpcMethodArgs::new("textDocument/didOpen", MethodKind::Notification));
    methods.push(JsonRpcMethodArgs::new("textDocument/didChange", MethodKind::Notification));
    methods.push(JsonRpcMethodArgs::new("textDocument/willSave", MethodKind::Notification));
    methods.push(JsonRpcMethodArgs::new("textDocument/willSaveWaitUntil", MethodKind::Request));
    methods.push(JsonRpcMethodArgs::new("textDocument/didSave", MethodKind::Notification));
    methods.push(JsonRpcMethodArgs::new("textDocument/didClose", MethodKind::Notification));
    methods.push(JsonRpcMethodArgs::new("textDocument/completion", MethodKind::Request));
    methods.push(JsonRpcMethodArgs::new("completionItem/resolve", MethodKind::Request));
    methods.push(JsonRpcMethodArgs::new("textDocument/hover", MethodKind::Request));
    methods.push(JsonRpcMethodArgs::new("textDocument/signatureHelp", MethodKind::Request));
    methods.push(JsonRpcMethodArgs::new("textDocument/declaration", MethodKind::Request));
    methods.push(JsonRpcMethodArgs::new("textDocument/definition", MethodKind::Request));
    methods.push(JsonRpcMethodArgs::new("textDocument/typeDefinition", MethodKind::Request));
    methods.push(JsonRpcMethodArgs::new("textDocument/implementation", MethodKind::Request));
    methods.push(JsonRpcMethodArgs::new("textDocument/references", MethodKind::Request));
    methods.push(JsonRpcMethodArgs::new("textDocument/documentHighlight", MethodKind::Request));
    methods.push(JsonRpcMethodArgs::new("textDocument/documentSymbol", MethodKind::Request));
    methods.push(JsonRpcMethodArgs::new("textDocument/codeAction", MethodKind::Request));
    methods.push(JsonRpcMethodArgs::new("textDocument/codeLens", MethodKind::Request));
    methods.push(JsonRpcMethodArgs::new("codeLens/resolve", MethodKind::Request));
    methods.push(JsonRpcMethodArgs::new("textDocument/documentLink", MethodKind::Request));
    methods.push(JsonRpcMethodArgs::new("documentLink/resolve", MethodKind::Request));
    methods.push(JsonRpcMethodArgs::new("textDocument/documentColor", MethodKind::Request));
    methods.push(JsonRpcMethodArgs::new("textDocument/colorPresentation", MethodKind::Request));
    methods.push(JsonRpcMethodArgs::new("textDocument/formatting", MethodKind::Request));
    methods.push(JsonRpcMethodArgs::new("textDocument/rangeFormatting", MethodKind::Request));
    methods.push(JsonRpcMethodArgs::new("textDocument/onTypeFormatting", MethodKind::Request));
    methods.push(JsonRpcMethodArgs::new("textDocument/rename", MethodKind::Request));
    methods.push(JsonRpcMethodArgs::new("textDocument/prepareRename", MethodKind::Request));
    methods.push(JsonRpcMethodArgs::new("textDocument/foldingRange", MethodKind::Request));
    methods.push(JsonRpcMethodArgs::new("textDocument/selectionRange", MethodKind::Request));
    proof {
        assert(bindings(methods@) =~= server_catalog());
    }
    methods
}

/// The response that answers `request` with what its handler delivered: the
/// result, or the error. It carries the identifier of the request.
pub open spec fn answer(request: RequestView, outcome: Result<Json, ErrorView>) -> ResponseView {
    match outcome {
        Ok(result) => ResponseView::success(result, request.id),
        Err(error) => ResponseView::failure(error, Some(request.id)),
    }
}

/// The response that turns down a request for a method that is not bound.
pub open spec fn refusal(request: RequestView) -> ResponseView {
    answer(request, Err(ErrorView::plain(ErrorCode::MethodNotFound, "Method not found"@)))
}

/// The response that answers `request` with what its handler delivered.
pub fn respond(request: &Request, outcome: Result<serde_json::Value, Error>) -> (response: Response)
    ensures
        response@ == answer(request@, outcome_view(outcome)),
{
    match outcome {
        Ok(result) => Response::result(result, request.id.clone()),
        Err(error) => Response::error(error, Some(request.id.clone())),
    }
}

/// The response that turns down a request for a method that is not bound.
pub fn refuse(request: &Request) -> (response: Response)
    ensures
        response@ == refusal(request@),
{
    respond(request, Err(Error::method_not_found_error()))
}

/// Every request is answered under its own identifier, and the answer holds
/// either a result or an error, never both and never neither.
pub proof fn lemma_answer_echoes_id(request: RequestView, outcome: Result<Json, ErrorView>)
    ensures
        answer(request, outcome).id == Some(request.id),
        answer(request, outcome).result is Some <==> outcome is Ok,
        answer(request, outcome).error is Some <==> outcome is Err,
        refusal(request).id == Some(request.id),
        refusal(request).error->Some_0.code == ErrorCode::MethodNotFound,
{
}

} // verus!
