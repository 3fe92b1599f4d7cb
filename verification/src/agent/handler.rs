//! Dispatch of requests: which operation a request asks for, and the
//! response that the outcome of the operation leads to.

use crate::json::Json;
use crate::protocol::error_codes::{INTERNAL_ERROR, INVALID_PARAMS, METHOD_NOT_FOUND, PARSE_ERROR};
use crate::protocol::{
    content_result, entries_json, entries_result, entry_views, exec_code_params_of,
    exec_result_json, pong, request_of_text, single, success_result, text_member,
    write_file_params_of, ExecCodeParams, ExecParams, ExecResult, FileEntry, ListDirParams,
    ReadFileParams, Request, RequestView, Response, ResponseView, RpcErrorView, WriteFileParams,
};
use vstd::prelude::*;

verus! {

/// What the agent does for a request.
pub enum Action {
    /// Answer at once.
    Reply(Response),
    /// Run a shell command, and answer with [`exec_response`].
    Exec { id: u64, cmd: String },
    /// Run code in a language, and answer with [`exec_response`].
    ExecCode { id: u64, lang: String, code: String },
    /// Read a file, and answer with [`read_file_response`].
    ReadFile { id: u64, path: String },
    /// Write a file, and answer with [`write_file_response`].
    WriteFile { id: u64, path: String, content: String },
    /// List a directory, and answer with [`list_dir_response`].
    ListDir { id: u64, path: String },
}

/// The content of an [`Action`].
pub enum ActionView {
    Reply(ResponseView),
    Exec { id: u64, cmd: Seq<char> },
    ExecCode { id: u64, lang: Seq<char>, code: Seq<char> },
    ReadFile { id: u64, path: Seq<char> },
    WriteFile { id: u64, path: Seq<char>, content: Seq<char> },
    ListDir { id: u64, path: Seq<char> },
}

impl View for Action {
    type V = ActionView;

    open spec fn view(&self) -> ActionView {
        match self {
            Action::Reply(r) => ActionView::Reply(r@),
            Action::Exec { id, cmd } => ActionView::Exec { id: *id, cmd: cmd@ },
            Action::ExecCode { id, lang, code } => ActionView::ExecCode {
                id: *id,
                lang: lang@,
                code: code@,
            },
            Action::ReadFile { id, path } => ActionView::ReadFile { id: *id, path: path@ },
            Action::WriteFile { id, path, content } => ActionView::WriteFile {
                id: *id,
                path: path@,
                content: content@,
            },
            Action::ListDir { id, path } => ActionView::ListDir { id: *id, path: path@ },
        }
    }
}

/// An error response.
pub open spec fn error_view(id: u64, code: i32, message: Seq<char>) -> ResponseView {
    ResponseView {
        jsonrpc: "2.0"@,
        id,
        result: None,
        error: Some(RpcErrorView { code, message, data: None }),
    }
}

/// A success response.
pub open spec fn success_view(id: u64, result: Json) -> ResponseView {
    ResponseView { jsonrpc: "2.0"@, id, result: Some(result), error: None }
}

/// The response to parameters that a method cannot take.
pub open spec fn invalid_params(id: u64, detail: Seq<char>) -> ActionView {
    ActionView::Reply(error_view(id, INVALID_PARAMS, "invalid params: "@ + detail))
}

/// What the agent does for a request: `ping` is answered at once; each of
/// the five operations is carried out where its parameters are in order, and
/// answered with an invalid-params error where they are not; any other
/// method is answered with a method-not-found error.
pub open spec fn plan_of(req: RequestView) -> ActionView {
    if req.method == "ping"@ {
        ActionView::Reply(success_view(req.id, single("pong"@, Json::Bool(true))))
    } else if req.method == "exec"@ {
        match text_member(req.params, "cmd"@) {
            Ok(cmd) => ActionView::Exec { id: req.id, cmd },
            Err(e) => invalid_params(req.id, e),
        }
    } else if req.method == "exec_code"@ {
        match exec_code_params_of(req.params) {
            Ok((lang, code)) => ActionView::ExecCode { id: req.id, lang, code },
            Err(e) => invalid_params(req.id, e),
        }
    } else if req.method == "read_file"@ {
        match text_member(req.params, "path"@) {
            Ok(path) => ActionView::ReadFile { id: req.id, path },
            Err(e) => invalid_params(req.id, e),
        }
    } else if req.method == "write_file"@ {
        match write_file_params_of(req.params) {
            Ok((path, content)) => ActionView::WriteFile { id: req.id, path, content },
            Err(e) => invalid_params(req.id, e),
        }
    } else if req.method == "list_dir"@ {
        match text_member(req.params, "path"@) {
            Ok(path) => ActionView::ListDir { id: req.id, path },
            Err(e) => invalid_params(req.id, e),
        }
    } else {
        ActionView::Reply(
            error_view(req.id, METHOD_NOT_FOUND, "method not found: "@ + req.method),
        )
    }
}

fn is_method(req: &Request, name: &str) -> (b: bool)
    ensures
        b == (req.method@ == name@),
{
    let wanted: String = String::from_str(name);
    req.method == wanted
}

fn refuse_params(id: u64, detail: String) -> (a: Action)
    ensures
        a@ == invalid_params(id, detail@),
{
    Action::Reply(
        Response::error(
            id,
            INVALID_PARAMS,
            String::from_str("invalid params: ").concat(detail.as_str()),
        ),
    )
}

/// Decides what to do for a request.
pub fn plan_request(req: &Request) -> (a: Action)
    ensures
        a@ == plan_of(req@),
{
    let id: u64 = req.id;
    if is_method(req, "ping") {
        Action::Reply(Response::success(id, pong()))
    } else if is_method(req, "exec") {
        match ExecParams::from_value(&req.params) {
            Ok(p) => Action::Exec { id, cmd: p.cmd },
            Err(e) => refuse_params(id, e),
        }
    } else if is_method(req, "exec_code") {
        match ExecCodeParams::from_value(&req.params) {
            Ok(p) => Action::ExecCode { id, lang: p.lang, code: p.code },
            Err(e) => refuse_params(id, e),
        }
    } else if is_method(req, "read_file") {
        match ReadFileParams::from_value(&req.params) {
            Ok(p) => Action::ReadFile { id, path: p.path },
            Err(e) => refuse_params(id, e),
        }
    } else if is_method(req, "write_file") {
        match WriteFileParams::from_value(&req.params) {
            Ok(p) => Action::WriteFile { id, path: p.path, content: p.content },
            Err(e) => refuse_params(id, e),
        }
    } else if is_method(req, "list_dir") {
        match ListDirParams::from_value(&req.params) {
            Ok(p) => Action::ListDir { id, path: p.path },
            Err(e) => refuse_params(id, e),
        }
    } else {
        Action::Reply(
            Response::error(
                id,
                METHOD_NOT_FOUND,
                String::from_str("method not found: ").concat(req.method.as_str()),
            ),
        )
    }
}

/// What the agent does for a line that holds a request: the line is read as
/// a request and planned; a line that holds none is answered with a parse
/// error under the identifier 0.
pub open spec fn plan_of_text(text: Seq<char>) -> ActionView {
    match request_of_text(text) {
        Ok(req) => plan_of(req),
        Err(e) => ActionView::Reply(error_view(0, PARSE_ERROR, "parse error: "@ + e)),
    }
}

/// Decides what to do for a line that holds a request.
pub fn plan_line(text: &str) -> (a: Action)
    ensures
        a@ == plan_of_text(text@),
{
    match Request::parse(text) {
        Ok(req) => plan_request(&req),
        Err(e) => Action::Reply(
            Response::error(
                0,
                PARSE_ERROR,
                String::from_str("parse error: ").concat(e.as_str()),
            ),
        ),
    }
}

/// The response to `exec` and `exec_code`: the result of the execution.
pub fn exec_response(id: u64, result: &ExecResult) -> (r: Response)
    ensures
        r@ == success_view(id, exec_result_json(result@)),
{
    Response::success(id, result.to_value())
}

/// The response to `read_file`: the content, or an internal error with the
/// message of what went wrong.
pub fn read_file_response(id: u64, outcome: Result<String, String>) -> (r: Response)
    ensures
        r@ == match outcome {
            Ok(content) => success_view(id, single("content"@, Json::Str(content@))),
            Err(e) => error_view(id, INTERNAL_ERROR, e@),
        },
{
    match outcome {
        Ok(content) => Response::success(id, content_result(content)),
        Err(e) => Response::error(id, INTERNAL_ERROR, e),
    }
}

/// The response to `write_file`: whether the file was written, or an
/// internal error with the message of what went wrong.
pub fn write_file_response(id: u64, outcome: Result<bool, String>) -> (r: Response)
    ensures
        r@ == match outcome {
            Ok(success) => success_view(id, single("success"@, Json::Bool(success))),
            Err(e) => error_view(id, INTERNAL_ERROR, e@),
        },
{
    match outcome {
        Ok(success) => Response::success(id, success_result(success)),
        Err(e) => Response::error(id, INTERNAL_ERROR, e),
    }
}

/// The response to `list_dir`: the entries in the order given, or an
/// internal error with the message of what went wrong.
pub fn list_dir_response(id: u64, outcome: Result<Vec<FileEntry>, String>) -> (r: Response)
    ensures
        r@ == match outcome {
            Ok(entries) => success_view(
                id,
                single("entries"@, Json::Arr(entries_json(entry_views(entries@)))),
            ),
            Err(e) => error_view(id, INTERNAL_ERROR, e@),
        },
{
    match outcome {
        Ok(entries) => Response::success(id, entries_result(&entries)),
        Err(e) => Response::error(id, INTERNAL_ERROR, e),
    }
}

/// Whatever the request, the agent either answers at once or carries out
/// one operation under the identifier of the request; a request for a method
/// that it does not know is answered with a method-not-found error.
pub proof fn lemma_plan_keeps_id(req: RequestView)
    ensures
        match plan_of(req) {
            ActionView::Reply(r) => r.id == req.id && (r.result is Some) != (r.error is Some),
            ActionView::Exec { id, .. } => id == req.id,
            ActionView::ExecCode { id, .. } => id == req.id,
            ActionView::ReadFile { id, .. } => id == req.id,
            ActionView::WriteFile { id, .. } => id == req.id,
            ActionView::ListDir { id, .. } => id == req.id,
        },
{
}

/// What a client asks for is what the agent does: the request that the
/// client writes for an operation is planned as that operation, with the
/// same arguments.
pub proof fn lemma_client_requests_are_understood(
    id: u64,
    cmd: Seq<char>,
    lang: Seq<char>,
    code: Seq<char>,
    path: Seq<char>,
    content: Seq<char>,
)
    ensures
        plan_of(
            RequestView {
                jsonrpc: "2.0"@,
                id,
                method: "ping"@,
                params: Json::Obj(Map::empty()),
            },
        ) == ActionView::Reply(success_view(id, single("pong"@, Json::Bool(true)))),
        plan_of(
            RequestView {
                jsonrpc: "2.0"@,
                id,
                method: "exec"@,
                params: single("cmd"@, Json::Str(cmd)),
            },
        ) == (ActionView::Exec { id, cmd }),
        plan_of(
            RequestView {
                jsonrpc: "2.0"@,
                id,
                method: "exec_code"@,
                params: Json::Obj(
                    Map::<Seq<char>, Json>::empty().insert("lang"@, Json::Str(lang)).insert(
                        "code"@,
                        Json::Str(code),
                    ),
                ),
            },
        ) == (ActionView::ExecCode { id, lang, code }),
        plan_of(
            RequestView {
                jsonrpc: "2.0"@,
                id,
                method: "read_file"@,
                params: single("path"@, Json::Str(path)),
            },
        ) == (ActionView::ReadFile { id, path }),
        plan_of(
            RequestView {
                jsonrpc: "2.0"@,
                id,
                method: "write_file"@,
                params: Json::Obj(
                    Map::<Seq<char>, Json>::empty().insert("path"@, Json::Str(path)).insert(
                        "content"@,
                        Json::Str(content),
                    ),
                ),
            },
        ) == (ActionView::WriteFile { id, path, content }),
        plan_of(
            RequestView {
                jsonrpc: "2.0"@,
                id,
                method: "list_dir"@,
                params: single("path"@, Json::Str(path)),
            },
        ) == (ActionView::ListDir { id, path }),
{
    reveal_strlit("ping");
    reveal_strlit("exec");
    reveal_strlit("exec_code");
    reveal_strlit("read_file");
    reveal_strlit("write_file");
    reveal_strlit("list_dir");
    reveal_strlit("lang");
    reveal_strlit("code");
    reveal_strlit("path");
    reveal_strlit("content");
    assert("exec"@.len() != "ping"@.len() || "exec"@[0] != "ping"@[0]);
    assert("exec_code"@.len() != "exec"@.len());
    assert("read_file"@[0] != "ping"@[0]);
    assert("read_file"@[0] != "exec"@[0]);
    assert("write_file"@[0] != "read_file"@[0]);
    assert("list_dir"@[0] != "write_file"@[0]);
    assert("lang"@[0] != "code"@[0]);
    assert("path"@[0] != "content"@[0]);
}

} // verus!
