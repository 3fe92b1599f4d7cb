//! JSON-RPC 2.0 messages between the host and the guest agent.
//!
//! A message travels as one line of JSON text. The envelope of a message is
//! written out here, member by member; the values inside it (strings, and the
//! `params`, `result` and `data` members) are written and read by
//! `serde_json`.

pub mod error_codes;

use crate::json::{
    empty_object, json_of, json_of_all, json_parse, json_text, member, object_insert, parse_value,
    render_value, value_array, value_as_array, value_as_bool, value_as_i64, value_as_str,
    value_as_u64, value_bool, value_clone, value_get, value_i64, value_null, value_string,
    value_u64, Json,
};
use crate::text::{decimal, decimal_i64, decimal_u64, signed_decimal};
use vstd::prelude::*;

verus! {

/// The message for a member that a JSON object lacks.
pub open spec fn missing_field(key: Seq<char>) -> Seq<char> {
    "missing field `"@ + key + "`"@
}

/// The message for a member that holds a value of another type than
/// `expected`.
pub open spec fn wrong_type(key: Seq<char>, expected: Seq<char>) -> Seq<char> {
    "invalid type for field `"@ + key + "`, expected "@ + expected
}

/// The string member `key` of `j`.
pub open spec fn text_member(j: Json, key: Seq<char>) -> Result<Seq<char>, Seq<char>> {
    match member(j, key) {
        Some(Json::Str(s)) => Ok(s),
        Some(_) => Err(wrong_type(key, "a string"@)),
        None => Err(missing_field(key)),
    }
}

/// The member `key` of `j`, an integer from 0 to `u64::MAX`.
pub open spec fn u64_member(j: Json, key: Seq<char>) -> Result<u64, Seq<char>> {
    match member(j, key) {
        Some(Json::Int(n)) => if 0 <= n <= u64::MAX {
            Ok(n as u64)
        } else {
            Err(wrong_type(key, "an unsigned 64-bit integer"@))
        },
        Some(_) => Err(wrong_type(key, "an unsigned 64-bit integer"@)),
        None => Err(missing_field(key)),
    }
}

/// The member `key` of `j`, an integer that fits in 32 bits with a sign.
pub open spec fn i32_member(j: Json, key: Seq<char>) -> Result<i32, Seq<char>> {
    match member(j, key) {
        Some(Json::Int(n)) => if i32::MIN <= n <= i32::MAX {
            Ok(n as i32)
        } else {
            Err(wrong_type(key, "a 32-bit integer"@))
        },
        Some(_) => Err(wrong_type(key, "a 32-bit integer"@)),
        None => Err(missing_field(key)),
    }
}

/// The boolean member `key` of `j`.
pub open spec fn bool_member(j: Json, key: Seq<char>) -> Result<bool, Seq<char>> {
    match member(j, key) {
        Some(Json::Bool(b)) => Ok(b),
        Some(_) => Err(wrong_type(key, "a boolean"@)),
        None => Err(missing_field(key)),
    }
}

fn missing(key: &str) -> (m: String)
    ensures
        m@ == missing_field(key@),
{
    String::from_str("missing field `").concat(key).concat("`")
}

fn mistyped(key: &str, expected: &str) -> (m: String)
    ensures
        m@ == wrong_type(key@, expected@),
{
    String::from_str("invalid type for field `").concat(key).concat("`, expected ").concat(
        expected,
    )
}

/// Reads the string member `key` of `v`.
pub fn read_text(v: &serde_json::Value, key: &str) -> (r: Result<String, String>)
    ensures
        match r {
            Ok(s) => text_member(json_of(*v), key@) == Ok::<Seq<char>, Seq<char>>(s@),
            Err(e) => text_member(json_of(*v), key@) == Err::<Seq<char>, Seq<char>>(e@),
        },
{
    match value_get(v, key) {
        None => Err(missing(key)),
        Some(x) => match value_as_str(x) {
            Some(s) => Ok(String::from_str(s)),
            None => Err(mistyped(key, "a string")),
        },
    }
}

/// Reads the member `key` of `v`, an integer from 0 to `u64::MAX`.
pub fn read_u64(v: &serde_json::Value, key: &str) -> (r: Result<u64, String>)
    ensures
        match r {
            Ok(n) => u64_member(json_of(*v), key@) == Ok::<u64, Seq<char>>(n),
            Err(e) => u64_member(json_of(*v), key@) == Err::<u64, Seq<char>>(e@),
        },
{
    match value_get(v, key) {
        None => Err(missing(key)),
        Some(x) => match value_as_u64(x) {
            Some(n) => Ok(n),
            None => Err(mistyped(key, "an unsigned 64-bit integer")),
        },
    }
}

/// Reads the member `key` of `v`, an integer that fits in 32 bits with a
/// sign.
pub fn read_i32(v: &serde_json::Value, key: &str) -> (r: Result<i32, String>)
    ensures
        match r {
            Ok(n) => i32_member(json_of(*v), key@) == Ok::<i32, Seq<char>>(n),
            Err(e) => i32_member(json_of(*v), key@) == Err::<i32, Seq<char>>(e@),
        },
{
    match value_get(v, key) {
        None => Err(missing(key)),
        Some(x) => match value_as_i64(x) {
            Some(n) => if -2147483648 <= n && n <= 2147483647 {
                Ok(n as i32)
            } else {
                Err(mistyped(key, "a 32-bit integer"))
            },
            None => Err(mistyped(key, "a 32-bit integer")),
        },
    }
}

/// Reads the boolean member `key` of `v`.
pub fn read_bool(v: &serde_json::Value, key: &str) -> (r: Result<bool, String>)
    ensures
        match r {
            Ok(b) => bool_member(json_of(*v), key@) == Ok::<bool, Seq<char>>(b),
            Err(e) => bool_member(json_of(*v), key@) == Err::<bool, Seq<char>>(e@),
        },
{
    match value_get(v, key) {
        None => Err(missing(key)),
        Some(x) => match value_as_bool(x) {
            Some(b) => Ok(b),
            None => Err(mistyped(key, "a boolean")),
        },
    }
}

/// JSON-RPC 2.0 error object.
#[derive(Debug)]
pub struct RpcError {
    /// Error code.
    pub code: i32,
    /// Human-readable error message.
    pub message: String,
    /// Additional error data.
    pub data: Option<serde_json::Value>,
}

/// The content of an [`RpcError`].
pub struct RpcErrorView {
    pub code: i32,
    pub message: Seq<char>,
    pub data: Option<Json>,
}

impl View for RpcError {
    type V = RpcErrorView;

    open spec fn view(&self) -> RpcErrorView {
        RpcErrorView {
            code: self.code,
            message: self.message@,
            data: match self.data {
                Some(d) => Some(json_of(d)),
                None => None,
            },
        }
    }
}

/// JSON-RPC 2.0 request.
#[derive(Debug)]
pub struct Request {
    /// Protocol version, "2.0".
    pub jsonrpc: String,
    /// Request identifier.
    pub id: u64,
    /// Name of the method to invoke.
    pub method: String,
    /// Method parameters.
    pub params: serde_json::Value,
}

/// The content of a [`Request`].
pub struct RequestView {
    pub jsonrpc: Seq<char>,
    pub id: u64,
    pub method: Seq<char>,
    pub params: Json,
}

impl View for Request {
    type V = RequestView;

    open spec fn view(&self) -> RequestView {
        RequestView {
            jsonrpc: self.jsonrpc@,
            id: self.id,
            method: self.method@,
            params: json_of(self.params),
        }
    }
}

/// The request that a JSON document stands for: an object with the members
/// `jsonrpc` (a string), `id` (an integer from 0 to `u64::MAX`) and `method`
/// (a string), and with `params`, which are `null` where the member is
/// missing. Other members are passed over.
pub open spec fn request_of(j: Json) -> Result<RequestView, Seq<char>> {
    match text_member(j, "jsonrpc"@) {
        Err(e) => Err(e),
        Ok(jsonrpc) => match u64_member(j, "id"@) {
            Err(e) => Err(e),
            Ok(id) => match text_member(j, "method"@) {
                Err(e) => Err(e),
                Ok(method) => Ok(
                    RequestView {
                        jsonrpc,
                        id,
                        method,
                        params: match member(j, "params"@) {
                            Some(p) => p,
                            None => Json::Null,
                        },
                    },
                ),
            },
        },
    }
}

/// The request that a line of text stands for, or the message of what is
/// wrong with the line.
pub open spec fn request_of_text(text: Seq<char>) -> Result<RequestView, Seq<char>> {
    match json_parse(text) {
        Err(e) => Err(e),
        Ok(j) => request_of(j),
    }
}

impl Request {
    /// Reads a request from a JSON value.
    pub fn from_value(v: &serde_json::Value) -> (r: Result<Request, String>)
        ensures
            match r {
                Ok(req) => request_of(json_of(*v)) == Ok::<RequestView, Seq<char>>(req@),
                Err(e) => request_of(json_of(*v)) == Err::<RequestView, Seq<char>>(e@),
            },
    {
        let jsonrpc: String = match read_text(v, "jsonrpc") {
            Ok(s) => s,
            Err(e) => {
                return Err(e);
            },
        };
        let id: u64 = match read_u64(v, "id") {
            Ok(n) => n,
            Err(e) => {
                return Err(e);
            },
        };
        let method: String = match read_text(v, "method") {
            Ok(s) => s,
            Err(e) => {
                return Err(e);
            },
        };
        let params: serde_json::Value = match value_get(v, "params") {
            Some(p) => value_clone(p),
            None => value_null(),
        };
        Ok(Request { jsonrpc, id, method, params })
    }

    /// Reads a request from a line of JSON text.
    pub fn parse(text: &str) -> (r: Result<Request, String>)
        ensures
            match r {
                Ok(req) => request_of_text(text@) == Ok::<RequestView, Seq<char>>(req@),
                Err(e) => request_of_text(text@) == Err::<RequestView, Seq<char>>(e@),
            },
    {
        match parse_value(text) {
            Err(e) => Err(e),
            Ok(v) => Request::from_value(&v),
        }
    }
}

/// JSON-RPC 2.0 response.
#[derive(Debug)]
pub struct Response {
    /// Protocol version, always "2.0".
    pub jsonrpc: String,
    /// Request identifier (that of the request).
    pub id: u64,
    /// Result on success.
    pub result: Option<serde_json::Value>,
    /// Error on failure.
    pub error: Option<RpcError>,
}

/// The content of a [`Response`].
pub struct ResponseView {
    pub jsonrpc: Seq<char>,
    pub id: u64,
    pub result: Option<Json>,
    pub error: Option<RpcErrorView>,
}

impl View for Response {
    type V = ResponseView;

    open spec fn view(&self) -> ResponseView {
        ResponseView {
            jsonrpc: self.jsonrpc@,
            id: self.id,
            result: match self.result {
                Some(r) => Some(json_of(r)),
                None => None,
            },
            error: match self.error {
                Some(e) => Some(e@),
                None => None,
            },
        }
    }
}

/// The values of a response that `serde_json` writes, in the order in which
/// they stand in the line: the version, the result, and the message and the
/// data of the error.
pub open spec fn response_parts(r: ResponseView) -> Seq<Json> {
    seq![Json::Str(r.jsonrpc)] + (match r.result {
        Some(j) => seq![j],
        None => Seq::empty(),
    }) + (match r.error {
        Some(e) => seq![Json::Str(e.message)] + (match e.data {
            Some(d) => seq![d],
            None => Seq::empty(),
        }),
        None => Seq::empty(),
    })
}

/// The message of the first of `parts` that cannot be written; `None` where
/// each can.
pub open spec fn first_failure(parts: Seq<Json>) -> Option<Seq<char>>
    decreases parts.len(),
{
    if parts.len() == 0 {
        None
    } else {
        match json_text(parts[0]) {
            Err(e) => Some(e),
            Ok(_) => first_failure(parts.drop_first()),
        }
    }
}

/// The text of a value that can be written.
pub open spec fn written(j: Json) -> Seq<char> {
    json_text(j)->Ok_0
}

/// The line of a response, without the newline that ends it: the members
/// `jsonrpc` and `id`, then `result` where there is one, then `error` where
/// there is one, with its `code`, its `message` and, where it has some, its
/// `data`.
pub open spec fn response_text(r: ResponseView) -> Seq<char> {
    "{\"jsonrpc\":"@ + written(Json::Str(r.jsonrpc)) + ",\"id\":"@ + decimal(r.id as nat) + (
    match r.result {
        Some(j) => ",\"result\":"@ + written(j),
        None => Seq::empty(),
    }) + (match r.error {
        Some(e) => ",\"error\":{\"code\":"@ + signed_decimal(e.code as int) + ",\"message\":"@
            + written(Json::Str(e.message)) + (match e.data {
            Some(d) => ",\"data\":"@ + written(d),
            None => Seq::empty(),
        }) + "}"@,
        None => Seq::empty(),
    }) + "}"@
}

fn write_text(s: &String) -> (r: Result<String, String>)
    ensures
        match r {
            Ok(t) => json_text(Json::Str(s@)) == Ok::<Seq<char>, Seq<char>>(t@),
            Err(e) => json_text(Json::Str(s@)) == Err::<Seq<char>, Seq<char>>(e@),
        },
{
    let v: serde_json::Value = value_string(s.clone());
    render_value(&v)
}

impl Response {
    /// Creates a success response.
    pub fn success(id: u64, result: serde_json::Value) -> (r: Self)
        ensures
            r@ == (ResponseView {
                jsonrpc: "2.0"@,
                id,
                result: Some(json_of(result)),
                error: None,
            }),
    {
        Response { jsonrpc: String::from_str("2.0"), id, result: Some(result), error: None }
    }

    /// Creates an error response.
    pub fn error(id: u64, code: i32, message: String) -> (r: Self)
        ensures
            r@ == (ResponseView {
                jsonrpc: "2.0"@,
                id,
                result: None,
                error: Some(RpcErrorView { code, message: message@, data: None }),
            }),
    {
        Response {
            jsonrpc: String::from_str("2.0"),
            id,
            result: None,
            error: Some(RpcError { code, message, data: None }),
        }
    }

    /// Writes the response as one line of JSON text, without the newline
    /// that ends it. The line is written whenever `serde_json` writes each
    /// value in it; otherwise the message of the first failure comes back.
    pub fn to_line(&self) -> (r: Result<String, String>)
        ensures
            match r {
                Ok(line) => first_failure(response_parts(self@)) is None && line@
                    == response_text(self@),
                Err(e) => first_failure(response_parts(self@)) == Some(e@),
            },
    {
        let ghost result_part: Seq<Json> = match self@.result {
            Some(j) => seq![j],
            None => Seq::empty(),
        };
        let ghost data_part: Seq<Json> = match self@.error {
            Some(e) => match e.data {
                Some(d) => seq![d],
                None => Seq::empty(),
            },
            None => Seq::empty(),
        };
        let ghost error_part: Seq<Json> = match self@.error {
            Some(e) => seq![Json::Str(e.message)] + data_part,
            None => Seq::empty(),
        };
        let ghost parts = response_parts(self@);
        proof {
            assert(parts =~= seq![Json::Str(self@.jsonrpc)] + result_part + error_part);
            lemma_first_failure_step(parts);
            assert(parts.drop_first() =~= result_part + error_part);
        }
        let version: String = match write_text(&self.jsonrpc) {
            Ok(t) => t,
            Err(e) => {
                return Err(e);
            },
        };
        let id: String = decimal_u64(self.id);
        let mut line: String = String::from_str("{\"jsonrpc\":").concat(version.as_str()).concat(
            ",\"id\":",
        ).concat(id.as_str());
        assert(first_failure(parts) == first_failure(result_part + error_part));
        match &self.result {
            Some(result) => {
                proof {
                    lemma_first_failure_step(result_part + error_part);
                    assert((result_part + error_part).drop_first() =~= error_part);
                }
                match render_value(result) {
                    Ok(t) => {
                        line = line.concat(",\"result\":").concat(t.as_str());
                    },
                    Err(e) => {
                        return Err(e);
                    },
                }
            },
            None => {
                assert(result_part + error_part =~= error_part);
            },
        }
        assert(first_failure(parts) == first_failure(error_part));
        match &self.error {
            Some(error) => {
                proof {
                    lemma_first_failure_step(error_part);
                    assert(error_part.drop_first() =~= data_part);
                }
                let code: String = decimal_i64(error.code as i64);
                let message: String = match write_text(&error.message) {
                    Ok(t) => t,
                    Err(e) => {
                        return Err(e);
                    },
                };
                line = line.concat(",\"error\":{\"code\":").concat(code.as_str()).concat(
                    ",\"message\":",
                ).concat(message.as_str());
                match &error.data {
                    Some(data) => {
                        proof {
                            lemma_first_failure_step(data_part);
                            assert(data_part.drop_first() =~= Seq::<Json>::empty());
                        }
                        match render_value(data) {
                            Ok(t) => {
                                line = line.concat(",\"data\":").concat(t.as_str());
                            },
                            Err(e) => {
                                return Err(e);
                            },
                        }
                    },
                    None => {},
                }
                line = line.concat("}");
            },
            None => {},
        }
        assert(first_failure(parts) is None);
        line = line.concat("}");
        assert(line@ =~= response_text(self@));
        Ok(line)
    }
}

/// How the first failure among `parts` is found: at the first part, or
/// among the others.
proof fn lemma_first_failure_step(parts: Seq<Json>)
    requires
        parts.len() > 0,
    ensures
        first_failure(parts) == match json_text(parts[0]) {
            Err(e) => Some(e),
            Ok(_) => first_failure(parts.drop_first()),
        },
{
}

/// The line of a request, without the newline that ends it: the members
/// `jsonrpc`, `id`, `method` and `params`.
pub open spec fn request_text(id: u64, method: Seq<char>, params: Json) -> Seq<char> {
    "{\"jsonrpc\":\"2.0\",\"id\":"@ + decimal(id as nat) + ",\"method\":"@ + written(
        Json::Str(method),
    ) + ",\"params\":"@ + written(params) + "}"@
}

/// Writes a request as one line of JSON text, without the newline that ends
/// it. The line is written whenever `serde_json` writes the method name and
/// the parameters; otherwise the message of the first failure comes back.
pub fn request_line(id: u64, method: &str, params: &serde_json::Value) -> (r: Result<
    String,
    String,
>)
    ensures
        match r {
            Ok(line) => first_failure(seq![Json::Str(method@), json_of(*params)]) is None
                && line@ == request_text(id, method@, json_of(*params)),
            Err(e) => first_failure(seq![Json::Str(method@), json_of(*params)]) == Some(e@),
        },
{
    let ghost parts = seq![Json::Str(method@), json_of(*params)];
    proof {
        lemma_first_failure_step(parts);
        assert(parts.drop_first() =~= seq![json_of(*params)]);
        lemma_first_failure_step(parts.drop_first());
        assert(parts.drop_first().drop_first() =~= Seq::<Json>::empty());
    }
    let name: String = String::from_str(method);
    let method_text: String = match write_text(&name) {
        Ok(t) => t,
        Err(e) => {
            return Err(e);
        },
    };
    let params_text: String = match render_value(params) {
        Ok(t) => t,
        Err(e) => {
            return Err(e);
        },
    };
    let number: String = decimal_u64(id);
    let line: String = String::from_str("{\"jsonrpc\":\"2.0\",\"id\":").concat(
        number.as_str(),
    ).concat(",\"method\":").concat(method_text.as_str()).concat(",\"params\":").concat(
        params_text.as_str(),
    ).concat("}");
    Ok(line)
}

/// Result of command execution.
#[derive(Debug, Clone)]
pub struct ExecResult {
    /// Process exit code (-1 if the process could not be started).
    pub exit_code: i32,
    /// Standard output.
    pub stdout: String,
    /// Standard error.
    pub stderr: String,
}

/// The content of an [`ExecResult`].
pub struct ExecResultView {
    pub exit_code: i32,
    pub stdout: Seq<char>,
    pub stderr: Seq<char>,
}

impl View for ExecResult {
    type V = ExecResultView;

    open spec fn view(&self) -> ExecResultView {
        ExecResultView { exit_code: self.exit_code, stdout: self.stdout@, stderr: self.stderr@ }
    }
}

/// The JSON object of an execution result.
pub open spec fn exec_result_json(r: ExecResultView) -> Json {
    Json::Obj(
        Map::<Seq<char>, Json>::empty().insert("exit_code"@, Json::Int(r.exit_code as int)).insert(
            "stdout"@,
            Json::Str(r.stdout),
        ).insert("stderr"@, Json::Str(r.stderr)),
    )
}

/// The execution result that a JSON document stands for: an object with the
/// members `exit_code` (an integer that fits in 32 bits), `stdout` and
/// `stderr` (strings).
pub open spec fn exec_result_of(j: Json) -> Result<ExecResultView, Seq<char>> {
    match i32_member(j, "exit_code"@) {
        Err(e) => Err(e),
        Ok(exit_code) => match text_member(j, "stdout"@) {
            Err(e) => Err(e),
            Ok(stdout) => match text_member(j, "stderr"@) {
                Err(e) => Err(e),
                Ok(stderr) => Ok(ExecResultView { exit_code, stdout, stderr }),
            },
        },
    }
}

impl ExecResult {
    /// The result of a command that could not be run: the exit code -1, no
    /// output, and the message as the error output.
    pub fn error(message: &str) -> (r: Self)
        ensures
            r@ == (ExecResultView { exit_code: -1i32, stdout: Seq::empty(), stderr: message@ }),
    {
        ExecResult { exit_code: -1, stdout: String::new(), stderr: String::from_str(message) }
    }

    /// Whether the command succeeded, which is to say ended with the exit
    /// code 0.
    pub fn success(&self) -> (b: bool)
        ensures
            b == (self.exit_code == 0),
    {
        self.exit_code == 0
    }

    /// The result as a JSON object.
    pub fn to_value(&self) -> (v: serde_json::Value)
        ensures
            json_of(v) == exec_result_json(self@),
    {
        let mut v: serde_json::Value = empty_object();
        object_insert(&mut v, "exit_code", value_i64(self.exit_code as i64));
        object_insert(&mut v, "stdout", value_string(self.stdout.clone()));
        object_insert(&mut v, "stderr", value_string(self.stderr.clone()));
        v
    }

    /// Reads a result from a JSON value.
    pub fn from_value(v: &serde_json::Value) -> (r: Result<ExecResult, String>)
        ensures
            match r {
                Ok(x) => exec_result_of(json_of(*v)) == Ok::<ExecResultView, Seq<char>>(x@),
                Err(e) => exec_result_of(json_of(*v)) == Err::<ExecResultView, Seq<char>>(e@),
            },
    {
        let exit_code: i32 = match read_i32(v, "exit_code") {
            Ok(n) => n,
            Err(e) => {
                return Err(e);
            },
        };
        let stdout: String = match read_text(v, "stdout") {
            Ok(s) => s,
            Err(e) => {
                return Err(e);
            },
        };
        let stderr: String = match read_text(v, "stderr") {
            Ok(s) => s,
            Err(e) => {
                return Err(e);
            },
        };
        Ok(ExecResult { exit_code, stdout, stderr })
    }
}

/// File entry of a directory listing.
#[derive(Debug, Clone)]
pub struct FileEntry {
    /// File or directory name.
    pub name: String,
    /// True if this is a directory.
    pub is_dir: bool,
    /// File size in bytes (0 for directories).
    pub size: u64,
}

/// The content of a [`FileEntry`].
pub struct FileEntryView {
    pub name: Seq<char>,
    pub is_dir: bool,
    pub size: u64,
}

impl View for FileEntry {
    type V = FileEntryView;

    open spec fn view(&self) -> FileEntryView {
        FileEntryView { name: self.name@, is_dir: self.is_dir, size: self.size }
    }
}

/// The JSON object of a file entry.
pub open spec fn file_entry_json(e: FileEntryView) -> Json {
    Json::Obj(
        Map::<Seq<char>, Json>::empty().insert("name"@, Json::Str(e.name)).insert(
            "is_dir"@,
            Json::Bool(e.is_dir),
        ).insert("size"@, Json::Int(e.size as int)),
    )
}

/// The file entry that a JSON document stands for: an object with the
/// members `name` (a string), `is_dir` (a boolean) and `size` (an integer
/// from 0 to `u64::MAX`).
pub open spec fn file_entry_of(j: Json) -> Result<FileEntryView, Seq<char>> {
    match text_member(j, "name"@) {
        Err(e) => Err(e),
        Ok(name) => match bool_member(j, "is_dir"@) {
            Err(e) => Err(e),
            Ok(is_dir) => match u64_member(j, "size"@) {
                Err(e) => Err(e),
                Ok(size) => Ok(FileEntryView { name, is_dir, size }),
            },
        },
    }
}

/// The contents of a list of file entries.
pub open spec fn entry_views(entries: Seq<FileEntry>) -> Seq<FileEntryView> {
    Seq::new(entries.len(), |i: int| entries[i]@)
}

/// The JSON objects of a list of file entries.
pub open spec fn entries_json(entries: Seq<FileEntryView>) -> Seq<Json> {
    Seq::new(entries.len(), |i: int| file_entry_json(entries[i]))
}

/// The file entries that a list of JSON documents stands for, or the message
/// of what is wrong with the first that stands for none.
pub open spec fn entries_of(items: Seq<Json>) -> Result<Seq<FileEntryView>, Seq<char>>
    decreases items.len(),
{
    if items.len() == 0 {
        Ok(Seq::empty())
    } else {
        match entries_of(items.drop_last()) {
            Err(e) => Err(e),
            Ok(head) => match file_entry_of(items.last()) {
                Err(e) => Err(e),
                Ok(entry) => Ok(head.push(entry)),
            },
        }
    }
}

impl FileEntry {
    /// The entry as a JSON object.
    pub fn to_value(&self) -> (v: serde_json::Value)
        ensures
            json_of(v) == file_entry_json(self@),
    {
        let mut v: serde_json::Value = empty_object();
        object_insert(&mut v, "name", value_string(self.name.clone()));
        object_insert(&mut v, "is_dir", value_bool(self.is_dir));
        object_insert(&mut v, "size", value_u64(self.size));
        v
    }

    /// Reads an entry from a JSON value.
    pub fn from_value(v: &serde_json::Value) -> (r: Result<FileEntry, String>)
        ensures
            match r {
                Ok(x) => file_entry_of(json_of(*v)) == Ok::<FileEntryView, Seq<char>>(x@),
                Err(e) => file_entry_of(json_of(*v)) == Err::<FileEntryView, Seq<char>>(e@),
            },
    {
        let name: String = match read_text(v, "name") {
            Ok(s) => s,
            Err(e) => {
                return Err(e);
            },
        };
        let is_dir: bool = match read_bool(v, "is_dir") {
            Ok(b) => b,
            Err(e) => {
                return Err(e);
            },
        };
        let size: u64 = match read_u64(v, "size") {
            Ok(n) => n,
            Err(e) => {
                return Err(e);
            },
        };
        Ok(FileEntry { name, is_dir, size })
    }
}

/// An object with the one member `key`.
pub open spec fn single(key: Seq<char>, value: Json) -> Json {
    Json::Obj(Map::<Seq<char>, Json>::empty().insert(key, value))
}

/// The result of `ping`: `{"pong": true}`.
pub fn pong() -> (v: serde_json::Value)
    ensures
        json_of(v) == single("pong"@, Json::Bool(true)),
{
    let mut v: serde_json::Value = empty_object();
    object_insert(&mut v, "pong", value_bool(true));
    v
}

/// The result of `read_file`: `{"content": ...}`.
pub fn content_result(content: String) -> (v: serde_json::Value)
    ensures
        json_of(v) == single("content"@, Json::Str(content@)),
{
    let mut v: serde_json::Value = empty_object();
    object_insert(&mut v, "content", value_string(content));
    v
}

/// The result of `write_file`: `{"success": ...}`.
pub fn success_result(success: bool) -> (v: serde_json::Value)
    ensures
        json_of(v) == single("success"@, Json::Bool(success)),
{
    let mut v: serde_json::Value = empty_object();
    object_insert(&mut v, "success", value_bool(success));
    v
}

/// The result of `list_dir`: `{"entries": [...]}`, the entries in the order
/// given.
pub fn entries_result(entries: &Vec<FileEntry>) -> (v: serde_json::Value)
    ensures
        json_of(v) == single("entries"@, Json::Arr(entries_json(entry_views(entries@)))),
{
    let mut items: Vec<serde_json::Value> = Vec::new();
    let n: usize = entries.len();
    let mut i: usize = 0;
    while i < n
        invariant
            n == entries.len(),
            0 <= i <= n,
            items.len() == i,
            forall|k: int| 0 <= k < i ==> json_of(#[trigger] items@[k]) == file_entry_json(entries@[k]@),
        decreases n - i,
    {
        items.push(entries[i].to_value());
        i = i + 1;
    }
    assert(json_of_all(items@) =~= entries_json(entry_views(entries@)));
    let mut v: serde_json::Value = empty_object();
    object_insert(&mut v, "entries", value_array(items));
    v
}

/// The file entries in the result of `list_dir`: the member `entries`, an
/// array of file entries.
pub open spec fn listing_of(j: Json) -> Result<Seq<FileEntryView>, Seq<char>> {
    match member(j, "entries"@) {
        None => Err(missing_field("entries"@)),
        Some(Json::Arr(items)) => entries_of(items),
        Some(_) => Err(wrong_type("entries"@, "an array"@)),
    }
}

/// Reads the result of `list_dir`.
pub fn read_listing(v: &serde_json::Value) -> (r: Result<Vec<FileEntry>, String>)
    ensures
        match r {
            Ok(entries) => listing_of(json_of(*v)) == Ok::<Seq<FileEntryView>, Seq<char>>(
                entry_views(entries@),
            ),
            Err(e) => listing_of(json_of(*v)) == Err::<Seq<FileEntryView>, Seq<char>>(e@),
        },
{
    let list: &serde_json::Value = match value_get(v, "entries") {
        None => {
            return Err(missing("entries"));
        },
        Some(x) => x,
    };
    let items: &Vec<serde_json::Value> = match value_as_array(list) {
        None => {
            return Err(mistyped("entries", "an array"));
        },
        Some(a) => a,
    };
    let ghost all = json_of_all(items@);
    let mut entries: Vec<FileEntry> = Vec::new();
    let n: usize = items.len();
    let mut i: usize = 0;
    assert(all.take(0) =~= Seq::<Json>::empty());
    assert(entry_views(entries@) =~= Seq::<FileEntryView>::empty());
    while i < n
        invariant
            n == items.len(),
            all == json_of_all(items@),
            listing_of(json_of(*v)) == entries_of(all),
            0 <= i <= n,
            entries_of(all.take(i as int)) == Ok::<Seq<FileEntryView>, Seq<char>>(
                entry_views(entries@),
            ),
        decreases n - i,
    {
        let ghost before = entry_views(entries@);
        assert(all.take(i as int + 1).drop_last() =~= all.take(i as int));
        assert(all.take(i as int + 1).last() == json_of(items@[i as int]));
        match FileEntry::from_value(&items[i]) {
            Ok(entry) => {
                entries.push(entry);
                assert(entry_views(entries@) =~= before.push(entry@));
            },
            Err(e) => {
                proof {
                    assert(all.take(i as int + 1).len() > 0);
                    assert(entries_of(all.take(i as int + 1)) == Err::<
                        Seq<FileEntryView>,
                        Seq<char>,
                    >(e@));
                    lemma_entries_fail(all, i as int + 1);
                }
                return Err(e);
            },
        }
        i = i + 1;
    }
    assert(all.take(n as int) =~= all);
    Ok(entries)
}

/// A list of which a beginning stands for no entries stands for none either,
/// and for the same reason.
proof fn lemma_entries_fail(items: Seq<Json>, upto: int)
    requires
        0 <= upto <= items.len(),
        entries_of(items.take(upto)) is Err,
    ensures
        entries_of(items) == entries_of(items.take(upto)),
    decreases items.len() - upto,
{
    if upto < items.len() {
        assert(items.take(upto + 1).drop_last() =~= items.take(upto));
        lemma_entries_fail(items, upto + 1);
    } else {
        assert(items.take(upto) =~= items);
    }
}

/// Parameters of the `exec` method.
#[derive(Debug)]
pub struct ExecParams {
    /// Shell command to execute.
    pub cmd: String,
}

/// Parameters of the `exec_code` method.
#[derive(Debug)]
pub struct ExecCodeParams {
    /// Programming language (python, python3, node, javascript, js, bash, sh).
    pub lang: String,
    /// Code to execute.
    pub code: String,
}

/// Parameters of the `read_file` method.
#[derive(Debug)]
pub struct ReadFileParams {
    /// Path to the file to read.
    pub path: String,
}

/// Parameters of the `write_file` method.
#[derive(Debug)]
pub struct WriteFileParams {
    /// Path to the file to write.
    pub path: String,
    /// Content to write.
    pub content: String,
}

/// Parameters of the `list_dir` method.
#[derive(Debug)]
pub struct ListDirParams {
    /// Path to the directory to list.
    pub path: String,
}

impl ExecParams {
    /// Reads the parameters of `exec`: an object with the string member
    /// `cmd`.
    pub fn from_value(v: &serde_json::Value) -> (r: Result<ExecParams, String>)
        ensures
            match r {
                Ok(p) => text_member(json_of(*v), "cmd"@) == Ok::<Seq<char>, Seq<char>>(p.cmd@),
                Err(e) => text_member(json_of(*v), "cmd"@) == Err::<Seq<char>, Seq<char>>(e@),
            },
    {
        match read_text(v, "cmd") {
            Ok(cmd) => Ok(ExecParams { cmd }),
            Err(e) => Err(e),
        }
    }

    /// The parameters as a JSON object.
    pub fn to_value(&self) -> (v: serde_json::Value)
        ensures
            json_of(v) == single("cmd"@, Json::Str(self.cmd@)),
    {
        let mut v: serde_json::Value = empty_object();
        object_insert(&mut v, "cmd", value_string(self.cmd.clone()));
        v
    }
}

/// The parameters of `exec_code` that a JSON document stands for.
pub open spec fn exec_code_params_of(j: Json) -> Result<(Seq<char>, Seq<char>), Seq<char>> {
    match text_member(j, "lang"@) {
        Err(e) => Err(e),
        Ok(lang) => match text_member(j, "code"@) {
            Err(e) => Err(e),
            Ok(code) => Ok((lang, code)),
        },
    }
}

impl ExecCodeParams {
    /// Reads the parameters of `exec_code`: an object with the string
    /// members `lang` and `code`.
    pub fn from_value(v: &serde_json::Value) -> (r: Result<ExecCodeParams, String>)
        ensures
            match r {
                Ok(p) => exec_code_params_of(json_of(*v)) == Ok::<
                    (Seq<char>, Seq<char>),
                    Seq<char>,
                >((p.lang@, p.code@)),
                Err(e) => exec_code_params_of(json_of(*v)) == Err::<
                    (Seq<char>, Seq<char>),
                    Seq<char>,
                >(e@),
            },
    {
        let lang: String = match read_text(v, "lang") {
            Ok(s) => s,
            Err(e) => {
                return Err(e);
            },
        };
        let code: String = match read_text(v, "code") {
            Ok(s) => s,
            Err(e) => {
                return Err(e);
            },
        };
        Ok(ExecCodeParams { lang, code })
    }

    /// The parameters as a JSON object.
    pub fn to_value(&self) -> (v: serde_json::Value)
        ensures
            json_of(v) == Json::Obj(
                Map::<Seq<char>, Json>::empty().insert("lang"@, Json::Str(self.lang@)).insert(
                    "code"@,
                    Json::Str(self.code@),
                ),
            ),
    {
        let mut v: serde_json::Value = empty_object();
        object_insert(&mut v, "lang", value_string(self.lang.clone()));
        object_insert(&mut v, "code", value_string(self.code.clone()));
        v
    }
}

impl ReadFileParams {
    /// Reads the parameters of `read_file`: an object with the string member
    /// `path`.
    pub fn from_value(v: &serde_json::Value) -> (r: Result<ReadFileParams, String>)
        ensures
            match r {
                Ok(p) => text_member(json_of(*v), "path"@) == Ok::<Seq<char>, Seq<char>>(p.path@),
                Err(e) => text_member(json_of(*v), "path"@) == Err::<Seq<char>, Seq<char>>(e@),
            },
    {
        match read_text(v, "path") {
            Ok(path) => Ok(ReadFileParams { path }),
            Err(e) => Err(e),
        }
    }

    /// The parameters as a JSON object.
    pub fn to_value(&self) -> (v: serde_json::Value)
        ensures
            json_of(v) == single("path"@, Json::Str(self.path@)),
    {
        let mut v: serde_json::Value = empty_object();
        object_insert(&mut v, "path", value_string(self.path.clone()));
        v
    }
}

/// The parameters of `write_file` that a JSON document stands for.
pub open spec fn write_file_params_of(j: Json) -> Result<(Seq<char>, Seq<char>), Seq<char>> {
    match text_member(j, "path"@) {
        Err(e) => Err(e),
        Ok(path) => match text_member(j, "content"@) {
            Err(e) => Err(e),
            Ok(content) => Ok((path, content)),
        },
    }
}

impl WriteFileParams {
    /// Reads the parameters of `write_file`: an object with the string
    /// members `path` and `content`.
    pub fn from_value(v: &serde_json::Value) -> (r: Result<WriteFileParams, String>)
        ensures
            match r {
                Ok(p) => write_file_params_of(json_of(*v)) == Ok::<
                    (Seq<char>, Seq<char>),
                    Seq<char>,
                >((p.path@, p.content@)),
                Err(e) => write_file_params_of(json_of(*v)) == Err::<
                    (Seq<char>, Seq<char>),
                    Seq<char>,
                >(e@),
            },
    {
        let path: String = match read_text(v, "path") {
            Ok(s) => s,
            Err(e) => {
                return Err(e);
            },
        };
        let content: String = match read_text(v, "content") {
            Ok(s) => s,
            Err(e) => {
                return Err(e);
            },
        };
        Ok(WriteFileParams { path, content })
    }

    /// The parameters as a JSON object.
    pub fn to_value(&self) -> (v: serde_json::Value)
        ensures
            json_of(v) == Json::Obj(
                Map::<Seq<char>, Json>::empty().insert("path"@, Json::Str(self.path@)).insert(
                    "content"@,
                    Json::Str(self.content@),
                ),
            ),
    {
        let mut v: serde_json::Value = empty_object();
        object_insert(&mut v, "path", value_string(self.path.clone()));
        object_insert(&mut v, "content", value_string(self.content.clone()));
        v
    }
}

impl ListDirParams {
    /// Reads the parameters of `list_dir`: an object with the string member
    /// `path`.
    pub fn from_value(v: &serde_json::Value) -> (r: Result<ListDirParams, String>)
        ensures
            match r {
                Ok(p) => text_member(json_of(*v), "path"@) == Ok::<Seq<char>, Seq<char>>(p.path@),
                Err(e) => text_member(json_of(*v), "path"@) == Err::<Seq<char>, Seq<char>>(e@),
            },
    {
        match read_text(v, "path") {
            Ok(path) => Ok(ListDirParams { path }),
            Err(e) => Err(e),
        }
    }

    /// The parameters as a JSON object.
    pub fn to_value(&self) -> (v: serde_json::Value)
        ensures
            json_of(v) == single("path"@, Json::Str(self.path@)),
    {
        let mut v: serde_json::Value = empty_object();
        object_insert(&mut v, "path", value_string(self.path.clone()));
        v
    }
}

/// An execution result that is written as a JSON object is read back from
/// it as it was.
pub proof fn lemma_exec_result_round_trip(r: ExecResultView)
    ensures
        exec_result_of(exec_result_json(r)) == Ok::<ExecResultView, Seq<char>>(r),
{
    reveal_strlit("exit_code");
    reveal_strlit("stdout");
    reveal_strlit("stderr");
    assert("exit_code"@[1] != "stdout"@[1]);
    assert("exit_code"@[1] != "stderr"@[1]);
    assert("stdout"@[3] != "stderr"@[3]);
}

/// A file entry that is written as a JSON object is read back from it as it
/// was.
pub proof fn lemma_file_entry_round_trip(e: FileEntryView)
    ensures
        file_entry_of(file_entry_json(e)) == Ok::<FileEntryView, Seq<char>>(e),
{
    reveal_strlit("name");
    reveal_strlit("is_dir");
    reveal_strlit("size");
    assert("name"@[0] != "is_dir"@[0]);
    assert("name"@[0] != "size"@[0]);
    assert("is_dir"@[0] != "size"@[0]);
}

/// A listing that is written as JSON objects is read back from them as it
/// was.
pub proof fn lemma_entries_round_trip(entries: Seq<FileEntryView>)
    ensures
        entries_of(entries_json(entries)) == Ok::<Seq<FileEntryView>, Seq<char>>(entries),
        listing_of(single("entries"@, Json::Arr(entries_json(entries)))) == Ok::<
            Seq<FileEntryView>,
            Seq<char>,
        >(entries),
    decreases entries.len(),
{
    if entries.len() > 0 {
        lemma_entries_round_trip(entries.drop_last());
        lemma_file_entry_round_trip(entries.last());
        assert(entries_json(entries).drop_last() =~= entries_json(entries.drop_last()));
        assert(entries.drop_last().push(entries.last()) =~= entries);
    } else {
        assert(entries =~= Seq::<FileEntryView>::empty());
    }
}

/// The content of a file that is written into the result of `read_file` is
/// read back from it as it was.
pub proof fn lemma_content_round_trip(content: Seq<char>)
    ensures
        text_member(single("content"@, Json::Str(content)), "content"@) == Ok::<
            Seq<char>,
            Seq<char>,
        >(content),
{
}

} // verus!
