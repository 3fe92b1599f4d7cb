//! The host's side of the conversation with one guest agent.
//!
//! The socket is the caller's. What is decided here is how long to keep
//! trying to connect, what the handshake looks like, which line a call
//! sends, and what the line that comes back means.

use crate::error::CoreError;
use crate::json::{
    empty_object, json_of, json_parse, member, parse_value, value_as_i64, value_as_str,
    value_clone, value_get, Json,
};
use crate::protocol::{
    bool_member, entry_views, exec_result_of, first_failure, listing_of, read_bool, read_listing,
    read_text, request_line, request_text, single, text_member, ExecCodeParams, ExecParams,
    ExecResult, ExecResultView, FileEntry, FileEntryView, ListDirParams, ReadFileParams,
    WriteFileParams,
};
use crate::text::{strip_prefix, trim, trimmed};
use crate::time::{duration_from_secs, from_secs};
use vstd::prelude::*;

verus! {

/// How long connecting to an agent may take in all, in milliseconds.
pub const CONNECT_TIMEOUT_MS: u64 = 10000;

/// How long to wait between two tries to connect, in milliseconds.
pub const RETRY_INTERVAL_MS: u64 = 100;

/// How long to wait for the response to a call, in milliseconds.
pub const RPC_TIMEOUT_MS: u64 = 30000;

/// What to do after a try to connect failed.
#[derive(Debug)]
pub enum ConnectStep {
    /// Wait for so many milliseconds, then try again.
    Retry { after_ms: u64 },
    /// Give up with this error.
    GiveUp(CoreError),
}

/// Decides what to do after a try to connect failed, `elapsed_ms`
/// milliseconds after the first try began: within ten seconds the next try
/// follows after a tenth of a second; after that the agent is given up as
/// timed out.
pub fn after_failed_attempt(elapsed_ms: u64) -> (step: ConnectStep)
    ensures
        elapsed_ms < CONNECT_TIMEOUT_MS ==> (step matches ConnectStep::Retry { after_ms }
            && after_ms == RETRY_INTERVAL_MS),
        elapsed_ms >= CONNECT_TIMEOUT_MS ==> (step matches ConnectStep::GiveUp(
            CoreError::AgentTimeout(d),
        ) && d == duration_from_secs(10)),
{
    if elapsed_ms >= CONNECT_TIMEOUT_MS {
        ConnectStep::GiveUp(CoreError::AgentTimeout(from_secs(10)))
    } else {
        ConnectStep::Retry { after_ms: RETRY_INTERVAL_MS }
    }
}

/// The line that opens a connection through the hypervisor's proxy:
/// `CONNECT 52` and a newline.
pub fn handshake_request() -> (line: String)
    ensures
        line@ == "CONNECT 52\n"@,
{
    String::from_str("CONNECT 52\n")
}

/// What the answer to the handshake means: the connection stands where the
/// answer begins with `OK `, and failed otherwise.
pub fn check_handshake(reply: &str) -> (r: Result<(), CoreError>)
    ensures
        r is Ok <==> "OK "@.is_prefix_of(reply@),
        r matches Err(e) ==> e matches CoreError::Connection(m) && m@ == "handshake failed: "@
            + trimmed(reply@),
{
    if strip_prefix(reply, "OK ").is_some() {
        Ok(())
    } else {
        Err(
            CoreError::Connection(String::from_str("handshake failed: ").concat(trim(reply))),
        )
    }
}

/// The error for a socket that could not be connected.
pub fn connect_failure(detail: &str) -> (e: CoreError)
    ensures
        e matches CoreError::Connection(m) && m@ == "socket connect failed: "@ + detail@,
{
    CoreError::Connection(String::from_str("socket connect failed: ").concat(detail))
}

/// The error for a handshake that could not be sent.
pub fn handshake_write_failure(detail: &str) -> (e: CoreError)
    ensures
        e matches CoreError::Connection(m) && m@ == "handshake write failed: "@ + detail@,
{
    CoreError::Connection(String::from_str("handshake write failed: ").concat(detail))
}

/// What came of waiting for the response to a call.
#[derive(Debug)]
pub enum ReadOutcome {
    /// A line was read.
    Line(String),
    /// Reading failed, with this message.
    Failed(String),
    /// No line came within the deadline.
    TimedOut,
}

/// The error code that a response carries: the member `code` of its error,
/// cut to 32 bits, and -1 where that is no integer that fits in 64 bits.
pub open spec fn error_code(err: Json) -> i32 {
    match member(err, "code"@) {
        Some(Json::Int(n)) => if i64::MIN <= n <= i64::MAX {
            (n as i64) as i32
        } else {
            -1i32
        },
        _ => -1i32,
    }
}

/// The error message that a response carries: the member `message` of its
/// error, and `unknown error` where that is no string.
pub open spec fn error_message(err: Json) -> Seq<char> {
    match member(err, "message"@) {
        Some(Json::Str(s)) => s,
        _ => "unknown error"@,
    }
}

/// What a response means, as far as its envelope goes: the result it
/// carries, or the kind of failure.
pub enum Verdict {
    /// The response carries this result.
    Result(Json),
    /// The line is no JSON text.
    Malformed(Seq<char>),
    /// The response carries an error.
    Error { code: i32, message: Seq<char> },
    /// The response carries neither a result nor an error.
    MissingResult,
}

/// What the line of a response means. An `error` member decides before a
/// `result` member is looked at.
pub open spec fn verdict_of(text: Seq<char>) -> Verdict {
    match json_parse(text) {
        Err(e) => Verdict::Malformed(e),
        Ok(j) => match member(j, "error"@) {
            Some(err) => Verdict::Error { code: error_code(err), message: error_message(err) },
            None => match member(j, "result"@) {
                Some(r) => Verdict::Result(r),
                None => Verdict::MissingResult,
            },
        },
    }
}

/// Whether `r` is what a call returns for a response with the verdict `v`:
/// the result, or the error that the verdict stands for.
pub open spec fn answers(r: Result<serde_json::Value, CoreError>, v: Verdict) -> bool {
    match v {
        Verdict::Result(j) => r matches Ok(x) && json_of(x) == j,
        Verdict::Malformed(e) => r matches Err(CoreError::Json(m)) && m@ == e,
        Verdict::Error { code, message } => r matches Err(CoreError::Rpc { code: c, message: m })
            && c == code && m@ == message,
        Verdict::MissingResult => r matches Err(CoreError::Rpc { code: c, message: m }) && c
            == -1i32 && m@ == "missing result in response"@,
    }
}

/// Reads the line of a response: hands out the result it carries, or the
/// error it stands for.
pub fn interpret_response(text: &str) -> (r: Result<serde_json::Value, CoreError>)
    ensures
        answers(r, verdict_of(text@)),
        r is Ok <==> verdict_of(text@) is Result,
{
    let response: serde_json::Value = match parse_value(text) {
        Ok(v) => v,
        Err(e) => {
            return Err(CoreError::Json(e));
        },
    };
    match value_get(&response, "error") {
        Some(err) => {
            let code: i32 = match value_get(err, "code") {
                Some(c) => match value_as_i64(c) {
                    Some(n) => #[verifier::truncate]
                    (n as i32),
                    None => -1,
                },
                None => -1,
            };
            let message: String = match value_get(err, "message") {
                Some(m) => match value_as_str(m) {
                    Some(s) => String::from_str(s),
                    None => String::from_str("unknown error"),
                },
                None => String::from_str("unknown error"),
            };
            Err(CoreError::Rpc { code, message })
        },
        None => match value_get(&response, "result") {
            Some(result) => Ok(value_clone(result)),
            None => Err(
                CoreError::Rpc {
                    code: -1,
                    message: String::from_str("missing result in response"),
                },
            ),
        },
    }
}

/// Every call ends in one of two ways, and never in both: with the result
/// that the response carries, exactly where the response is well-formed and
/// carries a result and no error; and with an error in every other case.
pub proof fn lemma_call_succeeds_or_fails(r: Result<serde_json::Value, CoreError>, v: Verdict)
    requires
        answers(r, v),
    ensures
        r is Ok <==> v is Result,
        r is Err <==> !(v is Result),
        r is Ok != r is Err,
{
}

/// Whether `r` is what a call returns after waiting for its response came
/// to `outcome`.
pub open spec fn settles(r: Result<serde_json::Value, CoreError>, outcome: ReadOutcome) -> bool {
    match outcome {
        ReadOutcome::Line(text) => answers(r, verdict_of(text@)),
        ReadOutcome::Failed(e) => r matches Err(CoreError::Io(m)) && m@ == e@,
        ReadOutcome::TimedOut => r matches Err(CoreError::Rpc { code, message }) && code == -1i32
            && message@ == "response timeout"@,
    }
}

/// Ends a call: a line that was read is interpreted as the response; a
/// failed read is an I/O error; a deadline that passed is an RPC error.
pub fn finish_call(outcome: ReadOutcome) -> (r: Result<serde_json::Value, CoreError>)
    ensures
        settles(r, outcome),
        r is Ok <==> (outcome matches ReadOutcome::Line(text) && verdict_of(text@) is Result),
{
    match outcome {
        ReadOutcome::Line(text) => interpret_response(text.as_str()),
        ReadOutcome::Failed(e) => Err(CoreError::Io(e)),
        ReadOutcome::TimedOut => Err(
            CoreError::Rpc { code: -1, message: String::from_str("response timeout") },
        ),
    }
}

/// The successor of a request identifier, which starts over after the
/// largest value.
pub open spec fn next_id_after(id: u64) -> u64 {
    if id == u64::MAX {
        0
    } else {
        (id + 1) as u64
    }
}

/// As long as the identifiers have not started over, each call takes the
/// identifier that follows that of the call before it.
pub proof fn lemma_ids_increase(id: u64)
    requires
        id < u64::MAX,
    ensures
        next_id_after(id) == id + 1,
        next_id_after(id) > id,
{
}

/// The calls of one client: each takes the next request identifier.
#[derive(Debug)]
pub struct AgentClient {
    next_id: u64,
}

impl AgentClient {
    /// The identifier that the next call takes.
    pub closed spec fn next_id(&self) -> u64 {
        self.next_id
    }

    /// A client whose handshake went through. Its first call takes the
    /// identifier 1.
    pub fn new() -> (c: Self)
        ensures
            c.next_id() == 1,
    {
        AgentClient { next_id: 1 }
    }

    /// Begins a call: takes the next identifier and writes the line to send,
    /// newline included. The identifier is taken even where the line cannot
    /// be written, which is a JSON error.
    pub fn call(&mut self, method: &str, params: &serde_json::Value) -> (r: Result<
        String,
        CoreError,
    >)
        ensures
            final(self).next_id() == next_id_after(old(self).next_id()),
            match r {
                Ok(line) => first_failure(seq![Json::Str(method@), json_of(*params)]) is None
                    && line@ == request_text(old(self).next_id(), method@, json_of(*params))
                    + "\n"@,
                Err(e) => e matches CoreError::Json(m) && first_failure(
                    seq![Json::Str(method@), json_of(*params)],
                ) == Some(m@),
            },
    {
        let id: u64 = self.next_id;
        self.next_id = if id == u64::MAX {
            0
        } else {
            id + 1
        };
        match request_line(id, method, params) {
            Ok(line) => Ok(line.concat("\n")),
            Err(e) => Err(CoreError::Json(e)),
        }
    }

    /// Begins a `ping`.
    pub fn ping(&mut self) -> (r: Result<String, CoreError>)
        ensures
            final(self).next_id() == next_id_after(old(self).next_id()),
            r matches Ok(line) ==> line@ == request_text(
                old(self).next_id(),
                "ping"@,
                Json::Obj(Map::empty()),
            ) + "\n"@,
            r matches Err(e) ==> e is Json,
    {
        let params: serde_json::Value = empty_object();
        self.call("ping", &params)
    }

    /// Begins an `exec` of the shell command `cmd`.
    pub fn exec(&mut self, cmd: &str) -> (r: Result<String, CoreError>)
        ensures
            final(self).next_id() == next_id_after(old(self).next_id()),
            r matches Ok(line) ==> line@ == request_text(
                old(self).next_id(),
                "exec"@,
                single("cmd"@, Json::Str(cmd@)),
            ) + "\n"@,
            r matches Err(e) ==> e is Json,
    {
        let params: serde_json::Value = (ExecParams { cmd: String::from_str(cmd) }).to_value();
        self.call("exec", &params)
    }

    /// Begins an `exec_code` of `code` in the language `lang`.
    pub fn exec_code(&mut self, lang: &str, code: &str) -> (r: Result<String, CoreError>)
        ensures
            final(self).next_id() == next_id_after(old(self).next_id()),
            r matches Ok(line) ==> line@ == request_text(
                old(self).next_id(),
                "exec_code"@,
                Json::Obj(
                    Map::<Seq<char>, Json>::empty().insert("lang"@, Json::Str(lang@)).insert(
                        "code"@,
                        Json::Str(code@),
                    ),
                ),
            ) + "\n"@,
            r matches Err(e) ==> e is Json,
    {
        let params: serde_json::Value = (ExecCodeParams {
            lang: String::from_str(lang),
            code: String::from_str(code),
        }).to_value();
        self.call("exec_code", &params)
    }

    /// Begins a `read_file` of `path`.
    pub fn read_file(&mut self, path: &str) -> (r: Result<String, CoreError>)
        ensures
            final(self).next_id() == next_id_after(old(self).next_id()),
            r matches Ok(line) ==> line@ == request_text(
                old(self).next_id(),
                "read_file"@,
                single("path"@, Json::Str(path@)),
            ) + "\n"@,
            r matches Err(e) ==> e is Json,
    {
        let params: serde_json::Value = (ReadFileParams { path: String::from_str(path) }).to_value();
        self.call("read_file", &params)
    }

    /// Begins a `write_file` of `content` to `path`.
    pub fn write_file(&mut self, path: &str, content: &str) -> (r: Result<String, CoreError>)
        ensures
            final(self).next_id() == next_id_after(old(self).next_id()),
            r matches Ok(line) ==> line@ == request_text(
                old(self).next_id(),
                "write_file"@,
                Json::Obj(
                    Map::<Seq<char>, Json>::empty().insert("path"@, Json::Str(path@)).insert(
                        "content"@,
                        Json::Str(content@),
                    ),
                ),
            ) + "\n"@,
            r matches Err(e) ==> e is Json,
    {
        let params: serde_json::Value = (WriteFileParams {
            path: String::from_str(path),
            content: String::from_str(content),
        }).to_value();
        self.call("write_file", &params)
    }

    /// Begins a `list_dir` of `path`.
    pub fn list_dir(&mut self, path: &str) -> (r: Result<String, CoreError>)
        ensures
            final(self).next_id() == next_id_after(old(self).next_id()),
            r matches Ok(line) ==> line@ == request_text(
                old(self).next_id(),
                "list_dir"@,
                single("path"@, Json::Str(path@)),
            ) + "\n"@,
            r matches Err(e) ==> e is Json,
    {
        let params: serde_json::Value = (ListDirParams { path: String::from_str(path) }).to_value();
        self.call("list_dir", &params)
    }
}

/// Reads the result of `ping`: an object with the boolean member `pong`.
pub fn ping_result(result: &serde_json::Value) -> (r: Result<(), CoreError>)
    ensures
        match r {
            Ok(_) => bool_member(json_of(*result), "pong"@) is Ok,
            Err(e) => e matches CoreError::Json(m) && bool_member(json_of(*result), "pong"@)
                == Err::<bool, Seq<char>>(m@),
        },
{
    match read_bool(result, "pong") {
        Ok(_) => Ok(()),
        Err(e) => Err(CoreError::Json(e)),
    }
}

/// Reads the result of `exec` and of `exec_code`.
pub fn exec_result(result: &serde_json::Value) -> (r: Result<ExecResult, CoreError>)
    ensures
        match r {
            Ok(x) => exec_result_of(json_of(*result)) == Ok::<ExecResultView, Seq<char>>(x@),
            Err(e) => e matches CoreError::Json(m) && exec_result_of(json_of(*result)) == Err::<
                ExecResultView,
                Seq<char>,
            >(m@),
        },
{
    match ExecResult::from_value(result) {
        Ok(x) => Ok(x),
        Err(e) => Err(CoreError::Json(e)),
    }
}

/// Reads the result of `read_file`: an object with the string member
/// `content`.
pub fn read_file_result(result: &serde_json::Value) -> (r: Result<String, CoreError>)
    ensures
        match r {
            Ok(s) => text_member(json_of(*result), "content"@) == Ok::<Seq<char>, Seq<char>>(s@),
            Err(e) => e matches CoreError::Json(m) && text_member(json_of(*result), "content"@)
                == Err::<Seq<char>, Seq<char>>(m@),
        },
{
    match read_text(result, "content") {
        Ok(s) => Ok(s),
        Err(e) => Err(CoreError::Json(e)),
    }
}

/// Reads the result of `write_file`: an object with the boolean member
/// `success`.
pub fn write_file_result(result: &serde_json::Value) -> (r: Result<(), CoreError>)
    ensures
        match r {
            Ok(_) => bool_member(json_of(*result), "success"@) is Ok,
            Err(e) => e matches CoreError::Json(m) && bool_member(json_of(*result), "success"@)
                == Err::<bool, Seq<char>>(m@),
        },
{
    match read_bool(result, "success") {
        Ok(_) => Ok(()),
        Err(e) => Err(CoreError::Json(e)),
    }
}

/// Reads the result of `list_dir`: an object with the member `entries`, an
/// array of file entries.
pub fn list_dir_result(result: &serde_json::Value) -> (r: Result<Vec<FileEntry>, CoreError>)
    ensures
        match r {
            Ok(entries) => listing_of(json_of(*result)) == Ok::<Seq<FileEntryView>, Seq<char>>(
                entry_views(entries@),
            ),
            Err(e) => e matches CoreError::Json(m) && listing_of(json_of(*result)) == Err::<
                Seq<FileEntryView>,
                Seq<char>,
            >(m@),
        },
{
    match read_listing(result) {
        Ok(entries) => Ok(entries),
        Err(e) => Err(CoreError::Json(e)),
    }
}

} // verus!
