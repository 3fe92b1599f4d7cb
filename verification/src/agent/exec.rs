//! Running commands and code: which program is run for a request, and what
//! becomes of its output.

use crate::protocol::{ExecResult, ExecResultView};
use crate::text::{from_utf8_lossy, lossy_text, lowercase, same_text, to_lowercase};
use vstd::prelude::*;
use vstd::string::StringSliceAdditionalSpecFns;
use vstd::utf8::{decode_utf8, encode_utf8, is_char_boundary, valid_utf8};

verus! {

/// Maximum size of the output of a command, in bytes (1 MiB).
pub const MAX_OUTPUT_SIZE: usize = 1024 * 1024;

/// What is put behind output that was cut short.
pub open spec fn truncation_suffix() -> Seq<char> {
    "\n... [output truncated]"@
}

/// Where text is cut that may keep `max` bytes: at the last character
/// boundary that is not behind `max`.
pub open spec fn cut_point(bytes: Seq<u8>, max: int) -> int
    decreases max,
{
    if max <= 0 {
        0
    } else if is_char_boundary(bytes, max) {
        max
    } else {
        cut_point(bytes, max - 1)
    }
}

/// The text `s`, cut short where its UTF-8 form is longer than `max_bytes`
/// bytes: it is kept whole where it fits, and otherwise cut at the last
/// character boundary within `max_bytes` bytes and followed by a note.
pub open spec fn truncated(s: Seq<char>, max_bytes: nat) -> Seq<char> {
    let bytes = encode_utf8(s);
    if bytes.len() <= max_bytes {
        s
    } else {
        decode_utf8(bytes.subrange(0, cut_point(bytes, max_bytes as int))) + truncation_suffix()
    }
}

/// The cut point is a character boundary within `max` bytes, and the last
/// such.
pub proof fn lemma_cut_point(bytes: Seq<u8>, max: int)
    requires
        valid_utf8(bytes),
        0 <= max,
    ensures
        0 <= cut_point(bytes, max) <= max,
        is_char_boundary(bytes, cut_point(bytes, max)),
        forall|k: int| cut_point(bytes, max) < k <= max ==> !is_char_boundary(bytes, k),
    decreases max,
{
    if max > 0 && !is_char_boundary(bytes, max) {
        lemma_cut_point(bytes, max - 1);
    }
}

/// What is kept of a text that is cut short is a beginning of the text, and
/// takes no more bytes than allowed.
pub proof fn lemma_truncated_keeps_prefix(s: Seq<char>, max_bytes: nat)
    requires
        encode_utf8(s).len() > max_bytes,
    ensures
        ({
            let kept = decode_utf8(
                encode_utf8(s).subrange(0, cut_point(encode_utf8(s), max_bytes as int)),
            );
            &&& kept.is_prefix_of(s)
            &&& encode_utf8(kept).len() <= max_bytes
            &&& truncated(s, max_bytes) == kept + truncation_suffix()
        }),
{
    let bytes = encode_utf8(s);
    vstd::utf8::encode_utf8_valid_utf8(s);
    lemma_cut_point(bytes, max_bytes as int);
    let cut = cut_point(bytes, max_bytes as int);
    vstd::utf8::decode_utf8_split(bytes, cut);
    vstd::utf8::valid_utf8_split(bytes, cut);
    vstd::utf8::encode_utf8_decode_utf8(s);
    let kept = decode_utf8(bytes.subrange(0, cut));
    let rest = decode_utf8(bytes.subrange(cut, bytes.len() as int));
    assert(s =~= kept + rest);
    vstd::utf8::decode_utf8_encode_utf8(bytes.subrange(0, cut));
}

/// What is kept of a text that is cut short is the longest beginning of the
/// text that fits: no beginning that is longer takes as few bytes as allowed.
pub proof fn lemma_truncated_keeps_longest_prefix(s: Seq<char>, max_bytes: nat, k: int)
    requires
        encode_utf8(s).len() > max_bytes,
        decode_utf8(
            encode_utf8(s).subrange(0, cut_point(encode_utf8(s), max_bytes as int)),
        ).len() < k <= s.len(),
    ensures
        encode_utf8(s.take(k)).len() > max_bytes,
{
    let bytes = encode_utf8(s);
    let cut = cut_point(bytes, max_bytes as int);
    let kept = decode_utf8(bytes.subrange(0, cut));
    lemma_truncated_keeps_prefix(s, max_bytes);
    vstd::utf8::encode_utf8_valid_utf8(s);
    lemma_cut_point(bytes, max_bytes as int);
    vstd::utf8::valid_utf8_split(bytes, cut);
    vstd::utf8::decode_utf8_encode_utf8(bytes.subrange(0, cut));
    // The longer beginning is what is kept and then something more.
    let more = s.subrange(kept.len() as int, k);
    assert(s.take(k) =~= kept + more);
    lemma_encode_concat(kept, more);
    lemma_encode_nonempty(more);
    // Its UTF-8 form ends at a character boundary of the whole, behind the cut.
    assert(s =~= s.take(k) + s.skip(k));
    lemma_encode_concat(s.take(k), s.skip(k));
    vstd::utf8::encode_utf8_valid_utf8(s.take(k));
    vstd::utf8::encode_utf8_valid_utf8(s.skip(k));
    lemma_boundary_of_concat(encode_utf8(s.take(k)), encode_utf8(s.skip(k)));
    assert(is_char_boundary(bytes, encode_utf8(s.take(k)).len() as int));
    assert(encode_utf8(s.take(k)).len() > cut);
}

/// Text that is not empty takes at least one byte.
proof fn lemma_encode_nonempty(s: Seq<char>)
    requires
        s.len() > 0,
    ensures
        encode_utf8(s).len() > 0,
{
    vstd::utf8::encode_utf8_decode_utf8(s);
    if encode_utf8(s).len() == 0 {
        assert(decode_utf8(encode_utf8(s)).len() == 0);
    }
}

/// Truncates a string to `max_bytes` bytes, at a character boundary. A
/// string that was cut is followed by a note.
pub fn truncate_output(s: String, max_bytes: usize) -> (r: String)
    ensures
        r@ == truncated(s@, max_bytes as nat),
        encode_utf8(r@).len() <= max_bytes + encode_utf8(truncation_suffix()).len(),
        valid_utf8(encode_utf8(r@)),
{
    proof {
        lemma_truncated_is_bounded(s@, max_bytes as nat);
    }
    truncate_bytes(s, max_bytes)
}

/// Whatever the text, what is left of it after cutting takes no more than
/// the bytes allowed and those of the note, and is well-formed UTF-8.
pub proof fn lemma_truncated_is_bounded(s: Seq<char>, max_bytes: nat)
    ensures
        encode_utf8(truncated(s, max_bytes)).len() <= max_bytes + encode_utf8(
            truncation_suffix(),
        ).len(),
        valid_utf8(encode_utf8(truncated(s, max_bytes))),
        encode_utf8(s).len() <= max_bytes ==> truncated(s, max_bytes) == s,
{
    vstd::utf8::encode_utf8_valid_utf8(truncated(s, max_bytes));
    if encode_utf8(s).len() > max_bytes {
        lemma_truncated_keeps_prefix(s, max_bytes);
        let kept = decode_utf8(
            encode_utf8(s).subrange(0, cut_point(encode_utf8(s), max_bytes as int)),
        );
        lemma_encode_concat(kept, truncation_suffix());
    }
}

fn truncate_bytes(s: String, max_bytes: usize) -> (r: String)
    ensures
        r@ == truncated(s@, max_bytes as nat),
{
    let ghost bytes = encode_utf8(s@);
    proof {
        vstd::utf8::encode_utf8_valid_utf8(s@);
        vstd::utf8::encode_utf8_decode_utf8(s@);
    }
    let text: &str = s.as_str();
    assert(text.spec_bytes() == bytes);
    let size: usize = text.as_bytes().len();
    if size <= max_bytes {
        return s;
    }
    let mut end: usize = max_bytes;
    while end > 0 && !text.is_char_boundary(end)
        invariant
            0 <= end <= max_bytes,
            text.spec_bytes() == bytes,
            cut_point(bytes, max_bytes as int) == cut_point(bytes, end as int),
        decreases end,
    {
        end = end - 1;
    }
    proof {
        vstd::utf8::is_char_boundary_start_end_of_seq(bytes);
        lemma_cut_point(bytes, max_bytes as int);
        lemma_truncated_keeps_prefix(s@, max_bytes as nat);
    }
    assert(end == cut_point(bytes, max_bytes as int));
    let parts: (&str, &str) = text.split_at(end);
    let kept: &str = parts.0;
    proof {
        vstd::utf8::encode_utf8_decode_utf8(kept@);
        vstd::utf8::valid_utf8_split(bytes, end as int);
        vstd::utf8::decode_utf8_encode_utf8(bytes.subrange(0, end as int));
        lemma_encode_concat(kept@, truncation_suffix());
    }
    assert(kept@ == decode_utf8(bytes.subrange(0, end as int)));
    String::from_str(kept).concat("\n... [output truncated]")
}

/// The UTF-8 form of two texts in a row is the forms of the two in a row.
pub proof fn lemma_encode_concat(a: Seq<char>, b: Seq<char>)
    ensures
        encode_utf8(a + b) == encode_utf8(a) + encode_utf8(b),
{
    vstd::utf8::encode_utf8_valid_utf8(a);
    vstd::utf8::encode_utf8_valid_utf8(b);
    vstd::utf8::encode_utf8_decode_utf8(a);
    vstd::utf8::encode_utf8_decode_utf8(b);
    vstd::utf8::encode_utf8_decode_utf8(a + b);
    let joined = encode_utf8(a) + encode_utf8(b);
    vstd::utf8::valid_utf8_concat(encode_utf8(a), encode_utf8(b));
    vstd::utf8::is_char_boundary_start_end_of_seq(encode_utf8(a));
    lemma_boundary_of_concat(encode_utf8(a), encode_utf8(b));
    vstd::utf8::decode_utf8_split(joined, encode_utf8(a).len() as int);
    assert(joined.subrange(0, encode_utf8(a).len() as int) =~= encode_utf8(a));
    assert(joined.subrange(encode_utf8(a).len() as int, joined.len() as int) =~= encode_utf8(b));
    assert(decode_utf8(joined) =~= a + b);
    vstd::utf8::decode_utf8_encode_utf8(joined);
}

/// Where two well-formed byte strings meet is a character boundary of the
/// two in a row.
proof fn lemma_boundary_of_concat(a: Seq<u8>, b: Seq<u8>)
    requires
        valid_utf8(a),
        valid_utf8(b),
    ensures
        is_char_boundary(a + b, a.len() as int),
    decreases a.len(),
{
    vstd::utf8::valid_utf8_concat(a, b);
    if a.len() == 0 {
    } else {
        reveal_with_fuel(valid_utf8, 2);
        let rest = vstd::utf8::pop_first_scalar(a);
        assert(vstd::utf8::pop_first_scalar(a + b) =~= rest + b);
        assert(vstd::utf8::length_of_first_scalar(a + b) == vstd::utf8::length_of_first_scalar(a));
        lemma_boundary_of_concat(rest, b);
    }
}

/// An interpreter that the agent runs code with.
#[derive(Debug, Clone, Copy, PartialEq, Eq, Structural)]
pub enum Interpreter {
    /// `python3 -c`.
    Python3,
    /// `node -e`.
    Node,
    /// `bash -c`.
    Bash,
    /// `sh -c`.
    Sh,
}

impl Interpreter {
    /// The name of the program.
    pub open spec fn program_text(self) -> Seq<char> {
        match self {
            Interpreter::Python3 => "python3"@,
            Interpreter::Node => "node"@,
            Interpreter::Bash => "bash"@,
            Interpreter::Sh => "sh"@,
        }
    }

    /// The option that precedes the code.
    pub open spec fn flag_text(self) -> Seq<char> {
        match self {
            Interpreter::Node => "-e"@,
            _ => "-c"@,
        }
    }

    /// The name of the program.
    pub fn program(&self) -> (s: &'static str)
        ensures
            s@ == self.program_text(),
    {
        match self {
            Interpreter::Python3 => "python3",
            Interpreter::Node => "node",
            Interpreter::Bash => "bash",
            Interpreter::Sh => "sh",
        }
    }

    /// The option that precedes the code.
    pub fn flag(&self) -> (s: &'static str)
        ensures
            s@ == self.flag_text(),
    {
        match self {
            Interpreter::Node => "-e",
            _ => "-c",
        }
    }
}

/// The interpreter for a language tag in lower case: `python` and `python3`
/// run `python3`; `node`, `javascript` and `js` run `node`; `bash` runs
/// `bash`; `sh` runs `sh`. No other tag is supported.
pub open spec fn interpreter_of(tag: Seq<char>) -> Option<Interpreter> {
    if tag == "python"@ || tag == "python3"@ {
        Some(Interpreter::Python3)
    } else if tag == "node"@ || tag == "javascript"@ || tag == "js"@ {
        Some(Interpreter::Node)
    } else if tag == "bash"@ {
        Some(Interpreter::Bash)
    } else if tag == "sh"@ {
        Some(Interpreter::Sh)
    } else {
        None
    }
}

/// The interpreter for a language tag in lower case.
pub fn interpreter_for_tag(tag: &str) -> (r: Option<Interpreter>)
    ensures
        r == interpreter_of(tag@),
{
    if same_text(tag, "python") || same_text(tag, "python3") {
        Some(Interpreter::Python3)
    } else if same_text(tag, "node") || same_text(tag, "javascript") || same_text(tag, "js") {
        Some(Interpreter::Node)
    } else if same_text(tag, "bash") {
        Some(Interpreter::Bash)
    } else if same_text(tag, "sh") {
        Some(Interpreter::Sh)
    } else {
        None
    }
}

/// The interpreter for a language tag in any case.
pub fn select_interpreter(lang: &str) -> (r: Option<Interpreter>)
    ensures
        r == interpreter_of(lowercase(lang@)),
{
    let tag: String = to_lowercase(lang);
    interpreter_for_tag(tag.as_str())
}

/// A program to run, with its arguments.
#[derive(Debug)]
pub struct Command {
    /// The name of the program.
    pub program: String,
    /// The arguments, in order.
    pub args: Vec<String>,
}

/// The content of a [`Command`].
pub struct CommandView {
    pub program: Seq<char>,
    pub args: Seq<Seq<char>>,
}

impl View for Command {
    type V = CommandView;

    open spec fn view(&self) -> CommandView {
        CommandView {
            program: self.program@,
            args: Seq::new(self.args@.len(), |i: int| self.args@[i]@),
        }
    }
}

fn command(program: &str, flag: &str, script: &str) -> (c: Command)
    ensures
        c@ == (CommandView { program: program@, args: seq![flag@, script@] }),
{
    let mut args: Vec<String> = Vec::new();
    args.push(String::from_str(flag));
    args.push(String::from_str(script));
    let c = Command { program: String::from_str(program), args };
    assert(c@.args =~= seq![flag@, script@]);
    c
}

/// The program that runs a shell command: `sh -c <cmd>`.
pub fn shell_command(cmd: &str) -> (c: Command)
    ensures
        c@ == (CommandView { program: "sh"@, args: seq!["-c"@, cmd@] }),
{
    command("sh", "-c", cmd)
}

/// The message for a language that no interpreter is known for.
pub open spec fn unsupported_message(lang: Seq<char>) -> Seq<char> {
    "unsupported language: "@ + lang
}

/// The program that runs `code` in the language `lang`: the interpreter for
/// the language, with the option that precedes code and the code. For a
/// language that is not supported, the result to answer with instead: the
/// exit code -1 and an error output that names the language.
pub fn code_command(lang: &str, code: &str) -> (r: Result<Command, ExecResult>)
    ensures
        match r {
            Ok(c) => interpreter_of(lowercase(lang@)) matches Some(i) && c@ == (CommandView {
                program: i.program_text(),
                args: seq![i.flag_text(), code@],
            }),
            Err(e) => interpreter_of(lowercase(lang@)) is None && e@ == (ExecResultView {
                exit_code: -1i32,
                stdout: Seq::empty(),
                stderr: unsupported_message(lang@),
            }),
        },
{
    match select_interpreter(lang) {
        Some(i) => Ok(command(i.program(), i.flag(), code)),
        None => {
            let message: String = String::from_str("unsupported language: ").concat(lang);
            Err(ExecResult::error(message.as_str()))
        },
    }
}

/// The result of a process that ran: its exit code, or -1 where it has none,
/// and its two outputs, read as UTF-8 with U+FFFD in place of what is
/// ill-formed, each cut short at 1 MiB.
pub fn finish_exec(exit_code: Option<i32>, stdout: &[u8], stderr: &[u8]) -> (r: ExecResult)
    ensures
        r@ == (ExecResultView {
            exit_code: match exit_code {
                Some(c) => c,
                None => -1i32,
            },
            stdout: truncated(lossy_text(stdout@), MAX_OUTPUT_SIZE as nat),
            stderr: truncated(lossy_text(stderr@), MAX_OUTPUT_SIZE as nat),
        }),
        encode_utf8(r.stdout@).len() <= MAX_OUTPUT_SIZE + encode_utf8(truncation_suffix()).len(),
        encode_utf8(r.stderr@).len() <= MAX_OUTPUT_SIZE + encode_utf8(truncation_suffix()).len(),
{
    let code: i32 = match exit_code {
        Some(c) => c,
        None => -1,
    };
    ExecResult {
        exit_code: code,
        stdout: truncate_output(from_utf8_lossy(stdout), MAX_OUTPUT_SIZE),
        stderr: truncate_output(from_utf8_lossy(stderr), MAX_OUTPUT_SIZE),
    }
}

/// The result of a shell command that could not be started: the exit code
/// -1 and the message of the operating system as the error output.
pub fn shell_spawn_failure(detail: &str) -> (r: ExecResult)
    ensures
        r@ == (ExecResultView { exit_code: -1i32, stdout: Seq::empty(), stderr: detail@ }),
{
    ExecResult::error(detail)
}

/// The result of an interpreter that could not be started: the exit code -1
/// and an error output that names the program and gives the message of the
/// operating system.
pub fn code_spawn_failure(program: &str, detail: &str) -> (r: ExecResult)
    ensures
        r@ == (ExecResultView {
            exit_code: -1i32,
            stdout: Seq::empty(),
            stderr: "failed to execute "@ + program@ + ": "@ + detail@,
        }),
{
    let message: String = String::from_str("failed to execute ").concat(program).concat(
        ": ",
    ).concat(detail);
    ExecResult::error(message.as_str())
}

} // verus!
