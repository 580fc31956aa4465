//! Messages exchanged with the shell worker pool, and the JSON diagnostics
//! document built from a finished execution.

use vstd::prelude::*;
use vstd::string::StringSliceAdditionalSpecFns;
use crate::bytes::{append_bytes, append_str_bytes, push_dec_i32, spec_dec_int};

verus! {

/// A request to the worker pool.
pub enum Command {
    /// Run the given bytes as one shell command.
    Execute(Vec<u8>),
    /// Cancel every in-flight command and answer with one `Termination`.
    TerminateAll,
}

/// How one shell command ended.
pub enum ExecutionResult {
    /// The child process ran to completion.
    Ran { error_code: i32, stdout: Vec<u8>, stderr: Vec<u8> },
    /// The child process could not be spawned; the message describes why.
    FailedToSpawn(String),
    /// Waiting on the child process failed; the message describes why.
    FailedToWait(String),
}

/// One finished shell command together with the bytes that were run.
pub struct FinishedExecution {
    pub command: Vec<u8>,
    pub result: ExecutionResult,
}

/// An answer from the worker pool.
pub enum FinishedCommand {
    /// One command finished, in completion order.
    Execution(FinishedExecution),
    /// The single marker that ends the handling of a `TerminateAll`.
    Termination,
}

/// The signal a worker polls to learn that its command was cancelled.
pub struct Terminate;

/// The exact byte sequence handed to `sh -c` for a payload: the payload
/// with one newline appended.
pub fn prepare_command(payload: Vec<u8>) -> (r: Vec<u8>)
    ensures
        r@ == payload@ + seq![10u8],
{
    let mut command = payload;
    command.push(10);
    command
}

/// What `String::from_utf8_lossy` makes of a byte sequence: a function of
/// the bytes alone.
pub uninterp spec fn lossy_of(b: Seq<u8>) -> Seq<char>;

/// What `serde_json::to_string` makes of a string: its JSON quoting,
/// surrounding quotes included, a function of the characters alone.
pub uninterp spec fn json_quoted(s: Seq<char>) -> Seq<u8>;

/// Relies on `String::from_utf8_lossy`: the result depends on the bytes
/// alone; invalid sequences are replaced, valid UTF-8 is kept.
#[verifier::external_body]
pub fn lossy_utf8(b: &Vec<u8>) -> (r: String)
    ensures
        r@ == lossy_of(b@),
{
    String::from_utf8_lossy(b).into_owned()
}

/// Relies on `serde_json::to_string` on a string slice: the JSON string
/// literal denoting it, a function of the characters alone. Its
/// documentation allows failure only for fallible `Serialize` impls and
/// non-string map keys, neither of which a `str` has.
#[verifier::external_body]
pub fn json_quote(s: &String) -> (r: Vec<u8>)
    ensures
        r@ == json_quoted(s@),
{
    match serde_json::to_string(s.as_str()) {
        Ok(q) => q.into_bytes(),
        Err(_) => Vec::new(),
    }
}

/// The JSON value describing one `ExecutionResult`.
pub open spec fn spec_result_json(r: ExecutionResult) -> Seq<u8> {
    match r {
        ExecutionResult::Ran { error_code, .. } => "{\"ran\":true,\"error_code\":".spec_bytes()
            + spec_dec_int(error_code as int) + "}".spec_bytes(),
        ExecutionResult::FailedToSpawn(m) =>
            "{\"ran\":false,\"error\":\"Failed to spawn\",\"message\":".spec_bytes()
            + json_quoted(m@) + "}".spec_bytes(),
        ExecutionResult::FailedToWait(m) =>
            "{\"ran\":false,\"error\":\"Failed to wait\",\"message\":".spec_bytes()
            + json_quoted(m@) + "}".spec_bytes(),
    }
}

/// The diagnostics document for one finished execution: the command as
/// lossy UTF-8, and the outcome.
pub open spec fn spec_diagnostics_json(fe: FinishedExecution) -> Seq<u8> {
    "{\"command\":".spec_bytes() + json_quoted(lossy_of(fe.command@)) + ",\"result\":".spec_bytes()
        + spec_result_json(fe.result) + "}".spec_bytes()
}

impl FinishedExecution {
    /// The UTF-8 JSON diagnostics document for this execution.
    pub fn summarize_into_json(&self) -> (r: Vec<u8>)
        ensures
            r@ == spec_diagnostics_json(*self),
    {
        let mut out: Vec<u8> = Vec::new();
        append_str_bytes(&mut out, "{\"command\":");
        let command_text = lossy_utf8(&self.command);
        let quoted = json_quote(&command_text);
        append_bytes(&mut out, quoted.as_slice());
        append_str_bytes(&mut out, ",\"result\":");
        match &self.result {
            ExecutionResult::Ran { error_code, .. } => {
                append_str_bytes(&mut out, "{\"ran\":true,\"error_code\":");
                push_dec_i32(&mut out, *error_code);
                append_str_bytes(&mut out, "}");
            },
            ExecutionResult::FailedToSpawn(m) => {
                append_str_bytes(
                    &mut out,
                    "{\"ran\":false,\"error\":\"Failed to spawn\",\"message\":",
                );
                let q = json_quote(m);
                append_bytes(&mut out, q.as_slice());
                append_str_bytes(&mut out, "}");
            },
            ExecutionResult::FailedToWait(m) => {
                append_str_bytes(
                    &mut out,
                    "{\"ran\":false,\"error\":\"Failed to wait\",\"message\":",
                );
                let q = json_quote(m);
                append_bytes(&mut out, q.as_slice());
                append_str_bytes(&mut out, "}");
            },
        }
        append_str_bytes(&mut out, "}");
        assert(out@ =~= spec_diagnostics_json(*self));
        out
    }
}

} // verus!
