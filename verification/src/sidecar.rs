//! The RPC transport: one worker process, spoken to over its pipes, one
//! request at a time.
//!
//! The process and the pipes belong to the caller. This module keeps what
//! the transport knows (whether a worker is registered, the next request id,
//! the endpoint the worker announced) and decides each step: whether a start
//! has to spawn, whether the worker's first line is a handshake, what goes
//! on the wire for a call, and what a reply means.

use vstd::prelude::*;
use vstd::pervasive::unreached;
use crate::errors::ErrorKind;
use crate::json::{error_text, json_string, json_text, quote, render};
use crate::paths::{join, joined};
use crate::text::{
    concat, decimal, i64_to_text, signed_decimal, slice_of, starts_with, trim, trimmed,
    u64_to_text,
};

verus! {

/// What the worker's first line has to begin with.
pub open spec fn marker() -> Seq<char> {
    "TRPC_URL="@
}

/// Whether `line` is a handshake.
pub open spec fn carries_marker(line: Seq<char>) -> bool {
    marker().is_prefix_of(line)
}

/// The endpoint that a handshake line announces: what follows the marker,
/// without surrounding white space.
pub open spec fn endpoint_of(line: Seq<char>) -> Seq<char> {
    trimmed(line.subrange(marker().len() as int, line.len() as int))
}

/// Where the worker's source script lies below `dir`.
pub open spec fn source_script_of(dir: Seq<char>) -> Seq<char> {
    joined(dir, "packages/sidecar/src/index.ts"@)
}

/// Where the compiled worker lies in the directory `exe_dir`.
pub open spec fn bundled_worker_of(exe_dir: Seq<char>, windows: bool) -> Seq<char> {
    if windows {
        joined(exe_dir, "workopilot-sidecar.exe"@)
    } else {
        joined(exe_dir, "workopilot-sidecar"@)
    }
}

/// Computes [`source_script_of`].
pub fn source_script_in(dir: &str) -> (path: String)
    ensures
        path@ == source_script_of(dir@),
{
    join(dir, "packages/sidecar/src/index.ts")
}

/// Computes [`bundled_worker_of`].
pub fn bundled_worker_in(exe_dir: &str, windows: bool) -> (path: String)
    ensures
        path@ == bundled_worker_of(exe_dir@, windows),
{
    if windows {
        join(exe_dir, "workopilot-sidecar.exe")
    } else {
        join(exe_dir, "workopilot-sidecar")
    }
}

/// Why a start or a call failed.
#[derive(Debug)]
pub enum SidecarError {
    /// No worker executable or script was found.
    NotFound,
    /// The running program has no directory to look in.
    NoExeDir,
    /// The working directory or the program's own path is unknown.
    Environment(String),
    /// The interpreter for the worker's script was not found.
    InterpreterNotFound(String),
    /// The worker could not be spawned.
    Spawn(String),
    /// The spawned worker has no input pipe.
    NoStdin,
    /// The spawned worker has no output pipe.
    NoStdout,
    /// The worker's first line could not be read.
    HandshakeRead(String),
    /// The worker's first line is no handshake; holds that line, trimmed.
    Handshake(String),
    /// The request could not be rendered.
    Serialize(String),
    /// There is no pipe to write the request to.
    StdinUnavailable,
    /// There is no pipe to read the reply from.
    StdoutUnavailable,
    /// Writing the request failed.
    Write(String),
    /// Flushing the request failed.
    Flush(String),
    /// Reading the reply failed.
    Read(String),
    /// The worker closed its output.
    Closed,
    /// The reply is not a response; holds the reason and the line, trimmed.
    Parse { detail: String, line: String },
    /// The worker answered with an error.
    Remote { code: i32, message: String },
    /// The worker answered with neither result nor error.
    NoResult,
}

/// The text of `error`.
pub open spec fn message_of(error: SidecarError) -> Seq<char> {
    match error {
        SidecarError::NotFound => "Sidecar not found"@,
        SidecarError::NoExeDir => "No exe dir"@,
        SidecarError::Environment(e) => e@,
        SidecarError::InterpreterNotFound(e) => "Bun not found: "@ + e@,
        SidecarError::Spawn(e) => "Failed to spawn sidecar: "@ + e@,
        SidecarError::NoStdin => "Failed to get stdin"@,
        SidecarError::NoStdout => "Failed to get stdout"@,
        SidecarError::HandshakeRead(e) => "Read error waiting for tRPC URL: "@ + e@,
        SidecarError::Handshake(line) => "Expected tRPC URL, got: "@ + line@,
        SidecarError::Serialize(e) => "Serialize error: "@ + e@,
        SidecarError::StdinUnavailable => "No stdin available"@,
        SidecarError::StdoutUnavailable => "No stdout reader available"@,
        SidecarError::Write(e) => "Write error: "@ + e@,
        SidecarError::Flush(e) => "Flush error: "@ + e@,
        SidecarError::Read(e) => "Read error: "@ + e@,
        SidecarError::Closed => "Sidecar closed connection"@,
        SidecarError::Parse { detail, line } => "Parse error: "@ + detail@ + " - line: "@ + line@,
        SidecarError::Remote { code, message } => "["@ + signed_decimal(code as int) + "] "@
            + message@,
        SidecarError::NoResult => "No result in response"@,
    }
}

/// The kind of `error`.
pub open spec fn kind_of(error: SidecarError) -> ErrorKind {
    match error {
        SidecarError::Serialize(_) => ErrorKind::Protocol,
        SidecarError::Parse { .. } => ErrorKind::Protocol,
        SidecarError::Remote { .. } => ErrorKind::Protocol,
        SidecarError::NoResult => ErrorKind::Protocol,
        _ => ErrorKind::Transport,
    }
}

impl SidecarError {
    /// Computes [`message_of`].
    pub fn message(&self) -> (text: String)
        ensures
            text@ == message_of(*self),
    {
        match self {
            SidecarError::NotFound => "Sidecar not found".to_owned(),
            SidecarError::NoExeDir => "No exe dir".to_owned(),
            SidecarError::Environment(e) => e.clone(),
            SidecarError::InterpreterNotFound(e) => concat("Bun not found: ", e.as_str()),
            SidecarError::Spawn(e) => concat("Failed to spawn sidecar: ", e.as_str()),
            SidecarError::NoStdin => "Failed to get stdin".to_owned(),
            SidecarError::NoStdout => "Failed to get stdout".to_owned(),
            SidecarError::HandshakeRead(e) => concat(
                "Read error waiting for tRPC URL: ",
                e.as_str(),
            ),
            SidecarError::Handshake(line) => concat("Expected tRPC URL, got: ", line.as_str()),
            SidecarError::Serialize(e) => concat("Serialize error: ", e.as_str()),
            SidecarError::StdinUnavailable => "No stdin available".to_owned(),
            SidecarError::StdoutUnavailable => "No stdout reader available".to_owned(),
            SidecarError::Write(e) => concat("Write error: ", e.as_str()),
            SidecarError::Flush(e) => concat("Flush error: ", e.as_str()),
            SidecarError::Read(e) => concat("Read error: ", e.as_str()),
            SidecarError::Closed => "Sidecar closed connection".to_owned(),
            SidecarError::Parse { detail, line } => {
                let mut text = concat("Parse error: ", detail.as_str());
                text.append(" - line: ");
                text.append(line.as_str());
                text
            },
            SidecarError::Remote { code, message } => {
                let mut text = concat("[", i64_to_text(*code as i64).as_str());
                text.append("] ");
                text.append(message.as_str());
                text
            },
            SidecarError::NoResult => "No result in response".to_owned(),
        }
    }

    /// Computes [`kind_of`].
    pub fn kind(&self) -> (kind: ErrorKind)
        ensures
            kind == kind_of(*self),
    {
        match self {
            SidecarError::Serialize(_) => ErrorKind::Protocol,
            SidecarError::Parse { .. } => ErrorKind::Protocol,
            SidecarError::Remote { .. } => ErrorKind::Protocol,
            SidecarError::NoResult => ErrorKind::Protocol,
            _ => ErrorKind::Transport,
        }
    }
}

/// The failure for a reply line that is no response.
pub fn malformed_reply(detail: &str, line: &str) -> (error: SidecarError)
    ensures
        error matches SidecarError::Parse { detail: d, line: l } && d@ == detail@ && l@ == trimmed(
            line@,
        ),
{
    SidecarError::Parse { detail: detail.to_owned(), line: trim(line) }
}

/// Whether a read that gave `line` means that the worker closed its output.
pub fn reply_closed(line: &str) -> (closed: bool)
    ensures
        closed == (line@.len() == 0),
{
    line.unicode_len() == 0
}

/// One candidate location of the worker, with what a look at the disk gave.
#[derive(Debug)]
pub struct Probe {
    pub path: String,
    pub exists: bool,
}

/// The candidates below the working directory.
#[derive(Debug)]
pub struct WorkingDirProbes {
    /// The source script below the working directory itself.
    pub here: Probe,
    /// The source script below its parent, where it has one.
    pub parent: Option<Probe>,
}

/// Everything the search for the worker looks at.
#[derive(Debug)]
pub struct SidecarSearch {
    /// Whether source scripts are looked for at all.
    pub dev_mode: bool,
    /// The source script next to the build's manifest directory, where that
    /// directory is known.
    pub manifest_script: Option<Probe>,
    /// The candidates below the working directory, or why it is unknown.
    pub cwd: Result<WorkingDirProbes, String>,
    /// The compiled worker beside the running program; `Ok(None)` where the
    /// program has no directory, `Err` where its path is unknown.
    pub bundled: Result<Option<Probe>, String>,
}

/// Where the worker was found and how to run it.
#[derive(Debug)]
pub struct SidecarInfo {
    pub path: String,
    /// `true` for a program to run directly, `false` for a script to hand to
    /// the interpreter.
    pub is_compiled: bool,
}

/// The result of a search, as contracts see it.
pub enum Located {
    Script(Seq<char>),
    Program(Seq<char>),
    Unknown(Seq<char>),
    NoExeDir,
    NotFound,
}

/// The compiled worker beside the program, or why there is none.
pub open spec fn bundled_of(search: SidecarSearch) -> Located {
    match search.bundled {
        Err(e) => Located::Unknown(e@),
        Ok(None) => Located::NoExeDir,
        Ok(Some(p)) => if p.exists {
            Located::Program(p.path@)
        } else {
            Located::NotFound
        },
    }
}

/// What a search finds below the working directory, falling back to the
/// compiled worker.
pub open spec fn beyond_manifest(search: SidecarSearch) -> Located {
    match search.cwd {
        Err(e) => Located::Unknown(e@),
        Ok(w) => if w.here.exists {
            Located::Script(w.here.path@)
        } else if w.parent is Some && w.parent->0.exists {
            Located::Script(w.parent->0.path@)
        } else {
            bundled_of(search)
        },
    }
}

/// What a search finds. In development mode the source scripts come first:
/// next to the manifest directory, below the working directory, below its
/// parent. The compiled worker beside the program comes last, and alone
/// outside development mode.
pub open spec fn found_by(search: SidecarSearch) -> Located {
    if !search.dev_mode {
        bundled_of(search)
    } else if search.manifest_script is Some && search.manifest_script->0.exists {
        Located::Script(search.manifest_script->0.path@)
    } else {
        beyond_manifest(search)
    }
}

/// Whether `out` reports `located`.
pub open spec fn reports(out: Result<SidecarInfo, SidecarError>, located: Located) -> bool {
    match located {
        Located::Script(p) => out matches Ok(info) && info.path@ == p && !info.is_compiled,
        Located::Program(p) => out matches Ok(info) && info.path@ == p && info.is_compiled,
        Located::Unknown(m) => out matches Err(SidecarError::Environment(e)) && e@ == m,
        Located::NoExeDir => out matches Err(SidecarError::NoExeDir),
        Located::NotFound => out matches Err(SidecarError::NotFound),
    }
}

fn bundled_worker(search: &SidecarSearch) -> (out: Result<SidecarInfo, SidecarError>)
    ensures
        reports(out, bundled_of(*search)),
{
    match &search.bundled {
        Err(e) => Err(SidecarError::Environment(e.clone())),
        Ok(None) => Err(SidecarError::NoExeDir),
        Ok(Some(p)) => {
            if p.exists {
                Ok(SidecarInfo { path: p.path.clone(), is_compiled: true })
            } else {
                Err(SidecarError::NotFound)
            }
        },
    }
}

/// Picks the worker to run from what the search saw.
pub fn get_sidecar_path(search: &SidecarSearch) -> (out: Result<SidecarInfo, SidecarError>)
    ensures
        reports(out, found_by(*search)),
{
    if !search.dev_mode {
        return bundled_worker(search);
    }
    match &search.manifest_script {
        Some(p) => {
            if p.exists {
                return Ok(SidecarInfo { path: p.path.clone(), is_compiled: false });
            }
        },
        None => {},
    }
    match &search.cwd {
        Err(e) => Err(SidecarError::Environment(e.clone())),
        Ok(w) => {
            if w.here.exists {
                return Ok(SidecarInfo { path: w.here.path.clone(), is_compiled: false });
            }
            match &w.parent {
                Some(p) => {
                    if p.exists {
                        return Ok(SidecarInfo { path: p.path.clone(), is_compiled: false });
                    }
                },
                None => {},
            }
            bundled_worker(search)
        },
    }
}

/// What a start has to do.
#[derive(Clone, Copy, PartialEq, Eq, Structural, Debug)]
pub enum StartStep {
    /// A worker is registered: nothing to do.
    AlreadyRunning,
    /// Spawn a worker, read its first line and hand it to
    /// [`Sidecar::handshake`].
    Spawn,
}

/// One request, ready for the wire.
#[derive(Debug)]
pub struct RpcRequest {
    pub id: u64,
    /// The request as one line, with its line end.
    pub line: String,
}

/// What a call has to do next.
#[derive(Debug)]
pub enum CallStep {
    /// No worker is registered: start one, then call again.
    Start,
    /// Write the line, flush, read one line and hand it on.
    Send(RpcRequest),
}

/// The error object of a response.
#[derive(Debug)]
pub struct JsonRpcError {
    pub code: i32,
    pub message: String,
}

/// A response, as read from one line of the worker's output.
#[derive(Debug)]
pub struct JsonRpcResponse {
    pub id: Option<u64>,
    pub result: Option<serde_json::Value>,
    pub error: Option<JsonRpcError>,
}

/// The transport as contracts see it.
pub struct SidecarView {
    /// Whether a worker process is registered.
    pub running: bool,
    /// The id that the next request gets.
    pub next_id: u64,
    /// The endpoint that the worker announced.
    pub endpoint: Option<Seq<char>>,
}

/// A transport that was never started.
pub open spec fn fresh() -> SidecarView {
    SidecarView { running: false, next_id: 1, endpoint: None }
}

/// What a start decides in state `s`.
pub open spec fn start_step_of(s: SidecarView) -> StartStep {
    if s.running {
        StartStep::AlreadyRunning
    } else {
        StartStep::Spawn
    }
}

/// Whether a call in state `s` first asks for a start.
pub open spec fn needs_start(s: SidecarView) -> bool {
    !s.running
}

/// The state after a spawned worker wrote `line` first: registered with its
/// endpoint where the line is a handshake, not registered otherwise.
pub open spec fn after_handshake(s: SidecarView, line: Seq<char>) -> SidecarView {
    if carries_marker(line) {
        SidecarView { running: true, next_id: s.next_id, endpoint: Some(endpoint_of(line)) }
    } else {
        SidecarView { running: false, next_id: s.next_id, endpoint: None }
    }
}

/// The state after a stop.
pub open spec fn after_stop(s: SidecarView) -> SidecarView {
    SidecarView { running: false, next_id: s.next_id, endpoint: None }
}

/// The id that follows `id`.
pub open spec fn id_after(id: u64) -> u64 {
    if id == u64::MAX {
        0
    } else {
        (id + 1) as u64
    }
}

/// The state after one call got its id. A call that first has to start the
/// worker takes none.
pub open spec fn after_call(s: SidecarView) -> SidecarView {
    if s.running {
        SidecarView { running: true, next_id: id_after(s.next_id), endpoint: s.endpoint }
    } else {
        s
    }
}

/// The state after `n` calls in a row.
pub open spec fn after_calls(s: SidecarView, n: nat) -> SidecarView
    decreases n,
{
    if n == 0 {
        s
    } else {
        after_call(after_calls(s, (n - 1) as nat))
    }
}

/// What can happen to a transport.
pub enum TransportStep {
    /// A spawned worker wrote this line first.
    Handshake(Seq<char>),
    /// The transport was stopped.
    Stop,
    /// A call was begun.
    Call,
}

/// The state after one step.
pub open spec fn transport_step(s: SidecarView, step: TransportStep) -> SidecarView {
    match step {
        TransportStep::Handshake(line) => after_handshake(s, line),
        TransportStep::Stop => after_stop(s),
        TransportStep::Call => after_call(s),
    }
}

/// The state after `steps`, one after the other.
pub open spec fn transport_run(s: SidecarView, steps: Seq<TransportStep>) -> SidecarView
    decreases steps.len(),
{
    if steps.len() == 0 {
        s
    } else {
        transport_step(transport_run(s, steps.drop_last()), steps.last())
    }
}

/// How many of `steps` are calls that took an id: those begun while a
/// worker was registered.
pub open spec fn ids_taken(s: SidecarView, steps: Seq<TransportStep>) -> nat
    decreases steps.len(),
{
    if steps.len() == 0 {
        0
    } else if steps.last() is Call && transport_run(s, steps.drop_last()).running {
        ids_taken(s, steps.drop_last()) + 1
    } else {
        ids_taken(s, steps.drop_last())
    }
}

/// The request with id `id` as it goes on the wire: one line of compact
/// JSON, the parameters left out where there are none.
pub open spec fn request_text(id: u64, method_json: Seq<char>, params_json: Option<Seq<char>>) -> Seq<
    char,
> {
    let head = "{\"jsonrpc\":\"2.0\",\"id\":"@ + decimal(id as nat) + ",\"method\":"@ + method_json;
    match params_json {
        Some(p) => head + ",\"params\":"@ + p + "}\n"@,
        None => head + "}\n"@,
    }
}

/// The JSON text of optional parameters.
pub open spec fn params_text(params: Option<&serde_json::Value>) -> Option<Seq<char>> {
    match params {
        Some(v) => Some(json_text(*v)),
        None => None,
    }
}

/// Puts a request together from its rendered parts. A part that could not
/// be rendered comes as the reason why; the method's reason goes first.
pub fn assemble_request(
    id: u64,
    method_json: Result<String, String>,
    params_json: Option<Result<String, String>>,
) -> (out: Result<RpcRequest, SidecarError>)
    ensures
        match (method_json, params_json) {
            (Err(e), _) => out matches Err(SidecarError::Serialize(m)) && m@ == e@,
            (Ok(_), Some(Err(e))) => out matches Err(SidecarError::Serialize(m)) && m@ == e@,
            (Ok(m), Some(Ok(p))) => out matches Ok(request) && request.id == id && request.line@
                == request_text(id, m@, Some(p@)),
            (Ok(m), None) => out matches Ok(request) && request.id == id && request.line@
                == request_text(id, m@, None),
        },
{
    let method = match method_json {
        Ok(m) => m,
        Err(e) => {
            return Err(SidecarError::Serialize(e));
        },
    };
    let mut line = concat("{\"jsonrpc\":\"2.0\",\"id\":", u64_to_text(id).as_str());
    line.append(",\"method\":");
    line.append(method.as_str());
    match params_json {
        Some(Ok(p)) => {
            line.append(",\"params\":");
            line.append(p.as_str());
        },
        Some(Err(e)) => {
            return Err(SidecarError::Serialize(e));
        },
        None => {},
    }
    line.append("}\n");
    Ok(RpcRequest { id, line })
}

/// What a response means for the caller: the worker's error where it sent
/// one, else its result, else the failure that it sent neither.
pub fn complete_call(response: JsonRpcResponse) -> (out: Result<serde_json::Value, SidecarError>)
    ensures
        answers(out, response),
{
    match response.error {
        Some(e) => Err(SidecarError::Remote { code: e.code, message: e.message }),
        None => match response.result {
            Some(v) => Ok(v),
            None => Err(SidecarError::NoResult),
        },
    }
}

/// Whether `out` is what `response` means for the caller: the worker's
/// error where it sent one, else its result, else the failure that it sent
/// neither.
pub open spec fn answers(out: Result<serde_json::Value, SidecarError>, response: JsonRpcResponse) -> bool {
    match response.error {
        Some(e) => out matches Err(SidecarError::Remote { code, message }) && code == e.code
            && message@ == e.message@,
        None => match response.result {
            Some(v) => out == Ok::<serde_json::Value, SidecarError>(v),
            None => out matches Err(SidecarError::NoResult),
        },
    }
}

/// How a call ends, from the line that was read in reply and from what
/// reading it as a response gave. An empty line means that the worker
/// closed its output, whatever the reading gave. A line that is no response
/// fails the call with the reason and the line, trimmed. A response ends
/// the call as [`complete_call`] says.
pub fn reply_outcome(line: &str, parsed: Result<JsonRpcResponse, String>) -> (out: Result<
    serde_json::Value,
    SidecarError,
>)
    ensures
        line@.len() == 0 ==> out matches Err(SidecarError::Closed),
        line@.len() > 0 ==> match parsed {
            Err(detail) => out matches Err(SidecarError::Parse { detail: d, line: l }) && d@
                == detail@ && l@ == trimmed(line@),
            Ok(response) => answers(out, response),
        },
{
    if reply_closed(line) {
        return Err(SidecarError::Closed);
    }
    match parsed {
        Err(detail) => Err(malformed_reply(detail.as_str(), line)),
        Ok(response) => complete_call(response),
    }
}

fn rendered(out: Result<String, serde_json::Error>) -> (text: Result<String, String>)
    ensures
        text is Ok == out is Ok,
        out matches Ok(s) ==> text matches Ok(t) && t@ == s@,
{
    match out {
        Ok(s) => Ok(s),
        Err(e) => Err(error_text(&e)),
    }
}

/// The supervisor of the worker process.
pub struct Sidecar {
    running: bool,
    request_id: u64,
    trpc_url: Option<String>,
}

impl View for Sidecar {
    type V = SidecarView;

    closed spec fn view(&self) -> SidecarView {
        SidecarView {
            running: self.running,
            next_id: self.request_id,
            endpoint: match self.trpc_url {
                Some(url) => Some(url@),
                None => None,
            },
        }
    }
}

impl Sidecar {
    /// A transport without a worker. Its first request will have id 1.
    pub fn new() -> (sidecar: Sidecar)
        ensures
            sidecar@ == fresh(),
    {
        Sidecar { running: false, request_id: 1, trpc_url: None }
    }

    /// Whether a worker is registered.
    pub fn is_running(&self) -> (running: bool)
        ensures
            running == self@.running,
    {
        self.running
    }

    /// The endpoint that the worker announced, while it is registered.
    pub fn get_trpc_url(&self) -> (url: Option<&str>)
        ensures
            url is Some == self@.endpoint is Some,
            url matches Some(u) ==> u@ == self@.endpoint->0,
    {
        match &self.trpc_url {
            Some(url) => Some(url.as_str()),
            None => None,
        }
    }

    /// Decides what a start has to do: nothing where a worker is registered.
    pub fn start(&self) -> (step: StartStep)
        ensures
            step == start_step_of(self@),
    {
        if self.running {
            StartStep::AlreadyRunning
        } else {
            StartStep::Spawn
        }
    }

    /// Takes the first line that a spawned worker wrote. A line that begins
    /// with the marker registers the worker with the endpoint it announces.
    /// Any other line fails the start and registers nothing: the caller
    /// kills the process it spawned.
    pub fn handshake(&mut self, first_line: &str) -> (out: Result<(), SidecarError>)
        ensures
            final(self)@ == after_handshake(old(self)@, first_line@),
            out is Ok == carries_marker(first_line@),
            out matches Err(e) ==> e matches SidecarError::Handshake(line) && line@ == trimmed(
                first_line@,
            ),
    {
        if starts_with(first_line, "TRPC_URL=") {
            let skip = "TRPC_URL=".unicode_len();
            let rest = slice_of(first_line, skip, first_line.unicode_len());
            self.trpc_url = Some(trim(rest.as_str()));
            self.running = true;
            Ok(())
        } else {
            self.trpc_url = None;
            self.running = false;
            Err(SidecarError::Handshake(trim(first_line)))
        }
    }

    /// Forgets the worker and its endpoint. `true` where one was registered:
    /// the caller then closes the pipes, kills the process and waits for it.
    pub fn stop(&mut self) -> (had_worker: bool)
        ensures
            final(self)@ == after_stop(old(self)@),
            had_worker == old(self)@.running,
    {
        let had_worker = self.running;
        self.running = false;
        self.trpc_url = None;
        had_worker
    }

    /// Begins a call. Without a registered worker the answer is to start one
    /// first, and nothing changes. With one, the call takes the next id and
    /// answers with the request to send.
    pub fn call(&mut self, method: &str, params: Option<&serde_json::Value>) -> (step: CallStep)
        ensures
            final(self)@ == after_call(old(self)@),
            step is Start <==> needs_start(old(self)@),
            step is Send <==> old(self)@.running,
            step matches CallStep::Send(request) ==> request.id == old(self)@.next_id
                && request.line@ == request_text(
                request.id,
                json_string(method@),
                params_text(params),
            ),
    {
        if !self.running {
            return CallStep::Start;
        }
        let id = self.request_id;
        self.request_id = if id == u64::MAX {
            0
        } else {
            id + 1
        };
        let method_json = rendered(quote(method));
        let params_json = match params {
            Some(v) => Some(rendered(render(v))),
            None => None,
        };
        match assemble_request(id, method_json, params_json) {
            Ok(request) => CallStep::Send(request),
            Err(_) => unreached(),
        }
    }
}

proof fn lemma_calls_count_up(s: SidecarView, n: nat)
    requires
        s.running,
        s.next_id + n <= u64::MAX,
    ensures
        after_calls(s, n) == (SidecarView {
            running: true,
            next_id: (s.next_id + n) as u64,
            endpoint: s.endpoint,
        }),
    decreases n,
{
    if n > 0 {
        lemma_calls_count_up(s, (n - 1) as nat);
    }
}

/// Starting twice spawns once: a stopped transport decides to spawn, and
/// once the handshake has succeeded the next start finds the worker and
/// does nothing.
pub proof fn law_start_is_idempotent(s: SidecarView, first_line: Seq<char>)
    requires
        !s.running,
        carries_marker(first_line),
    ensures
        start_step_of(s) == StartStep::Spawn,
        start_step_of(after_handshake(s, first_line)) == StartStep::AlreadyRunning,
{
}

/// Without a handshake there is no worker: a first line that lacks the
/// marker leaves the transport not running, whatever it was before.
pub proof fn law_handshake_is_enforced(s: SidecarView, first_line: Seq<char>)
    requires
        !carries_marker(first_line),
    ensures
        !after_handshake(s, first_line).running,
        after_handshake(s, first_line).endpoint is None,
{
}

/// Stopping twice is stopping once.
pub proof fn law_stop_is_idempotent(s: SidecarView)
    ensures
        !after_stop(s).running,
        after_stop(after_stop(s)) == after_stop(s),
{
}

/// Request ids count up by one: the call number `k` of a running transport
/// (counting from 0) gets the id `k` above the first one, as long as the ids
/// fit in 64 bits. So ids rise strictly and none is used twice.
pub proof fn law_ids_count_up(s: SidecarView, k: nat)
    requires
        s.running,
        s.next_id + k <= u64::MAX,
    ensures
        after_calls(s, k).running,
        after_calls(s, k).next_id == s.next_id + k,
{
    lemma_calls_count_up(s, k);
}

/// No id is used twice, whatever happens in between: over any course of
/// handshakes, stops and calls the next id is the first one plus the number
/// of ids taken, as long as the ids fit in 64 bits. Stopping and starting
/// again does not begin the count anew.
pub proof fn law_ids_are_never_reused(s: SidecarView, steps: Seq<TransportStep>)
    requires
        s.next_id + steps.len() <= u64::MAX,
    ensures
        ids_taken(s, steps) <= steps.len(),
        transport_run(s, steps).next_id == s.next_id + ids_taken(s, steps),
    decreases steps.len(),
{
    if steps.len() > 0 {
        law_ids_are_never_reused(s, steps.drop_last());
    }
}

/// The first id of a transport is 1: a fresh transport whose worker shook
/// hands gives its call number `k` the id `k + 1`.
pub proof fn law_ids_start_at_one(first_line: Seq<char>, k: nat)
    requires
        carries_marker(first_line),
        1 + k <= u64::MAX,
    ensures
        after_calls(after_handshake(fresh(), first_line), k).next_id == 1 + k,
{
    lemma_calls_count_up(after_handshake(fresh(), first_line), k);
}

/// A call on a transport that was never started asks for exactly one start:
/// it takes no id and changes nothing, and once the handshake has succeeded
/// the call asks for no further start and goes out with id 1.
pub proof fn law_call_starts_worker_once(first_line: Seq<char>)
    requires
        carries_marker(first_line),
    ensures
        needs_start(fresh()),
        after_call(fresh()) == fresh(),
        !needs_start(after_handshake(fresh(), first_line)),
        after_handshake(fresh(), first_line).next_id == 1,
{
}

} // verus!
