//! The per-connection protocol: read one request payload, decode it,
//! resolve and authenticate it, and either reject the connection with a
//! single diagnostic line or launch the automation tool and relay its
//! output in order — acknowledgment, live stdout, batched stderr, the
//! exit-status line, a closing sentinel.

use vstd::prelude::*;

use vstd::string::StringExecFns;

use rustc_serialize::json::Json;

use crate::config::{Config, ConfigModel};
use crate::jsondoc::{doc_of, json_wellformed, parse_json, utf8_string, utf8_text};
use crate::message::{
    command_from_doc, spec_command, spec_doc_decodes, spec_extra_vars_ok, DecodeError,
};
use crate::render::{spec_status_line, status_line};
use crate::resolve::{
    resolve, spec_resolve, ResolveError, ResolveErrorModel, ResolvedModel, ResolvedRequest,
};

verus! {

/// What the handler does with one connection's payload.
pub enum Outcome {
    /// Empty payload: no request; close without any response.
    Silent,
    /// Write this one diagnostic line, then close; no subprocess is spawned.
    Reject(String),
    /// Write the acknowledgment, then run the automation tool.
    Launch(LaunchPlan),
}

/// Everything the process runner needs for a launch.
pub struct LaunchPlan {
    /// Acknowledgment line written before any subprocess output.
    pub ack: String,
    /// Arguments for the automation command, in order.
    pub args: Vec<String>,
}

/// Mathematical model of a [`LaunchPlan`].
#[verifier::ext_equal]
pub struct LaunchModel {
    pub ack: Seq<char>,
    pub args: Seq<Seq<char>>,
}

/// Mathematical model of an [`Outcome`].
#[verifier::ext_equal]
pub enum OutcomeModel {
    Silent,
    Reject(Seq<char>),
    Launch(LaunchModel),
}

impl View for LaunchPlan {
    type V = LaunchModel;

    open spec fn view(&self) -> LaunchModel {
        LaunchModel { ack: self.ack@, args: self.args.deep_view() }
    }
}

impl View for Outcome {
    type V = OutcomeModel;

    open spec fn view(&self) -> OutcomeModel {
        match self {
            Outcome::Silent => OutcomeModel::Silent,
            Outcome::Reject(line) => OutcomeModel::Reject(line@),
            Outcome::Launch(plan) => OutcomeModel::Launch(plan@),
        }
    }
}

/// The diagnostic line for a resolution failure.
pub open spec fn spec_error_line(e: ResolveErrorModel) -> Seq<char> {
    match e {
        ResolveErrorModel::MissingTarget => "error, missing target"@,
        ResolveErrorModel::UnknownApplication { target } => "error, no application matches target '"@
            + target + "'"@,
        ResolveErrorModel::AuthenticationFailed => "error, secret does not match"@,
        ResolveErrorModel::MissingPlaybook => "error, missing playbook (no default)"@,
        ResolveErrorModel::UnknownPlaybook => "error, no playbook by that name"@,
    }
}

/// Render the diagnostic line for a resolution failure.
pub fn error_line(e: &ResolveError) -> (r: String)
    ensures
        r@ == spec_error_line(e@),
{
    match e {
        ResolveError::MissingTarget => "error, missing target".to_owned(),
        ResolveError::UnknownApplication { target } => {
            let r = "error, no application matches target '".to_owned().concat(
                target.as_str(),
            ).concat("'");
            proof {
                assert(r@ =~= spec_error_line(e@));
            }
            r
        },
        ResolveError::AuthenticationFailed => "error, secret does not match".to_owned(),
        ResolveError::MissingPlaybook => "error, missing playbook (no default)".to_owned(),
        ResolveError::UnknownPlaybook => "error, no playbook by that name".to_owned(),
    }
}

/// The diagnostic line for a decode failure.
pub open spec fn spec_decode_error_line(e: DecodeError) -> Seq<char> {
    match e {
        DecodeError::Malformed => "error, could not parse message"@,
        DecodeError::ExtraVars => "error, could not parse `config` field"@,
    }
}

/// Render the diagnostic line for a decode failure.
pub fn decode_error_line(e: DecodeError) -> (r: String)
    ensures
        r@ == spec_decode_error_line(e),
{
    match e {
        DecodeError::Malformed => "error, could not parse message".to_owned(),
        DecodeError::ExtraVars => "error, could not parse `config` field".to_owned(),
    }
}

/// The connection-mode flag handed to the automation tool.
pub open spec fn spec_connection_flag(local: bool) -> Seq<char> {
    if local {
        "--connection=local"@
    } else {
        "--connection=smart"@
    }
}

/// The automation tool's arguments for a resolved request: connection-mode
/// flag, an inventory naming exactly the single target host, the
/// extra-variables payload, and the playbook path as the final positional
/// argument.
pub open spec fn spec_args(res: ResolvedModel) -> Seq<Seq<char>> {
    seq![
        spec_connection_flag(res.local),
        "-i"@,
        res.host + ","@,
        "-e"@,
        res.extra_vars,
        res.playbook_path,
    ]
}

/// Build the automation tool's argument list.
pub fn build_args(res: &ResolvedRequest) -> (r: Vec<String>)
    ensures
        r.deep_view() == spec_args(res@),
{
    let mut args: Vec<String> = Vec::new();
    if res.local {
        args.push("--connection=local".to_owned());
    } else {
        args.push("--connection=smart".to_owned());
    }
    args.push("-i".to_owned());
    args.push(res.host.clone().concat(","));
    args.push("-e".to_owned());
    args.push(res.extra_vars.clone());
    args.push(res.playbook_path.clone());
    proof {
        assert(args.deep_view() =~~= spec_args(res@));
    }
    args
}

/// The name the automation tool is invoked under.
pub fn automation_command() -> (r: String)
    ensures
        r@ == "ansible-playbook"@,
{
    "ansible-playbook".to_owned()
}

/// The acknowledgment line written when a request reaches streaming.
pub fn ack_line() -> (r: String)
    ensures
        r@ == "okay, message received\n"@,
{
    "okay, message received\n".to_owned()
}

/// The closing sentinel line, the last bytes of a successful connection.
pub fn farewell_line() -> (r: String)
    ensures
        r@ == "okay, see ya later!\n"@,
{
    "okay, see ya later!\n".to_owned()
}

/// The diagnostic line written when a connection sends nothing within the
/// read timeout and is abandoned.
pub fn read_timeout_line() -> (r: String)
    ensures
        r@ == "error, read timeout"@,
{
    "error, read timeout".to_owned()
}

/// The diagnostic line written when the automation tool cannot be launched.
pub fn spawn_error_line() -> (r: String)
    ensures
        r@ == "error, could not spawn ansible-playbook"@,
{
    "error, could not spawn ansible-playbook".to_owned()
}

/// What the handler does with one parsed request document: one diagnostic
/// line for the first failing stage, else the acknowledgment and the
/// launch arguments.
pub open spec fn spec_handle_doc(j: Json, cfg: ConfigModel) -> OutcomeModel {
    if !spec_doc_decodes(j) {
        OutcomeModel::Reject(spec_decode_error_line(DecodeError::Malformed))
    } else if !spec_extra_vars_ok(j) {
        OutcomeModel::Reject(spec_decode_error_line(DecodeError::ExtraVars))
    } else {
        match spec_resolve(spec_command(j), cfg) {
            Err(e) => OutcomeModel::Reject(spec_error_line(e)),
            Ok(res) => OutcomeModel::Launch(
                LaunchModel { ack: "okay, message received\n"@, args: spec_args(res) },
            ),
        }
    }
}

/// Handle one parsed request document: decode, resolve, authenticate, and
/// produce the reject line or the launch plan. No subprocess is spawned on
/// any failure.
pub fn handle_doc(doc: &Json, config: &Config) -> (r: Outcome)
    requires
        config.wf(),
    ensures
        r@ == spec_handle_doc(*doc, config@),
{
    let cmd = match command_from_doc(doc) {
        Ok(cmd) => cmd,
        Err(e) => {
            return Outcome::Reject(decode_error_line(e));
        },
    };
    match resolve(&cmd, config) {
        Ok(res) => {
            let plan = LaunchPlan { ack: ack_line(), args: build_args(&res) };
            let r = Outcome::Launch(plan);
            proof {
                assert(r@ =~~= spec_handle_doc(*doc, config@));
            }
            r
        },
        Err(e) => Outcome::Reject(error_line(&e)),
    }
}

/// Handle one connection's full payload. An empty payload signals "no
/// request": the connection closes with no response and no error. A payload
/// that is not UTF-8 or not well-formed JSON is rejected with the parse
/// diagnostic; anything further is decided by [`spec_handle_doc`].
pub fn handle_payload(payload: Vec<u8>, config: &Config) -> (r: Outcome)
    requires
        config.wf(),
    ensures
        r is Silent <==> payload@.len() == 0,
        payload@.len() > 0 && utf8_text(payload@) is None ==> r@ == OutcomeModel::Reject(
            "error, could not parse message"@,
        ),
        forall|s: Seq<char>|
            payload@.len() > 0 && utf8_text(payload@) == Some(s) && !json_wellformed(s) ==> r@
                == OutcomeModel::Reject("error, could not parse message"@),
        forall|s: Seq<char>|
            payload@.len() > 0 && utf8_text(payload@) == Some(s) && json_wellformed(s) ==> r@
                == spec_handle_doc(doc_of(s), config@),
{
    if payload.len() == 0 {
        return Outcome::Silent;
    }
    let text: String = match utf8_string(payload) {
        Some(t) => t,
        None => {
            return Outcome::Reject(decode_error_line(DecodeError::Malformed));
        },
    };
    let doc: Json = match parse_json(text.as_str()) {
        Some(d) => d,
        None => {
            return Outcome::Reject(decode_error_line(DecodeError::Malformed));
        },
    };
    handle_doc(&doc, config)
}

/// The handler launches the automation tool exactly when decoding, the
/// extra-variables payload, and resolution all succeed; for any one
/// failure it emits exactly one diagnostic line matching the failing
/// stage, closes, and spawns nothing. An empty payload is not handled
/// here: it closes the connection silently before any document exists.
pub proof fn lemma_outcome_cases(j: Json, cfg: ConfigModel)
    ensures
        spec_handle_doc(j, cfg) is Launch <==> (spec_doc_decodes(j) && spec_extra_vars_ok(j)
            && spec_resolve(spec_command(j), cfg) is Ok),
        !spec_doc_decodes(j) ==> spec_handle_doc(j, cfg) == OutcomeModel::Reject(
            "error, could not parse message"@,
        ),
        spec_doc_decodes(j) && !spec_extra_vars_ok(j) ==> spec_handle_doc(j, cfg)
            == OutcomeModel::Reject("error, could not parse `config` field"@),
        spec_doc_decodes(j) && spec_extra_vars_ok(j) ==> (spec_resolve(spec_command(j), cfg)
            matches Err(e) ==> spec_handle_doc(j, cfg) == OutcomeModel::Reject(
            spec_error_line(e),
        )),
        spec_handle_doc(j, cfg) !is Silent,
{
}

/// Phases of the streaming stage, in the order one connection traverses
/// them after a launch.
#[derive(PartialEq, Eq, Structural, Clone, Copy, Debug)]
pub enum StreamPhase {
    /// Forwarding subprocess stdout byte-by-byte as it is produced.
    RelayStdout,
    /// Stdout is drained; forwarding the captured stderr in one batch.
    DrainStderr,
    /// Output is drained; waiting for the termination status.
    AwaitExit,
    /// Status line and closing sentinel written; the socket closes.
    Finished,
}

/// One observation made of the subprocess by the process runner.
pub enum StreamEvent {
    /// One stdout byte became available while the process runs.
    StdoutByte(u8),
    /// The stdout stream reached end-of-file.
    StdoutEnd,
    /// The whole captured stderr, read after stdout ended.
    StderrAll(Vec<u8>),
    /// The process terminated with this exit code, or none for a signal.
    Exited(Option<i32>),
}

/// Mathematical model of a [`StreamEvent`].
#[verifier::ext_equal]
pub enum StreamEventModel {
    StdoutByte(u8),
    StdoutEnd,
    StderrAll(Seq<u8>),
    Exited(Option<i32>),
}

impl View for StreamEvent {
    type V = StreamEventModel;

    open spec fn view(&self) -> StreamEventModel {
        match self {
            StreamEvent::StdoutByte(b) => StreamEventModel::StdoutByte(*b),
            StreamEvent::StdoutEnd => StreamEventModel::StdoutEnd,
            StreamEvent::StderrAll(bytes) => StreamEventModel::StderrAll(bytes@),
            StreamEvent::Exited(code) => StreamEventModel::Exited(*code),
        }
    }
}

/// What one streaming step does: where the connection goes next, the bytes
/// to forward, and the text to forward after them. Each step's output is
/// flushed at once, so the caller sees it with minimal added latency.
pub struct StreamStep {
    pub next: StreamPhase,
    pub data: Vec<u8>,
    pub text: Option<String>,
}

/// Mathematical model of a [`StreamStep`].
#[verifier::ext_equal]
pub struct StreamStepModel {
    pub next: StreamPhase,
    pub data: Seq<u8>,
    pub text: Option<Seq<char>>,
}

impl View for StreamStep {
    type V = StreamStepModel;

    open spec fn view(&self) -> StreamStepModel {
        StreamStepModel {
            next: self.next,
            data: self.data@,
            text: match self.text {
                Some(t) => Some(t@),
                None => None,
            },
        }
    }
}

/// The streaming stage as a step function: a stdout byte is forwarded at
/// once and the phase stays; end of stdout moves to stderr; stderr is
/// forwarded in one batch; termination emits the status line and the
/// closing sentinel. An observation out of order changes nothing.
pub open spec fn spec_stream_step(phase: StreamPhase, ev: StreamEventModel) -> StreamStepModel {
    match (phase, ev) {
        (StreamPhase::RelayStdout, StreamEventModel::StdoutByte(b)) => StreamStepModel {
            next: StreamPhase::RelayStdout,
            data: seq![b],
            text: None,
        },
        (StreamPhase::RelayStdout, StreamEventModel::StdoutEnd) => StreamStepModel {
            next: StreamPhase::DrainStderr,
            data: Seq::empty(),
            text: None,
        },
        (StreamPhase::DrainStderr, StreamEventModel::StderrAll(bytes)) => StreamStepModel {
            next: StreamPhase::AwaitExit,
            data: bytes,
            text: None,
        },
        (StreamPhase::AwaitExit, StreamEventModel::Exited(code)) => StreamStepModel {
            next: StreamPhase::Finished,
            data: Seq::empty(),
            text: Some(spec_status_line(code) + "okay, see ya later!\n"@),
        },
        _ => StreamStepModel { next: phase, data: Seq::empty(), text: None },
    }
}

/// Advance the streaming stage by one observation.
pub fn stream_step(phase: StreamPhase, event: StreamEvent) -> (r: StreamStep)
    ensures
        r@ == spec_stream_step(phase, event@),
{
    match (phase, event) {
        (StreamPhase::RelayStdout, StreamEvent::StdoutByte(b)) => {
            let mut data: Vec<u8> = Vec::new();
            data.push(b);
            let r = StreamStep { next: StreamPhase::RelayStdout, data, text: None };
            proof {
                assert(r@ =~= spec_stream_step(phase, event@));
            }
            r
        },
        (StreamPhase::RelayStdout, StreamEvent::StdoutEnd) => {
            let r = StreamStep { next: StreamPhase::DrainStderr, data: Vec::new(), text: None };
            proof {
                assert(r@ =~= spec_stream_step(phase, event@));
            }
            r
        },
        (StreamPhase::DrainStderr, StreamEvent::StderrAll(bytes)) => {
            let r = StreamStep { next: StreamPhase::AwaitExit, data: bytes, text: None };
            proof {
                assert(r@ =~= spec_stream_step(phase, event@));
            }
            r
        },
        (StreamPhase::AwaitExit, StreamEvent::Exited(code)) => {
            let text = status_line(code).concat(farewell_line().as_str());
            let r = StreamStep { next: StreamPhase::Finished, data: Vec::new(), text: Some(text) };
            proof {
                assert(r@ =~= spec_stream_step(phase, event@));
            }
            r
        },
        (p, _) => {
            let r = StreamStep { next: p, data: Vec::new(), text: None };
            proof {
                assert(r@ =~= spec_stream_step(phase, event@));
            }
            r
        },
    }
}

/// The phase the streaming stage is in after a sequence of observations.
pub open spec fn spec_phase_after(p: StreamPhase, evs: Seq<StreamEventModel>) -> StreamPhase
    decreases evs.len(),
{
    if evs.len() == 0 {
        p
    } else {
        spec_phase_after(spec_stream_step(p, evs[0]).next, evs.drop_first())
    }
}

/// Every launched connection's streaming eventually finishes: a full
/// subprocess trace — any number of stdout bytes while the process runs,
/// the end of stdout, the captured stderr, termination — drives the
/// streaming stage from its initial phase to its final one.
pub proof fn lemma_stream_finishes(
    stdout_evs: Seq<StreamEventModel>,
    err: Seq<u8>,
    code: Option<i32>,
)
    requires
        forall|i: int| 0 <= i < stdout_evs.len() ==> stdout_evs[i] is StdoutByte,
    ensures
        spec_phase_after(
            StreamPhase::RelayStdout,
            stdout_evs + seq![
                StreamEventModel::StdoutEnd,
                StreamEventModel::StderrAll(err),
                StreamEventModel::Exited(code),
            ],
        ) == StreamPhase::Finished,
    decreases stdout_evs.len(),
{
    let tail = seq![
        StreamEventModel::StdoutEnd,
        StreamEventModel::StderrAll(err),
        StreamEventModel::Exited(code),
    ];
    let evs = stdout_evs + tail;
    if stdout_evs.len() == 0 {
        let t1 = tail.drop_first();
        let t2 = t1.drop_first();
        assert(tail[0] == StreamEventModel::StdoutEnd);
        assert(t1[0] == StreamEventModel::StderrAll(err));
        assert(t2[0] == StreamEventModel::Exited(code));
        assert(t2.drop_first().len() == 0);
        assert(spec_phase_after(StreamPhase::Finished, t2.drop_first()) == StreamPhase::Finished);
        assert(spec_phase_after(StreamPhase::AwaitExit, t2) == StreamPhase::Finished);
        assert(spec_phase_after(StreamPhase::DrainStderr, t1) == StreamPhase::Finished);
        assert(spec_phase_after(StreamPhase::RelayStdout, tail) == StreamPhase::Finished);
        assert(evs =~= tail);
    } else {
        assert(evs[0] == stdout_evs[0]);
        assert(spec_stream_step(StreamPhase::RelayStdout, evs[0]).next
            == StreamPhase::RelayStdout);
        assert(evs.drop_first() =~= stdout_evs.drop_first() + tail);
        lemma_stream_finishes(stdout_evs.drop_first(), err, code);
    }
}

/// Output order and liveness of the streaming stage: a stdout byte produced
/// while the process runs is forwarded by the very step that observes it,
/// with nothing buffered; stderr is forwarded only once stdout has ended;
/// the status line and the closing sentinel come last, and the stage then
/// reaches its final phase.
pub proof fn lemma_stream_order(b: u8, err: Seq<u8>, code: Option<i32>)
    ensures
        spec_stream_step(StreamPhase::RelayStdout, StreamEventModel::StdoutByte(b))
            == (StreamStepModel { next: StreamPhase::RelayStdout, data: seq![b], text: None }),
        spec_stream_step(StreamPhase::RelayStdout, StreamEventModel::StdoutEnd).next
            == StreamPhase::DrainStderr,
        spec_stream_step(StreamPhase::DrainStderr, StreamEventModel::StderrAll(err))
            == (StreamStepModel { next: StreamPhase::AwaitExit, data: err, text: None }),
        spec_stream_step(StreamPhase::AwaitExit, StreamEventModel::Exited(code))
            == (StreamStepModel {
            next: StreamPhase::Finished,
            data: Seq::empty(),
            text: Some(spec_status_line(code) + "okay, see ya later!\n"@),
        }),
{
    assert(spec_stream_step(StreamPhase::RelayStdout, StreamEventModel::StdoutByte(b)) =~= (
    StreamStepModel { next: StreamPhase::RelayStdout, data: seq![b], text: None }));
    assert(spec_stream_step(StreamPhase::DrainStderr, StreamEventModel::StderrAll(err)) =~= (
    StreamStepModel { next: StreamPhase::AwaitExit, data: err, text: None }));
    assert(spec_stream_step(StreamPhase::AwaitExit, StreamEventModel::Exited(code)) =~= (
    StreamStepModel {
        next: StreamPhase::Finished,
        data: Seq::empty(),
        text: Some(spec_status_line(code) + "okay, see ya later!\n"@),
    }));
}

} // verus!
