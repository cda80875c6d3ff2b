//! One compression session, end to end, as an explicit state machine: the
//! caller validates nothing and decides nothing — it reports facts (does
//! the input exist, what did the probe say, what did the engine print) and
//! performs the actions handed back (probe this encoder, spawn this
//! command), while every decision is made and verified here. A separate
//! guarded slot tracks the running process for cancellation.

use vstd::prelude::*;
use vstd::pervasive::unreached;
use vstd::string::StringExecFns;
use crate::args::{build_command, built_args, engine_of, BuiltCommand, CompressionRequest};
use crate::encoder::{
    candidate_choice, candidate_count, candidate_name, has_hardware_path, resolve_next,
    resolve_start, resolver_wf, software_baseline, ResolveStep, ResolverState,
};
use crate::format::{classify_path, format_of_path, OutputFormat};
use crate::text::{dec_seq_signed, i64_to_string};

verus! {

/// Mathematical model of a diagnostic.
pub enum DiagnosticModel {
    InputNotFound,
    SpawnError(Seq<char>),
    EngineError(i32, Seq<char>),
    NoActiveProcess,
    KillError(Seq<char>),
    Cancelled,
}

/// Everything a session or a cancellation can fail with. Probe failures
/// are absent by design: they are absorbed by the resolver fallback and
/// never surface.
#[derive(Debug)]
pub enum Diagnostic {
    /// The input path does not exist; nothing was spawned.
    InputNotFound,
    /// The engine binary could not be located or launched.
    SpawnError { detail: String },
    /// The engine ran and exited with a non-zero code; the last diagnostic
    /// line it printed is kept as context.
    EngineError { code: i32, last_line: String },
    /// Cancellation found nothing to cancel.
    NoActiveProcess,
    /// Cancellation found a process but the kill itself failed.
    KillError { detail: String },
    /// The run was cancelled: the tracked process was killed on request.
    /// The output must be treated as invalid, so the run fails.
    Cancelled,
}

impl View for Diagnostic {
    type V = DiagnosticModel;

    open spec fn view(&self) -> DiagnosticModel {
        match self {
            Diagnostic::InputNotFound => DiagnosticModel::InputNotFound,
            Diagnostic::SpawnError { detail } => DiagnosticModel::SpawnError(detail@),
            Diagnostic::EngineError { code, last_line } => DiagnosticModel::EngineError(
                *code,
                last_line@,
            ),
            Diagnostic::NoActiveProcess => DiagnosticModel::NoActiveProcess,
            Diagnostic::KillError { detail } => DiagnosticModel::KillError(detail@),
            Diagnostic::Cancelled => DiagnosticModel::Cancelled,
        }
    }
}

/// The human-readable report for each diagnostic.
pub open spec fn diag_message(d: DiagnosticModel) -> Seq<char> {
    match d {
        DiagnosticModel::InputNotFound => "Input file not found"@,
        DiagnosticModel::SpawnError(t) => t,
        DiagnosticModel::EngineError(c, l) => "Error (Code "@ + dec_seq_signed(c as int) + "): "@
            + l,
        DiagnosticModel::NoActiveProcess => "No active process to stop"@,
        DiagnosticModel::KillError(t) => t,
        DiagnosticModel::Cancelled => "Compression cancelled"@,
    }
}

impl Diagnostic {
    /// Renders the diagnostic as one line of text.
    pub fn message(&self) -> (r: String)
        ensures
            r@ == diag_message(self@),
    {
        match self {
            Diagnostic::InputNotFound => String::from_str("Input file not found"),
            Diagnostic::SpawnError { detail } => detail.clone(),
            Diagnostic::EngineError { code, last_line } => {
                let mut s = String::from_str("Error (Code ");
                let num = i64_to_string(*code as i64);
                s.append(num.as_str());
                s.append("): ");
                s.append(last_line.as_str());
                proof {
                    assert(s@ =~= diag_message(self@));
                }
                s
            },
            Diagnostic::NoActiveProcess => String::from_str("No active process to stop"),
            Diagnostic::KillError { detail } => detail.clone(),
            Diagnostic::Cancelled => String::from_str("Compression cancelled"),
        }
    }
}

/// One frame of the event stream of a running engine process.
pub enum StreamEvent {
    StdoutLine(String),
    StderrLine(String),
    /// The process terminated, with its exit code when the platform
    /// reports one.
    Terminated(Option<i32>),
    /// The pipe closed without a termination frame; treated as an
    /// unknown-exit termination.
    Closed,
}

/// Where a session stands.
pub enum SessionPhase {
    /// No request accepted yet.
    Idle,
    /// Waiting for the caller to report a probe result.
    Resolving { request: CompressionRequest, format: OutputFormat, resolver: ResolverState },
    /// A command was handed out; waiting to hear whether it spawned.
    Spawning,
    /// The engine runs; its diagnostic stream is being consumed.
    Streaming { last_line: String },
    /// Terminal; a session is single-use.
    Finished,
}

/// What the caller must do next.
pub enum SessionAction {
    /// Run the synthetic probe for this encoder and report the outcome.
    Probe { encoder: String },
    /// Spawn this command and report whether it launched.
    Spawn { command: BuiltCommand },
}

/// What one stream frame amounts to.
pub enum StreamOutcome {
    /// Forward this diagnostic line to the progress consumer.
    Forwarded { line: String },
    /// Nothing to do for this frame.
    Ignored,
    /// The run is over, successfully or not.
    Ended { result: Result<(), Diagnostic> },
}

/// The diagnostic kept before the engine has printed anything.
pub open spec fn initial_diagnostic() -> Seq<char> {
    "Unknown FFmpeg Error"@
}

/// One compression request's lifecycle, from validation to terminal
/// result.
pub struct CompressionSession {
    phase: SessionPhase,
}

impl CompressionSession {
    /// The phase the session is in.
    pub closed spec fn spec_phase(&self) -> SessionPhase {
        self.phase
    }

    /// While resolving, the stored resolver matches the stored request:
    /// it walks candidates for the request's own output format, and only
    /// because the request asked for hardware.
    pub open spec fn wf(&self) -> bool {
        match self.spec_phase() {
            SessionPhase::Resolving { request, format, resolver } => {
                &&& resolver_wf(resolver)
                &&& resolver.format == format
                &&& format == format_of_path(request@.output)
                &&& request@.hardware
            },
            _ => true,
        }
    }

    /// A fresh, idle session.
    pub fn new() -> (s: CompressionSession)
        ensures
            s.spec_phase() matches SessionPhase::Idle,
            s.wf(),
    {
        CompressionSession { phase: SessionPhase::Idle }
    }

    /// Accepts the request. When the input does not exist the session
    /// fails at once with `InputNotFound` and hands out no action, so no
    /// process is ever spawned for it. Otherwise the output format is
    /// classified and either the first hardware probe is handed out, or —
    /// with no hardware asked for or available — the command built from
    /// the software baseline is ready to spawn.
    pub fn start(&mut self, request: CompressionRequest, input_exists: bool) -> (r: Result<
        SessionAction,
        Diagnostic,
    >)
        requires
            old(self).spec_phase() matches SessionPhase::Idle,
        ensures
            final(self).wf(),
            !input_exists ==> (r matches Err(d) && d@ == DiagnosticModel::InputNotFound && final(self).spec_phase() matches SessionPhase::Finished),
            input_exists ==> ({
                let f = format_of_path(request@.output);
                if request@.hardware && has_hardware_path(f) {
                    r matches Ok(SessionAction::Probe { encoder }) && encoder@ == candidate_name(0)
                        && (final(self).spec_phase() matches SessionPhase::Resolving {
                        request: rq,
                        format,
                        resolver,
                    } && rq == request && format == f && resolver == (ResolverState {
                        format: f,
                        next_candidate: 1,
                    }))
                } else {
                    r matches Ok(SessionAction::Spawn { command }) && command.engine == engine_of(
                        f,
                    ) && command.args.deep_view() == built_args(
                        request@,
                        f,
                        software_baseline(f),
                    ) && final(self).spec_phase() matches SessionPhase::Spawning
                }
            }),
    {
        if !input_exists {
            self.phase = SessionPhase::Finished;
            return Err(Diagnostic::InputNotFound);
        }
        let format = classify_path(request.output_path.as_str());
        match resolve_start(format, request.prefer_hardware) {
            ResolveStep::Probe { encoder, state } => {
                self.phase = SessionPhase::Resolving { request, format, resolver: state };
                Ok(SessionAction::Probe { encoder })
            },
            ResolveStep::Done { choice } => {
                let command = build_command(&request, format, &choice);
                self.phase = SessionPhase::Spawning;
                Ok(SessionAction::Spawn { command })
            },
        }
    }

    /// Consumes one probe answer. A success adopts the candidate just
    /// probed and the spawn command is ready; a failure either hands out
    /// the next candidate's probe or, with the list exhausted, falls back
    /// to the software baseline — never an error.
    pub fn probe_result(&mut self, probe_ok: bool) -> (r: SessionAction)
        requires
            old(self).spec_phase() matches SessionPhase::Resolving { .. },
            old(self).wf(),
        ensures
            final(self).wf(),
            old(self).spec_phase() matches SessionPhase::Resolving {
                request,
                format,
                resolver,
            } ==> ({
                if probe_ok {
                    r matches SessionAction::Spawn { command } && command.engine == engine_of(
                        format,
                    ) && command.args.deep_view() == built_args(
                        request@,
                        format,
                        candidate_choice(resolver.next_candidate - 1),
                    ) && final(self).spec_phase() matches SessionPhase::Spawning
                } else if resolver.next_candidate < candidate_count() {
                    r matches SessionAction::Probe { encoder } && encoder@ == candidate_name(
                        resolver.next_candidate as int,
                    ) && (final(self).spec_phase() matches SessionPhase::Resolving {
                        request: rq2,
                        format: f2,
                        resolver: rs2,
                    } && rq2 == request && f2 == format && rs2 == (ResolverState {
                        format,
                        next_candidate: (resolver.next_candidate + 1) as usize,
                    }))
                } else {
                    r matches SessionAction::Spawn { command } && command.engine == engine_of(
                        format,
                    ) && command.args.deep_view() == built_args(
                        request@,
                        format,
                        software_baseline(format),
                    ) && final(self).spec_phase() matches SessionPhase::Spawning
                }
            }),
    {
        let mut ph = SessionPhase::Spawning;
        core::mem::swap(&mut self.phase, &mut ph);
        match ph {
            SessionPhase::Resolving { request, format, resolver } => {
                match resolve_next(resolver, probe_ok) {
                    ResolveStep::Probe { encoder, state } => {
                        self.phase = SessionPhase::Resolving { request, format, resolver: state };
                        SessionAction::Probe { encoder }
                    },
                    ResolveStep::Done { choice } => {
                        let command = build_command(&request, format, &choice);
                        self.phase = SessionPhase::Spawning;
                        SessionAction::Spawn { command }
                    },
                }
            },
            _ => unreached(),
        }
    }

    /// Hears whether the handed-out command actually spawned. A spawn
    /// failure is terminal — it is never retried, since an identical
    /// respawn would fail identically.
    pub fn spawn_result(&mut self, spawned: bool, detail: String) -> (r: Option<Diagnostic>)
        requires
            old(self).spec_phase() matches SessionPhase::Spawning,
        ensures
            final(self).wf(),
            spawned ==> ((r matches None::<Diagnostic>) && (final(self).spec_phase()
                matches SessionPhase::Streaming { last_line } && last_line@
                == initial_diagnostic())),
            !spawned ==> (r matches Some(d) && d@ == DiagnosticModel::SpawnError(detail@) && final(self).spec_phase() matches SessionPhase::Finished),
    {
        if spawned {
            self.phase = SessionPhase::Streaming {
                last_line: String::from_str("Unknown FFmpeg Error"),
            };
            None
        } else {
            self.phase = SessionPhase::Finished;
            Some(Diagnostic::SpawnError { detail })
        }
    }

    /// Consumes one frame of the engine's event stream. Diagnostic lines
    /// are forwarded verbatim, in emission order, and the last one seen is
    /// retained; exit code 0, an unreported exit code and a bare stream
    /// closure all end the run successfully; a non-zero exit code ends it
    /// with `EngineError` carrying that code and the retained line.
    pub fn stream_event(&mut self, event: StreamEvent) -> (r: StreamOutcome)
        requires
            old(self).spec_phase() matches SessionPhase::Streaming { .. },
        ensures
            final(self).wf(),
            old(self).spec_phase() matches SessionPhase::Streaming { last_line } ==> (match event {
                StreamEvent::StderrLine(l) => r matches StreamOutcome::Forwarded { line } && line@
                    == l@ && (final(self).spec_phase() matches SessionPhase::Streaming {
                    last_line: kept,
                } && kept@ == l@),
                StreamEvent::StdoutLine(_) => r matches StreamOutcome::Ignored && (final(self).spec_phase() matches SessionPhase::Streaming { last_line: kept } && kept@
                    == last_line@),
                StreamEvent::Terminated(code) => (match code {
                    Some(c) => if c != 0 {
                        r matches StreamOutcome::Ended { result } && (result matches Err(d) && d@
                            == DiagnosticModel::EngineError(c, last_line@)) && final(self).spec_phase() matches SessionPhase::Finished
                    } else {
                        r matches StreamOutcome::Ended { result } && result matches Ok(_)
                            && final(self).spec_phase() matches SessionPhase::Finished
                    },
                    None => r matches StreamOutcome::Ended { result } && result matches Ok(_)
                        && final(self).spec_phase() matches SessionPhase::Finished,
                }),
                StreamEvent::Closed => r matches StreamOutcome::Ended { result } && result
                    matches Ok(_) && final(self).spec_phase() matches SessionPhase::Finished,
            }),
    {
        match event {
            StreamEvent::StderrLine(line) => {
                let forwarded = line.clone();
                self.phase = SessionPhase::Streaming { last_line: line };
                StreamOutcome::Forwarded { line: forwarded }
            },
            StreamEvent::StdoutLine(_) => StreamOutcome::Ignored,
            StreamEvent::Terminated(code) => {
                match code {
                    Some(c) => {
                        if c != 0 {
                            let mut ph = SessionPhase::Finished;
                            core::mem::swap(&mut self.phase, &mut ph);
                            match ph {
                                SessionPhase::Streaming { last_line } => StreamOutcome::Ended {
                                    result: Err(
                                        Diagnostic::EngineError { code: c, last_line },
                                    ),
                                },
                                _ => unreached(),
                            }
                        } else {
                            self.phase = SessionPhase::Finished;
                            StreamOutcome::Ended { result: Ok(()) }
                        }
                    },
                    None => {
                        self.phase = SessionPhase::Finished;
                        StreamOutcome::Ended { result: Ok(()) }
                    },
                }
            },
            StreamEvent::Closed => {
                self.phase = SessionPhase::Finished;
                StreamOutcome::Ended { result: Ok(()) }
            },
        }
    }

    /// Ends the run after a cancellation: the caller has drained the slot
    /// and killed the tracked process, so the session fails — a cancelled
    /// run never reports success, whatever exit the killed process shows,
    /// and any half-written output is invalid. The transition to Failed
    /// happens exactly once: it demands a live stream, leaves the session
    /// terminal, and after it no stream frame and no second cancellation
    /// is accepted.
    pub fn cancelled(&mut self) -> (r: Diagnostic)
        requires
            old(self).spec_phase() matches SessionPhase::Streaming { .. },
        ensures
            final(self).wf(),
            final(self).spec_phase() matches SessionPhase::Finished,
            r@ == DiagnosticModel::Cancelled,
    {
        self.phase = SessionPhase::Finished;
        Diagnostic::Cancelled
    }
}

/// What draining the slot yields: the tracked handle, or the observable
/// refusal when nothing was tracked.
pub open spec fn take_outcome(active: Option<u64>) -> Result<u64, DiagnosticModel> {
    match active {
        Some(id) => Ok(id),
        None => Err(DiagnosticModel::NoActiveProcess),
    }
}

/// The slot after a drain: always empty, whatever was tracked.
pub open spec fn slot_after_take(active: Option<u64>) -> Option<u64> {
    None::<u64>
}

/// The one exclusive slot that tracks the currently running engine
/// process for cancellation. A new spawn replaces whatever was tracked
/// (last writer wins); draining it for a kill empties it, so a handle can
/// never be killed twice through it.
pub struct ProcessSlot {
    active: Option<u64>,
}

impl ProcessSlot {
    /// The handle currently tracked, if any.
    pub closed spec fn spec_active(&self) -> Option<u64> {
        self.active
    }

    /// An empty slot.
    pub fn new() -> (s: ProcessSlot)
        ensures
            s.spec_active() == None::<u64>,
    {
        ProcessSlot { active: None }
    }

    /// Tracks a freshly spawned process, replacing any stale handle.
    pub fn store(&mut self, id: u64)
        ensures
            final(self).spec_active() == Some(id),
    {
        self.active = Some(id);
    }

    /// Forgets the tracked process once its stream has terminated.
    pub fn clear(&mut self)
        ensures
            final(self).spec_active() == None::<u64>,
    {
        self.active = None;
    }

    /// Drains the slot for a cancellation: hands the tracked handle to
    /// the caller for the actual kill, or reports `NoActiveProcess` — an
    /// observable refusal, never a silent success.
    pub fn take_for_kill(&mut self) -> (r: Result<u64, Diagnostic>)
        ensures
            final(self).spec_active() == slot_after_take(old(self).spec_active()),
            (match r {
                Ok(id) => Ok(id),
                Err(d) => Err(d@),
            }) == take_outcome(old(self).spec_active()),
    {
        match self.active {
            Some(id) => {
                self.active = None;
                Ok(id)
            },
            None => Err(Diagnostic::NoActiveProcess),
        }
    }
}

/// Cancellation is observable and single-shot: with nothing tracked it
/// reports `NoActiveProcess`; with a process tracked it yields the handle
/// exactly once, and a second drain — however the two calls interleave
/// with others — finds the slot empty and reports `NoActiveProcess`
/// rather than yielding the same handle again.
pub proof fn law_no_double_kill(first: Option<u64>)
    ensures
        first matches Some(id) ==> take_outcome(first) == Ok::<u64, DiagnosticModel>(id),
        first matches None::<u64> ==> take_outcome(first) == Err::<u64, DiagnosticModel>(
            DiagnosticModel::NoActiveProcess,
        ),
        take_outcome(slot_after_take(first)) == Err::<u64, DiagnosticModel>(
            DiagnosticModel::NoActiveProcess,
        ),
{
}

} // verus!
