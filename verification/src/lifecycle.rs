//! The container lifecycle controller: runs exactly one container to
//! completion or timeout and always leaves the daemon clean afterwards.
//!
//! The controller is an event-driven machine. [`Lifecycle::start`] plans the
//! run and hands back the first [`Step`]; the unverified driver performs
//! each step against the daemon and feeds the observed [`Event`] into
//! [`Lifecycle::advance`], which decides the next step. Every decision a
//! run makes — which exit code and timed-out flag each wait
//! outcome yields, that logs are collected and the container removed on
//! every path, and what the final response holds — is pinned down by
//! [`LifecycleV::spec_advance`].

use vstd::prelude::*;

use crate::config::Config;
use crate::logs::{ContainerLogs, ContainerLogsV};
use crate::models::{CodeExecutionRequest, CodeExecutionResponse, CodeExecutionResponseV};
use crate::profile::{create_container_config, spec_container_config, ContainerSpec, ContainerSpecV};
use crate::truncate::{spec_truncate, truncate_output};

verus! {

/// Relies on `uuid::Uuid::new_v4` rendered through `Display`: a fresh
/// random identifier in the 36-character hyphenated form.
#[verifier::external_body]
fn fresh_execution_id() -> (r: String)
    ensures
        r@.len() == 36,
{
    uuid::Uuid::new_v4().to_string()
}

/// How waiting for the container ended, as the daemon reported it.
pub enum WaitOutcome {
    /// The container reached a non-running state with this exit code.
    Completed { status_code: i64 },
    /// The completion stream errored or ended without a status.
    Failed { message: String },
}

/// The value of a [`WaitOutcome`].
pub ghost enum WaitOutcomeV {
    Completed { status_code: i64 },
    Failed { message: Seq<char> },
}

impl View for WaitOutcome {
    type V = WaitOutcomeV;

    open spec fn view(&self) -> WaitOutcomeV {
        match self {
            WaitOutcome::Completed { status_code } => WaitOutcomeV::Completed {
                status_code: *status_code,
            },
            WaitOutcome::Failed { message } => WaitOutcomeV::Failed { message: message@ },
        }
    }
}

/// Turns the first item of the daemon's completion stream into a wait
/// outcome: a missing item means the stream ended without a status, which
/// counts as a failed wait.
pub fn interpret_wait(first: Option<Result<i64, String>>) -> (r: WaitOutcome)
    ensures
        r@ == (match first {
            Some(Ok(code)) => WaitOutcomeV::Completed { status_code: code },
            Some(Err(m)) => WaitOutcomeV::Failed { message: m@ },
            None => WaitOutcomeV::Failed { message: "Container stream ended unexpectedly"@ },
        }),
{
    match first {
        Some(Ok(code)) => WaitOutcome::Completed { status_code: code },
        Some(Err(message)) => WaitOutcome::Failed { message },
        None => WaitOutcome::Failed {
            message: "Container stream ended unexpectedly".to_owned(),
        },
    }
}

/// What the driver observed after performing a step.
pub enum Event {
    /// Creation returned the daemon's container identifier, or failed.
    Created { outcome: Result<String, String> },
    /// Starting succeeded or failed.
    Started { outcome: Result<(), String> },
    /// The wait finished before the timeout, with this outcome, after this
    /// many milliseconds of wall-clock time.
    Waited { outcome: WaitOutcome, elapsed_ms: u64 },
    /// The timeout fired first.
    WaitTimedOut,
    /// The interrupt signal was issued (its own success is ignored); the
    /// wall clock read this many milliseconds.
    Killed { elapsed_ms: u64 },
    /// Log collection returned these accumulators, or failed outright.
    LogsCollected { outcome: Result<ContainerLogs, String> },
    /// Removal was attempted; its own success is ignored.
    Removed { outcome: Result<(), String> },
}

/// The value of an [`Event`].
pub ghost enum EventV {
    Created { outcome: Result<Seq<char>, Seq<char>> },
    Started { outcome: Result<(), Seq<char>> },
    Waited { outcome: WaitOutcomeV, elapsed_ms: u64 },
    WaitTimedOut,
    Killed { elapsed_ms: u64 },
    LogsCollected { outcome: Result<ContainerLogsV, Seq<char>> },
    Removed { outcome: Result<(), Seq<char>> },
}

impl View for Event {
    type V = EventV;

    open spec fn view(&self) -> EventV {
        match self {
            Event::Created { outcome } => EventV::Created {
                outcome: match outcome {
                    Ok(id) => Ok(id@),
                    Err(m) => Err(m@),
                },
            },
            Event::Started { outcome } => EventV::Started {
                outcome: match outcome {
                    Ok(_) => Ok(()),
                    Err(m) => Err(m@),
                },
            },
            Event::Waited { outcome, elapsed_ms } => EventV::Waited {
                outcome: outcome@,
                elapsed_ms: *elapsed_ms,
            },
            Event::WaitTimedOut => EventV::WaitTimedOut,
            Event::Killed { elapsed_ms } => EventV::Killed { elapsed_ms: *elapsed_ms },
            Event::LogsCollected { outcome } => EventV::LogsCollected {
                outcome: match outcome {
                    Ok(logs) => Ok(logs@),
                    Err(m) => Err(m@),
                },
            },
            Event::Removed { outcome } => EventV::Removed {
                outcome: match outcome {
                    Ok(_) => Ok(()),
                    Err(m) => Err(m@),
                },
            },
        }
    }
}

/// The step the driver must perform next.
pub enum Step {
    /// Create a container under this collision-free name.
    Create { name: String, config: ContainerSpec },
    Start { container_id: String },
    /// Wait for a non-running state, racing this many seconds of wall clock.
    Wait { container_id: String, timeout_secs: u64 },
    /// Best-effort interrupt after a timeout.
    Kill { container_id: String },
    CollectLogs { container_id: String },
    /// Forced removal, with any anonymous volumes.
    Remove { container_id: String },
    /// The run is over: relay this to the caller. An `Err` is a failure
    /// message to be shaped into an error response at the boundary.
    Done { outcome: Result<CodeExecutionResponse, String> },
}

/// The value of a [`Step`].
pub ghost enum StepV {
    Create { name: Seq<char>, config: ContainerSpecV },
    Start { container_id: Seq<char> },
    Wait { container_id: Seq<char>, timeout_secs: u64 },
    Kill { container_id: Seq<char> },
    CollectLogs { container_id: Seq<char> },
    Remove { container_id: Seq<char> },
    Done { outcome: Result<CodeExecutionResponseV, Seq<char>> },
}

impl View for Step {
    type V = StepV;

    open spec fn view(&self) -> StepV {
        match self {
            Step::Create { name, config } => StepV::Create { name: name@, config: config@ },
            Step::Start { container_id } => StepV::Start { container_id: container_id@ },
            Step::Wait { container_id, timeout_secs } => StepV::Wait {
                container_id: container_id@,
                timeout_secs: *timeout_secs,
            },
            Step::Kill { container_id } => StepV::Kill { container_id: container_id@ },
            Step::CollectLogs { container_id } => StepV::CollectLogs {
                container_id: container_id@,
            },
            Step::Remove { container_id } => StepV::Remove { container_id: container_id@ },
            Step::Done { outcome } => StepV::Done {
                outcome: match outcome {
                    Ok(response) => Ok(response@),
                    Err(m) => Err(m@),
                },
            },
        }
    }
}

/// Where one run stands.
pub enum Phase {
    /// Waiting for the container to be created.
    Creating,
    Starting { container_id: String },
    Waiting { container_id: String },
    /// The timeout fired; the interrupt signal is being issued.
    Killing { container_id: String },
    Collecting { container_id: String },
    Removing { container_id: String },
    /// Starting failed; the created container is being removed before the
    /// failure is reported.
    RemovingFailed { container_id: String, message: String },
    Finished,
}

/// The value of a [`Phase`].
pub ghost enum PhaseV {
    Creating,
    Starting { container_id: Seq<char> },
    Waiting { container_id: Seq<char> },
    Killing { container_id: Seq<char> },
    Collecting { container_id: Seq<char> },
    Removing { container_id: Seq<char> },
    RemovingFailed { container_id: Seq<char>, message: Seq<char> },
    Finished,
}

impl View for Phase {
    type V = PhaseV;

    open spec fn view(&self) -> PhaseV {
        match self {
            Phase::Creating => PhaseV::Creating,
            Phase::Starting { container_id } => PhaseV::Starting { container_id: container_id@ },
            Phase::Waiting { container_id } => PhaseV::Waiting { container_id: container_id@ },
            Phase::Killing { container_id } => PhaseV::Killing { container_id: container_id@ },
            Phase::Collecting { container_id } => PhaseV::Collecting {
                container_id: container_id@,
            },
            Phase::Removing { container_id } => PhaseV::Removing { container_id: container_id@ },
            Phase::RemovingFailed { container_id, message } => PhaseV::RemovingFailed {
                container_id: container_id@,
                message: message@,
            },
            Phase::Finished => PhaseV::Finished,
        }
    }
}

/// One run of the lifecycle controller.
pub struct Lifecycle {
    pub phase: Phase,
    /// The caller-facing correlation key, fresh per request and independent
    /// of the daemon's container identifier.
    pub execution_id: String,
    pub timeout_secs: u64,
    pub max_output_size: usize,
    pub exit_code: i64,
    pub timed_out: bool,
    pub duration_ms: u64,
    pub stdout: String,
    pub stderr: String,
    /// Whether the daemon ever assigned this run a container.
    pub created: bool,
    /// Whether removal of that container has been handed to the driver.
    pub remove_requested: bool,
}

/// The value of a [`Lifecycle`].
#[verifier::ext_equal]
pub ghost struct LifecycleV {
    pub phase: PhaseV,
    pub execution_id: Seq<char>,
    pub timeout_secs: u64,
    pub max_output_size: usize,
    pub exit_code: i64,
    pub timed_out: bool,
    pub duration_ms: u64,
    pub stdout: Seq<char>,
    pub stderr: Seq<char>,
    pub created: bool,
    pub remove_requested: bool,
}

impl View for Lifecycle {
    type V = LifecycleV;

    open spec fn view(&self) -> LifecycleV {
        LifecycleV {
            phase: self.phase@,
            execution_id: self.execution_id@,
            timeout_secs: self.timeout_secs,
            max_output_size: self.max_output_size,
            exit_code: self.exit_code,
            timed_out: self.timed_out,
            duration_ms: self.duration_ms,
            stdout: self.stdout@,
            stderr: self.stderr@,
            created: self.created,
            remove_requested: self.remove_requested,
        }
    }
}

/// The timeout a request runs under: its own, or the configured default.
pub open spec fn spec_effective_timeout(timeout: Option<u64>, default_timeout: u64) -> u64 {
    match timeout {
        Some(t) => t,
        None => default_timeout,
    }
}

impl LifecycleV {
    /// Which event each phase is waiting for.
    pub open spec fn accepts(self, event: EventV) -> bool {
        match (self.phase, event) {
            (PhaseV::Creating, EventV::Created { .. }) => true,
            (PhaseV::Starting { .. }, EventV::Started { .. }) => true,
            (PhaseV::Waiting { .. }, EventV::Waited { .. }) => true,
            (PhaseV::Waiting { .. }, EventV::WaitTimedOut) => true,
            (PhaseV::Killing { .. }, EventV::Killed { .. }) => true,
            (PhaseV::Collecting { .. }, EventV::LogsCollected { .. }) => true,
            (PhaseV::Removing { .. }, EventV::Removed { .. }) => true,
            (PhaseV::RemovingFailed { .. }, EventV::Removed { .. }) => true,
            _ => false,
        }
    }

    /// The response a finished run assembles: both outputs truncated
    /// independently, everything else as recorded.
    pub open spec fn response(self) -> CodeExecutionResponseV {
        CodeExecutionResponseV {
            execution_id: self.execution_id,
            stdout: spec_truncate(self.stdout, self.max_output_size as int),
            stderr: spec_truncate(self.stderr, self.max_output_size as int),
            exit_code: self.exit_code,
            duration_ms: self.duration_ms,
            timed_out: self.timed_out,
        }
    }

    /// The whole decision table of the controller: for each phase and
    /// observed event, the machine after the decision and the step owed.
    pub open spec fn spec_advance(self, event: EventV) -> (LifecycleV, StepV)
        recommends
            self.accepts(event),
    {
        match (self.phase, event) {
            (PhaseV::Creating, EventV::Created { outcome }) => match outcome {
                Ok(container_id) => (
                    LifecycleV {
                        phase: PhaseV::Starting { container_id },
                        created: true,
                        ..self
                    },
                    StepV::Start { container_id },
                ),
                // Creation failed: terminal, nothing to clean up.
                Err(message) => (
                    LifecycleV { phase: PhaseV::Finished, ..self },
                    StepV::Done { outcome: Err(message) },
                ),
            },
            (PhaseV::Starting { container_id }, EventV::Started { outcome }) => match outcome {
                Ok(_) => (
                    LifecycleV { phase: PhaseV::Waiting { container_id }, ..self },
                    StepV::Wait { container_id, timeout_secs: self.timeout_secs },
                ),
                // Starting failed: the created container is still removed
                // before the failure is reported.
                Err(message) => (
                    LifecycleV {
                        phase: PhaseV::RemovingFailed { container_id, message },
                        remove_requested: true,
                        ..self
                    },
                    StepV::Remove { container_id },
                ),
            },
            (PhaseV::Waiting { container_id }, EventV::Waited { outcome, elapsed_ms }) => (
                LifecycleV {
                    phase: PhaseV::Collecting { container_id },
                    exit_code: match outcome {
                        WaitOutcomeV::Completed { status_code } => status_code,
                        WaitOutcomeV::Failed { .. } => -1i64,
                    },
                    timed_out: false,
                    duration_ms: elapsed_ms,
                    ..self
                },
                StepV::CollectLogs { container_id },
            ),
            (PhaseV::Waiting { container_id }, EventV::WaitTimedOut) => (
                LifecycleV {
                    phase: PhaseV::Killing { container_id },
                    exit_code: -1i64,
                    timed_out: true,
                    ..self
                },
                StepV::Kill { container_id },
            ),
            (PhaseV::Killing { container_id }, EventV::Killed { elapsed_ms }) => (
                LifecycleV {
                    phase: PhaseV::Collecting { container_id },
                    duration_ms: elapsed_ms,
                    ..self
                },
                StepV::CollectLogs { container_id },
            ),
            (PhaseV::Collecting { container_id }, EventV::LogsCollected { outcome }) => (
                LifecycleV {
                    phase: PhaseV::Removing { container_id },
                    stdout: match outcome {
                        Ok(logs) => logs.stdout,
                        Err(_) => Seq::<char>::empty(),
                    },
                    stderr: match outcome {
                        Ok(logs) => logs.stderr,
                        Err(_) => Seq::<char>::empty(),
                    },
                    remove_requested: true,
                    ..self
                },
                StepV::Remove { container_id },
            ),
            // Removal's own outcome never overrides the computed result.
            (PhaseV::Removing { .. }, EventV::Removed { .. }) => (
                LifecycleV { phase: PhaseV::Finished, ..self },
                StepV::Done { outcome: Ok(self.response()) },
            ),
            (PhaseV::RemovingFailed { message, .. }, EventV::Removed { .. }) => (
                LifecycleV { phase: PhaseV::Finished, ..self },
                StepV::Done { outcome: Err(message) },
            ),
            _ => (self, StepV::Done { outcome: Err(Seq::<char>::empty()) }),
        }
    }

    /// Bookkeeping that every reachable machine satisfies: a container is
    /// known exactly while one exists, and a finished run that created one
    /// has requested its removal.
    pub open spec fn inv(self) -> bool {
        &&& (self.phase is Creating ==> !self.created && !self.remove_requested)
        &&& (self.phase is Starting ==> self.created && !self.remove_requested)
        &&& (self.phase is Waiting ==> self.created && !self.remove_requested)
        &&& (self.phase is Killing ==> self.created && !self.remove_requested)
        &&& (self.phase is Collecting ==> self.created && !self.remove_requested)
        &&& (self.phase is Removing ==> self.created && self.remove_requested)
        &&& (self.phase is RemovingFailed ==> self.created && self.remove_requested)
        &&& (self.phase is Finished ==> (self.created ==> self.remove_requested))
    }
}

impl Lifecycle {
    /// Plans one run: a fresh execution identifier, a container name derived
    /// from it so names never collide while identifiers are fresh, the
    /// container configuration for the request, and the effective timeout.
    /// The first step is to create the container.
    pub fn start(request: &CodeExecutionRequest, config: &Config) -> (r: (Lifecycle, Step))
        ensures
            r.0@.inv(),
            r.0@.phase is Creating,
            !r.0@.created,
            !r.0@.remove_requested,
            r.0@.execution_id.len() == 36,
            r.0@.timeout_secs == spec_effective_timeout(
                request.timeout,
                config.execution.default_timeout,
            ),
            r.0@.max_output_size == config.execution.max_output_size,
            r.0@.exit_code == -1,
            !r.0@.timed_out,
            r.0@.duration_ms == 0,
            r.0@.stdout == Seq::<char>::empty(),
            r.0@.stderr == Seq::<char>::empty(),
            r.1@ == (StepV::Create {
                name: "code_exec_"@ + r.0@.execution_id,
                config: spec_container_config(
                    config.docker.network@,
                    config.docker.memory_limit@,
                    config.docker.cpu_shares,
                    request.language,
                    request.code@,
                ),
            }),
    {
        let execution_id = fresh_execution_id();
        let name = "code_exec_".to_owned().concat(execution_id.as_str());
        let container_config = create_container_config(
            config,
            request.language,
            request.code.as_str(),
        );
        let timeout_secs = match request.timeout {
            Some(t) => t,
            None => config.execution.default_timeout,
        };
        let lifecycle = Lifecycle {
            phase: Phase::Creating,
            execution_id,
            timeout_secs,
            max_output_size: config.execution.max_output_size,
            exit_code: -1,
            timed_out: false,
            duration_ms: 0,
            stdout: String::new(),
            stderr: String::new(),
            created: false,
            remove_requested: false,
        };
        (lifecycle, Step::Create { name, config: container_config })
    }

    /// Whether the machine is waiting for exactly this event.
    pub fn expects(&self, event: &Event) -> (r: bool)
        ensures
            r == self@.accepts(event@),
    {
        match (&self.phase, event) {
            (Phase::Creating, Event::Created { .. }) => true,
            (Phase::Starting { .. }, Event::Started { .. }) => true,
            (Phase::Waiting { .. }, Event::Waited { .. }) => true,
            (Phase::Waiting { .. }, Event::WaitTimedOut) => true,
            (Phase::Killing { .. }, Event::Killed { .. }) => true,
            (Phase::Collecting { .. }, Event::LogsCollected { .. }) => true,
            (Phase::Removing { .. }, Event::Removed { .. }) => true,
            (Phase::RemovingFailed { .. }, Event::Removed { .. }) => true,
            _ => false,
        }
    }

    /// Whether the run is over and no further event is accepted.
    pub fn is_finished(&self) -> (r: bool)
        ensures
            r == (self@.phase is Finished),
    {
        match &self.phase {
            Phase::Finished => true,
            _ => false,
        }
    }

    /// Feeds one observed event into the machine and returns the next step,
    /// exactly as [`LifecycleV::spec_advance`] decides it.
    pub fn advance(&mut self, event: Event) -> (step: Step)
        requires
            old(self)@.inv(),
            old(self)@.accepts(event@),
        ensures
            final(self)@.inv(),
            final(self)@ == old(self)@.spec_advance(event@).0,
            step@ == old(self)@.spec_advance(event@).1,
    {
        let mut phase = Phase::Finished;
        core::mem::swap(&mut phase, &mut self.phase);
        match (phase, event) {
            (Phase::Creating, Event::Created { outcome }) => match outcome {
                Ok(container_id) => {
                    self.created = true;
                    let step_id = container_id.clone();
                    self.phase = Phase::Starting { container_id };
                    Step::Start { container_id: step_id }
                },
                Err(message) => {
                    self.phase = Phase::Finished;
                    Step::Done { outcome: Err(message) }
                },
            },
            (Phase::Starting { container_id }, Event::Started { outcome }) => match outcome {
                Ok(_) => {
                    let step_id = container_id.clone();
                    let timeout_secs = self.timeout_secs;
                    self.phase = Phase::Waiting { container_id };
                    Step::Wait { container_id: step_id, timeout_secs }
                },
                Err(message) => {
                    self.remove_requested = true;
                    let step_id = container_id.clone();
                    self.phase = Phase::RemovingFailed { container_id, message };
                    Step::Remove { container_id: step_id }
                },
            },
            (Phase::Waiting { container_id }, Event::Waited { outcome, elapsed_ms }) => {
                self.exit_code = match outcome {
                    WaitOutcome::Completed { status_code } => status_code,
                    WaitOutcome::Failed { .. } => -1,
                };
                self.timed_out = false;
                self.duration_ms = elapsed_ms;
                let step_id = container_id.clone();
                self.phase = Phase::Collecting { container_id };
                Step::CollectLogs { container_id: step_id }
            },
            (Phase::Waiting { container_id }, Event::WaitTimedOut) => {
                self.exit_code = -1;
                self.timed_out = true;
                let step_id = container_id.clone();
                self.phase = Phase::Killing { container_id };
                Step::Kill { container_id: step_id }
            },
            (Phase::Killing { container_id }, Event::Killed { elapsed_ms }) => {
                self.duration_ms = elapsed_ms;
                let step_id = container_id.clone();
                self.phase = Phase::Collecting { container_id };
                Step::CollectLogs { container_id: step_id }
            },
            (Phase::Collecting { container_id }, Event::LogsCollected { outcome }) => {
                match outcome {
                    Ok(logs) => {
                        self.stdout = logs.stdout;
                        self.stderr = logs.stderr;
                    },
                    Err(_) => {
                        self.stdout = String::new();
                        self.stderr = String::new();
                    },
                }
                self.remove_requested = true;
                let step_id = container_id.clone();
                self.phase = Phase::Removing { container_id };
                Step::Remove { container_id: step_id }
            },
            (Phase::Removing { .. }, Event::Removed { .. }) => {
                self.phase = Phase::Finished;
                let stdout = truncate_output(self.stdout.clone(), self.max_output_size);
                let stderr = truncate_output(self.stderr.clone(), self.max_output_size);
                let response = CodeExecutionResponse {
                    execution_id: self.execution_id.clone(),
                    stdout,
                    stderr,
                    exit_code: self.exit_code,
                    duration_ms: self.duration_ms,
                    timed_out: self.timed_out,
                };
                Step::Done { outcome: Ok(response) }
            },
            (Phase::RemovingFailed { container_id: _, message }, Event::Removed { .. }) => {
                self.phase = Phase::Finished;
                Step::Done { outcome: Err(message) }
            },
            (_, _) => unreached(),
        }
    }
}

/// Every accepted event preserves the machine's bookkeeping; the machine
/// hands back `Done` exactly when it finishes; a finished run that ever
/// created a container has requested its removal; and the correlation key
/// never changes over a run.
pub proof fn lemma_advance_protocol(lifecycle: LifecycleV, event: EventV)
    requires
        lifecycle.inv(),
        lifecycle.accepts(event),
    ensures
        lifecycle.spec_advance(event).0.inv(),
        lifecycle.spec_advance(event).1 is Done <==> lifecycle.spec_advance(event).0.phase
            is Finished,
        lifecycle.spec_advance(event).0.phase is Finished
            && lifecycle.spec_advance(event).0.created
            ==> lifecycle.spec_advance(event).0.remove_requested,
        lifecycle.spec_advance(event).0.execution_id == lifecycle.execution_id,
{
}

/// A finished machine accepts no further event, so one run yields at most
/// one `Done` step and so at most one result.
pub proof fn lemma_finished_terminal(lifecycle: LifecycleV, event: EventV)
    requires
        lifecycle.phase is Finished,
    ensures
        !lifecycle.accepts(event),
{
}

/// A failed creation is terminal: the failure is reported at once, and no
/// container was ever created, so none is owed removal.
pub proof fn lemma_create_failure_terminal(lifecycle: LifecycleV, message: Seq<char>)
    requires
        lifecycle.inv(),
        lifecycle.phase is Creating,
    ensures
        ({
            let (done, final_step) = lifecycle.spec_advance(
                EventV::Created { outcome: Err(message) },
            );
            &&& done.phase is Finished
            &&& !done.created
            &&& final_step == (StepV::Done { outcome: Err(message) })
        }),
{
}

/// A container that was created but failed to start is still removed, and
/// only then is the start failure reported; the removal's own outcome
/// changes nothing.
pub proof fn lemma_start_failure_cleanup(
    lifecycle: LifecycleV,
    message: Seq<char>,
    removal: Result<(), Seq<char>>,
)
    requires
        lifecycle.inv(),
        lifecycle.phase is Starting,
    ensures
        ({
            let (removing, remove_step) = lifecycle.spec_advance(
                EventV::Started { outcome: Err(message) },
            );
            let (done, final_step) = removing.spec_advance(EventV::Removed { outcome: removal });
            &&& remove_step is Remove
            &&& removing.remove_requested
            &&& done.phase is Finished
            &&& done.remove_requested
            &&& final_step == (StepV::Done { outcome: Err(message) })
        }),
{
}

/// A run whose wait timed out: the interrupt is issued, logs are still
/// collected, the container is still removed, and the delivered response
/// reports `timed_out` with exit code -1 and the measured duration — never
/// the code's own completion status.
pub proof fn lemma_timed_out_run(
    lifecycle: LifecycleV,
    elapsed_ms: u64,
    logs: Result<ContainerLogsV, Seq<char>>,
    removal: Result<(), Seq<char>>,
)
    requires
        lifecycle.inv(),
        lifecycle.phase is Waiting,
    ensures
        ({
            let (after_timeout, kill_step) = lifecycle.spec_advance(EventV::WaitTimedOut);
            let (after_kill, collect_step) = after_timeout.spec_advance(
                EventV::Killed { elapsed_ms },
            );
            let (after_logs, remove_step) = after_kill.spec_advance(
                EventV::LogsCollected { outcome: logs },
            );
            let (done, final_step) = after_logs.spec_advance(EventV::Removed { outcome: removal });
            &&& kill_step is Kill
            &&& collect_step is CollectLogs
            &&& remove_step is Remove
            &&& done.phase is Finished
            &&& done.remove_requested
            &&& final_step == (StepV::Done {
                outcome: Ok(
                    CodeExecutionResponseV {
                        execution_id: lifecycle.execution_id,
                        stdout: spec_truncate(
                            match logs {
                                Ok(l) => l.stdout,
                                Err(_) => Seq::<char>::empty(),
                            },
                            lifecycle.max_output_size as int,
                        ),
                        stderr: spec_truncate(
                            match logs {
                                Ok(l) => l.stderr,
                                Err(_) => Seq::<char>::empty(),
                            },
                            lifecycle.max_output_size as int,
                        ),
                        exit_code: -1i64,
                        duration_ms: elapsed_ms,
                        timed_out: true,
                    },
                ),
            })
        }),
{
}

/// A run whose container completed before the timeout: logs are collected,
/// the container is removed, and the delivered response carries the
/// container's true exit status, `timed_out` false and the measured
/// duration.
pub proof fn lemma_completed_run(
    lifecycle: LifecycleV,
    status_code: i64,
    elapsed_ms: u64,
    logs: Result<ContainerLogsV, Seq<char>>,
    removal: Result<(), Seq<char>>,
)
    requires
        lifecycle.inv(),
        lifecycle.phase is Waiting,
    ensures
        ({
            let (after_wait, collect_step) = lifecycle.spec_advance(
                EventV::Waited {
                    outcome: WaitOutcomeV::Completed { status_code },
                    elapsed_ms,
                },
            );
            let (after_logs, remove_step) = after_wait.spec_advance(
                EventV::LogsCollected { outcome: logs },
            );
            let (done, final_step) = after_logs.spec_advance(EventV::Removed { outcome: removal });
            &&& collect_step is CollectLogs
            &&& remove_step is Remove
            &&& done.phase is Finished
            &&& done.remove_requested
            &&& final_step == (StepV::Done {
                outcome: Ok(
                    CodeExecutionResponseV {
                        execution_id: lifecycle.execution_id,
                        stdout: spec_truncate(
                            match logs {
                                Ok(l) => l.stdout,
                                Err(_) => Seq::<char>::empty(),
                            },
                            lifecycle.max_output_size as int,
                        ),
                        stderr: spec_truncate(
                            match logs {
                                Ok(l) => l.stderr,
                                Err(_) => Seq::<char>::empty(),
                            },
                            lifecycle.max_output_size as int,
                        ),
                        exit_code: status_code,
                        duration_ms: elapsed_ms,
                        timed_out: false,
                    },
                ),
            })
        }),
{
}

} // verus!
