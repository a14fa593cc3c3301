//! The single-child supervisor: a state machine over the running child, the
//! in-memory log ring, and the file-writer slot.
//!
//! The supervisor owns the decisions; the shell around the library performs
//! the process work (spawn, kill, reap) and reports each outcome back. A
//! start when a child is running is an atomic replacement: the old child is
//! delivered for killing, and only then is the new one spawned.

use crate::logger::{spec_writer_update, WriterSlot};
use crate::ring::{spec_ring_append, LogRing, LOGS_QUEUE_LEN};
use crate::structure::{ClashConfig, WriterConfig};
use vstd::prelude::*;

verus! {

/// What the shell's attempt to start a child reported back.
pub enum StartOutcome {
    /// The child was spawned; its process id.
    Spawned(u64),
    /// The writer could not be built from the given configuration; nothing
    /// was spawned.
    WriterFailed(String),
    /// The writer was installed but the spawn itself failed.
    SpawnFailed(String),
}

/// Which of the child's output streams a line came from.
pub enum StreamKind {
    Stdout,
    Stderr,
}

/// The level a drained line is logged at.
#[derive(Debug, PartialEq, Eq, Structural)]
pub enum LogLevel {
    Info,
    Error,
}

/// One fan-out record: what the shell writes through the current file writer
/// for a drained line. The ring append has already happened when this plan is
/// handed out.
pub struct LogRecordPlan {
    pub level: LogLevel,
    pub target: String,
    pub message: String,
    /// The configuration governing the writer this record goes to.
    pub writer: Option<WriterConfig>,
}

/// A best-effort filesystem action around a start or stop, performed by the
/// shell after `delay_ms` milliseconds; a missing target is not an error.
pub struct HookPlan {
    pub target: String,
    pub action: HookAction,
    pub delay_ms: u64,
}

pub enum HookAction {
    SetMode(u32),
    RemoveFile,
}

/// Lines from stdout log at info level, lines from stderr at error level.
pub open spec fn spec_level(stream: StreamKind) -> LogLevel {
    match stream {
        StreamKind::Stdout => LogLevel::Info,
        StreamKind::Stderr => LogLevel::Error,
    }
}

/// The single-child supervisor. At most one child exists at any instant: the
/// state holds at most one process id, and every transition that installs a
/// new one first delivers the old one for killing.
pub struct CoreManager {
    pub running_child: Option<u64>,
    pub logger: LogRing,
    pub writer: WriterSlot,
}

/// The supervisor's abstract state: the child (by process id), the ring
/// contents, and the writer-slot configuration.
#[verifier::ext_equal]
pub ghost struct ManagerModel {
    pub child: Option<u64>,
    pub ring: Seq<Seq<char>>,
    pub writer: Option<WriterConfig>,
}

pub open spec fn model(m: CoreManager) -> ManagerModel {
    ManagerModel { child: m.running_child, ring: m.logger@, writer: m.writer.current }
}

/// Stopping takes the child (if any), clears the ring, and keeps the writer.
pub open spec fn spec_stop(s: ManagerModel) -> ManagerModel {
    ManagerModel { child: None, ring: Seq::empty(), writer: s.writer }
}

/// Committing a start from the idle state: on a spawn the new child is
/// installed and the writer replaced; on a writer failure nothing changes; on
/// a spawn failure only the writer was replaced and the state stays idle.
pub open spec fn spec_commit_start(
    s: ManagerModel,
    config: ClashConfig,
    outcome: StartOutcome,
) -> ManagerModel {
    match outcome {
        StartOutcome::Spawned(pid) => ManagerModel {
            child: Some(pid),
            ring: s.ring,
            writer: Some(config.log_config),
        },
        StartOutcome::WriterFailed(_) => s,
        StartOutcome::SpawnFailed(_) => ManagerModel {
            child: None,
            ring: s.ring,
            writer: Some(config.log_config),
        },
    }
}

/// The whole start flow: an internal stop, then the commit. The second
/// component is the child delivered for killing before the spawn.
pub open spec fn spec_start_flow(
    s: ManagerModel,
    config: ClashConfig,
    outcome: StartOutcome,
) -> (ManagerModel, Option<u64>) {
    (spec_commit_start(spec_stop(s), config, outcome), s.child)
}

impl CoreManager {
    pub open spec fn wf(&self) -> bool {
        self.logger.wf()
    }

    /// A fresh supervisor: idle, empty ring, no writer installed.
    pub fn new() -> (r: CoreManager)
        ensures
            model(r) =~= (ManagerModel { child: None, ring: Seq::empty(), writer: None }),
            r.wf(),
    {
        CoreManager { running_child: None, logger: LogRing::new(), writer: WriterSlot::new() }
    }

    /// Stop the child. The ring is cleared; the returned process id, if any,
    /// is the child the shell must kill and reap (a kill of an already-dead
    /// child is downgraded to a warning by the shell). Stopping with no child
    /// succeeds the same way: stop is idempotent.
    pub fn stop_core(&mut self) -> (killed: Option<u64>)
        ensures
            model(*final(self)) =~= spec_stop(model(*old(self))),
            killed == old(self).running_child,
            final(self).wf(),
    {
        self.logger.clear_logs();
        let killed = self.running_child.take();
        killed
    }

    /// Commit a start from the idle state, given what the shell's spawn
    /// attempt reported. The caller reaches the idle state through
    /// [`Self::stop_core`], which also delivers the previous child for
    /// killing before anything new is spawned.
    pub fn start_core(&mut self, config: &ClashConfig, outcome: StartOutcome) -> (r: Result<
        (),
        String,
    >)
        requires
            old(self).running_child is None,
        ensures
            model(*final(self)) =~= spec_commit_start(model(*old(self)), *config, outcome),
            r is Ok <==> outcome is Spawned,
            (match outcome {
                StartOutcome::WriterFailed(e) => r == Err::<(), String>(e),
                StartOutcome::SpawnFailed(e) => r == Err::<(), String>(e),
                StartOutcome::Spawned(_) => r is Ok,
            }),
            final(self).wf() == old(self).wf(),
    {
        match outcome {
            StartOutcome::Spawned(pid) => {
                self.writer.current = Some(config.log_config.clone());
                self.running_child = Some(pid);
                Ok(())
            },
            StartOutcome::WriterFailed(e) => Err(e),
            StartOutcome::SpawnFailed(e) => {
                self.writer.current = Some(config.log_config.clone());
                Err(e)
            },
        }
    }

    /// Take one line drained from the child's stdout or stderr: append it to
    /// the ring and hand back the record the shell writes through the current
    /// file writer (info level for stdout, error level for stderr, target
    /// `service`).
    pub fn ingest_line(&mut self, stream: StreamKind, line: String) -> (rec: LogRecordPlan)
        requires
            old(self).wf(),
        ensures
            final(self).logger@ == spec_ring_append(old(self).logger@, line@),
            final(self).running_child == old(self).running_child,
            final(self).writer == old(self).writer,
            final(self).wf(),
            rec.level == spec_level(stream),
            rec.target@ == "service"@,
            rec.message@ == line@,
            rec.writer == old(self).writer.current,
    {
        let message = line.clone();
        self.logger.append_log(line);
        let writer = match self.writer.get_writer() {
            Some(c) => Some(c.clone()),
            None => None,
        };
        LogRecordPlan {
            level: match stream {
                StreamKind::Stdout => LogLevel::Info,
                StreamKind::Stderr => LogLevel::Error,
            },
            target: "service".to_owned(),
            message,
            writer,
        }
    }

    /// Replace the file writer at runtime. The next record on either stream
    /// is then governed by the new configuration.
    pub fn update_writer(&mut self, config: &WriterConfig, built: Result<(), String>) -> (r: Result<
        (),
        String,
    >)
        ensures
            final(self).writer.current == spec_writer_update(
                old(self).writer.current,
                *config,
                built is Ok,
            ),
            final(self).running_child == old(self).running_child,
            final(self).logger == old(self).logger,
            r is Ok <==> built is Ok,
            built is Err ==> r == built,
    {
        self.writer.set_or_update_writer(config, built)
    }

    /// After a start: once the child has had a moment to create its own
    /// control socket, open that socket to unprivileged clients. Best effort.
    pub fn after_start(&self) -> (r: HookPlan)
        ensures
            r.target@ == "/tmp/verge/verge-mihomo.sock"@,
            r.action == HookAction::SetMode(0o777u32),
            r.delay_ms == 200,
    {
        HookPlan {
            target: "/tmp/verge/verge-mihomo.sock".to_owned(),
            action: HookAction::SetMode(0o777),
            delay_ms: 200,
        }
    }

    /// After a stop: remove the child's control socket. Best effort.
    pub fn after_stop(&self) -> (r: HookPlan)
        ensures
            r.target@ == "/tmp/verge/verge-mihomo.sock"@,
            r.action == HookAction::RemoveFile,
            r.delay_ms == 0,
    {
        HookPlan {
            target: "/tmp/verge/verge-mihomo.sock".to_owned(),
            action: HookAction::RemoveFile,
            delay_ms: 0,
        }
    }
}

/// One supervisor operation, for stating invariants over arbitrary histories.
/// A `Start` stands for the whole flow: the internal stop, the kill of the
/// previous child, and the commit of the reported outcome.
pub ghost enum SupervisorOp {
    Stop,
    Start { config: ClashConfig, outcome: StartOutcome },
    Ingest { line: Seq<char> },
    UpdateWriter { config: WriterConfig, built_ok: bool },
}

pub open spec fn spec_step(s: ManagerModel, op: SupervisorOp) -> ManagerModel {
    match op {
        SupervisorOp::Stop => spec_stop(s),
        SupervisorOp::Start { config, outcome } => spec_start_flow(s, config, outcome).0,
        SupervisorOp::Ingest { line } => ManagerModel {
            child: s.child,
            ring: spec_ring_append(s.ring, line),
            writer: s.writer,
        },
        SupervisorOp::UpdateWriter { config, built_ok } => ManagerModel {
            child: s.child,
            ring: s.ring,
            writer: spec_writer_update(s.writer, config, built_ok),
        },
    }
}

pub open spec fn spec_run(s: ManagerModel, ops: Seq<SupervisorOp>) -> ManagerModel
    decreases ops.len(),
{
    if ops.len() == 0 {
        s
    } else {
        spec_run(spec_step(s, ops.first()), ops.drop_first())
    }
}

/// How many children the supervisor owns in a given state.
pub open spec fn child_count(s: ManagerModel) -> nat {
    if s.child is Some {
        1nat
    } else {
        0nat
    }
}

/// Stop is idempotent: stopping twice leaves the supervisor in the same state
/// as stopping once, and a stop in the idle state succeeds the same way.
pub proof fn lemma_stop_idempotent(s: ManagerModel)
    ensures
        spec_stop(spec_stop(s)) == spec_stop(s),
{
    assert(spec_stop(spec_stop(s)) =~= spec_stop(s));
}

/// After any finite sequence of supervisor operations, at most one child is
/// owned.
pub proof fn lemma_at_most_one_child(s: ManagerModel, ops: Seq<SupervisorOp>)
    requires
        child_count(s) <= 1,
    ensures
        child_count(spec_run(s, ops)) <= 1,
    decreases ops.len(),
{
    if ops.len() > 0 {
        lemma_at_most_one_child(spec_step(s, ops.first()), ops.drop_first());
    }
}

/// Replacement is atomic: a successful start delivers the previous child for
/// killing before the spawn, and afterwards the supervisor holds exactly the
/// new child — never both, and never the old one.
pub proof fn lemma_replacement_atomic(s: ManagerModel, c2: ClashConfig, pid2: u64)
    ensures
        spec_start_flow(s, c2, StartOutcome::Spawned(pid2)).1 == s.child,
        spec_start_flow(s, c2, StartOutcome::Spawned(pid2)).0.child == Some(pid2),
        (match s.child {
            Some(pid1) => pid1 != pid2 ==> spec_start_flow(
                s,
                c2,
                StartOutcome::Spawned(pid2),
            ).0.child != Some(pid1),
            None => true,
        }),
{
}

/// A failed start leaves the supervisor idle: no state exists in which two
/// children coexist, and no child survives a failed replacement.
pub proof fn lemma_failed_start_is_idle(s: ManagerModel, c2: ClashConfig, e: String, writer_failed: bool)
    ensures
        writer_failed ==> spec_start_flow(s, c2, StartOutcome::WriterFailed(e)).0.child is None,
        !writer_failed ==> spec_start_flow(s, c2, StartOutcome::SpawnFailed(e)).0.child is None,
{
}

/// The ring bound holds after any finite sequence of supervisor operations,
/// and a stop empties the ring.
pub proof fn lemma_ring_bound(s: ManagerModel, ops: Seq<SupervisorOp>)
    requires
        s.ring.len() <= LOGS_QUEUE_LEN,
    ensures
        spec_run(s, ops).ring.len() <= LOGS_QUEUE_LEN,
        spec_stop(s).ring.len() == 0,
    decreases ops.len(),
{
    if ops.len() > 0 {
        lemma_ring_bound(spec_step(s, ops.first()), ops.drop_first());
    }
}

/// A successful writer update takes effect at once: the updated state is
/// governed by the new configuration, and the record handed out for the next
/// drained line on either stream names that configuration, not the old one.
pub proof fn lemma_writer_hot_swap(s: ManagerModel, w2: WriterConfig, line: Seq<char>)
    ensures
        spec_step(s, SupervisorOp::UpdateWriter { config: w2, built_ok: true }).writer == Some(w2),
        spec_step(
            spec_step(s, SupervisorOp::UpdateWriter { config: w2, built_ok: true }),
            SupervisorOp::Ingest { line },
        ).writer == Some(w2),
{
}

/// The writer slot, once initialized, is never nulled by any sequence of
/// supervisor operations: it is only replaced.
pub proof fn lemma_writer_slot_stays_initialized(s: ManagerModel, ops: Seq<SupervisorOp>)
    requires
        s.writer is Some,
    ensures
        spec_run(s, ops).writer is Some,
    decreases ops.len(),
{
    if ops.len() > 0 {
        lemma_writer_slot_stays_initialized(spec_step(s, ops.first()), ops.drop_first());
    }
}

} // verus!
