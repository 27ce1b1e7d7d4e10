//! Supervision decisions: what a server lifetime's outcome means, whether to
//! restart, and the signal sequence that stops the server.
use vstd::prelude::*;
use crate::cmd_utils::views;
use crate::escalation::{close_together, lemma_count_within_window, Decision, EscalationCounter};
use crate::mail::{MailRequest, Timestamp};

verus! {

/// Seconds without incident after which the supervisor's count starts afresh.
pub const SERVER_QUIET_WINDOW_SECS: u64 = 900;
/// Restarts the supervisor allows within its quiet window.
pub const SERVER_INCIDENT_THRESHOLD: u64 = 5;
/// Delay before a restart.
pub const RESTART_DELAY_SECS: u64 = 10;
/// Seconds the server gets to exit after the interrupt signal.
pub const SHUTDOWN_GRACE_SECS: u64 = 20;

/// What ended a server lifetime: the first of the three to finish.
pub enum ServerOutcome {
    /// The server exited by itself, with the text of its exit status or of
    /// the error met while waiting for it.
    Exited(Result<String, String>),
    /// The control-channel session gave up, with its log.
    RconFailed(Vec<String>),
    /// The backup protocol stopped, with its log.
    BackupFailed(Vec<String>),
}

/// The log of a server lifetime's end.
pub open spec fn outcome_log(o: ServerOutcome) -> Seq<Seq<char>> {
    match o {
        ServerOutcome::Exited(Ok(status)) => seq![
            "Spontaneous server exit."@,
            "Status code: "@ + status@,
        ],
        ServerOutcome::Exited(Err(e)) => seq![
            "Spontaneous server exit."@,
            "An error occurred while obtaining server exit status:\n"@ + e@,
        ],
        ServerOutcome::RconFailed(log) => views(log@).push(
            "Emergency server shutdown caused by RCON failure."@,
        ),
        ServerOutcome::BackupFailed(log) => views(log@).push(
            "Emergency server shutdown caused by backup failure."@,
        ),
    }
}

fn line_of(prefix: &str, text: &str) -> (r: String)
    ensures
        r@ == prefix@ + text@,
{
    let mut r = prefix.to_string();
    r.append(text);
    r
}

impl ServerOutcome {
    /// Whether the server is still running and must be shut down: true
    /// unless it exited by itself.
    pub fn needs_shutdown(&self) -> (r: bool)
        ensures
            r == !(self is Exited),
    {
        match self {
            ServerOutcome::Exited(_) => false,
            _ => true,
        }
    }

    /// The ordered log describing the outcome.
    pub fn into_log(self) -> (r: Vec<String>)
        ensures
            views(r@) == outcome_log(self),
    {
        match self {
            ServerOutcome::Exited(Ok(status)) => {
                let r = vec![
                    "Spontaneous server exit.".to_string(),
                    line_of("Status code: ", status.as_str()),
                ];
                assert(views(r@) =~= outcome_log(self));
                r
            },
            ServerOutcome::Exited(Err(e)) => {
                let r = vec![
                    "Spontaneous server exit.".to_string(),
                    line_of(
                        "An error occurred while obtaining server exit status:\n",
                        e.as_str(),
                    ),
                ];
                assert(views(r@) =~= outcome_log(self));
                r
            },
            ServerOutcome::RconFailed(log) => {
                let mut r = log;
                r.push("Emergency server shutdown caused by RCON failure.".to_string());
                assert(views(r@) =~= outcome_log(self));
                r
            },
            ServerOutcome::BackupFailed(log) => {
                let mut r = log;
                r.push("Emergency server shutdown caused by backup failure.".to_string());
                assert(views(r@) =~= outcome_log(self));
                r
            },
        }
    }
}

/// Whether the supervisor starts the server again.
pub enum Verdict {
    Restart { delay_secs: u64 },
    Stop,
}

/// The supervisor's answer to the end of a server lifetime.
pub struct Aftermath {
    pub verdict: Verdict,
    /// The report for the operators.
    pub report: MailRequest,
    /// A line for the supervisor's log.
    pub notice: String,
}

/// The supervisor's state across server lifetimes.
pub struct ServerManager {
    pub auto_restart: bool,
    pub incidents: EscalationCounter,
}

impl ServerManager {
    /// The counter has the supervisor's quiet window and threshold.
    pub open spec fn wf(self) -> bool {
        &&& self.incidents.quiet_window == SERVER_QUIET_WINDOW_SECS
        &&& self.incidents.threshold == SERVER_INCIDENT_THRESHOLD
    }

    /// The supervisor after a server lifetime ended at `now`.
    pub open spec fn after_exit_state(self, now: u64) -> ServerManager {
        if self.auto_restart {
            ServerManager { incidents: self.incidents.after_incident(now), ..self }
        } else {
            self
        }
    }

    /// The supervisor after server lifetimes ended at each of `times`, in order.
    pub open spec fn replay_exits(self, times: Seq<u64>) -> ServerManager
        decreases times.len(),
    {
        if times.len() == 0 {
            self
        } else {
            self.replay_exits(times.drop_last()).after_exit_state(times.last())
        }
    }

    /// A supervisor whose quiet window is measured from `now`.
    pub fn new(auto_restart: bool, now: u64) -> (r: Self)
        ensures
            r.wf(),
            r.auto_restart == auto_restart,
            r.incidents == EscalationCounter::new_spec(
                SERVER_QUIET_WINDOW_SECS,
                SERVER_INCIDENT_THRESHOLD,
                now,
            ),
    {
        ServerManager {
            auto_restart,
            incidents: EscalationCounter::new(SERVER_QUIET_WINDOW_SECS, SERVER_INCIDENT_THRESHOLD, now),
        }
    }

    /// Whether the lifetime that just ended at `now` is the last one.
    pub open spec fn stops_after(self, now: u64) -> bool {
        !self.auto_restart || self.incidents.after_incident(now).decision() == Decision::Stop
    }

    /// Decides, at `now`, what follows the end of a server lifetime with the
    /// given log, and writes the report for the operators, dated `time`.
    /// Without auto-restart the supervisor stops; with it, the incident is
    /// counted and the supervisor stops once the count exceeds its threshold.
    pub fn after_exit(&mut self, err_log: Vec<String>, now: u64, time: Timestamp) -> (r: Aftermath)
        requires
            old(self).wf(),
            time.wf(),
        ensures
            final(self).wf(),
            *final(self) == old(self).after_exit_state(now),
            r.verdict == if old(self).stops_after(now) {
                Verdict::Stop
            } else {
                Verdict::Restart { delay_secs: RESTART_DELAY_SECS }
            },
            r.report.final_incident == old(self).stops_after(now),
            r.report.err_log@ == err_log@,
            r.report.time == time,
            r.notice@ == if !old(self).auto_restart {
                "Auto-restart is disabled. Exiting."@
            } else if old(self).stops_after(now) {
                "Too many incidents in a short period of time. Exiting."@
            } else {
                "Restarting in 10 seconds..."@
            },
    {
        if !self.auto_restart {
            return Aftermath {
                verdict: Verdict::Stop,
                report: MailRequest { err_log, final_incident: true, time },
                notice: "Auto-restart is disabled. Exiting.".to_string(),
            };
        }
        match self.incidents.record_incident(now) {
            Decision::Stop => Aftermath {
                verdict: Verdict::Stop,
                report: MailRequest { err_log, final_incident: true, time },
                notice: "Too many incidents in a short period of time. Exiting.".to_string(),
            },
            Decision::Continue => Aftermath {
                verdict: Verdict::Restart { delay_secs: RESTART_DELAY_SECS },
                report: MailRequest { err_log, final_incident: false, time },
                notice: "Restarting in 10 seconds...".to_string(),
            },
        }
    }
}

/// With auto-restart, the supervisor's count equals its counter's replay of
/// the same times.
proof fn lemma_exits_replay_counter(s: ServerManager, times: Seq<u64>)
    requires
        s.auto_restart,
    ensures
        s.replay_exits(times).incidents == s.incidents.replay(times),
        s.replay_exits(times).auto_restart,
    decreases times.len(),
{
    if times.len() > 0 {
        lemma_exits_replay_counter(s, times.drop_last());
    }
}

/// With auto-restart, after N server lifetimes that each end within the
/// quiet window of the previous end, a fresh supervisor counts N; each of
/// them is followed by a restart while N is at most the threshold, and the
/// N-th is the last exactly when N exceeds it.
pub proof fn lemma_supervisor_counts_incidents(s: ServerManager, times: Seq<u64>)
    requires
        s.wf(),
        s.auto_restart,
        s.incidents.count == 0,
        close_together(s.incidents.last_incident, times, SERVER_QUIET_WINDOW_SECS),
        times.len() < u64::MAX,
    ensures
        s.replay_exits(times).wf(),
        s.replay_exits(times).incidents.count == times.len(),
        times.len() > 0 ==> (s.replay_exits(times.drop_last()).stops_after(times.last())
            <==> times.len() > SERVER_INCIDENT_THRESHOLD),
{
    lemma_exits_replay_counter(s, times);
    lemma_count_within_window(s.incidents, times);
    if times.len() > 0 {
        lemma_exits_replay_counter(s, times.drop_last());
    }
}

/// A lifetime that ends strictly after the quiet window starts the count
/// again at one and is followed by a restart, whatever came before.
pub proof fn lemma_supervisor_quiet_reset(s: ServerManager, now: u64)
    requires
        s.wf(),
        s.auto_restart,
        now > s.incidents.last_incident,
        now - s.incidents.last_incident > SERVER_QUIET_WINDOW_SECS,
    ensures
        s.after_exit_state(now).incidents.count == 1,
        !s.stops_after(now),
{
}

/// With auto-restart, the supervisor stops exactly when the count after the
/// incident exceeds the threshold, never before.
pub proof fn lemma_supervisor_stops_over_threshold(s: ServerManager, now: u64)
    requires
        s.wf(),
        s.auto_restart,
    ensures
        s.stops_after(now) <==> s.after_exit_state(now).incidents.count > SERVER_INCIDENT_THRESHOLD,
{
}

/// One step of stopping the server.
#[derive(Clone, Copy, Debug, PartialEq, Eq, Structural)]
pub enum ShutdownStep {
    /// Send the interrupt signal.
    Interrupt,
    /// Wait for the server to exit, for at most the given seconds if any.
    AwaitExit { timeout_secs: Option<u64> },
    /// Send the kill signal.
    Kill,
    /// The server is gone.
    Done,
}

/// Where a shutdown stands.
#[derive(Clone, Copy, Debug, PartialEq, Eq, Structural)]
pub enum ShutdownPhase {
    Start,
    Interrupted,
    Grace,
    Killed,
    Reaping,
    Finished,
}

/// The interrupt-then-kill sequence that stops the server.
pub struct ShutdownSequence {
    pub phase: ShutdownPhase,
}

/// The phase and step after `phase`; `exited` tells whether the last wait
/// saw the server exit.
pub open spec fn shutdown_step(phase: ShutdownPhase, exited: bool) -> (ShutdownPhase, ShutdownStep) {
    match phase {
        ShutdownPhase::Start => (ShutdownPhase::Interrupted, ShutdownStep::Interrupt),
        ShutdownPhase::Interrupted => (
            ShutdownPhase::Grace,
            ShutdownStep::AwaitExit { timeout_secs: Some(SHUTDOWN_GRACE_SECS) },
        ),
        ShutdownPhase::Grace => if exited {
            (ShutdownPhase::Finished, ShutdownStep::Done)
        } else {
            (ShutdownPhase::Killed, ShutdownStep::Kill)
        },
        ShutdownPhase::Killed => (ShutdownPhase::Reaping, ShutdownStep::AwaitExit { timeout_secs: None }),
        ShutdownPhase::Reaping => (ShutdownPhase::Finished, ShutdownStep::Done),
        ShutdownPhase::Finished => (ShutdownPhase::Finished, ShutdownStep::Done),
    }
}

/// The steps taken from `phase` on, at most `fuel` of them, when the
/// server exits within the grace period exactly if `exited_in_grace`. A
/// wait without a bound returns only once the server has exited.
pub open spec fn shutdown_run(phase: ShutdownPhase, exited_in_grace: bool, fuel: nat) -> Seq<
    ShutdownStep,
>
    decreases fuel,
{
    if fuel == 0 {
        Seq::empty()
    } else {
        let exited = if phase is Grace {
            exited_in_grace
        } else {
            true
        };
        let (next, step) = shutdown_step(phase, exited);
        if step is Done {
            seq![step]
        } else {
            seq![step] + shutdown_run(next, exited_in_grace, (fuel - 1) as nat)
        }
    }
}

impl ShutdownSequence {
    /// A shutdown that has not begun.
    pub fn new() -> (r: Self)
        ensures
            r.phase is Start,
    {
        ShutdownSequence { phase: ShutdownPhase::Start }
    }

    /// The next step; `exited` tells whether the last wait saw the server exit.
    pub fn next(&mut self, exited: bool) -> (r: ShutdownStep)
        ensures
            (final(self).phase, r) == shutdown_step(old(self).phase, exited),
    {
        match self.phase {
            ShutdownPhase::Start => {
                self.phase = ShutdownPhase::Interrupted;
                ShutdownStep::Interrupt
            },
            ShutdownPhase::Interrupted => {
                self.phase = ShutdownPhase::Grace;
                ShutdownStep::AwaitExit { timeout_secs: Some(SHUTDOWN_GRACE_SECS) }
            },
            ShutdownPhase::Grace => if exited {
                self.phase = ShutdownPhase::Finished;
                ShutdownStep::Done
            } else {
                self.phase = ShutdownPhase::Killed;
                ShutdownStep::Kill
            },
            ShutdownPhase::Killed => {
                self.phase = ShutdownPhase::Reaping;
                ShutdownStep::AwaitExit { timeout_secs: None }
            },
            ShutdownPhase::Reaping => {
                self.phase = ShutdownPhase::Finished;
                ShutdownStep::Done
            },
            ShutdownPhase::Finished => ShutdownStep::Done,
        }
    }
}

/// A shutdown always ends with the server gone: it interrupts, waits up to
/// the grace period, and if the server exited then it is done without ever
/// killing; otherwise it kills exactly once and waits without bound.
pub proof fn lemma_shutdown_sequence(exited_in_grace: bool)
    ensures
        shutdown_run(ShutdownPhase::Start, exited_in_grace, 5) == if exited_in_grace {
            seq![
                ShutdownStep::Interrupt,
                ShutdownStep::AwaitExit { timeout_secs: Some(SHUTDOWN_GRACE_SECS) },
                ShutdownStep::Done,
            ]
        } else {
            seq![
                ShutdownStep::Interrupt,
                ShutdownStep::AwaitExit { timeout_secs: Some(SHUTDOWN_GRACE_SECS) },
                ShutdownStep::Kill,
                ShutdownStep::AwaitExit { timeout_secs: None },
                ShutdownStep::Done,
            ]
        },
        shutdown_run(ShutdownPhase::Start, exited_in_grace, 5).last() is Done,
        forall|i: int|
            0 <= i < shutdown_run(ShutdownPhase::Start, exited_in_grace, 5).len() && (
            #[trigger] shutdown_run(ShutdownPhase::Start, exited_in_grace, 5)[i]) is Kill ==> !exited_in_grace
                && i == 2,
        !exited_in_grace ==> shutdown_run(ShutdownPhase::Start, exited_in_grace, 5)[2] is Kill,
{
    reveal_with_fuel(shutdown_run, 6);
    let t = shutdown_run(ShutdownPhase::Start, exited_in_grace, 5);
    if exited_in_grace {
        assert(t =~= seq![
            ShutdownStep::Interrupt,
            ShutdownStep::AwaitExit { timeout_secs: Some(SHUTDOWN_GRACE_SECS) },
            ShutdownStep::Done,
        ]);
    } else {
        assert(t =~= seq![
            ShutdownStep::Interrupt,
            ShutdownStep::AwaitExit { timeout_secs: Some(SHUTDOWN_GRACE_SECS) },
            ShutdownStep::Kill,
            ShutdownStep::AwaitExit { timeout_secs: None },
            ShutdownStep::Done,
        ]);
    }
}

} // verus!
