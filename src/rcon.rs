//! Decisions of the control-channel session: when to retry, when to give up,
//! and which command to deliver again after a reconnection.
use vstd::prelude::*;
use crate::command::MinecraftCommand;
use crate::escalation::{close_together, lemma_count_within_window, Decision, EscalationCounter};

verus! {

/// Seconds without incident after which the session's count starts afresh.
pub const RCON_QUIET_WINDOW_SECS: u64 = 600;
/// Incidents the session tolerates within its quiet window.
pub const RCON_INCIDENT_THRESHOLD: u64 = 5;
/// Refused connections tolerated while the server boots.
pub const BOOT_RETRY_LIMIT: u64 = 60;
/// Delay between connection attempts while the server boots.
pub const BOOT_RETRY_DELAY_SECS: u64 = 10;
/// Delay before reconnecting after an incident.
pub const RECONNECT_DELAY_SECS: u64 = 1;

/// Why a session with the server ended.
pub enum RconError {
    /// The server refused the connection.
    Refused,
    /// Connecting failed for another reason (authentication, protocol).
    Connect,
    /// Forwarding a command failed. `redelivery` tells whether the command
    /// was already a second delivery after a reconnection.
    Forward { cmd: MinecraftCommand, redelivery: bool },
    /// The command queue was closed.
    QueueClosed,
}

/// What the session loop does after a failure.
pub enum SessionAction {
    /// Connect again after the delay.
    Retry { delay_secs: u64 },
    /// Give up; the lines describe why.
    Fail(Vec<String>),
}

/// The state of the control-channel session across connection attempts.
pub struct RconManager {
    /// Whether the server has ever accepted a connection.
    pub contacted: bool,
    /// Refused connections before the first contact.
    pub boot_retries: u64,
    /// Incidents of this session.
    pub incidents: EscalationCounter,
    /// A command whose delivery failed, to be delivered again first.
    pub pending: Option<MinecraftCommand>,
}

/// The line given when the server never answered while booting.
pub open spec fn boot_timeout_line() -> Seq<char> {
    "[RCON] Server took too long before first contact."@
}

/// The line given when incidents came too close together.
pub open spec fn too_many_incidents_line() -> Seq<char> {
    "[RCON] Too many RCON incidents in a short period of time."@
}

/// Whether `a` is a failure given by the single line `line`.
pub open spec fn fails_with(a: SessionAction, line: Seq<char>) -> bool {
    match a {
        SessionAction::Fail(v) => v@.len() == 1 && v@[0]@ == line,
        SessionAction::Retry { .. } => false,
    }
}

/// Whether `a` is a retry after `secs` seconds.
pub open spec fn retries_after(a: SessionAction, secs: u64) -> bool {
    match a {
        SessionAction::Retry { delay_secs } => delay_secs == secs,
        SessionAction::Fail(_) => false,
    }
}

impl RconManager {
    /// The counter has the session's quiet window and threshold.
    pub open spec fn wf(self) -> bool {
        &&& self.incidents.quiet_window == RCON_QUIET_WINDOW_SECS
        &&& self.incidents.threshold == RCON_INCIDENT_THRESHOLD
    }

    /// The session after failed connection attempts at each of `times`.
    pub open spec fn replay_connect_failures(self, times: Seq<u64>) -> RconManager
        decreases times.len(),
    {
        if times.len() == 0 {
            self
        } else {
            self.replay_connect_failures(times.drop_last()).after_error(RconError::Connect, times.last())
        }
    }

    /// Whether the failure is tolerated as the server still booting.
    pub open spec fn is_boot_refusal(self, err: RconError) -> bool {
        err is Refused && !self.contacted
    }

    /// The command to deliver first on the next connection.
    pub open spec fn pending_after(self, err: RconError) -> Option<MinecraftCommand> {
        match err {
            RconError::Forward { cmd, redelivery } => if redelivery {
                None
            } else {
                Some(cmd)
            },
            _ => self.pending,
        }
    }

    /// The session after a failure at time `now`.
    pub open spec fn after_error(self, err: RconError, now: u64) -> RconManager {
        if self.is_boot_refusal(err) {
            RconManager {
                boot_retries: if self.boot_retries < u64::MAX {
                    (self.boot_retries + 1) as u64
                } else {
                    self.boot_retries
                },
                ..self
            }
        } else {
            RconManager {
                incidents: self.incidents.after_incident(now),
                pending: self.pending_after(err),
                ..self
            }
        }
    }

    /// The session after a successful connection.
    pub open spec fn after_connected(self) -> RconManager {
        RconManager { contacted: true, pending: None, ..self }
    }

    /// A session that has not yet reached the server, its quiet window
    /// measured from `now`.
    pub fn new(now: u64) -> (r: Self)
        ensures
            r.wf(),
            !r.contacted,
            r.boot_retries == 0,
            r.incidents == EscalationCounter::new_spec(
                RCON_QUIET_WINDOW_SECS,
                RCON_INCIDENT_THRESHOLD,
                now,
            ),
            r.pending is None,
    {
        RconManager {
            contacted: false,
            boot_retries: 0,
            incidents: EscalationCounter::new(RCON_QUIET_WINDOW_SECS, RCON_INCIDENT_THRESHOLD, now),
            pending: None,
        }
    }

    /// Records a successful connection and hands out the command to deliver
    /// before any other.
    pub fn on_connected(&mut self) -> (r: Option<MinecraftCommand>)
        ensures
            r == old(self).pending,
            *final(self) == old(self).after_connected(),
            old(self).wf() ==> final(self).wf(),
    {
        self.contacted = true;
        self.pending.take()
    }

    /// Decides what follows a failure at time `now`. A refusal before the
    /// first contact is retried quietly, up to a limit; any other failure is
    /// an incident.
    pub fn on_error(&mut self, err: RconError, now: u64) -> (r: SessionAction)
        requires
            old(self).wf(),
        ensures
            final(self).wf(),
            *final(self) == old(self).after_error(err, now),
            old(self).is_boot_refusal(err) ==> if final(self).boot_retries > BOOT_RETRY_LIMIT {
                fails_with(r, boot_timeout_line())
            } else {
                retries_after(r, BOOT_RETRY_DELAY_SECS)
            },
            !old(self).is_boot_refusal(err) ==> if final(self).incidents.decision()
                == Decision::Stop {
                fails_with(r, too_many_incidents_line())
            } else {
                retries_after(r, RECONNECT_DELAY_SECS)
            },
    {
        let boot_refusal = !self.contacted && matches!(err, RconError::Refused);
        if boot_refusal {
            if self.boot_retries < u64::MAX {
                self.boot_retries = self.boot_retries + 1;
            }
            if self.boot_retries > BOOT_RETRY_LIMIT {
                SessionAction::Fail(vec!["[RCON] Server took too long before first contact.".to_string()])
            } else {
                SessionAction::Retry { delay_secs: BOOT_RETRY_DELAY_SECS }
            }
        } else {
            match err {
                RconError::Forward { cmd, redelivery } => {
                    self.pending = if redelivery {
                        None
                    } else {
                        Some(cmd)
                    };
                },
                _ => {},
            }
            let decision = self.incidents.record_incident(now);
            match decision {
                Decision::Stop => SessionAction::Fail(
                    vec!["[RCON] Too many RCON incidents in a short period of time.".to_string()],
                ),
                Decision::Continue => SessionAction::Retry { delay_secs: RECONNECT_DELAY_SECS },
            }
        }
    }
}

/// A refused connection before any successful contact leaves the incident
/// count as it was; the same refusal after a successful contact is counted.
pub proof fn lemma_first_contact_tolerance(m: RconManager, now: u64)
    ensures
        !m.contacted ==> m.after_error(RconError::Refused, now).incidents == m.incidents,
        m.after_connected().after_error(RconError::Refused, now).incidents
            == m.incidents.after_incident(now),
{
}

proof fn lemma_failures_replay_counter(m: RconManager, times: Seq<u64>)
    ensures
        m.replay_connect_failures(times).incidents == m.incidents.replay(times),
    decreases times.len(),
{
    if times.len() > 0 {
        lemma_failures_replay_counter(m, times.drop_last());
    }
}

/// After N failures, each within the quiet window of the previous one, a
/// session with no incidents counts N, and the N-th failure ends the
/// session exactly when N exceeds the threshold.
pub proof fn lemma_session_counts_incidents(m: RconManager, times: Seq<u64>)
    requires
        m.wf(),
        m.incidents.count == 0,
        close_together(m.incidents.last_incident, times, RCON_QUIET_WINDOW_SECS),
        times.len() < u64::MAX,
    ensures
        m.replay_connect_failures(times).incidents.count == times.len(),
        m.replay_connect_failures(times).incidents.decision() == Decision::Stop <==> times.len()
            > RCON_INCIDENT_THRESHOLD,
{
    lemma_failures_replay_counter(m, times);
    lemma_count_within_window(m.incidents, times);
}

/// A failure strictly after the quiet window starts the session's count
/// again at one and is followed by a reconnection.
pub proof fn lemma_session_quiet_reset(m: RconManager, err: RconError, now: u64)
    requires
        m.wf(),
        !m.is_boot_refusal(err),
        now > m.incidents.last_incident,
        now - m.incidents.last_incident > RCON_QUIET_WINDOW_SECS,
    ensures
        m.after_error(err, now).incidents.count == 1,
        m.after_error(err, now).incidents.decision() == Decision::Continue,
{
}

} // verus!
