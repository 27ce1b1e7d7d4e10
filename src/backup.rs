//! The backup protocol as a state machine: the loop that runs it performs
//! each action it is given and reports how it went.
use vstd::prelude::*;
use crate::cmd_utils::{
    backup_command, cleanup_command, sync_command, views, Duplicity, Rclone,
};
use crate::command::MinecraftCommand;
use crate::config::{is_absolute, BackupConfig};
use crate::text::{decimal, push_decimal, push_digit, digit_char};

verus! {

/// Bound on each command sent to the server.
pub const COMMAND_TIMEOUT_SECS: u64 = 10;
/// Bound on the wait for the server to confirm that it saved.
pub const HANDSHAKE_TIMEOUT_SECS: u64 = 120;
/// Settle time after a save that was not flushed.
pub const SAVE_SETTLE_SECS: u64 = 120;
/// Attempts at mirroring backups to the remote.
pub const SYNC_ATTEMPTS: u32 = 5;
/// Bytes in a gigabyte as shown to players.
pub const BYTES_PER_GB: u64 = 1073741824;

/// Where the protocol stands: the step whose action was handed out last.
#[derive(Clone, Copy, Debug, PartialEq, Eq, Structural)]
pub enum Stage {
    /// Waiting for the next backup time.
    Waiting,
    /// Telling players that a backup starts.
    AnnouncingStart,
    /// Turning automatic saving off.
    DisablingSaves,
    /// Asking the server to save.
    Saving,
    /// Queueing the handshake behind the save.
    RequestingHandshake,
    /// Waiting for the handshake's acknowledgment.
    AwaitingHandshake,
    /// Letting an unflushed save settle.
    Settling,
    /// Running the backup tool.
    BackingUp,
    /// Turning automatic saving back on.
    EnablingSaves,
    /// Measuring the world folder.
    Measuring,
    /// Telling players that the backup is done.
    AnnouncingDone,
    /// Removing old full backups.
    CleaningUp,
    /// Mirroring the backups to the remote.
    Syncing,
    /// Stopped for good after a fatal failure.
    Halted,
}

/// How the last action went.
pub enum StepOutcome {
    /// It completed.
    Done,
    /// It did not complete in time.
    TimedOut,
    /// It failed, with the tool's diagnostic text.
    Failed(String),
    /// A measurement: the folder's size in bytes, if it could be taken.
    Size(Option<u64>),
}

/// What the loop running the protocol does next.
pub enum BackupAction {
    /// Sleep for the given seconds.
    Sleep { secs: u64 },
    /// Queue a command for the server, bounded by the timeout.
    Send { cmd: MinecraftCommand, timeout_secs: u64 },
    /// Queue the handshake command, bounded by the timeout.
    RequestHandshake { timeout_secs: u64 },
    /// Wait for the handshake's acknowledgment, bounded by the timeout.
    AwaitHandshake { timeout_secs: u64 },
    /// Run the command line and report whether it succeeded.
    Run(Vec<String>),
    /// Measure the folder's size on disk.
    MeasureFolder(String),
    /// Stop the protocol; the lines say why.
    Stop(Vec<String>),
}

/// An action, with a line to log about the previous one if it failed without
/// consequence.
pub struct BackupDecision {
    pub action: BackupAction,
    pub notice: Option<String>,
}

/// The state of the backup protocol for one server lifetime.
pub struct BackupManager {
    pub silent: bool,
    pub flush_on_save: bool,
    pub full_backup_every: u32,
    pub keep_full_backup: u32,
    pub interval_secs: u64,
    pub settle_secs: u64,
    pub world_folder: String,
    pub backup_folder: String,
    /// The backup folder as a `file://` URL.
    pub backup_url: String,
    pub remote: Option<String>,
    pub stage: Stage,
    /// Failed sync attempts in the current backup.
    pub sync_failures: u32,
    /// The diagnostic of the last failed sync attempt.
    pub last_sync_error: Option<String>,
}

/// Whether an action completed.
pub open spec fn succeeded(o: StepOutcome) -> bool {
    o is Done || o is Size
}

/// The diagnostic text of a failed action.
pub open spec fn detail(o: StepOutcome) -> Seq<char> {
    match o {
        StepOutcome::Failed(e) => e@,
        _ => "timed out"@,
    }
}

/// The size reported by a measurement.
pub open spec fn measured(o: StepOutcome) -> Option<u64> {
    match o {
        StepOutcome::Size(s) => s,
        _ => None,
    }
}

/// The error of a failed tool run: what the tool was doing, then its diagnostic.
pub open spec fn tool_error(s: Stage, o: StepOutcome) -> Seq<char> {
    match s {
        Stage::BackingUp => "duplicity failed to make backup:\n"@ + detail(o),
        Stage::CleaningUp => "duplicity failed to clean up old backups:\n"@ + detail(o),
        _ => "rclone failed to sync to remote:\n"@ + detail(o),
    }
}

/// Steps whose failure ends the protocol.
pub open spec fn is_fatal(s: Stage) -> bool {
    s is DisablingSaves || s is Saving || s is RequestingHandshake || s is AwaitingHandshake
        || s is BackingUp || s is CleaningUp
}

/// A size in hundredths of a gigabyte, rounded to nearest, ties to even.
pub open spec fn gb_hundredths(bytes: nat) -> nat {
    let scaled = bytes * 100;
    let q = scaled / (BYTES_PER_GB as nat);
    let r = scaled % (BYTES_PER_GB as nat);
    if 2 * r > BYTES_PER_GB || (2 * r == BYTES_PER_GB && q % 2 == 1) {
        q + 1
    } else {
        q
    }
}

/// A size in gigabytes with two decimals.
pub open spec fn gb_text(bytes: nat) -> Seq<char> {
    let h = gb_hundredths(bytes);
    decimal(h / 100) + seq!['.', digit_char((h % 100) / 10), digit_char(h % 10)]
}

/// The message shown to players once a backup is done.
pub open spec fn completion_text(size: Option<u64>) -> Seq<char> {
    match size {
        Some(b) => "Backup done! ("@ + gb_text(b as nat) + " GB)"@,
        None => "Backup done! (failed to get size)"@,
    }
}

/// The line that explains a fatal failure of a step.
pub open spec fn failure_line(s: Stage, o: StepOutcome) -> Seq<char> {
    match s {
        Stage::DisablingSaves => if o is TimedOut {
            "[BACKUP] Timed out while requesting to disable saving."@
        } else {
            "[BACKUP] Failed to disable saving."@
        },
        Stage::Saving => if o is TimedOut {
            "[BACKUP] Timed out while requesting save."@
        } else {
            "[BACKUP] Failed to save."@
        },
        Stage::RequestingHandshake => if o is TimedOut {
            "[BACKUP] Timed out while requesting to send await handle."@
        } else {
            "[BACKUP] Failed to send await handle."@
        },
        Stage::AwaitingHandshake => if o is TimedOut {
            "[BACKUP] Timed out while waiting for backup."@
        } else {
            "[BACKUP] Failed to wait for save completion."@
        },
        Stage::BackingUp => "[BACKUP] Failed to perform duplicity backup:\n"@ + tool_error(s, o),
        Stage::CleaningUp => "[BACKUP] Failed to perform duplicity cleanup:\n"@ + tool_error(s, o),
        _ => "[ServerManager] [BACKUP] Failed to sync backup data to remote:\n"@ + tool_error(s, o),
    }
}

/// Whether `a` is a single-line stop with the line `line`.
pub open spec fn stops_with(a: BackupAction, line: Seq<char>) -> bool {
    match a {
        BackupAction::Stop(v) => v@.len() == 1 && v@[0]@ == line,
        _ => false,
    }
}

/// Whether `a` sends a broadcast of `msg` with the command timeout.
pub open spec fn broadcasts(a: BackupAction, msg: Seq<char>) -> bool {
    match a {
        BackupAction::Send { cmd: MinecraftCommand::Broadcast(m), timeout_secs } => m@ == msg
            && timeout_secs == COMMAND_TIMEOUT_SECS,
        _ => false,
    }
}

/// Whether `a` sends a command that is not a broadcast, with the command timeout.
pub open spec fn sends(a: BackupAction, c: MinecraftCommand) -> bool {
    match a {
        BackupAction::Send { cmd, timeout_secs } => cmd == c && timeout_secs == COMMAND_TIMEOUT_SECS,
        _ => false,
    }
}

/// Whether `a` runs the command line `cmd`.
pub open spec fn runs(a: BackupAction, cmd: Seq<Seq<char>>) -> bool {
    match a {
        BackupAction::Run(v) => views(v@) == cmd,
        _ => false,
    }
}

/// The `file://` URL of an absolute path, as the url crate writes it.
pub uninterp spec fn file_url_of(path: Seq<char>) -> Seq<char>;

/// Relies on url::Url::from_file_path: on Unix it fails exactly on relative
/// paths, and its text depends on the path alone.
#[verifier::external_body]
fn file_url(path: &str) -> (r: Option<String>)
    ensures
        r is Some <==> is_absolute(path@),
        r matches Some(u) ==> u@ == file_url_of(path@),
{
    url::Url::from_file_path(path).ok().map(|u| u.to_string())
}

impl BackupManager {
    /// The configuration-derived fields, which no step changes.
    pub open spec fn same_settings(self, other: BackupManager) -> bool {
        &&& self.silent == other.silent
        &&& self.flush_on_save == other.flush_on_save
        &&& self.full_backup_every == other.full_backup_every
        &&& self.keep_full_backup == other.keep_full_backup
        &&& self.interval_secs == other.interval_secs
        &&& self.settle_secs == other.settle_secs
        &&& self.world_folder@ == other.world_folder@
        &&& self.backup_folder@ == other.backup_folder@
        &&& self.backup_url@ == other.backup_url@
        &&& self.remote == other.remote
    }

    /// The remote sync happens only where a remote is configured.
    pub open spec fn wf(self) -> bool {
        &&& self.stage is Syncing ==> self.remote is Some
        &&& self.settle_secs == SAVE_SETTLE_SECS
    }

    /// The step that follows `s` when it completes.
    pub open spec fn succ(self, s: Stage) -> Stage {
        match s {
            Stage::Waiting => if self.silent {
                Stage::DisablingSaves
            } else {
                Stage::AnnouncingStart
            },
            Stage::AnnouncingStart => Stage::DisablingSaves,
            Stage::DisablingSaves => Stage::Saving,
            Stage::Saving => Stage::RequestingHandshake,
            Stage::RequestingHandshake => Stage::AwaitingHandshake,
            Stage::AwaitingHandshake => if self.flush_on_save {
                Stage::BackingUp
            } else {
                Stage::Settling
            },
            Stage::Settling => Stage::BackingUp,
            Stage::BackingUp => Stage::EnablingSaves,
            Stage::EnablingSaves => if self.silent {
                Stage::CleaningUp
            } else {
                Stage::Measuring
            },
            Stage::Measuring => Stage::AnnouncingDone,
            Stage::AnnouncingDone => Stage::CleaningUp,
            Stage::CleaningUp => if self.remote is Some {
                Stage::Syncing
            } else {
                Stage::Waiting
            },
            Stage::Syncing => Stage::Waiting,
            Stage::Halted => Stage::Halted,
        }
    }

    /// The step after the current one, given how the current one went.
    pub open spec fn next_stage(self, o: StepOutcome) -> Stage {
        if self.stage is Halted {
            Stage::Halted
        } else if self.stage is Syncing && !succeeded(o) {
            if self.sync_failures + 1 >= SYNC_ATTEMPTS {
                Stage::Halted
            } else {
                Stage::Syncing
            }
        } else if is_fatal(self.stage) && !succeeded(o) {
            Stage::Halted
        } else {
            self.succ(self.stage)
        }
    }

    /// Whether the action is the one that carries out step `s` (for the
    /// completion broadcast, whatever its message).
    pub open spec fn performs(self, a: BackupAction, s: Stage) -> bool {
        match s {
            Stage::Waiting => a == BackupAction::Sleep { secs: self.interval_secs },
            Stage::AnnouncingStart => broadcasts(a, "Backup started."@),
            Stage::DisablingSaves => sends(a, MinecraftCommand::SaveOff),
            Stage::Saving => sends(a, MinecraftCommand::SaveAll(self.flush_on_save)),
            Stage::RequestingHandshake => a == BackupAction::RequestHandshake {
                timeout_secs: COMMAND_TIMEOUT_SECS,
            },
            Stage::AwaitingHandshake => a == BackupAction::AwaitHandshake {
                timeout_secs: HANDSHAKE_TIMEOUT_SECS,
            },
            Stage::Settling => a == BackupAction::Sleep { secs: self.settle_secs },
            Stage::BackingUp => runs(
                a,
                backup_command(self.full_backup_every, self.world_folder@, self.backup_url@),
            ),
            Stage::EnablingSaves => sends(a, MinecraftCommand::SaveOn),
            Stage::Measuring => a matches BackupAction::MeasureFolder(p) && p@ == self.world_folder@,
            Stage::AnnouncingDone => a matches BackupAction::Send {
                cmd: MinecraftCommand::Broadcast(_),
                timeout_secs,
            } && timeout_secs == COMMAND_TIMEOUT_SECS,
            Stage::CleaningUp => runs(a, cleanup_command(self.keep_full_backup, self.backup_url@)),
            Stage::Syncing => self.remote matches Some(rm) && runs(
                a,
                sync_command(rm@, self.backup_folder@),
            ),
            Stage::Halted => a is Stop,
        }
    }

    /// The line logged about a step that failed without ending the protocol.
    pub open spec fn notice_for(self, o: StepOutcome) -> Option<Seq<char>> {
        match self.stage {
            Stage::AnnouncingStart => if succeeded(o) {
                None
            } else if o is TimedOut {
                Some("[BACKUP] Timed out while broadcasting start message."@)
            } else {
                Some("[BACKUP] Failed to broadcast start message."@)
            },
            Stage::EnablingSaves => if succeeded(o) {
                None
            } else if o is TimedOut {
                Some("[BACKUP] Timed out while requesting to enable saving."@)
            } else {
                Some("[BACKUP] Failed to enable saving."@)
            },
            Stage::AnnouncingDone => if succeeded(o) {
                None
            } else if o is TimedOut {
                Some("[BACKUP] Timed out while broadcasting completion message."@)
            } else {
                Some("[BACKUP] Failed to broadcast completion message."@)
            },
            Stage::Syncing => if succeeded(o) && self.sync_failures > 0 {
                Some(
                    "[BACKUP] At least one recoverable error occurred while trying to sync backup data to remote:\n"@
                        + (if let Some(e) = self.last_sync_error {
                        e@
                    } else {
                        Seq::empty()
                    }),
                )
            } else {
                None
            },
            _ => None,
        }
    }

    /// A protocol that waits for its first backup time.
    pub fn new(config: BackupConfig) -> (r: Result<Self, Vec<String>>)
        ensures
            r is Err <==> !is_absolute(config.backup_folder@),
            r matches Err(v) ==> v@.len() == 1 && v@[0]@
                == "[BACKUP] Failed to make a URL of the backup folder."@,
            r matches Ok(m) ==> {
                &&& m.wf()
                &&& m.stage is Waiting
                &&& m.sync_failures == 0
                &&& m.silent == config.silent
                &&& m.flush_on_save == config.flush_on_save
                &&& m.full_backup_every == config.full_backup_every
                &&& m.keep_full_backup == config.keep_full_backup
                &&& m.interval_secs == config.incremental_secs
                &&& m.settle_secs == SAVE_SETTLE_SECS
                &&& m.world_folder@ == config.world_folder@
                &&& m.backup_folder@ == config.backup_folder@
                &&& m.backup_url@ == file_url_of(config.backup_folder@)
                &&& m.remote == config.rclone_path
            },
    {
        match file_url(config.backup_folder.as_str()) {
            Some(url) => Ok(
                BackupManager {
                    silent: config.silent,
                    flush_on_save: config.flush_on_save,
                    full_backup_every: config.full_backup_every,
                    keep_full_backup: config.keep_full_backup,
                    interval_secs: config.incremental_secs,
                    settle_secs: SAVE_SETTLE_SECS,
                    world_folder: config.world_folder,
                    backup_folder: config.backup_folder,
                    backup_url: url,
                    remote: config.rclone_path,
                    stage: Stage::Waiting,
                    sync_failures: 0,
                    last_sync_error: None,
                },
            ),
            None => Err(vec!["[BACKUP] Failed to make a URL of the backup folder.".to_string()]),
        }
    }

    /// The first action: wait for the first backup time.
    pub fn first_action(&self) -> (r: BackupAction)
        ensures
            self.performs(r, Stage::Waiting),
    {
        BackupAction::Sleep { secs: self.interval_secs }
    }

    /// The action that carries out step `s`; `size` is the measurement that
    /// the completion broadcast reports.
    fn action_for(&self, s: Stage, size: Option<u64>) -> (r: BackupAction)
        requires
            s is Syncing ==> self.remote is Some,
        ensures
            self.performs(r, s),
            s is AnnouncingDone ==> broadcasts(r, completion_text(size)),
            s is Halted ==> (r matches BackupAction::Stop(v) && v@.len() == 0),
    {
        match s {
            Stage::Waiting => BackupAction::Sleep { secs: self.interval_secs },
            Stage::AnnouncingStart => BackupAction::Send {
                cmd: MinecraftCommand::Broadcast("Backup started.".to_string()),
                timeout_secs: COMMAND_TIMEOUT_SECS,
            },
            Stage::DisablingSaves => BackupAction::Send {
                cmd: MinecraftCommand::SaveOff,
                timeout_secs: COMMAND_TIMEOUT_SECS,
            },
            Stage::Saving => BackupAction::Send {
                cmd: MinecraftCommand::SaveAll(self.flush_on_save),
                timeout_secs: COMMAND_TIMEOUT_SECS,
            },
            Stage::RequestingHandshake => BackupAction::RequestHandshake {
                timeout_secs: COMMAND_TIMEOUT_SECS,
            },
            Stage::AwaitingHandshake => BackupAction::AwaitHandshake {
                timeout_secs: HANDSHAKE_TIMEOUT_SECS,
            },
            Stage::Settling => BackupAction::Sleep { secs: self.settle_secs },
            Stage::BackingUp => BackupAction::Run(
                Duplicity::backup_args(
                    self.full_backup_every,
                    self.world_folder.as_str(),
                    self.backup_url.as_str(),
                ),
            ),
            Stage::EnablingSaves => BackupAction::Send {
                cmd: MinecraftCommand::SaveOn,
                timeout_secs: COMMAND_TIMEOUT_SECS,
            },
            Stage::Measuring => BackupAction::MeasureFolder(self.world_folder.clone()),
            Stage::AnnouncingDone => BackupAction::Send {
                cmd: MinecraftCommand::Broadcast(completion_message(size)),
                timeout_secs: COMMAND_TIMEOUT_SECS,
            },
            Stage::CleaningUp => BackupAction::Run(
                Duplicity::cleanup_args(self.keep_full_backup, self.backup_url.as_str()),
            ),
            Stage::Syncing => {
                let remote = self.remote.as_ref().unwrap();
                BackupAction::Run(Rclone::sync_args(remote.as_str(), self.backup_folder.as_str()))
            },
            Stage::Halted => BackupAction::Stop(Vec::new()),
        }
    }
}

/// The settle time comes exactly when the save was not flushed: after a
/// flushed save's acknowledgment the backup tool runs next; after an
/// unflushed one the protocol first sleeps for the settle time, then runs it.
pub proof fn lemma_settle_only_without_flush(m: BackupManager, a: BackupAction)
    requires
        m.wf(),
    ensures
        m.flush_on_save ==> (m.succ(Stage::AwaitingHandshake) is BackingUp),
        !m.flush_on_save ==> (m.succ(Stage::AwaitingHandshake) is Settling),
        m.succ(Stage::Settling) == Stage::BackingUp,
        m.performs(a, Stage::Settling) <==> (a == (BackupAction::Sleep { secs: SAVE_SETTLE_SECS })),
{
}

/// The view of an optional string.
pub open spec fn opt_view(o: Option<String>) -> Option<Seq<char>> {
    match o {
        Some(s) => Some(s@),
        None => None,
    }
}

/// The diagnostic text of a failed action.
fn detail_text(o: &StepOutcome) -> (r: String)
    ensures
        r@ == detail(*o),
{
    match o {
        StepOutcome::Failed(e) => e.clone(),
        _ => "timed out".to_string(),
    }
}

/// The error of a failed tool run.
fn tool_error_text(s: Stage, o: &StepOutcome) -> (r: String)
    ensures
        r@ == tool_error(s, *o),
{
    let d = detail_text(o);
    match s {
        Stage::BackingUp => joined("duplicity failed to make backup:\n", d.as_str()),
        Stage::CleaningUp => joined("duplicity failed to clean up old backups:\n", d.as_str()),
        _ => joined("rclone failed to sync to remote:\n", d.as_str()),
    }
}

/// A line of the given prefix followed by the text.
fn joined(prefix: &str, text: &str) -> (r: String)
    ensures
        r@ == prefix@ + text@,
{
    let mut r = prefix.to_string();
    r.append(text);
    r
}

impl BackupManager {
    /// How many sync attempts have failed after the current step.
    pub open spec fn sync_failures_after(self, o: StepOutcome) -> u32 {
        if self.stage is Syncing {
            if succeeded(o) {
                0
            } else if self.sync_failures < u32::MAX {
                (self.sync_failures + 1) as u32
            } else {
                self.sync_failures
            }
        } else {
            self.sync_failures
        }
    }

    fn succ_exec(&self, s: Stage) -> (r: Stage)
        ensures
            r == self.succ(s),
    {
        match s {
            Stage::Waiting => if self.silent {
                Stage::DisablingSaves
            } else {
                Stage::AnnouncingStart
            },
            Stage::AnnouncingStart => Stage::DisablingSaves,
            Stage::DisablingSaves => Stage::Saving,
            Stage::Saving => Stage::RequestingHandshake,
            Stage::RequestingHandshake => Stage::AwaitingHandshake,
            Stage::AwaitingHandshake => if self.flush_on_save {
                Stage::BackingUp
            } else {
                Stage::Settling
            },
            Stage::Settling => Stage::BackingUp,
            Stage::BackingUp => Stage::EnablingSaves,
            Stage::EnablingSaves => if self.silent {
                Stage::CleaningUp
            } else {
                Stage::Measuring
            },
            Stage::Measuring => Stage::AnnouncingDone,
            Stage::AnnouncingDone => Stage::CleaningUp,
            Stage::CleaningUp => if self.remote.is_some() {
                Stage::Syncing
            } else {
                Stage::Waiting
            },
            Stage::Syncing => Stage::Waiting,
            Stage::Halted => Stage::Halted,
        }
    }

    fn notice(&self, o: &StepOutcome) -> (r: Option<String>)
        ensures
            opt_view(r) == self.notice_for(*o),
    {
        let ok = match o {
            StepOutcome::Done => true,
            StepOutcome::Size(_) => true,
            _ => false,
        };
        let timed_out = match o {
            StepOutcome::TimedOut => true,
            _ => false,
        };
        match self.stage {
            Stage::AnnouncingStart => if ok {
                None
            } else if timed_out {
                Some("[BACKUP] Timed out while broadcasting start message.".to_string())
            } else {
                Some("[BACKUP] Failed to broadcast start message.".to_string())
            },
            Stage::EnablingSaves => if ok {
                None
            } else if timed_out {
                Some("[BACKUP] Timed out while requesting to enable saving.".to_string())
            } else {
                Some("[BACKUP] Failed to enable saving.".to_string())
            },
            Stage::AnnouncingDone => if ok {
                None
            } else if timed_out {
                Some("[BACKUP] Timed out while broadcasting completion message.".to_string())
            } else {
                Some("[BACKUP] Failed to broadcast completion message.".to_string())
            },
            Stage::Syncing => if ok && self.sync_failures > 0 {
                let prefix = "[BACKUP] At least one recoverable error occurred while trying to sync backup data to remote:\n";
                match &self.last_sync_error {
                    Some(e) => Some(joined(prefix, e.as_str())),
                    None => {
                        proof { reveal_strlit(""); }
                        let r = joined(prefix, "");
                        assert(r@ =~= prefix@ + Seq::<char>::empty());
                        Some(r)
                    },
                }
            } else {
                None
            },
            _ => None,
        }
    }

    fn failure_message(s: Stage, o: &StepOutcome) -> (r: String)
        requires
            is_fatal(s) || s is Syncing,
        ensures
            r@ == failure_line(s, *o),
    {
        let timed_out = match o {
            StepOutcome::TimedOut => true,
            _ => false,
        };
        match s {
            Stage::DisablingSaves => if timed_out {
                "[BACKUP] Timed out while requesting to disable saving.".to_string()
            } else {
                "[BACKUP] Failed to disable saving.".to_string()
            },
            Stage::Saving => if timed_out {
                "[BACKUP] Timed out while requesting save.".to_string()
            } else {
                "[BACKUP] Failed to save.".to_string()
            },
            Stage::RequestingHandshake => if timed_out {
                "[BACKUP] Timed out while requesting to send await handle.".to_string()
            } else {
                "[BACKUP] Failed to send await handle.".to_string()
            },
            Stage::AwaitingHandshake => if timed_out {
                "[BACKUP] Timed out while waiting for backup.".to_string()
            } else {
                "[BACKUP] Failed to wait for save completion.".to_string()
            },
            Stage::BackingUp => joined(
                "[BACKUP] Failed to perform duplicity backup:\n",
                tool_error_text(s, o).as_str(),
            ),
            Stage::CleaningUp => joined(
                "[BACKUP] Failed to perform duplicity cleanup:\n",
                tool_error_text(s, o).as_str(),
            ),
            _ => joined(
                "[ServerManager] [BACKUP] Failed to sync backup data to remote:\n",
                tool_error_text(s, o).as_str(),
            ),
        }
    }

    /// Takes how the last action went and returns the next one. A fatal
    /// failure stops the protocol for good; other failures are reported in
    /// the notice and the protocol goes on.
    pub fn next(&mut self, outcome: StepOutcome) -> (r: BackupDecision)
        requires
            old(self).wf(),
        ensures
            final(self).wf(),
            final(self).same_settings(*old(self)),
            final(self).stage == old(self).next_stage(outcome),
            final(self).sync_failures == old(self).sync_failures_after(outcome),
            opt_view(r.notice) == old(self).notice_for(outcome),
            old(self).stage is Syncing && !succeeded(outcome) && !(final(self).stage is Halted)
                ==> opt_view(final(self).last_sync_error) == Some(tool_error(Stage::Syncing, outcome)),
            old(self).stage is Syncing && succeeded(outcome) ==> final(self).last_sync_error is None,
            !(old(self).stage is Syncing) ==> opt_view(final(self).last_sync_error) == opt_view(
                old(self).last_sync_error,
            ),
            old(self).stage is Halted ==> (r.action matches BackupAction::Stop(v) && v@.len()
                == 0),
            !(old(self).stage is Halted) && final(self).stage is Halted ==> stops_with(
                r.action,
                failure_line(old(self).stage, outcome),
            ),
            !(final(self).stage is Halted) ==> final(self).performs(r.action, final(self).stage),
            old(self).stage is Measuring ==> broadcasts(
                r.action,
                completion_text(measured(outcome)),
            ),
    {
        let stage = self.stage;
        let ok = match &outcome {
            StepOutcome::Done => true,
            StepOutcome::Size(_) => true,
            _ => false,
        };
        let fatal = match stage {
            Stage::DisablingSaves | Stage::Saving | Stage::RequestingHandshake
            | Stage::AwaitingHandshake | Stage::BackingUp | Stage::CleaningUp => true,
            _ => false,
        };
        let syncing = match stage {
            Stage::Syncing => true,
            _ => false,
        };
        if let Stage::Halted = stage {
            return BackupDecision { action: BackupAction::Stop(Vec::new()), notice: None };
        }
        if !ok && syncing {
            if self.sync_failures < u32::MAX {
                self.sync_failures = self.sync_failures + 1;
            }
            if self.sync_failures >= SYNC_ATTEMPTS {
                self.stage = Stage::Halted;
                let line = Self::failure_message(stage, &outcome);
                return BackupDecision { action: BackupAction::Stop(vec![line]), notice: None };
            }
            self.last_sync_error = Some(tool_error_text(Stage::Syncing, &outcome));
            let action = self.action_for(Stage::Syncing, None);
            return BackupDecision { action, notice: None };
        }
        if !ok && fatal {
            self.stage = Stage::Halted;
            let line = Self::failure_message(stage, &outcome);
            return BackupDecision { action: BackupAction::Stop(vec![line]), notice: None };
        }
        let notice = self.notice(&outcome);
        if syncing {
            self.sync_failures = 0;
            self.last_sync_error = None;
        }
        let size = match outcome {
            StepOutcome::Size(s) => s,
            _ => None,
        };
        let next = self.succ_exec(stage);
        self.stage = next;
        let action = self.action_for(next, size);
        BackupDecision { action, notice }
    }
}

/// Each step of the save-and-backup chain is entered only from the step
/// before it, after that step completed: disabling saves comes before the
/// save, the save before the handshake, and the handshake's acknowledgment
/// (possibly followed by the settle time) before the backup tool runs.
pub proof fn lemma_step_order(m: BackupManager, o: StepOutcome)
    ensures
        m.next_stage(o) is Saving ==> m.stage is DisablingSaves && succeeded(o),
        m.next_stage(o) is RequestingHandshake ==> m.stage is Saving && succeeded(o),
        m.next_stage(o) is AwaitingHandshake ==> m.stage is RequestingHandshake && succeeded(o),
        m.next_stage(o) is Settling ==> m.stage is AwaitingHandshake && succeeded(o),
        m.next_stage(o) is BackingUp ==> (m.stage is AwaitingHandshake && succeeded(o))
            || m.stage is Settling,
{
}

/// A failure of a fatal step, or the last allowed sync attempt failing,
/// halts the protocol; once halted it stays halted, and a halted protocol
/// only stops.
pub proof fn lemma_failure_halts(m: BackupManager, o: StepOutcome, a: BackupAction)
    ensures
        is_fatal(m.stage) && !succeeded(o) ==> m.next_stage(o) is Halted,
        m.stage is Syncing && !succeeded(o) && m.sync_failures + 1 >= SYNC_ATTEMPTS
            ==> m.next_stage(o) is Halted,
        m.stage is Halted ==> m.next_stage(o) is Halted,
        m.performs(a, Stage::Halted) ==> a is Stop,
{
}

/// Appends a size in gigabytes with two decimals to `s`.
fn push_gb(s: &mut String, bytes: u64)
    ensures
        final(s)@ == old(s)@ + gb_text(bytes as nat),
{
    let scaled: u128 = bytes as u128 * 100;
    let unit: u128 = BYTES_PER_GB as u128;
    let q: u128 = scaled / unit;
    let r: u128 = scaled % unit;
    let h: u128 = if 2 * r > unit || (2 * r == unit && q % 2 == 1) {
        q + 1
    } else {
        q
    };
    assert(h == gb_hundredths(bytes as nat));
    assert(h / 100 <= u64::MAX) by (nonlinear_arith)
        requires
            scaled == bytes as u128 * 100,
            q == scaled / unit,
            unit == 1073741824,
            h <= q + 1,
    ;
    push_decimal(s, (h / 100) as u64);
    s.append(".");
    push_digit(s, ((h % 100) / 10) as u64);
    push_digit(s, (h % 10) as u64);
    proof { reveal_strlit("."); }
    assert(s@ =~= old(s)@ + gb_text(bytes as nat));
}

/// The message shown to players once a backup is done.
pub fn completion_message(size: Option<u64>) -> (r: String)
    ensures
        r@ == completion_text(size),
{
    match size {
        Some(bytes) => {
            let mut msg = "Backup done! (".to_string();
            push_gb(&mut msg, bytes);
            msg.append(" GB)");
            msg
        },
        None => "Backup done! (failed to get size)".to_string(),
    }
}

} // verus!
