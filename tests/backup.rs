use server_manager::backup::{
    completion_message, BackupAction, BackupManager, Stage, StepOutcome,
};
use server_manager::config::BackupConfig;

fn config(flush_on_save: bool, silent: bool, rclone_path: Option<&str>) -> BackupConfig {
    BackupConfig {
        backup_folder: "/srv/backups".to_string(),
        world_folder: "/srv/world".to_string(),
        incremental_secs: 3600,
        full_backup_every: 336,
        keep_full_backup: 2,
        rclone_path: rclone_path.map(|s| s.to_string()),
        flush_on_save,
        silent,
    }
}

fn describe(a: &BackupAction) -> String {
    match a {
        BackupAction::Sleep { secs } => format!("sleep {}", secs),
        BackupAction::Send { cmd, timeout_secs } => {
            format!("send {} ({}s)", cmd.console_line().unwrap_or_default(), timeout_secs)
        }
        BackupAction::RequestHandshake { timeout_secs } => format!("handshake ({}s)", timeout_secs),
        BackupAction::AwaitHandshake { timeout_secs } => format!("await ({}s)", timeout_secs),
        BackupAction::Run(args) => format!("run {}", args.join(" ")),
        BackupAction::MeasureFolder(p) => format!("measure {}", p),
        BackupAction::Stop(lines) => format!("stop {:?}", lines),
    }
}

fn step(m: &mut BackupManager, o: StepOutcome) -> String {
    describe(&m.next(o).action)
}

const BACKUP_RUN: &str = "run nice -n 10 ionice -c 3 duplicity --no-encryption --allow-source-mismatch --full-if-older-than 336h /srv/world file:///srv/backups";
const CLEANUP_RUN: &str = "run nice -n 10 ionice -c 3 duplicity --allow-source-mismatch remove-all-but-n-full 2 --force file:///srv/backups";

#[test]
fn hourly_flushed_loud_backup_runs_steps_in_order() {
    let mut m = BackupManager::new(config(true, false, None)).ok().unwrap();
    assert_eq!(describe(&m.first_action()), "sleep 3600");
    let mut seen = Vec::new();
    seen.push(step(&mut m, StepOutcome::Done));
    seen.push(step(&mut m, StepOutcome::Done));
    seen.push(step(&mut m, StepOutcome::Done));
    seen.push(step(&mut m, StepOutcome::Done));
    seen.push(step(&mut m, StepOutcome::Done));
    seen.push(step(&mut m, StepOutcome::Done));
    seen.push(step(&mut m, StepOutcome::Done));
    seen.push(step(&mut m, StepOutcome::Done));
    seen.push(step(&mut m, StepOutcome::Size(Some(1610612736))));
    seen.push(step(&mut m, StepOutcome::Done));
    seen.push(step(&mut m, StepOutcome::Done));
    let expected = vec![
        "send tellraw @a {\"text\":\"Backup started.\",\"color\":\"light_purple\"} (10s)".to_string(),
        "send save-off (10s)".to_string(),
        "send save-all flush (10s)".to_string(),
        "handshake (10s)".to_string(),
        "await (120s)".to_string(),
        BACKUP_RUN.to_string(),
        "send save-on (10s)".to_string(),
        "measure /srv/world".to_string(),
        "send tellraw @a {\"text\":\"Backup done! (1.50 GB)\",\"color\":\"light_purple\"} (10s)"
            .to_string(),
        CLEANUP_RUN.to_string(),
        "sleep 3600".to_string(),
    ];
    assert_eq!(seen, expected);
    assert_eq!(m.stage, Stage::Waiting);
}

#[test]
fn unflushed_save_settles_before_backup() {
    let mut m = BackupManager::new(config(false, true, None)).ok().unwrap();
    assert_eq!(step(&mut m, StepOutcome::Done), "send save-off (10s)");
    assert_eq!(step(&mut m, StepOutcome::Done), "send save-all (10s)");
    assert_eq!(step(&mut m, StepOutcome::Done), "handshake (10s)");
    assert_eq!(step(&mut m, StepOutcome::Done), "await (120s)");
    assert_eq!(step(&mut m, StepOutcome::Done), "sleep 120");
    assert_eq!(step(&mut m, StepOutcome::Done), BACKUP_RUN);
    assert_eq!(step(&mut m, StepOutcome::Done), "send save-on (10s)");
    assert_eq!(step(&mut m, StepOutcome::Done), CLEANUP_RUN);
    assert_eq!(step(&mut m, StepOutcome::Done), "sleep 3600");
}

#[test]
fn failure_at_a_fatal_step_stops_for_good() {
    let mut m = BackupManager::new(config(true, true, None)).ok().unwrap();
    assert_eq!(step(&mut m, StepOutcome::Done), "send save-off (10s)");
    assert_eq!(
        step(&mut m, StepOutcome::TimedOut),
        "stop [\"[BACKUP] Timed out while requesting to disable saving.\"]"
    );
    assert_eq!(m.stage, Stage::Halted);
    assert_eq!(step(&mut m, StepOutcome::Done), "stop []");
    assert_eq!(step(&mut m, StepOutcome::Done), "stop []");
}

#[test]
fn backup_tool_failure_stops_with_its_diagnostic() {
    let mut m = BackupManager::new(config(true, true, None)).ok().unwrap();
    for _ in 0..5 {
        m.next(StepOutcome::Done);
    }
    assert_eq!(m.stage, Stage::BackingUp);
    assert_eq!(
        step(&mut m, StepOutcome::Failed("disk full".to_string())),
        "stop [\"[BACKUP] Failed to perform duplicity backup:\\nduplicity failed to make backup:\\ndisk full\"]"
    );
}

#[test]
fn failed_start_broadcast_is_only_noticed() {
    let mut m = BackupManager::new(config(true, false, None)).ok().unwrap();
    m.next(StepOutcome::Done);
    let d = m.next(StepOutcome::Failed(String::new()));
    assert_eq!(describe(&d.action), "send save-off (10s)");
    assert_eq!(d.notice.as_deref(), Some("[BACKUP] Failed to broadcast start message."));
}

#[test]
fn sync_is_retried_and_recovers() {
    let mut m = BackupManager::new(config(true, true, Some("remote:mc"))).ok().unwrap();
    for _ in 0..8 {
        m.next(StepOutcome::Done);
    }
    assert_eq!(m.stage, Stage::Syncing);
    let sync = "run nice -n 10 ionice -c 3 rclone sync /srv/backups remote:mc";
    assert_eq!(step(&mut m, StepOutcome::Failed("net down".to_string())), sync);
    assert_eq!(step(&mut m, StepOutcome::Failed("net still down".to_string())), sync);
    let d = m.next(StepOutcome::Done);
    assert_eq!(describe(&d.action), "sleep 3600");
    assert_eq!(
        d.notice.as_deref(),
        Some("[BACKUP] At least one recoverable error occurred while trying to sync backup data to remote:\nrclone failed to sync to remote:\nnet still down")
    );
    assert_eq!(m.sync_failures, 0);
}

#[test]
fn five_failed_syncs_stop_the_protocol() {
    let mut m = BackupManager::new(config(true, true, Some("remote:mc"))).ok().unwrap();
    for _ in 0..8 {
        m.next(StepOutcome::Done);
    }
    for _ in 0..4 {
        let d = m.next(StepOutcome::Failed("net down".to_string()));
        assert!(matches!(d.action, BackupAction::Run(_)));
    }
    assert_eq!(
        step(&mut m, StepOutcome::Failed("net down".to_string())),
        "stop [\"[ServerManager] [BACKUP] Failed to sync backup data to remote:\\nrclone failed to sync to remote:\\nnet down\"]"
    );
}

#[test]
fn relative_backup_folder_is_refused() {
    let mut c = config(true, true, None);
    c.backup_folder = "backups".to_string();
    match BackupManager::new(c) {
        Err(v) => assert_eq!(v, vec!["[BACKUP] Failed to make a URL of the backup folder.".to_string()]),
        Ok(_) => panic!("a relative folder has no file URL"),
    }
}

#[test]
fn backup_folder_url_is_percent_encoded() {
    let mut c = config(true, true, None);
    c.backup_folder = "/srv/my backups".to_string();
    let m = BackupManager::new(c).ok().unwrap();
    assert_eq!(m.backup_url, "file:///srv/my%20backups");
}

#[test]
fn completion_message_sizes() {
    assert_eq!(completion_message(None), "Backup done! (failed to get size)");
    assert_eq!(completion_message(Some(0)), "Backup done! (0.00 GB)");
    assert_eq!(completion_message(Some(1610612736)), "Backup done! (1.50 GB)");
    assert_eq!(completion_message(Some(1073741824 * 12)), "Backup done! (12.00 GB)");
}

#[test]
fn completion_message_matches_float_formatting() {
    let sizes = [
        1u64, 5368709, 134217728, 402653184, 987654321, 1073741823, 1099511627776, 123456789012345,
    ];
    for b in sizes {
        let gb = b as f64 / 1073741824f64;
        assert_eq!(completion_message(Some(b)), format!("Backup done! ({:.2} GB)", gb));
    }
}

#[test]
fn cleanup_failure_names_the_tool() {
    let mut m = BackupManager::new(config(true, true, None)).ok().unwrap();
    for _ in 0..7 {
        m.next(StepOutcome::Done);
    }
    assert_eq!(m.stage, Stage::CleaningUp);
    assert_eq!(
        step(&mut m, StepOutcome::TimedOut),
        "stop [\"[BACKUP] Failed to perform duplicity cleanup:\\nduplicity failed to clean up old backups:\\ntimed out\"]"
    );
}
