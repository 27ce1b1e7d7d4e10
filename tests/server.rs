use server_manager::mail::Timestamp;
use server_manager::server::{
    ServerManager, ServerOutcome, ShutdownSequence, ShutdownStep, Verdict,
};

fn run_shutdown(exited_in_grace: bool) -> Vec<ShutdownStep> {
    let mut s = ShutdownSequence::new();
    let mut steps = Vec::new();
    let mut exited = false;
    loop {
        let step = s.next(exited);
        steps.push(step);
        match step {
            ShutdownStep::AwaitExit { timeout_secs: Some(_) } => exited = exited_in_grace,
            ShutdownStep::AwaitExit { timeout_secs: None } => exited = true,
            ShutdownStep::Done => break,
            _ => {}
        }
    }
    steps
}

#[test]
fn shutdown_without_kill_when_server_exits_in_grace() {
    assert_eq!(
        run_shutdown(true),
        vec![
            ShutdownStep::Interrupt,
            ShutdownStep::AwaitExit { timeout_secs: Some(20) },
            ShutdownStep::Done
        ]
    );
}

#[test]
fn shutdown_kills_once_when_server_lingers() {
    let steps = run_shutdown(false);
    assert_eq!(
        steps,
        vec![
            ShutdownStep::Interrupt,
            ShutdownStep::AwaitExit { timeout_secs: Some(20) },
            ShutdownStep::Kill,
            ShutdownStep::AwaitExit { timeout_secs: None },
            ShutdownStep::Done
        ]
    );
    assert_eq!(steps.iter().filter(|s| **s == ShutdownStep::Kill).count(), 1);
}

#[test]
fn finished_shutdown_stays_done() {
    let mut s = ShutdownSequence::new();
    s.next(false);
    s.next(false);
    s.next(true);
    assert_eq!(s.next(false), ShutdownStep::Done);
}

#[test]
fn outcome_logs() {
    let exit = ServerOutcome::Exited(Ok("exit status: 1".to_string()));
    assert!(!exit.needs_shutdown());
    assert_eq!(
        exit.into_log(),
        vec!["Spontaneous server exit.".to_string(), "Status code: exit status: 1".to_string()]
    );
    let err = ServerOutcome::Exited(Err("no child".to_string()));
    assert_eq!(
        err.into_log()[1],
        "An error occurred while obtaining server exit status:\nno child"
    );
    let rcon = ServerOutcome::RconFailed(vec!["[RCON] x".to_string()]);
    assert!(rcon.needs_shutdown());
    assert_eq!(
        rcon.into_log(),
        vec![
            "[RCON] x".to_string(),
            "Emergency server shutdown caused by RCON failure.".to_string()
        ]
    );
    let backup = ServerOutcome::BackupFailed(vec!["[BACKUP] y".to_string()]);
    assert!(backup.needs_shutdown());
    assert_eq!(backup.into_log()[1], "Emergency server shutdown caused by backup failure.");
}

#[test]
fn without_auto_restart_the_first_exit_is_final() {
    let mut s = ServerManager::new(false, 0);
    let a = s.after_exit(vec!["x".to_string()], 10, Timestamp::new(10, 0).unwrap());
    assert!(matches!(a.verdict, Verdict::Stop));
    assert!(a.report.final_incident);
    assert_eq!(a.report.err_log, vec!["x".to_string()]);
    assert_eq!(a.notice, "Auto-restart is disabled. Exiting.");
    assert_eq!(s.incidents.count, 0);
}

#[test]
fn sixth_restart_within_window_is_refused() {
    let mut s = ServerManager::new(true, 0);
    for i in 1..=5u64 {
        let a = s.after_exit(Vec::new(), i * 60, Timestamp::new(0, 0).unwrap());
        assert!(matches!(a.verdict, Verdict::Restart { delay_secs: 10 }));
        assert!(!a.report.final_incident);
        assert_eq!(a.notice, "Restarting in 10 seconds...");
    }
    let a = s.after_exit(Vec::new(), 360, Timestamp::new(0, 0).unwrap());
    assert!(matches!(a.verdict, Verdict::Stop));
    assert!(a.report.final_incident);
    assert_eq!(a.notice, "Too many incidents in a short period of time. Exiting.");
}

#[test]
fn restarts_far_apart_continue() {
    let mut s = ServerManager::new(true, 0);
    for i in 1..=10u64 {
        let a = s.after_exit(Vec::new(), i * 1000, Timestamp::new(0, 0).unwrap());
        assert!(matches!(a.verdict, Verdict::Restart { .. }));
    }
}
