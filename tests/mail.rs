use server_manager::mail::{should_retry_send, startup_notice, MailManager, MailRequest, Timestamp};

fn report(lines: &[&str], final_incident: bool, secs: i64) -> MailRequest {
    MailRequest {
        err_log: lines.iter().map(|s| s.to_string()).collect(),
        final_incident,
        time: Timestamp::new(secs, 0).unwrap(),
    }
}

#[test]
fn timestamps_out_of_range_are_refused() {
    assert!(Timestamp::new(0, 0).is_some());
    assert!(Timestamp::new(8_000_000_000_000, 999_999_999).is_some());
    assert!(Timestamp::new(8_000_000_000_001, 0).is_none());
    assert!(Timestamp::new(-8_000_000_000_001, 0).is_none());
    assert!(Timestamp::new(0, 1_000_000_000).is_none());
}

#[test]
fn startup_notice_text() {
    let d = startup_notice("Survival", Timestamp::new(1431648000, 0).unwrap());
    assert_eq!(d.subject, "Survival - Minecraft Server Manager Started");
    assert_eq!(
        d.body,
        "On 2015-05-15 00:00:00 UTC, the Minecraft server manager for \"Survival\" started."
    );
    assert!(!d.is_final);
}

#[test]
fn single_report_digest() {
    let mut m = MailManager::new("Survival".to_string());
    assert_eq!(m.begin(report(&["a", "b"], false, 1431648000)), 30);
    let d = m.compose();
    assert_eq!(d.subject, "Survival - Incident report");
    assert_eq!(
        d.body,
        "On 2015-05-15 00:00:00 UTC, the Minecraft server \"Survival\" encountered an incident.\
         <br><br>&emsp;Error report:<br>&emsp;<br>&emsp;a<br>&emsp;b<br><br>End of report."
    );
    assert!(!d.is_final);
    assert!(m.batch.is_empty());
}

#[test]
fn reports_within_window_share_one_digest() {
    let mut m = MailManager::new("S".to_string());
    m.begin(report(&["first"], false, 1431648000));
    m.absorb(report(&["second"], false, 1431648010));
    m.absorb(report(&["third"], true, 1431648020));
    let d = m.compose();
    assert!(d.is_final);
    assert_eq!(d.subject, "URGENT - S - Server Manager stopped after incident");
    assert_eq!(
        d.body,
        "On 2015-05-15 00:00:00 UTC, the Minecraft server \"S\" encountered an incident.\
         <br><br>&emsp;Error report:<br>&emsp;<br>&emsp;first<br><br>\
         Additionally, on 2015-05-15 00:00:10 UTC, another incident occurred.\
         <br><br>&emsp;Error report:<br>&emsp;<br>&emsp;second<br><br>\
         Additionally, on 2015-05-15 00:00:20 UTC, another incident occurred.\
         <br><br>&emsp;Error report:<br>&emsp;<br>&emsp;third<br><br>\
         <b>After this incident, the server manager stopped.</b><br>End of report."
    );
}

#[test]
fn report_after_composition_starts_new_batch() {
    let mut m = MailManager::new("S".to_string());
    m.begin(report(&["old"], false, 0));
    m.absorb(report(&["older"], false, 5));
    let first = m.compose();
    assert!(first.body.contains("older"));
    m.begin(report(&["new"], false, 100));
    assert_eq!(m.batch.len(), 1);
    let second = m.compose();
    assert!(second.body.contains("&emsp;new"));
    assert!(!second.body.contains("old"));
    assert!(!second.body.contains("Additionally"));
}

#[test]
fn empty_cause_list_digest() {
    let mut m = MailManager::new("S".to_string());
    m.begin(report(&[], false, 0));
    let d = m.compose();
    assert_eq!(
        d.body,
        "On 1970-01-01 00:00:00 UTC, the Minecraft server \"S\" encountered an incident.\
         <br><br>&emsp;Error report:<br>&emsp;<br><br>End of report."
    );
}

#[test]
fn sending_is_tried_five_times() {
    let tries = (0u32..).take_while(|f| should_retry_send(*f)).count();
    assert_eq!(tries, 5);
}
