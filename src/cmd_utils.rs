//! Command lines of the external backup and sync tools.
use vstd::prelude::*;
use crate::text::{decimal, push_decimal};

verus! {

/// The `duplicity` backup tool.
pub struct Duplicity;

/// The `rclone` sync tool.
pub struct Rclone;

/// The views of a list of strings.
pub open spec fn views(v: Seq<String>) -> Seq<Seq<char>> {
    v.map_values(|s: String| s@)
}

/// A command line run at low CPU and I/O priority.
pub open spec fn low_priority(cmd: Seq<Seq<char>>) -> Seq<Seq<char>> {
    seq!["nice"@, "-n"@, "10"@, "ionice"@, "-c"@, "3"@] + cmd
}

/// The command line of an incremental backup of `to_backup` into
/// `backup_to`, full when the last full one is older than the given hours.
pub open spec fn backup_command(hours: u32, to_backup: Seq<char>, backup_to: Seq<char>) -> Seq<
    Seq<char>,
> {
    low_priority(
        seq![
            "duplicity"@,
            "--no-encryption"@,
            "--allow-source-mismatch"@,
            "--full-if-older-than"@,
            decimal(hours as nat) + "h"@,
            to_backup,
            backup_to,
        ],
    )
}

/// The command line that removes all but the newest `keep` full backups.
pub open spec fn cleanup_command(keep: u32, backup_to: Seq<char>) -> Seq<Seq<char>> {
    low_priority(
        seq![
            "duplicity"@,
            "--allow-source-mismatch"@,
            "remove-all-but-n-full"@,
            decimal(keep as nat),
            "--force"@,
            backup_to,
        ],
    )
}

/// The command line that mirrors `local` to `remote`.
pub open spec fn sync_command(remote: Seq<char>, local: Seq<char>) -> Seq<Seq<char>> {
    low_priority(seq!["rclone"@, "sync"@, local, remote])
}

fn owned(s: &str) -> (r: String)
    ensures
        r@ == s@,
{
    s.to_string()
}

/// Starts a low-priority command line.
fn low_priority_prefix() -> (r: Vec<String>)
    ensures
        views(r@) == low_priority(seq![]),
{
    let r = vec![owned("nice"), owned("-n"), owned("10"), owned("ionice"), owned("-c"), owned("3")];
    assert(views(r@) =~= low_priority(seq![]));
    r
}

impl Duplicity {
    /// The command line that shows the tool's help, to tell whether it is installed.
    pub fn help_args() -> (r: Vec<String>)
        ensures
            views(r@) == seq!["duplicity"@, "--help"@],
    {
        let r = vec![owned("duplicity"), owned("--help")];
        assert(views(r@) =~= seq!["duplicity"@, "--help"@]);
        r
    }

    /// The command line of a backup of `to_backup` into the URL `backup_to`.
    pub fn backup_args(full_if_older_than_hours: u32, to_backup: &str, backup_to: &str) -> (r: Vec<
        String,
    >)
        ensures
            views(r@) == backup_command(full_if_older_than_hours, to_backup@, backup_to@),
    {
        let mut r = low_priority_prefix();
        r.push(owned("duplicity"));
        r.push(owned("--no-encryption"));
        r.push(owned("--allow-source-mismatch"));
        r.push(owned("--full-if-older-than"));
        let mut age = String::new();
        push_decimal(&mut age, full_if_older_than_hours as u64);
        age.append("h");
        r.push(age);
        r.push(owned(to_backup));
        r.push(owned(backup_to));
        assert(views(r@) =~= backup_command(full_if_older_than_hours, to_backup@, backup_to@));
        r
    }

    /// The command line that keeps only the newest `keep_full` full backups.
    pub fn cleanup_args(keep_full: u32, backup_to: &str) -> (r: Vec<String>)
        ensures
            views(r@) == cleanup_command(keep_full, backup_to@),
    {
        let mut r = low_priority_prefix();
        r.push(owned("duplicity"));
        r.push(owned("--allow-source-mismatch"));
        r.push(owned("remove-all-but-n-full"));
        let mut keep = String::new();
        push_decimal(&mut keep, keep_full as u64);
        r.push(keep);
        r.push(owned("--force"));
        r.push(owned(backup_to));
        assert(views(r@) =~= cleanup_command(keep_full, backup_to@));
        r
    }
}

impl Rclone {
    /// The command line that shows the tool's help, to tell whether it is installed.
    pub fn help_args() -> (r: Vec<String>)
        ensures
            views(r@) == seq!["rclone"@, "--help"@],
    {
        let r = vec![owned("rclone"), owned("--help")];
        assert(views(r@) =~= seq!["rclone"@, "--help"@]);
        r
    }

    /// The command line that lists `path`, to tell whether the remote exists.
    pub fn check_path_args(path: &str) -> (r: Vec<String>)
        ensures
            views(r@) == seq!["rclone"@, "ls"@, path@],
    {
        let r = vec![owned("rclone"), owned("ls"), owned(path)];
        assert(views(r@) =~= seq!["rclone"@, "ls"@, path@]);
        r
    }

    /// The command line that mirrors `local` to `remote`.
    pub fn sync_args(remote: &str, local: &str) -> (r: Vec<String>)
        ensures
            views(r@) == sync_command(remote@, local@),
    {
        let mut r = low_priority_prefix();
        r.push(owned("rclone"));
        r.push(owned("sync"));
        r.push(owned(local));
        r.push(owned(remote));
        assert(views(r@) =~= sync_command(remote@, local@));
        r
    }
}

} // verus!
