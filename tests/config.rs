use server_manager::config::{
    join_path_exec, BackupConfig, BackupConfigSerialized, Config, ConfigError, ConfigSerialized,
    MailConfig, MailConfigSerialized,
};
use lettre::transport::smtp::authentication::Credentials;

fn backups(hours: u64) -> BackupConfigSerialized {
    BackupConfigSerialized { incremental_freq_hours: hours, ..BackupConfigSerialized::default() }
}

fn mailing(sender: &str, contacts: &[&str]) -> MailConfigSerialized {
    MailConfigSerialized {
        contacts: contacts.iter().map(|s| s.to_string()).collect(),
        smtp_server: "smtp.example.org".to_string(),
        sender: sender.to_string(),
        username: "user".to_string(),
        password: "SECRET-REDACTED".to_string(),
    }
}

#[test]
fn default_backup_settings() {
    let b = BackupConfigSerialized::default();
    assert_eq!(b.backup_folder, "./backups");
    assert_eq!(b.world_folder, "world");
    assert_eq!(b.incremental_freq_hours, 1);
    assert_eq!(b.full_backup_every, 24 * 14);
    assert_eq!(b.keep_full_backup, 2);
    assert!(b.rclone_path.is_none());
    assert!(b.flush_on_save);
    assert!(!b.silent);
}

#[test]
fn default_config_has_random_password() {
    let c = ConfigSerialized::default();
    assert_eq!(c.name, "Minecraft Server");
    assert!(c.auto_restart);
    assert_eq!(c.server_folder, "./");
    assert_eq!(c.server_jar, "minecraft_server.jar");
    assert_eq!(c.java, "java");
    assert!(c.java_args.is_empty());
    assert_eq!(c.rcon_port, 25575);
    assert!(c.mailing.is_none());
    assert!(c.backups.is_some());
    assert_eq!(c.rcon_password.len(), 64);
    assert_eq!(base64::decode(&c.rcon_password).unwrap().len(), 48);
    assert_ne!(c.rcon_password, ConfigSerialized::default().rcon_password);
}

#[test]
fn password_from_key_is_base64() {
    let c = ConfigSerialized::with_rcon_key(&vec![0u8, 0, 0]);
    assert_eq!(c.rcon_password, "AAAA");
    let c = ConfigSerialized::with_rcon_key(&b"hello".to_vec());
    assert_eq!(c.rcon_password, "aGVsbG8=");
}

#[test]
fn zero_backup_frequency_is_refused() {
    let r = BackupConfig::try_from_serialized(backups(0), "/srv/backups".to_string(), "/srv");
    assert!(matches!(r, Err(ConfigError::ZeroBackupFrequency)));
}

#[test]
fn huge_backup_frequency_is_refused() {
    let r = BackupConfig::try_from_serialized(
        backups(u64::MAX / 3600 + 1),
        "/srv/backups".to_string(),
        "/srv",
    );
    assert!(matches!(r, Err(ConfigError::BackupFrequencyTooLarge)));
    let r = BackupConfig::try_from_serialized(backups(u64::MAX / 3600), "/b".to_string(), "/srv");
    assert!(r.is_ok());
}

#[test]
fn backup_config_is_resolved() {
    let b = BackupConfig::try_from_serialized(backups(2), "/srv/backups".to_string(), "/srv/mc")
        .ok()
        .unwrap();
    assert_eq!(b.backup_folder, "/srv/backups");
    assert_eq!(b.world_folder, "/srv/mc/world");
    assert_eq!(b.incremental_secs, 7200);
    assert_eq!(b.full_backup_every, 336);
    assert_eq!(b.keep_full_backup, 2);
    assert!(b.flush_on_save);
    assert!(!b.silent);
}

#[test]
fn paths_join_like_unix_paths() {
    assert_eq!(join_path_exec("/srv", "world"), "/srv/world");
    assert_eq!(join_path_exec("/srv/", "world"), "/srv/world");
    assert_eq!(join_path_exec("/srv", "/data/world"), "/data/world");
    assert_eq!(join_path_exec("", "world"), "world");
}

#[test]
fn mail_config_accepts_mailboxes() {
    let m = MailConfig::try_from_serialized(mailing(
        "Manager <manager@example.org>",
        &["ops@example.org", "Admin <admin@example.org>"],
    ))
    .ok()
    .unwrap();
    assert_eq!(m.smtp_server, "smtp.example.org");
    assert_eq!(m.sender.email.to_string(), "manager@example.org");
    assert_eq!(m.contacts.len(), 2);
    assert_eq!(m.contacts[0].email.to_string(), "ops@example.org");
    assert_eq!(m.contacts[1].email.to_string(), "admin@example.org");
    assert_eq!(m.contacts[1].name.as_deref(), Some("Admin"));
    assert!(
        m.credentials
            == Credentials::new("user".to_string(), "SECRET-REDACTED".to_string())
    );
}

#[test]
fn invalid_sender_is_reported() {
    match MailConfig::try_from_serialized(mailing("not an address", &["ops@example.org"])) {
        Err(ConfigError::InvalidAddress(a)) => assert_eq!(a, "not an address"),
        _ => panic!("the sender is not a mailbox"),
    }
}

#[test]
fn first_invalid_contact_is_reported() {
    let r = MailConfig::try_from_serialized(mailing(
        "manager@example.org",
        &["ops@example.org", "broken<", "also broken"],
    ));
    match r {
        Err(e) => {
            assert!(matches!(&e, ConfigError::InvalidAddress(a) if a == "broken<"));
            assert_eq!(e.message(), "invalid mailbox: broken<");
        }
        Ok(_) => panic!("a contact is not a mailbox"),
    }
}

#[test]
fn error_messages() {
    assert_eq!(
        ConfigError::ZeroBackupFrequency.message(),
        "incremental backup frequency must not be zero"
    );
    assert_eq!(
        ConfigError::BackupFrequencyTooLarge.message(),
        "incremental backup frequency is too large"
    );
}

#[test]
fn config_is_assembled() {
    let mut value = ConfigSerialized::with_rcon_key(&vec![1, 2, 3]);
    value.rcon_port = 25580;
    let c = Config::try_from_serialized(
        value,
        "/srv/mc".to_string(),
        "/srv/mc/server.jar".to_string(),
        "/srv/backups".to_string(),
    )
    .ok()
    .unwrap();
    assert_eq!(c.rcon_address(), "localhost:25580");
    assert_eq!(c.server_jar, "/srv/mc/server.jar");
    assert_eq!(c.backups.as_ref().unwrap().world_folder, "/srv/mc/world");
    assert!(c.mailing.is_none());
}

#[test]
fn config_with_bad_mail_is_refused() {
    let mut value = ConfigSerialized::with_rcon_key(&vec![1]);
    value.mailing = Some(mailing("bad", &[]));
    let r = Config::try_from_serialized(
        value,
        "/srv".to_string(),
        "/srv/server.jar".to_string(),
        "/b".to_string(),
    );
    assert!(matches!(r, Err(ConfigError::InvalidAddress(_))));
}

#[test]
fn world_folder_is_absolute_under_absolute_server_folder() {
    let mut b = backups(1);
    b.world_folder = "../worlds/main".to_string();
    let c = BackupConfig::try_from_serialized(b, "/srv/backups".to_string(), "/srv/mc")
        .ok()
        .unwrap();
    assert_eq!(c.world_folder, "/srv/mc/../worlds/main");
}
