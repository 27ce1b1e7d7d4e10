//! Configuration: the serialized form, its defaults, and validation of the
//! parts that do not need the file system.
use vstd::prelude::*;
use crate::text::{decimal, push_decimal};

verus! {

/// A mailbox ("Name <user@example.org>" or a bare address).
#[verifier::external_type_specification]
#[verifier::external_body]
pub struct ExMailbox(lettre::message::Mailbox);

/// SMTP credentials.
#[verifier::external_type_specification]
#[verifier::external_body]
pub struct ExCredentials(lettre::transport::smtp::authentication::Credentials);

/// Why a text is not a mailbox.
#[verifier::external_type_specification]
#[verifier::external_body]
pub struct ExAddressError(lettre::address::AddressError);

/// The mailbox that lettre reads from the text, if it reads one.
pub uninterp spec fn mailbox_parse_of(s: Seq<char>) -> Option<lettre::message::Mailbox>;

/// Whether lettre reads the text as a mailbox.
pub open spec fn mailbox_accepts(s: Seq<char>) -> bool {
    mailbox_parse_of(s) is Some
}

/// Relies on lettre's `FromStr` for `Mailbox`, whose outcome and mailbox
/// depend on the text alone.
#[verifier::external_body]
fn parse_mailbox(s: &str) -> (r: Result<lettre::message::Mailbox, lettre::address::AddressError>)
    ensures
        r is Ok <==> mailbox_parse_of(s@) is Some,
        r matches Ok(m) ==> mailbox_parse_of(s@) == Some(m),
{
    s.parse::<lettre::message::Mailbox>()
}

/// The credentials lettre makes of a user name and a password.
pub uninterp spec fn credentials_for(username: Seq<char>, password: Seq<char>) -> lettre::transport::smtp::authentication::Credentials;

/// Relies on lettre's `Credentials::new`, which stores the two strings as given.
#[verifier::external_body]
fn credentials(username: String, password: String) -> (r: lettre::transport::smtp::authentication::Credentials)
    ensures
        r == credentials_for(username@, password@),
{
    lettre::transport::smtp::authentication::Credentials::new(username, password)
}

/// The standard, padded base64 text of the bytes.
pub uninterp spec fn base64_of(b: Seq<u8>) -> Seq<char>;

/// Relies on base64::encode (standard alphabet, padded), whose text depends
/// on the bytes alone.
#[verifier::external_body]
fn base64_encode(b: &Vec<u8>) -> (r: String)
    ensures
        r@ == base64_of(b@),
{
    base64::encode(b)
}

/// Relies on rand's thread-local generator, which fills the buffer.
#[verifier::external_body]
fn random_bytes(len: usize) -> (r: Vec<u8>)
    ensures
        r@.len() == len,
{
    let mut b = vec![0u8; len];
    rand::RngCore::fill_bytes(&mut rand::thread_rng(), &mut b);
    b
}

/// Bytes of key material behind a generated console password.
pub const RCON_KEY_BYTES: usize = 48;
/// Default control-channel port.
pub const DEFAULT_RCON_PORT: u16 = 25575;
/// Seconds in an hour.
pub const SECS_PER_HOUR: u64 = 3600;

/// Why a configuration is not valid.
#[derive(Debug)]
pub enum ConfigError {
    /// The backup frequency is zero hours.
    ZeroBackupFrequency,
    /// The backup frequency does not fit in seconds.
    BackupFrequencyTooLarge,
    /// The text is not a mailbox.
    InvalidAddress(String),
}

impl ConfigError {
    /// A sentence describing the error.
    pub fn message(&self) -> (r: String)
        ensures
            r@ == match *self {
                ConfigError::ZeroBackupFrequency => "incremental backup frequency must not be zero"@,
                ConfigError::BackupFrequencyTooLarge => "incremental backup frequency is too large"@,
                ConfigError::InvalidAddress(a) => "invalid mailbox: "@ + a@,
            },
    {
        match self {
            ConfigError::ZeroBackupFrequency => "incremental backup frequency must not be zero".to_string(),
            ConfigError::BackupFrequencyTooLarge => "incremental backup frequency is too large".to_string(),
            ConfigError::InvalidAddress(a) => {
                let mut r = "invalid mailbox: ".to_string();
                r.append(a.as_str());
                r
            },
        }
    }
}

/// The configuration file's contents.
pub struct ConfigSerialized {
    pub name: String,
    pub auto_restart: bool,
    pub server_folder: String,
    pub server_jar: String,
    pub backups: Option<BackupConfigSerialized>,
    pub java: String,
    pub java_args: Vec<String>,
    pub rcon_password: String,
    pub rcon_port: u16,
    pub mailing: Option<MailConfigSerialized>,
}

/// The backup section of the configuration file.
pub struct BackupConfigSerialized {
    pub backup_folder: String,
    pub world_folder: String,
    pub incremental_freq_hours: u64,
    pub full_backup_every: u32,
    pub keep_full_backup: u32,
    pub rclone_path: Option<String>,
    pub flush_on_save: bool,
    pub silent: bool,
}

/// The mail section of the configuration file.
pub struct MailConfigSerialized {
    pub contacts: Vec<String>,
    pub smtp_server: String,
    pub sender: String,
    pub username: String,
    pub password: String,
}

/// Whether `b` holds the default backup settings.
pub open spec fn is_default_backups(b: BackupConfigSerialized) -> bool {
    &&& b.backup_folder@ == "./backups"@
    &&& b.world_folder@ == "world"@
    &&& b.incremental_freq_hours == 1
    &&& b.full_backup_every == 336
    &&& b.keep_full_backup == 2
    &&& b.rclone_path is None
    &&& b.flush_on_save
    &&& !b.silent
}

/// Whether `c` holds the default settings, whatever its console password.
pub open spec fn is_default_config(c: ConfigSerialized) -> bool {
    &&& c.name@ == "Minecraft Server"@
    &&& c.auto_restart
    &&& c.server_folder@ == "./"@
    &&& c.server_jar@ == "minecraft_server.jar"@
    &&& c.java@ == "java"@
    &&& c.java_args@.len() == 0
    &&& c.rcon_port == DEFAULT_RCON_PORT
    &&& c.mailing is None
    &&& c.backups matches Some(b) && is_default_backups(b)
}

impl Default for BackupConfigSerialized {
    fn default() -> (r: Self)
        ensures
            is_default_backups(r),
    {
        BackupConfigSerialized {
            backup_folder: "./backups".to_string(),
            world_folder: "world".to_string(),
            incremental_freq_hours: 1,
            full_backup_every: 336,
            keep_full_backup: 2,
            rclone_path: None,
            flush_on_save: true,
            silent: false,
        }
    }
}

impl ConfigSerialized {
    /// The default settings, with a console password made from `key`.
    pub fn with_rcon_key(key: &Vec<u8>) -> (r: Self)
        ensures
            is_default_config(r),
            r.rcon_password@ == base64_of(key@),
    {
        ConfigSerialized {
            name: "Minecraft Server".to_string(),
            auto_restart: true,
            server_folder: "./".to_string(),
            server_jar: "minecraft_server.jar".to_string(),
            java: "java".to_string(),
            java_args: Vec::new(),
            rcon_password: base64_encode(key),
            rcon_port: DEFAULT_RCON_PORT,
            mailing: None,
            backups: Some(BackupConfigSerialized::default()),
        }
    }
}

impl Default for ConfigSerialized {
    /// The default settings, with a console password made from fresh random bytes.
    fn default() -> (r: Self)
        ensures
            is_default_config(r),
            exists|k: Seq<u8>| k.len() == RCON_KEY_BYTES && r.rcon_password@ == base64_of(k),
    {
        let key = random_bytes(RCON_KEY_BYTES);
        ConfigSerialized::with_rcon_key(&key)
    }
}

/// Whether the Unix path is absolute.
pub open spec fn is_absolute(path: Seq<char>) -> bool {
    path.len() > 0 && path[0] == '/'
}

/// `rel` resolved against the folder `base`, as a path is joined on Unix:
/// an absolute `rel` stands alone, otherwise a separator is put between
/// them unless `base` is empty or already ends with one.
pub open spec fn join_path(base: Seq<char>, rel: Seq<char>) -> Seq<char> {
    if rel.len() > 0 && rel[0] == '/' {
        rel
    } else if base.len() == 0 || base.last() == '/' {
        base + rel
    } else {
        base + seq!['/'] + rel
    }
}

/// Joins `rel` to the folder `base` as a Unix path.
pub fn join_path_exec(base: &str, rel: &str) -> (r: String)
    ensures
        r@ == join_path(base@, rel@),
{
    let rel_len = rel.unicode_len();
    let base_len = base.unicode_len();
    if rel_len > 0 && rel.get_char(0) == '/' {
        rel.to_string()
    } else if base_len == 0 || base.get_char(base_len - 1) == '/' {
        let mut r = base.to_string();
        r.append(rel);
        r
    } else {
        let mut r = base.to_string();
        r.append("/");
        r.append(rel);
        proof { reveal_strlit("/"); }
        assert(r@ =~= base@ + seq!['/'] + rel@);
        r
    }
}

/// Validated backup settings. Folders are absolute paths.
pub struct BackupConfig {
    /// Where the backups are written.
    pub backup_folder: String,
    /// The world folder that is backed up.
    pub world_folder: String,
    /// Seconds between two backups; never zero.
    pub incremental_secs: u64,
    /// Hours after which the next backup is a full one.
    pub full_backup_every: u32,
    /// Full backups kept by the cleanup.
    pub keep_full_backup: u32,
    /// The remote that backups are mirrored to, if any.
    pub rclone_path: Option<String>,
    /// Whether the save before a backup is flushed to disk.
    pub flush_on_save: bool,
    /// Whether players are not told about backups.
    pub silent: bool,
}

/// Whether `b` is the validated form of the backup section `s`.
pub open spec fn is_backup_config_of(
    b: BackupConfig,
    s: BackupConfigSerialized,
    backup_folder: Seq<char>,
    server_folder: Seq<char>,
) -> bool {
    &&& b.backup_folder@ == backup_folder
    &&& b.world_folder@ == join_path(server_folder, s.world_folder@)
    &&& b.incremental_secs == s.incremental_freq_hours * SECS_PER_HOUR
    &&& b.full_backup_every == s.full_backup_every
    &&& b.keep_full_backup == s.keep_full_backup
    &&& b.rclone_path == s.rclone_path
    &&& b.flush_on_save == s.flush_on_save
    &&& b.silent == s.silent
}

impl BackupConfig {
    /// Validates the backup section, given the canonical backup folder and
    /// the canonical server folder that the world folder is relative to.
    pub fn try_from_serialized(
        config: BackupConfigSerialized,
        backup_folder: String,
        server_folder: &str,
    ) -> (r: Result<Self, ConfigError>)
        ensures
            config.incremental_freq_hours == 0 ==> r matches Err(ConfigError::ZeroBackupFrequency),
            config.incremental_freq_hours * SECS_PER_HOUR > u64::MAX ==> r matches Err(
                ConfigError::BackupFrequencyTooLarge,
            ),
            r is Ok <==> 0 < config.incremental_freq_hours && config.incremental_freq_hours
                * SECS_PER_HOUR <= u64::MAX,
            r matches Ok(b) ==> is_backup_config_of(b, config, backup_folder@, server_folder@),
            r matches Ok(b) ==> (is_absolute(server_folder@) ==> is_absolute(b.world_folder@)),
    {
        if config.incremental_freq_hours == 0 {
            return Err(ConfigError::ZeroBackupFrequency);
        }
        if config.incremental_freq_hours > u64::MAX / SECS_PER_HOUR {
            return Err(ConfigError::BackupFrequencyTooLarge);
        }
        let world_folder = join_path_exec(server_folder, config.world_folder.as_str());
        Ok(
            BackupConfig {
                backup_folder,
                world_folder,
                incremental_secs: config.incremental_freq_hours * SECS_PER_HOUR,
                full_backup_every: config.full_backup_every,
                keep_full_backup: config.keep_full_backup,
                rclone_path: config.rclone_path,
                flush_on_save: config.flush_on_save,
                silent: config.silent,
            },
        )
    }
}

/// Validated mail settings.
pub struct MailConfig {
    pub smtp_server: String,
    /// The recipients, in the order of the configuration file.
    pub contacts: Vec<lettre::message::Mailbox>,
    pub sender: lettre::message::Mailbox,
    pub credentials: lettre::transport::smtp::authentication::Credentials,
}

/// Whether every text of `v` is a mailbox.
pub open spec fn all_mailboxes(v: Seq<String>) -> bool {
    forall|i: int| 0 <= i < v.len() ==> mailbox_accepts(#[trigger] v[i]@)
}

impl MailConfig {
    /// Reads the sender and the contacts as mailboxes. Fails on the sender
    /// if it is not one, else on the first contact that is not one.
    pub fn try_from_serialized(config: MailConfigSerialized) -> (r: Result<Self, ConfigError>)
        ensures
            r is Ok <==> mailbox_accepts(config.sender@) && all_mailboxes(config.contacts@),
            r matches Ok(m) ==> {
                &&& m.smtp_server@ == config.smtp_server@
                &&& mailbox_parse_of(config.sender@) == Some(m.sender)
                &&& m.contacts@.len() == config.contacts@.len()
                &&& forall|i: int|
                    0 <= i < m.contacts@.len() ==> mailbox_parse_of(#[trigger] config.contacts@[i]@)
                        == Some(m.contacts@[i])
                &&& m.credentials == credentials_for(config.username@, config.password@)
            },
            r matches Err(e) ==> e matches ConfigError::InvalidAddress(a) && if !mailbox_accepts(
                config.sender@,
            ) {
                a@ == config.sender@
            } else {
                exists|i: int|
                    0 <= i < config.contacts@.len() && a@ == config.contacts@[i]@
                        && !mailbox_accepts(a@) && all_mailboxes(config.contacts@.subrange(0, i))
            },
    {
        let sender = match parse_mailbox(config.sender.as_str()) {
            Ok(m) => m,
            Err(_) => {
                return Err(ConfigError::InvalidAddress(config.sender));
            },
        };
        let mut contacts: Vec<lettre::message::Mailbox> = Vec::new();
        let mut i: usize = 0;
        while i < config.contacts.len()
            invariant
                0 <= i <= config.contacts@.len(),
                mailbox_accepts(config.sender@),
                mailbox_parse_of(config.sender@) == Some(sender),
                all_mailboxes(config.contacts@.subrange(0, i as int)),
                contacts@.len() == i,
                forall|j: int|
                    0 <= j < i ==> mailbox_parse_of(#[trigger] config.contacts@[j]@) == Some(
                        contacts@[j],
                    ),
            decreases config.contacts@.len() - i,
        {
            match parse_mailbox(config.contacts[i].as_str()) {
                Ok(m) => contacts.push(m),
                Err(_) => {
                    let bad = config.contacts[i].clone();
                    return Err(ConfigError::InvalidAddress(bad));
                },
            }
            i = i + 1;
            assert forall|j: int| 0 <= j < i implies mailbox_accepts(
                #[trigger] config.contacts@.subrange(0, i as int)[j]@,
            ) by {
                if j < i - 1 {
                    assert(config.contacts@.subrange(0, i as int)[j] == config.contacts@.subrange(
                        0,
                        i - 1,
                    )[j]);
                }
            }
        }
        assert(config.contacts@.subrange(0, i as int) =~= config.contacts@);
        Ok(
            MailConfig {
                smtp_server: config.smtp_server,
                contacts,
                sender,
                credentials: credentials(config.username, config.password),
            },
        )
    }
}

/// The validated configuration. Paths are canonical.
pub struct Config {
    pub name: String,
    pub auto_restart: bool,
    pub server_folder: String,
    pub server_jar: String,
    pub backups: Option<BackupConfig>,
    pub rcon_password: String,
    pub rcon_port: u16,
    pub java: String,
    pub java_args: Vec<String>,
    pub mailing: Option<MailConfig>,
}

/// The address of the control channel on the given port.
pub open spec fn rcon_address(port: u16) -> Seq<char> {
    "localhost:"@ + decimal(port as nat)
}

impl Config {
    /// Validates the configuration, given the canonical server folder and
    /// jar and, where backups are configured, the canonical backup folder.
    /// Fails as the backup section's or the mail section's validation does,
    /// in that order.
    pub fn try_from_serialized(
        value: ConfigSerialized,
        server_folder: String,
        server_jar: String,
        backup_folder: String,
    ) -> (r: Result<Self, ConfigError>)
        ensures
            r is Ok <==> (value.backups matches Some(b) ==> 0 < b.incremental_freq_hours
                && b.incremental_freq_hours * SECS_PER_HOUR <= u64::MAX) && (
            value.mailing matches Some(m) ==> mailbox_accepts(m.sender@) && all_mailboxes(
                m.contacts@,
            )),
            r matches Ok(c) ==> {
                &&& c.name@ == value.name@
                &&& c.auto_restart == value.auto_restart
                &&& c.server_folder@ == server_folder@
                &&& c.server_jar@ == server_jar@
                &&& c.backups is Some == value.backups is Some
                &&& c.mailing is Some == value.mailing is Some
                &&& (c.backups matches Some(b) ==> value.backups matches Some(s)
                    && is_backup_config_of(b, s, backup_folder@, server_folder@))
                &&& (c.mailing matches Some(m) ==> value.mailing matches Some(s) && m.smtp_server@
                    == s.smtp_server@)
                &&& c.rcon_password@ == value.rcon_password@
                &&& c.rcon_port == value.rcon_port
                &&& c.java@ == value.java@
                &&& c.java_args@ == value.java_args@
            },
    {
        let backups = match value.backups {
            Some(b) => match BackupConfig::try_from_serialized(b, backup_folder, server_folder.as_str()) {
                Ok(c) => Some(c),
                Err(e) => {
                    return Err(e);
                },
            },
            None => None,
        };
        let mailing = match value.mailing {
            Some(m) => match MailConfig::try_from_serialized(m) {
                Ok(c) => Some(c),
                Err(e) => {
                    return Err(e);
                },
            },
            None => None,
        };
        Ok(
            Config {
                name: value.name,
                auto_restart: value.auto_restart,
                server_folder,
                server_jar,
                backups,
                rcon_password: value.rcon_password,
                rcon_port: value.rcon_port,
                java: value.java,
                java_args: value.java_args,
                mailing,
            },
        )
    }

    /// The address of the control channel.
    pub fn rcon_address(&self) -> (r: String)
        ensures
            r@ == rcon_address(self.rcon_port),
    {
        let mut r = "localhost:".to_string();
        push_decimal(&mut r, self.rcon_port as u64);
        r
    }
}

} // verus!
