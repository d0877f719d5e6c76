//! The terminal service: who may use it, its runtime settings, and the
//! decisions around running a command and changing a setting.
//!
//! Running a command, probing a directory and writing the env file are done
//! by the caller; the service decides what to do before each of them and what
//! follows from what came back.
use std::collections::HashSet;

use vstd::prelude::*;
use vstd::utf8::{decode_utf8, valid_utf8};

use crate::config::{Config, ConfigError, WorkdirProbe, validate_workdir, workdir_result};
use crate::text::{
    decimal, decimal_string, parse_u64, parse_usize, parsed_u64, parsed_usize, trim, trimmed,
    truncate_text, truncated,
};

verus! {

broadcast use vstd::std_specs::hash::group_hash_axioms;

/// What a finished command gave.
#[derive(Clone, Debug, PartialEq, Eq)]
pub struct CommandResult {
    /// The exit code, or `None` when a signal ended the command.
    pub exit_code: Option<i32>,
    pub stdout: String,
    pub stderr: String,
}

/// The settings that can change while the bot runs.
#[derive(Clone, Debug, PartialEq, Eq)]
pub struct RuntimeSettings {
    pub working_dir: String,
    /// Seconds a command may run.
    pub timeout: u64,
    pub max_output_chars: usize,
}

/// The settings hold these values.
pub open spec fn settings_are(
    s: RuntimeSettings,
    working_dir: Seq<char>,
    timeout: u64,
    max_output_chars: usize,
) -> bool {
    &&& s.working_dir@ == working_dir
    &&& s.timeout == timeout
    &&& s.max_output_chars == max_output_chars
}

/// Two settings hold the same values.
pub open spec fn same_settings(a: RuntimeSettings, b: RuntimeSettings) -> bool {
    settings_are(a, b.working_dir@, b.timeout, b.max_output_chars)
}

/// Why a request to the terminal failed.
#[derive(Clone, Debug, PartialEq, Eq)]
pub enum TerminalError {
    Unauthorized,
    EmptyCommand,
    /// The command ran longer than this many seconds.
    TimedOut(u64),
    /// The command could not be started (the system's message).
    Spawn(String),
    /// Waiting for the command failed (the system's message).
    Wait(String),
    InvalidSetting(String),
    Persist(String),
}

/// How a duration of whole seconds is shown: `20s`, and `0ns` for none.
pub open spec fn duration_text(secs: u64) -> Seq<char> {
    if secs == 0 {
        "0ns"@
    } else {
        decimal(secs as nat) + "s"@
    }
}

impl TerminalError {
    /// The text that describes the error.
    pub open spec fn message_text(&self) -> Seq<char> {
        match self {
            TerminalError::Unauthorized => "the current user is not authorized"@,
            TerminalError::EmptyCommand => "command must not be empty"@,
            TerminalError::TimedOut(secs) => "command timed out after "@ + duration_text(*secs),
            TerminalError::Spawn(_) => "failed to start command"@,
            TerminalError::Wait(_) => "failed to wait for command"@,
            TerminalError::InvalidSetting(m) => m@,
            TerminalError::Persist(m) => "failed to persist configuration: "@ + m@,
        }
    }

    /// The text that describes the error.
    pub fn message(&self) -> (r: String)
        ensures
            r@ == self.message_text(),
    {
        match self {
            TerminalError::Unauthorized => String::from_str("the current user is not authorized"),
            TerminalError::EmptyCommand => String::from_str("command must not be empty"),
            TerminalError::TimedOut(secs) => {
                let mut r = String::from_str("command timed out after ");
                if *secs == 0 {
                    r.append("0ns");
                } else {
                    let d = decimal_string(*secs);
                    r.append(d.as_str());
                    r.append("s");
                }
                r
            },
            TerminalError::Spawn(_) => String::from_str("failed to start command"),
            TerminalError::Wait(_) => String::from_str("failed to wait for command"),
            TerminalError::InvalidSetting(m) => m.clone(),
            TerminalError::Persist(m) => {
                let mut r = String::from_str("failed to persist configuration: ");
                r.append(m.as_str());
                r
            },
        }
    }
}

/// The change that an accepted update makes to the settings.
#[derive(Clone, Debug, PartialEq, Eq)]
pub enum SettingChange {
    Workdir(String),
    Timeout(u64),
    MaxOutput(usize),
}

/// The values of the settings: working directory, timeout, output limit.
pub open spec fn settings_values(s: RuntimeSettings) -> (Seq<char>, u64, usize) {
    (s.working_dir@, s.timeout, s.max_output_chars)
}

/// The values of the settings after a change: the one setting it names
/// takes its new value, the others keep theirs.
pub open spec fn apply_change(v: (Seq<char>, u64, usize), c: SettingChange) -> (
    Seq<char>,
    u64,
    usize,
) {
    match c {
        SettingChange::Workdir(d) => (d@, v.1, v.2),
        SettingChange::Timeout(t) => (v.0, t, v.2),
        SettingChange::MaxOutput(m) => (v.0, v.1, m),
    }
}

/// The settings after a change.
pub open spec fn changed_settings(s: RuntimeSettings, c: SettingChange) -> (Seq<char>, u64, usize) {
    apply_change(settings_values(s), c)
}

/// An accepted update: `key=value` is to be stored in the env file, and
/// then `change` made to the settings.
#[derive(Clone, Debug, PartialEq, Eq)]
pub struct PendingUpdate {
    pub key: String,
    pub value: String,
    pub change: SettingChange,
}

/// An accepted command and the settings it is to run with.
#[derive(Clone, Debug, PartialEq, Eq)]
pub struct CommandPlan {
    /// The command line, trimmed.
    pub command: String,
    pub working_dir: String,
    /// Seconds the command may run.
    pub timeout: u64,
    pub max_output_chars: usize,
}

/// What happened when a command was run.
#[derive(Clone, Debug, PartialEq, Eq)]
pub enum CommandOutcome {
    /// The command could not be started (the system's message).
    SpawnFailed(String),
    /// The command did not finish in time.
    TimedOut,
    /// Waiting for the command failed (the system's message).
    WaitFailed(String),
    /// The command finished.
    Completed { exit_code: Option<i32>, stdout: Vec<u8>, stderr: Vec<u8> },
}

/// What `String::from_utf8_lossy` makes of the bytes.
pub uninterp spec fn utf8_lossy(bytes: Seq<u8>) -> Seq<char>;

/// `String::from_utf8_lossy`: the text the bytes encode, with each invalid
/// sequence replaced by U+FFFD. Stated: its result is a function of the
/// bytes, and valid UTF-8 decodes to the characters it encodes; how invalid
/// sequences are replaced is left unsaid.
#[verifier::external_body]
fn decode_lossy(bytes: &[u8]) -> (r: String)
    ensures
        r@ == utf8_lossy(bytes@),
        valid_utf8(bytes@) ==> r@ == decode_utf8(bytes@),
{
    String::from_utf8_lossy(bytes).into_owned()
}

/// `HashSet::clone` on a set of user ids: the copy holds the same ids.
#[verifier::external_body]
fn copy_user_ids(ids: &HashSet<u64>) -> (r: HashSet<u64>)
    ensures
        r@ == ids@,
{
    ids.clone()
}

/// `text` cut down to `limit` characters, with a marker when it was longer.
pub fn truncate_output(text: &str, limit: usize) -> (r: String)
    ensures
        r@ == truncated(text@, limit as nat),
{
    truncate_text(text, limit)
}

impl CommandPlan {
    /// The result of a command that finished with this exit code and output:
    /// each stream is cut down to the plan's limit.
    pub fn complete(&self, exit_code: Option<i32>, stdout: &str, stderr: &str) -> (r:
        CommandResult)
        ensures
            r.exit_code == exit_code,
            r.stdout@ == truncated(stdout@, self.max_output_chars as nat),
            r.stderr@ == truncated(stderr@, self.max_output_chars as nat),
    {
        CommandResult {
            exit_code,
            stdout: truncate_output(stdout, self.max_output_chars),
            stderr: truncate_output(stderr, self.max_output_chars),
        }
    }

    /// What running the command gave: the errors of starting, timing out and
    /// waiting, or the result with its output decoded and cut down.
    pub fn finish(&self, outcome: CommandOutcome) -> (r: Result<CommandResult, TerminalError>)
        ensures
            match outcome {
                CommandOutcome::SpawnFailed(m) => r matches Err(TerminalError::Spawn(e)) && e@
                    == m@,
                CommandOutcome::TimedOut => r == Err::<CommandResult, TerminalError>(
                    TerminalError::TimedOut(self.timeout),
                ),
                CommandOutcome::WaitFailed(m) => r matches Err(TerminalError::Wait(e)) && e@
                    == m@,
                CommandOutcome::Completed { exit_code, stdout, stderr } => r matches Ok(res)
                    && res.exit_code == exit_code && res.stdout@ == truncated(
                    utf8_lossy(stdout@),
                    self.max_output_chars as nat,
                ) && res.stderr@ == truncated(utf8_lossy(stderr@), self.max_output_chars as nat),
            },
    {
        match outcome {
            CommandOutcome::SpawnFailed(m) => Err(TerminalError::Spawn(m)),
            CommandOutcome::TimedOut => Err(TerminalError::TimedOut(self.timeout)),
            CommandOutcome::WaitFailed(m) => Err(TerminalError::Wait(m)),
            CommandOutcome::Completed { exit_code, stdout, stderr } => {
                let out = decode_lossy(stdout.as_slice());
                let err = decode_lossy(stderr.as_slice());
                Ok(self.complete(exit_code, out.as_str(), err.as_str()))
            },
        }
    }
}

/// The users who may use the terminal, its settings, and where the settings
/// are stored.
#[derive(Debug)]
pub struct TerminalService {
    allowed_user_ids: HashSet<u64>,
    settings: RuntimeSettings,
    env_file_path: String,
}

impl TerminalService {
    /// The users who may use the terminal.
    pub closed spec fn allowed(&self) -> Set<u64> {
        self.allowed_user_ids@
    }

    /// The current settings.
    pub closed spec fn settings_view(&self) -> RuntimeSettings {
        self.settings
    }

    /// Where the settings are stored.
    pub closed spec fn env_path(&self) -> Seq<char> {
        self.env_file_path@
    }

    /// A service with the users, settings and env file of `config`.
    pub fn new(config: &Config) -> (r: Self)
        ensures
            r.allowed() == config.allowed_user_ids@,
            settings_are(
                r.settings_view(),
                config.working_dir@,
                config.command_timeout,
                config.max_output_chars,
            ),
            r.env_path() == config.env_file_path@,
    {
        TerminalService {
            allowed_user_ids: copy_user_ids(&config.allowed_user_ids),
            settings: RuntimeSettings {
                working_dir: config.working_dir.clone(),
                timeout: config.command_timeout,
                max_output_chars: config.max_output_chars,
            },
            env_file_path: config.env_file_path.clone(),
        }
    }

    /// The directory commands run in.
    pub fn working_dir(&self) -> (r: String)
        ensures
            r@ == self.settings_view().working_dir@,
    {
        self.settings.working_dir.clone()
    }

    /// Seconds a command may run.
    pub fn timeout(&self) -> (r: u64)
        ensures
            r == self.settings_view().timeout,
    {
        self.settings.timeout
    }

    /// The number of users who may use the terminal.
    pub fn authorized_user_count(&self) -> (r: usize)
        ensures
            r == self.allowed().len(),
    {
        self.allowed_user_ids.len()
    }

    /// The number of characters of each output stream that are kept.
    pub fn max_output_chars(&self) -> (r: usize)
        ensures
            r == self.settings_view().max_output_chars,
    {
        self.settings.max_output_chars
    }

    /// A copy of the current settings.
    pub fn current_settings(&self) -> (r: RuntimeSettings)
        ensures
            same_settings(r, self.settings_view()),
    {
        RuntimeSettings {
            working_dir: self.settings.working_dir.clone(),
            timeout: self.settings.timeout,
            max_output_chars: self.settings.max_output_chars,
        }
    }

    /// The path of the env file the settings are stored in.
    pub fn env_file_path(&self) -> (r: String)
        ensures
            r@ == self.env_path(),
    {
        self.env_file_path.clone()
    }

    /// Whether the user may use the terminal.
    pub fn is_user_allowed(&self, user_id: u64) -> (r: bool)
        ensures
            r == self.allowed().contains(user_id),
    {
        self.allowed_user_ids.contains(&user_id)
    }

    fn ensure_user_allowed(&self, user_id: u64) -> (r: Result<(), TerminalError>)
        ensures
            self.allowed().contains(user_id) ==> r is Ok,
            !self.allowed().contains(user_id) ==> r == Err::<(), TerminalError>(
                TerminalError::Unauthorized,
            ),
    {
        if self.is_user_allowed(user_id) {
            Ok(())
        } else {
            Err(TerminalError::Unauthorized)
        }
    }

    /// A request to change the working directory, given what the file system
    /// said of the directory asked for: refused for a user who may not use the
    /// terminal, and for a directory that cannot be used; otherwise the
    /// canonical directory is to be stored as `BOT_WORKDIR`. (`plan_message`
    /// refuses a user who may not use the terminal before any directory is
    /// probed.)
    pub fn update_workdir_for_user(&self, user_id: u64, probe: &WorkdirProbe) -> (r: Result<
        PendingUpdate,
        TerminalError,
    >)
        ensures
            !self.allowed().contains(user_id) ==> r == Err::<PendingUpdate, TerminalError>(
                TerminalError::Unauthorized,
            ),
            self.allowed().contains(user_id) ==> match workdir_result(*probe) {
                Err(m) => r matches Err(TerminalError::InvalidSetting(e)) && e@ == m,
                Ok(d) => r matches Ok(p) && p.key@ == "BOT_WORKDIR"@ && p.value@ == d
                    && (p.change matches SettingChange::Workdir(w) && w@ == d),
            },
    {
        self.ensure_user_allowed(user_id)?;
        match validate_workdir(probe) {
            Err(e) => Err(TerminalError::InvalidSetting(e.message())),
            Ok(dir) => Ok(
                PendingUpdate {
                    key: String::from_str("BOT_WORKDIR"),
                    value: dir.clone(),
                    change: SettingChange::Workdir(dir),
                },
            ),
        }
    }

    /// A request to change the timeout: refused for a user who may not use
    /// the terminal, and unless the trimmed text is a number above zero;
    /// otherwise the number is to be stored as `BOT_COMMAND_TIMEOUT_SECS`.
    pub fn update_timeout_for_user(&self, user_id: u64, seconds: &str) -> (r: Result<
        PendingUpdate,
        TerminalError,
    >)
        ensures
            !self.allowed().contains(user_id) ==> r == Err::<PendingUpdate, TerminalError>(
                TerminalError::Unauthorized,
            ),
            self.allowed().contains(user_id) ==> match parsed_u64(trimmed(seconds@)) {
                None => r matches Err(TerminalError::InvalidSetting(e)) && e@
                    == "timeout must be a positive integer"@,
                Some(n) => if n == 0 {
                    r matches Err(TerminalError::InvalidSetting(e)) && e@
                        == "timeout must be greater than 0"@
                } else {
                    r matches Ok(p) && p.key@ == "BOT_COMMAND_TIMEOUT_SECS"@ && p.value@
                        == decimal(n as nat) && p.change == SettingChange::Timeout(n)
                },
            },
    {
        self.ensure_user_allowed(user_id)?;
        let t = trim(seconds);
        let parsed = match parse_u64(t.as_str()) {
            Some(n) => n,
            None => {
                return Err(
                    TerminalError::InvalidSetting(
                        String::from_str("timeout must be a positive integer"),
                    ),
                );
            },
        };
        if parsed == 0 {
            return Err(
                TerminalError::InvalidSetting(String::from_str("timeout must be greater than 0")),
            );
        }
        Ok(
            PendingUpdate {
                key: String::from_str("BOT_COMMAND_TIMEOUT_SECS"),
                value: decimal_string(parsed),
                change: SettingChange::Timeout(parsed),
            },
        )
    }

    /// A request to change how many characters of output are kept: refused
    /// for a user who may not use the terminal, and unless the trimmed text is
    /// a number above zero; otherwise the number is to be stored as
    /// `BOT_MAX_OUTPUT_CHARS`.
    pub fn update_max_output_for_user(&self, user_id: u64, chars: &str) -> (r: Result<
        PendingUpdate,
        TerminalError,
    >)
        ensures
            !self.allowed().contains(user_id) ==> r == Err::<PendingUpdate, TerminalError>(
                TerminalError::Unauthorized,
            ),
            self.allowed().contains(user_id) ==> match parsed_usize(trimmed(chars@)) {
                None => r matches Err(TerminalError::InvalidSetting(e)) && e@
                    == "max output chars must be a positive integer"@,
                Some(n) => if n == 0 {
                    r matches Err(TerminalError::InvalidSetting(e)) && e@
                        == "max output chars must be greater than 0"@
                } else {
                    r matches Ok(p) && p.key@ == "BOT_MAX_OUTPUT_CHARS"@ && p.value@ == decimal(
                        n as nat,
                    ) && p.change == SettingChange::MaxOutput(n)
                },
            },
    {
        self.ensure_user_allowed(user_id)?;
        let t = trim(chars);
        let parsed = match parse_usize(t.as_str()) {
            Some(n) => n,
            None => {
                return Err(
                    TerminalError::InvalidSetting(
                        String::from_str("max output chars must be a positive integer"),
                    ),
                );
            },
        };
        if parsed == 0 {
            return Err(
                TerminalError::InvalidSetting(
                    String::from_str("max output chars must be greater than 0"),
                ),
            );
        }
        Ok(
            PendingUpdate {
                key: String::from_str("BOT_MAX_OUTPUT_CHARS"),
                value: decimal_string(parsed as u64),
                change: SettingChange::MaxOutput(parsed),
            },
        )
    }

    /// Finishes an accepted update once storing it was tried: when storing
    /// failed nothing changes and the error is reported; otherwise the change
    /// is made and the new settings are returned.
    pub fn commit_update(&mut self, update: &PendingUpdate, persisted: Result<(), ConfigError>) -> (r:
        Result<RuntimeSettings, TerminalError>)
        ensures
            final(self).allowed() == old(self).allowed(),
            final(self).env_path() == old(self).env_path(),
            match persisted {
                Err(e) => {
                    &&& r matches Err(TerminalError::Persist(m)) && m@ == e.message_text()
                    &&& final(self).settings_view() == old(self).settings_view()
                },
                Ok(_) => {
                    let (d, t, m) = changed_settings(old(self).settings_view(), update.change);
                    &&& settings_are(final(self).settings_view(), d, t, m)
                    &&& r matches Ok(s) && same_settings(s, final(self).settings_view())
                },
            },
    {
        if let Err(e) = persisted {
            return Err(TerminalError::Persist(e.message()));
        }
        match &update.change {
            SettingChange::Workdir(d) => {
                self.settings.working_dir = d.clone();
            },
            SettingChange::Timeout(t) => {
                self.settings.timeout = *t;
            },
            SettingChange::MaxOutput(m) => {
                self.settings.max_output_chars = *m;
            },
        }
        Ok(self.current_settings())
    }

    /// A request to run a command: refused for a user who may not use the
    /// terminal and for a blank command; otherwise the trimmed command is to
    /// run with the current settings.
    pub fn execute_for_user(&self, user_id: u64, command: &str) -> (r: Result<
        CommandPlan,
        TerminalError,
    >)
        ensures
            !self.allowed().contains(user_id) ==> r == Err::<CommandPlan, TerminalError>(
                TerminalError::Unauthorized,
            ),
            self.allowed().contains(user_id) && trimmed(command@).len() == 0 ==> r == Err::<
                CommandPlan,
                TerminalError,
            >(TerminalError::EmptyCommand),
            self.allowed().contains(user_id) && trimmed(command@).len() > 0 ==> (r matches Ok(p)
                && p.command@ == trimmed(command@) && p.working_dir@
                == self.settings_view().working_dir@ && p.timeout == self.settings_view().timeout
                && p.max_output_chars == self.settings_view().max_output_chars),
    {
        self.ensure_user_allowed(user_id)?;
        let command = trim(command);
        if command.as_str().is_empty() {
            return Err(TerminalError::EmptyCommand);
        }
        Ok(
            CommandPlan {
                command,
                working_dir: self.settings.working_dir.clone(),
                timeout: self.settings.timeout,
                max_output_chars: self.settings.max_output_chars,
            },
        )
    }
}

} // verus!
