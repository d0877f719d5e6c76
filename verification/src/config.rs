//! Start-up configuration: the values read from the environment and the
//! rules that turn them into settings.
use std::collections::HashSet;

use vstd::prelude::*;

use crate::text::{
    append_chars, chars_of, find_char, find_from, parse_u64, parse_usize, parsed_u64,
    parsed_usize, trim, trimmed,
};

verus! {

broadcast use vstd::std_specs::hash::group_hash_axioms;

/// The settings the bot starts with.
#[derive(Debug)]
pub struct Config {
    pub telegram_bot_token: String,
    pub allowed_user_ids: HashSet<u64>,
    pub working_dir: String,
    /// Seconds a command may run.
    pub command_timeout: u64,
    pub max_output_chars: usize,
    pub env_file_path: String,
}

/// Why the configuration could not be read or stored.
#[derive(Clone, Debug, PartialEq, Eq)]
pub enum ConfigError {
    /// A required variable (its name) is not set.
    MissingVariable(String),
    /// An entry of the user list (trimmed) is no user id.
    InvalidUserId(String),
    /// A variable (its name) does not hold an unsigned integer.
    NotAnInteger(String),
    /// A variable could not be read.
    Unreadable { key: String, detail: String },
    /// The current directory could not be determined.
    CurrentDirUnavailable,
    /// The working directory (as shown) does not exist.
    WorkdirMissing(String),
    /// The working directory (as shown) is no directory.
    WorkdirNotDirectory(String),
    /// The working directory (as shown) has no canonical form.
    WorkdirUncanonical(String),
    /// The env file (its path) could not be read.
    EnvFileUnreadable(String),
    /// The env file (its path) could not be written.
    EnvFileUnwritable(String),
}

impl ConfigError {
    /// The text that describes the error.
    pub open spec fn message_text(&self) -> Seq<char> {
        match self {
            ConfigError::MissingVariable(key) => key@ + " is required but missing"@,
            ConfigError::InvalidUserId(item) => "failed to parse Telegram user id: "@ + item@,
            ConfigError::NotAnInteger(key) => key@ + " must be a positive integer"@,
            ConfigError::Unreadable { key, detail } => "failed to read "@ + key@ + ": "@
                + detail@,
            ConfigError::CurrentDirUnavailable => "failed to resolve current working directory"@,
            ConfigError::WorkdirMissing(path) => "BOT_WORKDIR does not exist: "@ + path@,
            ConfigError::WorkdirNotDirectory(path) => "BOT_WORKDIR is not a directory: "@ + path@,
            ConfigError::WorkdirUncanonical(path) => "failed to canonicalize BOT_WORKDIR: "@
                + path@,
            ConfigError::EnvFileUnreadable(path) => "failed to read env file: "@ + path@,
            ConfigError::EnvFileUnwritable(path) => "failed to write env file: "@ + path@,
        }
    }

    /// The text that describes the error.
    pub fn message(&self) -> (r: String)
        ensures
            r@ == self.message_text(),
    {
        match self {
            ConfigError::MissingVariable(key) => {
                let mut r = key.clone();
                r.append(" is required but missing");
                r
            },
            ConfigError::InvalidUserId(item) => {
                let mut r = String::from_str("failed to parse Telegram user id: ");
                r.append(item.as_str());
                r
            },
            ConfigError::NotAnInteger(key) => {
                let mut r = key.clone();
                r.append(" must be a positive integer");
                r
            },
            ConfigError::Unreadable { key, detail } => {
                let mut r = String::from_str("failed to read ");
                r.append(key.as_str());
                r.append(": ");
                r.append(detail.as_str());
                r
            },
            ConfigError::CurrentDirUnavailable => String::from_str(
                "failed to resolve current working directory",
            ),
            ConfigError::WorkdirMissing(path) => {
                let mut r = String::from_str("BOT_WORKDIR does not exist: ");
                r.append(path.as_str());
                r
            },
            ConfigError::WorkdirNotDirectory(path) => {
                let mut r = String::from_str("BOT_WORKDIR is not a directory: ");
                r.append(path.as_str());
                r
            },
            ConfigError::WorkdirUncanonical(path) => {
                let mut r = String::from_str("failed to canonicalize BOT_WORKDIR: ");
                r.append(path.as_str());
                r
            },
            ConfigError::EnvFileUnreadable(path) => {
                let mut r = String::from_str("failed to read env file: ");
                r.append(path.as_str());
                r
            },
            ConfigError::EnvFileUnwritable(path) => {
                let mut r = String::from_str("failed to write env file: ");
                r.append(path.as_str());
                r
            },
        }
    }
}

/// What looking up an environment variable gave.
#[derive(Clone, Debug, PartialEq, Eq)]
pub enum EnvValue {
    /// The variable is set to this text.
    Present(String),
    /// The variable is not set.
    NotPresent,
    /// The variable is set but is not valid Unicode (the lookup's message).
    NotUnicode(String),
}

/// A required variable: its value, or `MissingVariable` when it is not set
/// or not readable.
pub fn required_env(key: &str, value: &EnvValue) -> (r: Result<String, ConfigError>)
    ensures
        match value {
            EnvValue::Present(v) => r matches Ok(s) && s@ == v@,
            _ => r matches Err(ConfigError::MissingVariable(k)) && k@ == key@,
        },
{
    match value {
        EnvValue::Present(v) => Ok(v.clone()),
        _ => Err(ConfigError::MissingVariable(key.to_owned())),
    }
}

/// An unsigned setting read from a variable: the default when the variable
/// is not set or blank; otherwise the trimmed text parsed as a `u64`.
pub fn parse_u64_env(key: &str, value: &EnvValue, default: u64) -> (r: Result<u64, ConfigError>)
    ensures
        match value {
            EnvValue::Present(v) => if trimmed(v@).len() == 0 {
                r == Ok::<u64, ConfigError>(default)
            } else {
                match parsed_u64(trimmed(v@)) {
                    Some(n) => r == Ok::<u64, ConfigError>(n),
                    None => r matches Err(ConfigError::NotAnInteger(k)) && k@ == key@,
                }
            },
            EnvValue::NotPresent => r == Ok::<u64, ConfigError>(default),
            EnvValue::NotUnicode(detail) => r matches Err(ConfigError::Unreadable { key: k, detail: d })
                && k@ == key@ && d@ == detail@,
        },
{
    match value {
        EnvValue::Present(v) => {
            let t = trim(v.as_str());
            if t.as_str().is_empty() {
                Ok(default)
            } else {
                match parse_u64(t.as_str()) {
                    Some(n) => Ok(n),
                    None => Err(ConfigError::NotAnInteger(key.to_owned())),
                }
            }
        },
        EnvValue::NotPresent => Ok(default),
        EnvValue::NotUnicode(detail) => Err(
            ConfigError::Unreadable { key: key.to_owned(), detail: detail.clone() },
        ),
    }
}

/// A size setting read from a variable, as `parse_u64_env` does for `usize`.
pub fn parse_usize_env(key: &str, value: &EnvValue, default: usize) -> (r: Result<
    usize,
    ConfigError,
>)
    ensures
        match value {
            EnvValue::Present(v) => if trimmed(v@).len() == 0 {
                r == Ok::<usize, ConfigError>(default)
            } else {
                match parsed_usize(trimmed(v@)) {
                    Some(n) => r == Ok::<usize, ConfigError>(n),
                    None => r matches Err(ConfigError::NotAnInteger(k)) && k@ == key@,
                }
            },
            EnvValue::NotPresent => r == Ok::<usize, ConfigError>(default),
            EnvValue::NotUnicode(detail) => r matches Err(ConfigError::Unreadable { key: k, detail: d })
                && k@ == key@ && d@ == detail@,
        },
{
    match value {
        EnvValue::Present(v) => {
            let t = trim(v.as_str());
            if t.as_str().is_empty() {
                Ok(default)
            } else {
                match parse_usize(t.as_str()) {
                    Some(n) => Ok(n),
                    None => Err(ConfigError::NotAnInteger(key.to_owned())),
                }
            }
        },
        EnvValue::NotPresent => Ok(default),
        EnvValue::NotUnicode(detail) => Err(
            ConfigError::Unreadable { key: key.to_owned(), detail: detail.clone() },
        ),
    }
}

// ---------------------------------------------------------------------------
// The list of users
// ---------------------------------------------------------------------------

/// The user ids in the comma-separated entries of `s` from `pos` on: each
/// entry is trimmed, blank entries are skipped, and the first entry (from the
/// left) that is no `u64` is the error.
pub open spec fn user_ids_from(s: Seq<char>, pos: int) -> Result<Set<u64>, Seq<char>>
    decreases s.len() - pos,
{
    let k = find_from(s, ',', pos);
    let item = trimmed(s.subrange(pos, k));
    let rest = if pos <= k < s.len() {
        user_ids_from(s, k + 1)
    } else {
        Ok(Set::empty())
    };
    if item.len() == 0 {
        rest
    } else {
        match parsed_u64(item) {
            None => Err(item),
            Some(n) => match rest {
                Ok(ids) => Ok(ids.insert(n)),
                Err(e) => Err(e),
            },
        }
    }
}

/// The user ids that the text of `BOT_ALLOWED_USER_IDS` lists.
pub open spec fn user_ids(s: Seq<char>) -> Result<Set<u64>, Seq<char>> {
    user_ids_from(s, 0)
}

/// The ids collected so far joined with what the rest of the list gives.
pub open spec fn with_ids(acc: Set<u64>, rest: Result<Set<u64>, Seq<char>>) -> Result<
    Set<u64>,
    Seq<char>,
> {
    match rest {
        Ok(ids) => Ok(acc.union(ids)),
        Err(e) => Err(e),
    }
}

/// Parses the list of allowed users; no list means no users.
pub fn parse_user_ids(raw: Option<&str>) -> (r: Result<HashSet<u64>, ConfigError>)
    ensures
        match raw {
            None => r matches Ok(ids) && ids@ == Set::<u64>::empty(),
            Some(text) => match user_ids(text@) {
                Ok(expected) => r matches Ok(ids) && ids@ == expected,
                Err(item) => r matches Err(ConfigError::InvalidUserId(t)) && t@ == item,
            },
        },
{
    let mut ids: HashSet<u64> = HashSet::new();
    let text = match raw {
        None => {
            return Ok(ids);
        },
        Some(t) => t,
    };
    let v = chars_of(text);
    let mut pos: usize = 0;
    proof {
        match user_ids_from(v@, 0) {
            Ok(r) => {
                assert(ids@.union(r) =~= r);
            },
            Err(_) => {},
        }
    }
    loop
        invariant
            raw == Some(text),
            pos <= v.len(),
            v@ == text@,
            user_ids(v@) == with_ids(ids@, user_ids_from(v@, pos as int)),
        decreases v.len() - pos,
    {
        let k = find_char(&v, ',', pos);
        let mut item = String::new();
        append_chars(&mut item, &v, pos, k);
        let t = trim(item.as_str());
        let ghost rest = if k < v.len() {
            user_ids_from(v@, k + 1)
        } else {
            Ok(Set::empty())
        };
        if !t.as_str().is_empty() {
            match parse_u64(t.as_str()) {
                None => {
                    return Err(ConfigError::InvalidUserId(t));
                },
                Some(n) => {
                    proof {
                        match rest {
                            Ok(r) => {
                                assert(ids@.insert(n).union(r) =~= ids@.union(r.insert(n)));
                            },
                            Err(_) => {},
                        }
                    }
                    ids.insert(n);
                },
            }
        }
        if k >= v.len() {
            assert(ids@.union(Set::empty()) =~= ids@);
            return Ok(ids);
        }
        pos = k + 1;
    }
}

// ---------------------------------------------------------------------------
// The working directory
// ---------------------------------------------------------------------------

/// The directory asked for: `Some(path)` for a path that is given and not
/// blank (kept as written), `None` for the current directory.
pub fn workdir_candidate(raw: Option<&str>) -> (r: Option<String>)
    ensures
        match raw {
            Some(text) => if trimmed(text@).len() > 0 {
                r matches Some(p) && p@ == text@
            } else {
                r is None
            },
            None => r is None,
        },
{
    match raw {
        Some(text) => {
            let t = trim(text);
            if t.as_str().is_empty() {
                None
            } else {
                Some(text.to_owned())
            }
        },
        None => None,
    }
}

/// What the file system said of the directory asked for.
#[derive(Clone, Debug, PartialEq, Eq)]
pub enum WorkdirProbe {
    /// The current directory was asked for and could not be determined.
    CurrentDirUnavailable,
    /// The directory, as shown, and what was found of it.
    Checked { shown: String, exists: bool, is_dir: bool, canonical: Option<String> },
}

/// The working directory that a probe allows (its view), or the message of
/// the error that it gives.
pub open spec fn workdir_result(probe: WorkdirProbe) -> Result<Seq<char>, Seq<char>> {
    match probe {
        WorkdirProbe::CurrentDirUnavailable => Err(
            ConfigError::CurrentDirUnavailable.message_text(),
        ),
        WorkdirProbe::Checked { shown, exists, is_dir, canonical } => if !exists {
            Err(ConfigError::WorkdirMissing(shown).message_text())
        } else if !is_dir {
            Err(ConfigError::WorkdirNotDirectory(shown).message_text())
        } else {
            match canonical {
                Some(c) => Ok(c@),
                None => Err(ConfigError::WorkdirUncanonical(shown).message_text()),
            }
        },
    }
}

/// The working directory to use: the canonical form of a directory that
/// exists, or why it cannot be used.
pub fn validate_workdir(probe: &WorkdirProbe) -> (r: Result<String, ConfigError>)
    ensures
        match workdir_result(*probe) {
            Ok(d) => r matches Ok(x) && x@ == d,
            Err(m) => r matches Err(e) && e.message_text() == m,
        },
        match probe {
            WorkdirProbe::CurrentDirUnavailable => r matches Err(
                ConfigError::CurrentDirUnavailable,
            ),
            WorkdirProbe::Checked { shown, exists, is_dir, canonical } => if !*exists {
                r matches Err(ConfigError::WorkdirMissing(p)) && p@ == shown@
            } else if !*is_dir {
                r matches Err(ConfigError::WorkdirNotDirectory(p)) && p@ == shown@
            } else {
                match canonical {
                    Some(c) => r matches Ok(d) && d@ == c@,
                    None => r matches Err(ConfigError::WorkdirUncanonical(p)) && p@ == shown@,
                }
            },
        },
{
    match probe {
        WorkdirProbe::CurrentDirUnavailable => Err(ConfigError::CurrentDirUnavailable),
        WorkdirProbe::Checked { shown, exists, is_dir, canonical } => {
            if !*exists {
                Err(ConfigError::WorkdirMissing(shown.clone()))
            } else if !*is_dir {
                Err(ConfigError::WorkdirNotDirectory(shown.clone()))
            } else {
                match canonical {
                    Some(c) => Ok(c.clone()),
                    None => Err(ConfigError::WorkdirUncanonical(shown.clone())),
                }
            }
        },
    }
}


// ---------------------------------------------------------------------------
// Assembling the configuration
// ---------------------------------------------------------------------------

/// Seconds a command may run when `BOT_COMMAND_TIMEOUT_SECS` is not set.
pub const DEFAULT_COMMAND_TIMEOUT_SECS: u64 = 20;

/// Characters of output kept when `BOT_MAX_OUTPUT_CHARS` is not set.
pub const DEFAULT_MAX_OUTPUT_CHARS: usize = 3000;

/// A text that may be missing, as characters.
pub open spec fn optional_text(o: Option<&str>) -> Option<Seq<char>> {
    match o {
        Some(t) => Some(t@),
        None => None,
    }
}

/// A required variable: its text, or the message of `MissingVariable`.
pub open spec fn required_result(key: Seq<char>, value: EnvValue) -> Result<Seq<char>, Seq<char>> {
    match value {
        EnvValue::Present(v) => Ok(v@),
        _ => Err(key + " is required but missing"@),
    }
}

/// The list of users (when there is one): its ids, or the message of
/// `InvalidUserId`.
pub open spec fn ids_result(raw: Option<Seq<char>>) -> Result<Set<u64>, Seq<char>> {
    match raw {
        None => Ok(Set::empty()),
        Some(t) => match user_ids(t) {
            Ok(ids) => Ok(ids),
            Err(item) => Err("failed to parse Telegram user id: "@ + item),
        },
    }
}

/// An unsigned setting as `parse_u64_env` reads it: its value, or the
/// message of its error.
pub open spec fn u64_setting(key: Seq<char>, value: EnvValue, default: u64) -> Result<u64, Seq<char>> {
    match value {
        EnvValue::Present(v) => if trimmed(v@).len() == 0 {
            Ok(default)
        } else {
            match parsed_u64(trimmed(v@)) {
                Some(n) => Ok(n),
                None => Err(key + " must be a positive integer"@),
            }
        },
        EnvValue::NotPresent => Ok(default),
        EnvValue::NotUnicode(detail) => Err("failed to read "@ + key + ": "@ + detail@),
    }
}

/// A size setting as `parse_usize_env` reads it: its value, or the message
/// of its error.
pub open spec fn usize_setting(key: Seq<char>, value: EnvValue, default: usize) -> Result<
    usize,
    Seq<char>,
> {
    match value {
        EnvValue::Present(v) => if trimmed(v@).len() == 0 {
            Ok(default)
        } else {
            match parsed_usize(trimmed(v@)) {
                Some(n) => Ok(n),
                None => Err(key + " must be a positive integer"@),
            }
        },
        EnvValue::NotPresent => Ok(default),
        EnvValue::NotUnicode(detail) => Err("failed to read "@ + key + ": "@ + detail@),
    }
}

/// The path of `.env` in the directory `dir` (`Path::join` on Unix: a `/`
/// is put between them unless `dir` is empty or already ends with one).
pub open spec fn env_file_in(dir: Seq<char>) -> Seq<char> {
    if dir.len() == 0 || dir.last() == '/' {
        dir + ".env"@
    } else {
        dir + "/.env"@
    }
}

/// The path of `.env` in the directory `dir`.
pub fn env_file_path_in(dir: &str) -> (r: String)
    ensures
        r@ == env_file_in(dir@),
{
    let v = chars_of(dir);
    let mut r = dir.to_owned();
    if v.len() == 0 || v[v.len() - 1] == '/' {
        r.append(".env");
    } else {
        r.append("/.env");
    }
    r
}

impl Config {
    /// The configuration from what was looked up at start: the current
    /// directory (if it could be determined), `TELEGRAM_BOT_TOKEN`,
    /// `BOT_ALLOWED_USER_IDS` (if set), what the file system said of the
    /// directory `BOT_WORKDIR` names, `BOT_COMMAND_TIMEOUT_SECS` and
    /// `BOT_MAX_OUTPUT_CHARS`. They are checked in this order and the first
    /// error is returned; the timeout defaults to 20 seconds and the output
    /// limit to 3000 characters, and `.env` is looked for in the current
    /// directory.
    pub fn from_lookup(
        current_dir: Option<&str>,
        token: &EnvValue,
        raw_ids: Option<&str>,
        workdir: &WorkdirProbe,
        timeout: &EnvValue,
        max_output: &EnvValue,
    ) -> (r: Result<Config, ConfigError>)
        ensures
            match current_dir {
                None => r matches Err(ConfigError::CurrentDirUnavailable),
                Some(d) => match (
                    required_result("TELEGRAM_BOT_TOKEN"@, *token),
                    ids_result(optional_text(raw_ids)),
                    workdir_result(*workdir),
                    u64_setting(
                        "BOT_COMMAND_TIMEOUT_SECS"@,
                        *timeout,
                        DEFAULT_COMMAND_TIMEOUT_SECS,
                    ),
                    usize_setting("BOT_MAX_OUTPUT_CHARS"@, *max_output, DEFAULT_MAX_OUTPUT_CHARS),
                ) {
                    (Err(m), _, _, _, _) => r matches Err(e) && e.message_text() == m,
                    (Ok(_), Err(m), _, _, _) => r matches Err(e) && e.message_text() == m,
                    (Ok(_), Ok(_), Err(m), _, _) => r matches Err(e) && e.message_text() == m,
                    (Ok(_), Ok(_), Ok(_), Err(m), _) => r matches Err(e) && e.message_text() == m,
                    (Ok(_), Ok(_), Ok(_), Ok(_), Err(m)) => r matches Err(e) && e.message_text()
                        == m,
                    (Ok(tok), Ok(ids), Ok(dir), Ok(t), Ok(m)) => r matches Ok(c)
                        && c.telegram_bot_token@ == tok && c.allowed_user_ids@ == ids
                        && c.working_dir@ == dir && c.command_timeout == t && c.max_output_chars
                        == m && c.env_file_path@ == env_file_in(d@),
                },
            },
    {
        let dir = match current_dir {
            Some(d) => d,
            None => {
                return Err(ConfigError::CurrentDirUnavailable);
            },
        };
        let telegram_bot_token = required_env("TELEGRAM_BOT_TOKEN", token)?;
        let allowed_user_ids = parse_user_ids(raw_ids)?;
        let working_dir = validate_workdir(workdir)?;
        let command_timeout = parse_u64_env(
            "BOT_COMMAND_TIMEOUT_SECS",
            timeout,
            DEFAULT_COMMAND_TIMEOUT_SECS,
        )?;
        let max_output_chars = parse_usize_env(
            "BOT_MAX_OUTPUT_CHARS",
            max_output,
            DEFAULT_MAX_OUTPUT_CHARS,
        )?;
        let env_file_path = env_file_path_in(dir);
        Ok(
            Config {
                telegram_bot_token,
                allowed_user_ids,
                working_dir,
                command_timeout,
                max_output_chars,
                env_file_path,
            },
        )
    }
}

} // verus!
