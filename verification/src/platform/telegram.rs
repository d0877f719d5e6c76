//! The chat side: which request a message makes, what is answered, and the
//! steps a message leads to.
use vstd::prelude::*;

use crate::terminal::{CommandResult, RuntimeSettings, TerminalError, TerminalService};
use crate::text::{
    chars_of, copy_range, decimal, decimal_string, find_char, find_from, find_white, has_prefix,
    range_has_prefix, same_text, signed_decimal, signed_decimal_string, string_of, trim,
    trimmed, truncate_text, truncated, white_from,
};

verus! {

/// The longest message, in characters, that is sent to the chat.
pub const TELEGRAM_MESSAGE_LIMIT: usize = 3900;

/// What a chat message asks for.
#[derive(Clone, Debug, PartialEq, Eq)]
pub enum BotRequest {
    Help,
    ShowConfig,
    SetWorkdir(String),
    SetTimeout(String),
    SetMaxOutput(String),
    Run(String),
    Ignore,
}

/// A request, with its texts as characters.
pub enum RequestView {
    Help,
    ShowConfig,
    SetWorkdir(Seq<char>),
    SetTimeout(Seq<char>),
    SetMaxOutput(Seq<char>),
    Run(Seq<char>),
    Ignore,
}

impl View for BotRequest {
    type V = RequestView;

    open spec fn view(&self) -> RequestView {
        match self {
            BotRequest::Help => RequestView::Help,
            BotRequest::ShowConfig => RequestView::ShowConfig,
            BotRequest::SetWorkdir(p) => RequestView::SetWorkdir(p@),
            BotRequest::SetTimeout(s) => RequestView::SetTimeout(s@),
            BotRequest::SetMaxOutput(c) => RequestView::SetMaxOutput(c@),
            BotRequest::Run(c) => RequestView::Run(c@),
            BotRequest::Ignore => RequestView::Ignore,
        }
    }
}

/// The command word of a trimmed message: its first word, without a bot name
/// given after `@`.
pub open spec fn command_name(t: Seq<char>) -> Seq<char> {
    let head = t.take(white_from(t, 0));
    head.take(find_from(head, '@', 0))
}

/// What follows the first word of a trimmed message, trimmed.
pub open spec fn command_argument(t: Seq<char>) -> Seq<char> {
    let k = white_from(t, 0);
    if k < t.len() {
        trimmed(t.skip(k + 1))
    } else {
        Seq::empty()
    }
}

/// The request a message makes. A trimmed message that begins with `!run`
/// runs the rest; otherwise the command word decides, with the rest of the
/// message as its argument. Anything else is ignored.
pub open spec fn requested(text: Seq<char>) -> RequestView {
    let t = trimmed(text);
    if t.len() == 0 {
        RequestView::Ignore
    } else if has_prefix(t, "!run"@) {
        RequestView::Run(trimmed(t.skip("!run"@.len() as int)))
    } else {
        let name = command_name(t);
        let arg = command_argument(t);
        if name == "/start"@ || name == "/help"@ {
            RequestView::Help
        } else if name == "/config"@ {
            RequestView::ShowConfig
        } else if name == "/set_workdir"@ {
            RequestView::SetWorkdir(arg)
        } else if name == "/set_timeout"@ {
            RequestView::SetTimeout(arg)
        } else if name == "/set_max_output"@ {
            RequestView::SetMaxOutput(arg)
        } else if name == "/run"@ {
            RequestView::Run(arg)
        } else {
            RequestView::Ignore
        }
    }
}

/// The request that a message makes, as `requested` describes.
pub fn parse_request(text: &str) -> (r: BotRequest)
    ensures
        r@ == requested(text@),
{
    let t = trim(text);
    let tv = chars_of(t.as_str());
    if tv.len() == 0 {
        return BotRequest::Ignore;
    }
    let run = chars_of("!run");
    let is_run = range_has_prefix(&tv, 0, tv.len(), &run);
    assert(tv@.subrange(0, tv@.len() as int) =~= tv@);
    if is_run {
        let rest = string_of(&tv, run.len(), tv.len());
        assert(rest@ =~= tv@.skip(run@.len() as int));
        return BotRequest::Run(trim(rest.as_str()));
    }
    let k = find_white(&tv, 0);
    let head = copy_range(&tv, 0, k);
    let at = find_char(&head, '@', 0);
    let name = string_of(&head, 0, at);
    assert(head@ =~= tv@.take(k as int));
    assert(name@ =~= command_name(tv@));
    let arg = if k < tv.len() {
        let rest = string_of(&tv, k + 1, tv.len());
        assert(rest@ =~= tv@.skip(k + 1));
        trim(rest.as_str())
    } else {
        String::new()
    };
    assert(arg@ =~= command_argument(tv@));
    if same_text(name.as_str(), "/start") || same_text(name.as_str(), "/help") {
        BotRequest::Help
    } else if same_text(name.as_str(), "/config") {
        BotRequest::ShowConfig
    } else if same_text(name.as_str(), "/set_workdir") {
        BotRequest::SetWorkdir(arg)
    } else if same_text(name.as_str(), "/set_timeout") {
        BotRequest::SetTimeout(arg)
    } else if same_text(name.as_str(), "/set_max_output") {
        BotRequest::SetMaxOutput(arg)
    } else if same_text(name.as_str(), "/run") {
        BotRequest::Run(arg)
    } else {
        BotRequest::Ignore
    }
}

/// The help message, with the current settings and the number of users.
pub open spec fn help_text(working_dir: Seq<char>, timeout: u64, max_output: usize, users: nat) -> Seq<
    char,
> {
    "bot-terminal\n\nCommands:\n/help - show this message\n/config - show current runtime settings\n/run <command> - execute a shell command\n\n/set_workdir <path> - update BOT_WORKDIR\n/set_timeout <seconds> - update BOT_COMMAND_TIMEOUT_SECS\n/set_max_output <chars> - update BOT_MAX_OUTPUT_CHARS\n\nCurrent limits:\n- workdir: "@
        + working_dir + "\n- timeout: "@ + decimal(timeout as nat) + " seconds\n- max output chars: "@
        + decimal(max_output as nat) + "\n- allowed users: "@ + decimal(users)
        + "\n\nExample:\n/run pwd"@
}

/// The help message for the terminal's current state.
pub open spec fn service_help_text(terminal: TerminalService) -> Seq<char> {
    help_text(
        terminal.settings_view().working_dir@,
        terminal.settings_view().timeout,
        terminal.settings_view().max_output_chars,
        terminal.allowed().len(),
    )
}

/// The help message for the terminal's current state.
pub fn build_help_text(terminal: &TerminalService) -> (r: String)
    ensures
        r@ == service_help_text(*terminal),
{
    let working_dir = terminal.working_dir();
    let mut r = String::from_str(
        "bot-terminal\n\nCommands:\n/help - show this message\n/config - show current runtime settings\n/run <command> - execute a shell command\n\n/set_workdir <path> - update BOT_WORKDIR\n/set_timeout <seconds> - update BOT_COMMAND_TIMEOUT_SECS\n/set_max_output <chars> - update BOT_MAX_OUTPUT_CHARS\n\nCurrent limits:\n- workdir: ",
    );
    r.append(working_dir.as_str());
    r.append("\n- timeout: ");
    r.append(decimal_string(terminal.timeout()).as_str());
    r.append(" seconds\n- max output chars: ");
    r.append(decimal_string(terminal.max_output_chars() as u64).as_str());
    r.append("\n- allowed users: ");
    r.append(decimal_string(terminal.authorized_user_count() as u64).as_str());
    r.append("\n\nExample:\n/run pwd");
    r
}

/// An output stream as shown: `(empty)` when it is blank.
pub open spec fn shown_output(s: Seq<char>) -> Seq<char> {
    if trimmed(s).len() == 0 {
        "(empty)"@
    } else {
        s
    }
}

/// How a command's exit is shown.
pub open spec fn exit_status_text(exit_code: Option<i32>) -> Seq<char> {
    match exit_code {
        Some(code) => signed_decimal(code as int),
        None => "terminated by signal"@,
    }
}

/// The answer to a command that ran.
pub open spec fn command_result_text(command: Seq<char>, result: CommandResult) -> Seq<char> {
    "$ "@ + command + "\nexit: "@ + exit_status_text(result.exit_code) + "\n\nstdout:\n"@
        + shown_output(result.stdout@) + "\n\nstderr:\n"@ + shown_output(result.stderr@)
}

fn shown_output_string(s: &String) -> (r: String)
    ensures
        r@ == shown_output(s@),
{
    let t = trim(s.as_str());
    if t.as_str().is_empty() {
        String::from_str("(empty)")
    } else {
        s.clone()
    }
}

/// The answer to a command that ran.
pub fn format_command_result(command: &str, result: &CommandResult) -> (r: String)
    ensures
        r@ == command_result_text(command@, *result),
{
    let status = match result.exit_code {
        Some(code) => signed_decimal_string(code),
        None => String::from_str("terminated by signal"),
    };
    let stdout = shown_output_string(&result.stdout);
    let stderr = shown_output_string(&result.stderr);
    let mut r = String::from_str("$ ");
    r.append(command);
    r.append("\nexit: ");
    r.append(status.as_str());
    r.append("\n\nstdout:\n");
    r.append(stdout.as_str());
    r.append("\n\nstderr:\n");
    r.append(stderr.as_str());
    r
}

/// The answer to a request that failed.
pub open spec fn error_reply(error: TerminalError) -> Seq<char> {
    match error {
        TerminalError::Unauthorized => "you are not allowed to run commands with this bot"@,
        TerminalError::EmptyCommand => "usage: /run <command>"@,
        TerminalError::TimedOut(secs) => "command timed out after "@ + decimal(secs as nat)
            + " seconds"@,
        TerminalError::Spawn(m) => "failed to start command: "@ + m@,
        TerminalError::Wait(m) => "failed while waiting for command: "@ + m@,
        TerminalError::InvalidSetting(m) => m@,
        TerminalError::Persist(m) => m@,
    }
}

/// The answer to a request that failed.
pub fn format_command_error(error: &TerminalError) -> (r: String)
    ensures
        r@ == error_reply(*error),
{
    match error {
        TerminalError::Unauthorized => String::from_str(
            "you are not allowed to run commands with this bot",
        ),
        TerminalError::EmptyCommand => String::from_str("usage: /run <command>"),
        TerminalError::TimedOut(secs) => {
            let mut r = String::from_str("command timed out after ");
            r.append(decimal_string(*secs).as_str());
            r.append(" seconds");
            r
        },
        TerminalError::Spawn(m) => {
            let mut r = String::from_str("failed to start command: ");
            r.append(m.as_str());
            r
        },
        TerminalError::Wait(m) => {
            let mut r = String::from_str("failed while waiting for command: ");
            r.append(m.as_str());
            r
        },
        TerminalError::InvalidSetting(m) => m.clone(),
        TerminalError::Persist(m) => m.clone(),
    }
}

/// The settings as shown.
pub open spec fn settings_text(settings: RuntimeSettings) -> Seq<char> {
    "Current runtime settings:\n- BOT_WORKDIR="@ + settings.working_dir@
        + "\n- BOT_COMMAND_TIMEOUT_SECS="@ + decimal(settings.timeout as nat)
        + "\n- BOT_MAX_OUTPUT_CHARS="@ + decimal(settings.max_output_chars as nat)
}

/// The settings as shown.
pub fn format_runtime_settings(settings: &RuntimeSettings) -> (r: String)
    ensures
        r@ == settings_text(*settings),
{
    let mut r = String::from_str("Current runtime settings:\n- BOT_WORKDIR=");
    r.append(settings.working_dir.as_str());
    r.append("\n- BOT_COMMAND_TIMEOUT_SECS=");
    r.append(decimal_string(settings.timeout).as_str());
    r.append("\n- BOT_MAX_OUTPUT_CHARS=");
    r.append(decimal_string(settings.max_output_chars as u64).as_str());
    r
}

/// The answer to a setting that was changed.
pub open spec fn setting_updated_text(key: Seq<char>, settings: RuntimeSettings) -> Seq<char> {
    key + " updated successfully.\n\n"@ + settings_text(settings)
}

/// The answer to a setting that was changed.
pub fn format_setting_updated(key: &str, settings: &RuntimeSettings) -> (r: String)
    ensures
        r@ == setting_updated_text(key@, *settings),
{
    let mut r = key.to_owned();
    r.append(" updated successfully.\n\n");
    r.append(format_runtime_settings(settings).as_str());
    r
}

/// `text` cut down to `limit` characters, with a marker when it was longer.
pub fn truncate_chars(text: &str, limit: usize) -> (r: String)
    ensures
        r@ == truncated(text@, limit as nat),
{
    truncate_text(text, limit)
}


// ---------------------------------------------------------------------------
// Handling a message
// ---------------------------------------------------------------------------

/// What a chat message leads to.
#[derive(Clone, Debug, PartialEq, Eq)]
pub enum MessagePlan {
    /// Nothing is answered.
    Ignore,
    /// This answer is sent at once.
    Reply(String),
    /// A user who may use the terminal asks for this working directory; the
    /// directory is to be probed next.
    SetWorkdir { user_id: u64, path: String },
    /// The user asks for this timeout.
    SetTimeout { user_id: u64, seconds: String },
    /// The user asks for this output limit.
    SetMaxOutput { user_id: u64, chars: String },
    /// The user asks to run this command.
    Run { user_id: u64, command: String },
}

/// The decision for a message (its text, if any, and its sender, if known):
/// help is answered to anyone; every other request needs a sender; the
/// settings are shown, and a directory is looked at for a new working
/// directory, only for a user who may use the terminal, and anyone else is
/// refused at once.
pub open spec fn plan_matches(
    plan: MessagePlan,
    terminal: TerminalService,
    text: Option<Seq<char>>,
    sender: Option<u64>,
) -> bool {
    match text {
        None => plan is Ignore,
        Some(t) => match requested(t) {
            RequestView::Ignore => plan is Ignore,
            RequestView::Help => plan matches MessagePlan::Reply(m) && m@ == service_help_text(
                terminal,
            ),
            RequestView::ShowConfig => match sender {
                None => plan is Ignore,
                Some(u) => plan matches MessagePlan::Reply(m) && m@ == if terminal.allowed().contains(
                    u,
                ) {
                    settings_text(terminal.settings_view())
                } else {
                    error_reply(TerminalError::Unauthorized)
                },
            },
            RequestView::SetWorkdir(p) => match sender {
                None => plan is Ignore,
                Some(u) => if terminal.allowed().contains(u) {
                    plan matches MessagePlan::SetWorkdir { user_id, path } && user_id == u && path@
                        == p
                } else {
                    plan matches MessagePlan::Reply(m) && m@ == error_reply(
                        TerminalError::Unauthorized,
                    )
                },
            },
            RequestView::SetTimeout(a) => match sender {
                None => plan is Ignore,
                Some(u) => plan matches MessagePlan::SetTimeout { user_id, seconds } && user_id
                    == u && seconds@ == a,
            },
            RequestView::SetMaxOutput(a) => match sender {
                None => plan is Ignore,
                Some(u) => plan matches MessagePlan::SetMaxOutput { user_id, chars } && user_id
                    == u && chars@ == a,
            },
            RequestView::Run(c) => match sender {
                None => plan is Ignore,
                Some(u) => plan matches MessagePlan::Run { user_id, command } && user_id == u
                    && command@ == c,
            },
        },
    }
}

/// The text of a message, as characters.
pub open spec fn text_view(text: Option<&str>) -> Option<Seq<char>> {
    match text {
        Some(t) => Some(t@),
        None => None,
    }
}

/// Decides what a chat message leads to, as `plan_matches` describes.
pub fn plan_message(terminal: &TerminalService, text: Option<&str>, sender: Option<u64>) -> (r:
    MessagePlan)
    ensures
        plan_matches(r, *terminal, text_view(text), sender),
{
    let text = match text {
        Some(t) => t,
        None => {
            return MessagePlan::Ignore;
        },
    };
    let request = parse_request(text);
    match request {
        BotRequest::Ignore => MessagePlan::Ignore,
        BotRequest::Help => MessagePlan::Reply(build_help_text(terminal)),
        BotRequest::ShowConfig => match sender {
            None => MessagePlan::Ignore,
            Some(u) => if terminal.is_user_allowed(u) {
                MessagePlan::Reply(format_runtime_settings(&terminal.current_settings()))
            } else {
                MessagePlan::Reply(format_command_error(&TerminalError::Unauthorized))
            },
        },
        BotRequest::SetWorkdir(path) => match sender {
            None => MessagePlan::Ignore,
            Some(u) => if terminal.is_user_allowed(u) {
                MessagePlan::SetWorkdir { user_id: u, path }
            } else {
                MessagePlan::Reply(format_command_error(&TerminalError::Unauthorized))
            },
        },
        BotRequest::SetTimeout(seconds) => match sender {
            None => MessagePlan::Ignore,
            Some(u) => MessagePlan::SetTimeout { user_id: u, seconds },
        },
        BotRequest::SetMaxOutput(chars) => match sender {
            None => MessagePlan::Ignore,
            Some(u) => MessagePlan::SetMaxOutput { user_id: u, chars },
        },
        BotRequest::Run(command) => match sender {
            None => MessagePlan::Ignore,
            Some(u) => MessagePlan::Run { user_id: u, command },
        },
    }
}

/// The answer to a request to change the setting `key`.
pub fn reply_for_update(key: &str, result: &Result<RuntimeSettings, TerminalError>) -> (r: String)
    ensures
        r@ == match result {
            Ok(s) => setting_updated_text(key@, *s),
            Err(e) => error_reply(*e),
        },
{
    match result {
        Ok(s) => format_setting_updated(key, s),
        Err(e) => format_command_error(e),
    }
}

/// The answer to a request to run `command`.
pub fn reply_for_run(command: &str, result: &Result<CommandResult, TerminalError>) -> (r: String)
    ensures
        r@ == match result {
            Ok(res) => command_result_text(command@, *res),
            Err(e) => error_reply(*e),
        },
{
    match result {
        Ok(res) => format_command_result(command, res),
        Err(e) => format_command_error(e),
    }
}

/// The text that is sent for an answer: cut down to the chat's limit.
pub fn outgoing_text(reply: &str) -> (r: String)
    ensures
        r@ == truncated(reply@, TELEGRAM_MESSAGE_LIMIT as nat),
{
    truncate_chars(reply, TELEGRAM_MESSAGE_LIMIT)
}

} // verus!
