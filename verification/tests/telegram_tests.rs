use std::collections::HashSet;

use bot_terminal::config::Config;
use bot_terminal::platform::telegram::{
    build_help_text, format_command_error, format_command_result, format_runtime_settings,
    format_setting_updated, outgoing_text, parse_request, plan_message, reply_for_run,
    reply_for_update, truncate_chars, BotRequest, MessagePlan, TELEGRAM_MESSAGE_LIMIT,
};
use bot_terminal::terminal::{CommandResult, RuntimeSettings, TerminalError, TerminalService};

fn service(users: &[u64]) -> TerminalService {
    TerminalService::new(&Config {
        telegram_bot_token: "test-token".to_string(),
        allowed_user_ids: users.iter().copied().collect::<HashSet<u64>>(),
        working_dir: "/workspace".to_string(),
        command_timeout: 20,
        max_output_chars: 3000,
        env_file_path: "/workspace/.env".to_string(),
    })
}

#[test]
fn requests_by_command_word() {
    assert_eq!(parse_request("/help"), BotRequest::Help);
    assert_eq!(parse_request("/start"), BotRequest::Help);
    assert_eq!(parse_request("  /config  "), BotRequest::ShowConfig);
    assert_eq!(parse_request("/set_workdir  /tmp "), BotRequest::SetWorkdir("/tmp".to_string()));
    assert_eq!(parse_request("/set_timeout 30"), BotRequest::SetTimeout("30".to_string()));
    assert_eq!(parse_request("/set_max_output\t500"), BotRequest::SetMaxOutput("500".to_string()));
    assert_eq!(parse_request("/run ls -la"), BotRequest::Run("ls -la".to_string()));
}

#[test]
fn requests_with_bot_name() {
    assert_eq!(parse_request("/start@my_bot"), BotRequest::Help);
    assert_eq!(parse_request("/run@my_bot echo hi"), BotRequest::Run("echo hi".to_string()));
    assert_eq!(parse_request("/set_timeout@bot 5"), BotRequest::SetTimeout("5".to_string()));
}

#[test]
fn requests_with_bang_run() {
    assert_eq!(parse_request("!run pwd"), BotRequest::Run("pwd".to_string()));
    assert_eq!(parse_request("  !run   uname -a  "), BotRequest::Run("uname -a".to_string()));
    assert_eq!(parse_request("!runx"), BotRequest::Run("x".to_string()));
    assert_eq!(parse_request("!run"), BotRequest::Run(String::new()));
}

#[test]
fn requests_that_are_ignored() {
    assert_eq!(parse_request(""), BotRequest::Ignore);
    assert_eq!(parse_request("   "), BotRequest::Ignore);
    assert_eq!(parse_request("hello"), BotRequest::Ignore);
    assert_eq!(parse_request("/unknown arg"), BotRequest::Ignore);
    assert_eq!(parse_request("/helpme"), BotRequest::Ignore);
}

#[test]
fn command_without_argument() {
    assert_eq!(parse_request("/run"), BotRequest::Run(String::new()));
    assert_eq!(parse_request("/set_workdir"), BotRequest::SetWorkdir(String::new()));
}

#[test]
fn help_text_lists_commands_and_limits() {
    let svc = service(&[1, 2, 3]);
    let expected = [
        "bot-terminal\n\n",
        "Commands:\n",
        "/help - show this message\n",
        "/config - show current runtime settings\n",
        "/run <command> - execute a shell command\n\n",
        "/set_workdir <path> - update BOT_WORKDIR\n",
        "/set_timeout <seconds> - update BOT_COMMAND_TIMEOUT_SECS\n",
        "/set_max_output <chars> - update BOT_MAX_OUTPUT_CHARS\n\n",
        "Current limits:\n",
        "- workdir: /workspace\n",
        "- timeout: 20 seconds\n",
        "- max output chars: 3000\n",
        "- allowed users: 3\n\n",
        "Example:\n",
        "/run pwd",
    ]
    .concat();
    assert_eq!(build_help_text(&svc), expected);
}

#[test]
fn command_result_text() {
    let result = CommandResult {
        exit_code: Some(0),
        stdout: "/workspace\n".to_string(),
        stderr: String::new(),
    };
    assert_eq!(
        format_command_result("pwd", &result),
        "$ pwd\nexit: 0\n\nstdout:\n/workspace\n\n\nstderr:\n(empty)"
    );
    let killed = CommandResult {
        exit_code: None,
        stdout: " \n".to_string(),
        stderr: "boom".to_string(),
    };
    assert_eq!(
        format_command_result("sleep 9", &killed),
        "$ sleep 9\nexit: terminated by signal\n\nstdout:\n(empty)\n\nstderr:\nboom"
    );
    let failed = CommandResult { exit_code: Some(-2), stdout: "a".to_string(), stderr: "b".to_string() };
    assert_eq!(format_command_result("x", &failed), "$ x\nexit: -2\n\nstdout:\na\n\nstderr:\nb");
}

#[test]
fn command_error_text() {
    assert_eq!(
        format_command_error(&TerminalError::Unauthorized),
        "you are not allowed to run commands with this bot"
    );
    assert_eq!(format_command_error(&TerminalError::EmptyCommand), "usage: /run <command>");
    assert_eq!(
        format_command_error(&TerminalError::TimedOut(20)),
        "command timed out after 20 seconds"
    );
    assert_eq!(
        format_command_error(&TerminalError::Spawn("No such file".to_string())),
        "failed to start command: No such file"
    );
    assert_eq!(
        format_command_error(&TerminalError::Wait("gone".to_string())),
        "failed while waiting for command: gone"
    );
    assert_eq!(format_command_error(&TerminalError::InvalidSetting("m".to_string())), "m");
    assert_eq!(format_command_error(&TerminalError::Persist("p".to_string())), "p");
}

#[test]
fn settings_texts() {
    let settings = RuntimeSettings {
        working_dir: "/tmp".to_string(),
        timeout: 45,
        max_output_chars: 100,
    };
    let shown = "Current runtime settings:\n- BOT_WORKDIR=/tmp\n- BOT_COMMAND_TIMEOUT_SECS=45\n- BOT_MAX_OUTPUT_CHARS=100";
    assert_eq!(format_runtime_settings(&settings), shown);
    assert_eq!(
        format_setting_updated("BOT_COMMAND_TIMEOUT_SECS", &settings),
        format!("BOT_COMMAND_TIMEOUT_SECS updated successfully.\n\n{shown}")
    );
}

#[test]
fn message_plans() {
    let svc = service(&[7]);
    assert_eq!(plan_message(&svc, None, Some(7)), MessagePlan::Ignore);
    assert_eq!(plan_message(&svc, Some("hi"), Some(7)), MessagePlan::Ignore);
    assert_eq!(
        plan_message(&svc, Some("/help"), None),
        MessagePlan::Reply(build_help_text(&svc))
    );
    assert_eq!(plan_message(&svc, Some("/config"), None), MessagePlan::Ignore);
    assert_eq!(
        plan_message(&svc, Some("/config"), Some(7)),
        MessagePlan::Reply(format_runtime_settings(&svc.current_settings()))
    );
    assert_eq!(
        plan_message(&svc, Some("/config"), Some(8)),
        MessagePlan::Reply("you are not allowed to run commands with this bot".to_string())
    );
    assert_eq!(
        plan_message(&svc, Some("/run ls"), Some(8)),
        MessagePlan::Run { user_id: 8, command: "ls".to_string() }
    );
    assert_eq!(plan_message(&svc, Some("/run ls"), None), MessagePlan::Ignore);
    assert_eq!(
        plan_message(&svc, Some("/set_workdir /tmp"), Some(7)),
        MessagePlan::SetWorkdir { user_id: 7, path: "/tmp".to_string() }
    );
    assert_eq!(
        plan_message(&svc, Some("/set_workdir /does/not/exist"), Some(8)),
        MessagePlan::Reply("you are not allowed to run commands with this bot".to_string())
    );
    assert_eq!(
        plan_message(&svc, Some("/set_timeout 9"), Some(7)),
        MessagePlan::SetTimeout { user_id: 7, seconds: "9".to_string() }
    );
    assert_eq!(
        plan_message(&svc, Some("/set_max_output 9"), Some(7)),
        MessagePlan::SetMaxOutput { user_id: 7, chars: "9".to_string() }
    );
}

#[test]
fn replies_after_work() {
    let settings = RuntimeSettings { working_dir: "/w".to_string(), timeout: 1, max_output_chars: 2 };
    assert_eq!(
        reply_for_update("BOT_WORKDIR", &Ok(settings.clone())),
        format_setting_updated("BOT_WORKDIR", &settings)
    );
    assert_eq!(
        reply_for_update("BOT_WORKDIR", &Err(TerminalError::Unauthorized)),
        "you are not allowed to run commands with this bot"
    );
    assert_eq!(
        reply_for_run("ls", &Err(TerminalError::TimedOut(3))),
        "command timed out after 3 seconds"
    );
    let result = CommandResult { exit_code: Some(1), stdout: String::new(), stderr: "e".to_string() };
    assert_eq!(reply_for_run("ls", &Ok(result.clone())), format_command_result("ls", &result));
}

#[test]
fn outgoing_messages_fit_the_chat() {
    let short = "ok";
    assert_eq!(outgoing_text(short), "ok");
    let long = "y".repeat(TELEGRAM_MESSAGE_LIMIT + 10);
    let sent = outgoing_text(&long);
    assert_eq!(sent.chars().count(), TELEGRAM_MESSAGE_LIMIT + 15);
    assert!(sent.ends_with("\n...[truncated]"));
    assert_eq!(truncate_chars("abcdef", 2), "ab\n...[truncated]");
}
