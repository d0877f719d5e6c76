use std::collections::HashSet;

use bot_terminal::config::{Config, ConfigError, WorkdirProbe};
use bot_terminal::terminal::{
    truncate_output, CommandOutcome, CommandResult, RuntimeSettings, SettingChange,
    TerminalError, TerminalService,
};

fn config(users: &[u64]) -> Config {
    Config {
        telegram_bot_token: "test-token".to_string(),
        allowed_user_ids: users.iter().copied().collect::<HashSet<u64>>(),
        working_dir: "/srv".to_string(),
        command_timeout: 20,
        max_output_chars: 3000,
        env_file_path: "/srv/.env".to_string(),
    }
}

#[test]
fn new_service_takes_config() {
    let svc = TerminalService::new(&config(&[1, 2]));
    assert_eq!(svc.working_dir(), "/srv");
    assert_eq!(svc.timeout(), 20);
    assert_eq!(svc.max_output_chars(), 3000);
    assert_eq!(svc.authorized_user_count(), 2);
    assert_eq!(svc.env_file_path(), "/srv/.env");
    assert_eq!(
        svc.current_settings(),
        RuntimeSettings { working_dir: "/srv".to_string(), timeout: 20, max_output_chars: 3000 }
    );
    assert!(svc.is_user_allowed(1));
    assert!(!svc.is_user_allowed(3));
}

#[test]
fn unknown_user_is_refused_everywhere() {
    let svc = TerminalService::new(&config(&[1]));
    assert_eq!(svc.execute_for_user(9, "ls"), Err(TerminalError::Unauthorized));
    assert_eq!(svc.update_timeout_for_user(9, "30"), Err(TerminalError::Unauthorized));
    assert_eq!(svc.update_max_output_for_user(9, "30"), Err(TerminalError::Unauthorized));
    let probe = WorkdirProbe::Checked {
        shown: "/tmp".to_string(),
        exists: true,
        is_dir: true,
        canonical: Some("/tmp".to_string()),
    };
    assert_eq!(svc.update_workdir_for_user(9, &probe), Err(TerminalError::Unauthorized));
}

#[test]
fn nobody_is_allowed_without_a_list() {
    let svc = TerminalService::new(&config(&[]));
    assert_eq!(svc.authorized_user_count(), 0);
    assert_eq!(svc.execute_for_user(1, "pwd"), Err(TerminalError::Unauthorized));
}

#[test]
fn timeout_update_checks_its_text() {
    let svc = TerminalService::new(&config(&[1]));
    assert_eq!(
        svc.update_timeout_for_user(1, "abc"),
        Err(TerminalError::InvalidSetting("timeout must be a positive integer".to_string()))
    );
    assert_eq!(
        svc.update_timeout_for_user(1, " 0 "),
        Err(TerminalError::InvalidSetting("timeout must be greater than 0".to_string()))
    );
    let pending = svc.update_timeout_for_user(1, " +45 ").unwrap();
    assert_eq!(pending.key, "BOT_COMMAND_TIMEOUT_SECS");
    assert_eq!(pending.value, "45");
    assert_eq!(pending.change, SettingChange::Timeout(45));
}

#[test]
fn max_output_update_checks_its_text() {
    let svc = TerminalService::new(&config(&[1]));
    assert_eq!(
        svc.update_max_output_for_user(1, "-1"),
        Err(TerminalError::InvalidSetting(
            "max output chars must be a positive integer".to_string()
        ))
    );
    assert_eq!(
        svc.update_max_output_for_user(1, "0"),
        Err(TerminalError::InvalidSetting("max output chars must be greater than 0".to_string()))
    );
    let pending = svc.update_max_output_for_user(1, "500").unwrap();
    assert_eq!(pending.key, "BOT_MAX_OUTPUT_CHARS");
    assert_eq!(pending.value, "500");
    assert_eq!(pending.change, SettingChange::MaxOutput(500));
}

#[test]
fn workdir_update_uses_canonical_directory() {
    let svc = TerminalService::new(&config(&[1]));
    let probe = WorkdirProbe::Checked {
        shown: "tmp/../tmp".to_string(),
        exists: true,
        is_dir: true,
        canonical: Some("/tmp".to_string()),
    };
    let pending = svc.update_workdir_for_user(1, &probe).unwrap();
    assert_eq!(pending.key, "BOT_WORKDIR");
    assert_eq!(pending.value, "/tmp");
    assert_eq!(pending.change, SettingChange::Workdir("/tmp".to_string()));
    let missing = WorkdirProbe::Checked {
        shown: "/nope".to_string(),
        exists: false,
        is_dir: false,
        canonical: None,
    };
    assert_eq!(
        svc.update_workdir_for_user(1, &missing),
        Err(TerminalError::InvalidSetting("BOT_WORKDIR does not exist: /nope".to_string()))
    );
}

#[test]
fn committed_update_is_read_back() {
    let mut svc = TerminalService::new(&config(&[1]));
    let pending = svc.update_timeout_for_user(1, "45").unwrap();
    let settings = svc.commit_update(&pending, Ok(())).unwrap();
    assert_eq!(svc.timeout(), 45);
    assert_eq!(settings.timeout, 45);
    assert_eq!(settings.working_dir, "/srv");
    assert_eq!(settings.max_output_chars, 3000);

    let pending = svc.update_max_output_for_user(1, "10").unwrap();
    svc.commit_update(&pending, Ok(())).unwrap();
    assert_eq!(svc.max_output_chars(), 10);

    let probe = WorkdirProbe::Checked {
        shown: "/tmp".to_string(),
        exists: true,
        is_dir: true,
        canonical: Some("/tmp".to_string()),
    };
    let pending = svc.update_workdir_for_user(1, &probe).unwrap();
    svc.commit_update(&pending, Ok(())).unwrap();
    assert_eq!(svc.working_dir(), "/tmp");
    assert_eq!(svc.timeout(), 45);
}

#[test]
fn failed_persist_changes_nothing() {
    let mut svc = TerminalService::new(&config(&[1]));
    let pending = svc.update_timeout_for_user(1, "45").unwrap();
    let err = svc
        .commit_update(&pending, Err(ConfigError::EnvFileUnwritable("/srv/.env".to_string())))
        .unwrap_err();
    assert_eq!(err, TerminalError::Persist("failed to write env file: /srv/.env".to_string()));
    assert_eq!(
        err.message(),
        "failed to persist configuration: failed to write env file: /srv/.env"
    );
    assert_eq!(svc.timeout(), 20);
}

#[test]
fn command_is_trimmed_and_checked() {
    let svc = TerminalService::new(&config(&[1]));
    assert_eq!(svc.execute_for_user(1, "   "), Err(TerminalError::EmptyCommand));
    let plan = svc.execute_for_user(1, "  ls -la \n").unwrap();
    assert_eq!(plan.command, "ls -la");
    assert_eq!(plan.working_dir, "/srv");
    assert_eq!(plan.timeout, 20);
    assert_eq!(plan.max_output_chars, 3000);
}

#[test]
fn finished_command_outcomes() {
    let mut cfg = config(&[1]);
    cfg.max_output_chars = 4;
    let svc = TerminalService::new(&cfg);
    let plan = svc.execute_for_user(1, "echo").unwrap();
    assert_eq!(
        plan.finish(CommandOutcome::SpawnFailed("no sh".to_string())),
        Err(TerminalError::Spawn("no sh".to_string()))
    );
    assert_eq!(plan.finish(CommandOutcome::TimedOut), Err(TerminalError::TimedOut(20)));
    assert_eq!(
        plan.finish(CommandOutcome::WaitFailed("gone".to_string())),
        Err(TerminalError::Wait("gone".to_string()))
    );
    let done = plan
        .finish(CommandOutcome::Completed {
            exit_code: Some(0),
            stdout: b"hi\n".to_vec(),
            stderr: vec![0x66, 0xff, 0x6f],
        })
        .unwrap();
    assert_eq!(
        done,
        CommandResult {
            exit_code: Some(0),
            stdout: "hi\n".to_string(),
            stderr: "f\u{FFFD}o".to_string()
        }
    );
    let long = plan
        .finish(CommandOutcome::Completed {
            exit_code: None,
            stdout: "abcdef".as_bytes().to_vec(),
            stderr: Vec::new(),
        })
        .unwrap();
    assert_eq!(long.stdout, "abcd\n...[truncated]");
    assert_eq!(long.exit_code, None);
}

#[test]
fn error_messages() {
    assert_eq!(TerminalError::Unauthorized.message(), "the current user is not authorized");
    assert_eq!(TerminalError::EmptyCommand.message(), "command must not be empty");
    assert_eq!(TerminalError::TimedOut(20).message(), "command timed out after 20s");
    assert_eq!(
        TerminalError::TimedOut(20).message(),
        format!("command timed out after {:?}", std::time::Duration::from_secs(20))
    );
    assert_eq!(
        TerminalError::TimedOut(0).message(),
        format!("command timed out after {:?}", std::time::Duration::from_secs(0))
    );
    assert_eq!(TerminalError::Spawn("x".to_string()).message(), "failed to start command");
    assert_eq!(TerminalError::Wait("x".to_string()).message(), "failed to wait for command");
    assert_eq!(TerminalError::InvalidSetting("bad".to_string()).message(), "bad");
}

#[test]
fn output_truncation() {
    assert_eq!(truncate_output("abc", 3), "abc");
    assert_eq!(truncate_output("abcd", 3), "abc\n...[truncated]");
}

#[test]
fn settings_follow_latest_committed_change() {
    let mut svc = TerminalService::new(&config(&[1]));
    let t = svc.update_timeout_for_user(1, "30").unwrap();
    svc.commit_update(&t, Ok(())).unwrap();
    let m = svc.update_max_output_for_user(1, "50").unwrap();
    svc.commit_update(&m, Ok(())).unwrap();
    let t2 = svc.update_timeout_for_user(1, "31").unwrap();
    svc.commit_update(&t2, Err(ConfigError::EnvFileUnwritable("x".to_string()))).unwrap_err();
    let _ = svc.update_timeout_for_user(1, "0");
    let _ = svc.execute_for_user(1, "ls");
    assert_eq!(
        svc.current_settings(),
        RuntimeSettings { working_dir: "/srv".to_string(), timeout: 30, max_output_chars: 50 }
    );
    assert!(svc.is_user_allowed(1));
    assert_eq!(svc.authorized_user_count(), 1);
}
