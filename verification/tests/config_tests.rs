use std::collections::HashSet;

use bot_terminal::config::{
    env_file_path_in,
    parse_u64_env, parse_usize_env, parse_user_ids, required_env, validate_workdir,
    workdir_candidate, Config, ConfigError, EnvValue, WorkdirProbe,
};
use bot_terminal::envfile::{env_file_update, update_env_content, EnvFileRead};

fn ids(list: &[u64]) -> HashSet<u64> {
    list.iter().copied().collect()
}

#[test]
fn user_ids_from_comma_separated_list() {
    assert_eq!(parse_user_ids(Some(" 1, 2,,3 ,")).unwrap(), ids(&[1, 2, 3]));
    assert_eq!(parse_user_ids(Some("42")).unwrap(), ids(&[42]));
    assert_eq!(parse_user_ids(Some("7,7, 7")).unwrap(), ids(&[7]));
}

#[test]
fn user_ids_absent_or_blank_means_nobody() {
    assert_eq!(parse_user_ids(None).unwrap(), ids(&[]));
    assert_eq!(parse_user_ids(Some("")).unwrap(), ids(&[]));
    assert_eq!(parse_user_ids(Some(" , ,")).unwrap(), ids(&[]));
}

#[test]
fn user_ids_report_first_bad_entry() {
    let err = parse_user_ids(Some("1, x ,y")).unwrap_err();
    assert_eq!(err, ConfigError::InvalidUserId("x".to_string()));
    assert_eq!(err.message(), "failed to parse Telegram user id: x");
    assert_eq!(
        parse_user_ids(Some("-3")).unwrap_err(),
        ConfigError::InvalidUserId("-3".to_string())
    );
}

#[test]
fn user_ids_order_does_not_matter() {
    assert_eq!(
        parse_user_ids(Some("3,1,2")).unwrap(),
        parse_user_ids(Some("2, 3, 1")).unwrap()
    );
}

#[test]
fn required_variable() {
    assert_eq!(
        required_env("TELEGRAM_BOT_TOKEN", &EnvValue::Present("abc".to_string())).unwrap(),
        "abc"
    );
    let err = required_env("TELEGRAM_BOT_TOKEN", &EnvValue::NotPresent).unwrap_err();
    assert_eq!(err.message(), "TELEGRAM_BOT_TOKEN is required but missing");
    let err =
        required_env("TELEGRAM_BOT_TOKEN", &EnvValue::NotUnicode("bad".to_string())).unwrap_err();
    assert_eq!(err, ConfigError::MissingVariable("TELEGRAM_BOT_TOKEN".to_string()));
}

#[test]
fn numeric_variables_with_defaults() {
    let key = "BOT_COMMAND_TIMEOUT_SECS";
    assert_eq!(parse_u64_env(key, &EnvValue::Present(" 30 ".to_string()), 20), Ok(30));
    assert_eq!(parse_u64_env(key, &EnvValue::Present("   ".to_string()), 20), Ok(20));
    assert_eq!(parse_u64_env(key, &EnvValue::NotPresent, 20), Ok(20));
    assert_eq!(parse_u64_env(key, &EnvValue::Present("0".to_string()), 20), Ok(0));
    let err = parse_u64_env(key, &EnvValue::Present("-1".to_string()), 20).unwrap_err();
    assert_eq!(err.message(), "BOT_COMMAND_TIMEOUT_SECS must be a positive integer");
    let err = parse_u64_env(key, &EnvValue::NotUnicode("not unicode".to_string()), 20)
        .unwrap_err();
    assert_eq!(err.message(), "failed to read BOT_COMMAND_TIMEOUT_SECS: not unicode");
}

#[test]
fn size_variables_with_defaults() {
    let key = "BOT_MAX_OUTPUT_CHARS";
    assert_eq!(parse_usize_env(key, &EnvValue::Present("4000".to_string()), 3000), Ok(4000));
    assert_eq!(parse_usize_env(key, &EnvValue::NotPresent, 3000), Ok(3000));
    assert_eq!(
        parse_usize_env(key, &EnvValue::Present("many".to_string()), 3000),
        Err(ConfigError::NotAnInteger(key.to_string()))
    );
}

#[test]
fn workdir_candidate_keeps_given_path() {
    assert_eq!(workdir_candidate(Some(" /tmp ")), Some(" /tmp ".to_string()));
    assert_eq!(workdir_candidate(Some("  ")), None);
    assert_eq!(workdir_candidate(None), None);
}

#[test]
fn workdir_validation() {
    let checked = |exists, is_dir, canonical: Option<&str>| WorkdirProbe::Checked {
        shown: "data".to_string(),
        exists,
        is_dir,
        canonical: canonical.map(|c| c.to_string()),
    };
    assert_eq!(validate_workdir(&checked(true, true, Some("/srv/data"))), Ok("/srv/data".to_string()));
    assert_eq!(
        validate_workdir(&checked(false, false, None)).unwrap_err().message(),
        "BOT_WORKDIR does not exist: data"
    );
    assert_eq!(
        validate_workdir(&checked(true, false, None)).unwrap_err().message(),
        "BOT_WORKDIR is not a directory: data"
    );
    assert_eq!(
        validate_workdir(&checked(true, true, None)).unwrap_err().message(),
        "failed to canonicalize BOT_WORKDIR: data"
    );
    assert_eq!(
        validate_workdir(&WorkdirProbe::CurrentDirUnavailable).unwrap_err().message(),
        "failed to resolve current working directory"
    );
}

#[test]
fn env_update_into_empty_file() {
    assert_eq!(update_env_content("", "BOT_WORKDIR", "/srv"), "BOT_WORKDIR=/srv\n");
}

#[test]
fn env_update_replaces_assignment_in_place() {
    assert_eq!(
        update_env_content("A=1\nK=old\nB=2", "K", "new"),
        "A=1\nK=new\nB=2\n"
    );
    assert_eq!(
        update_env_content("  K=old\n# comment\nK=again\n", "K", "v"),
        "K=v\n# comment\nK=v\n"
    );
}

#[test]
fn env_update_appends_missing_key() {
    assert_eq!(update_env_content("KEY=1\n", "K", "v"), "KEY=1\nK=v\n");
    assert_eq!(update_env_content("\n\n", "K", "v"), "\n\nK=v\n");
}

#[test]
fn env_update_normalises_line_endings() {
    assert_eq!(update_env_content("X=1\r\nK=2\r\n", "K", "3"), "X=1\nK=3\n");
    // A carriage return not followed by a newline stays in its line.
    assert_eq!(update_env_content("X=1\r", "K", "3"), "X=1\r\nK=3\n");
}

#[test]
fn env_update_matches_std_lines() {
    let inputs = ["", "a", "a\n", "a\r\n\r\nb", "\n", "x=1\n  K=2\nK=\n", "K=1\nK=2"];
    for existing in inputs {
        let mut lines: Vec<String> = Vec::new();
        let mut updated = false;
        for line in existing.lines() {
            if line.trim_start().starts_with("K=") {
                lines.push("K=9".to_string());
                updated = true;
            } else {
                lines.push(line.to_owned());
            }
        }
        if !updated {
            lines.push("K=9".to_string());
        }
        let mut expected = lines.join("\n");
        if !expected.is_empty() {
            expected.push('\n');
        }
        assert_eq!(update_env_content(existing, "K", "9"), expected, "input {existing:?}");
    }
}

#[test]
fn env_update_twice_is_update_once() {
    for existing in ["", "A=1\nK=2\n", "K=1\r\nB=2", "x\n\ny"] {
        let once = update_env_content(existing, "K", "v");
        let twice = update_env_content(&once, "K", "v");
        assert_eq!(once, twice);
    }
}

#[test]
fn env_file_read_outcomes() {
    assert_eq!(
        env_file_update(".env", &EnvFileRead::Loaded("A=1\n".to_string()), "K", "2"),
        Ok("A=1\nK=2\n".to_string())
    );
    assert_eq!(
        env_file_update(".env", &EnvFileRead::NotFound, "K", "2"),
        Ok("K=2\n".to_string())
    );
    let err = env_file_update("/x/.env", &EnvFileRead::Failed, "K", "2").unwrap_err();
    assert_eq!(err.message(), "failed to read env file: /x/.env");
    assert_eq!(
        ConfigError::EnvFileUnwritable("/x/.env".to_string()).message(),
        "failed to write env file: /x/.env"
    );
}

fn good_probe() -> WorkdirProbe {
    WorkdirProbe::Checked {
        shown: ".".to_string(),
        exists: true,
        is_dir: true,
        canonical: Some("/srv".to_string()),
    }
}

#[test]
fn config_from_lookup_uses_defaults() {
    let token = EnvValue::Present("t".to_string());
    let config = Config::from_lookup(
        Some("/home/bot"),
        &token,
        Some("1,2"),
        &good_probe(),
        &EnvValue::NotPresent,
        &EnvValue::Present(" ".to_string()),
    )
    .unwrap();
    assert_eq!(config.telegram_bot_token, "t");
    assert_eq!(config.allowed_user_ids, ids(&[1, 2]));
    assert_eq!(config.working_dir, "/srv");
    assert_eq!(config.command_timeout, 20);
    assert_eq!(config.max_output_chars, 3000);
    assert_eq!(config.env_file_path, "/home/bot/.env");
}

#[test]
fn config_from_lookup_reads_settings() {
    let config = Config::from_lookup(
        Some("/"),
        &EnvValue::Present("t".to_string()),
        None,
        &good_probe(),
        &EnvValue::Present("45".to_string()),
        &EnvValue::Present("100".to_string()),
    )
    .unwrap();
    assert_eq!(config.allowed_user_ids, ids(&[]));
    assert_eq!(config.command_timeout, 45);
    assert_eq!(config.max_output_chars, 100);
    assert_eq!(config.env_file_path, "/.env");
}

#[test]
fn config_from_lookup_reports_first_error() {
    let missing = WorkdirProbe::Checked {
        shown: "/nope".to_string(),
        exists: false,
        is_dir: false,
        canonical: None,
    };
    let bad = EnvValue::Present("x".to_string());
    let err = Config::from_lookup(None, &EnvValue::NotPresent, Some("y"), &missing, &bad, &bad)
        .unwrap_err();
    assert_eq!(err, ConfigError::CurrentDirUnavailable);
    let err = Config::from_lookup(Some("/"), &EnvValue::NotPresent, Some("y"), &missing, &bad, &bad)
        .unwrap_err();
    assert_eq!(err.message(), "TELEGRAM_BOT_TOKEN is required but missing");
    let token = EnvValue::Present("t".to_string());
    let err = Config::from_lookup(Some("/"), &token, Some("y"), &missing, &bad, &bad).unwrap_err();
    assert_eq!(err.message(), "failed to parse Telegram user id: y");
    let err = Config::from_lookup(Some("/"), &token, Some("1"), &missing, &bad, &bad).unwrap_err();
    assert_eq!(err.message(), "BOT_WORKDIR does not exist: /nope");
    let err =
        Config::from_lookup(Some("/"), &token, Some("1"), &good_probe(), &bad, &bad).unwrap_err();
    assert_eq!(err.message(), "BOT_COMMAND_TIMEOUT_SECS must be a positive integer");
    let err = Config::from_lookup(
        Some("/"),
        &token,
        Some("1"),
        &good_probe(),
        &EnvValue::NotPresent,
        &bad,
    )
    .unwrap_err();
    assert_eq!(err.message(), "BOT_MAX_OUTPUT_CHARS must be a positive integer");
}

#[test]
fn env_file_path_joins_like_path() {
    for dir in ["/home/bot", "/", "", "rel/dir", "a/"] {
        let expected = std::path::Path::new(dir).join(".env").to_string_lossy().into_owned();
        assert_eq!(env_file_path_in(dir), expected, "dir {dir:?}");
    }
}

#[test]
fn canonical_workdir_validates_to_itself() {
    let first = validate_workdir(&good_probe()).unwrap();
    let again = WorkdirProbe::Checked {
        shown: first.clone(),
        exists: true,
        is_dir: true,
        canonical: Some(first.clone()),
    };
    assert_eq!(validate_workdir(&again), Ok(first));
}
