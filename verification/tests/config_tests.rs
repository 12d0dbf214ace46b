use todo_api::config::{check_log_level, get_log_level, parse_log_level, Config, LogLevel, LogOutput};
use todo_api::env::{check_env, get_env, EnvError, EnvVars};
use todo_api::text::str_equal;

fn env_of(pairs: &[(&str, &str)]) -> EnvVars {
    EnvVars {
        vars: pairs.iter().map(|(k, v)| (k.to_string(), v.to_string())).collect(),
    }
}

fn required() -> Vec<(&'static str, &'static str)> {
    vec![("DATABASE_URL", "postgres://localhost/todo"), ("PORT", "3000"), ("DB_CONNECTIONS", "5")]
}

fn read<T: todo_api::env::FromEnvStr>(env: &EnvVars, key: &str, default: Option<T>) -> Option<T> {
    match check_env(env, key, &default) {
        Ok(()) => Some(get_env(env, key, default)),
        Err(_) => None,
    }
}

#[test]
fn get_env_parses_trimmed_value() {
    let env = env_of(&[("PORT", " \t8080\n ")]);
    assert!(check_env::<u16>(&env, "PORT", &None).is_ok());
    assert_eq!(get_env::<u16>(&env, "PORT", None), 8080);
}

#[test]
fn get_env_trims_unicode_whitespace() {
    let env = env_of(&[("PORT", "\u{3000}42\u{2003}")]);
    assert_eq!(read::<u16>(&env, "PORT", None), Some(42));
    let env = env_of(&[("LOG_DIR", "\u{a0} /var/log \u{85}")]);
    assert_eq!(read::<String>(&env, "LOG_DIR", None), Some("/var/log".to_string()));
}

#[test]
fn get_env_accepts_plus_sign() {
    let env = env_of(&[("PORT", "+42")]);
    assert_eq!(read::<u16>(&env, "PORT", None), Some(42));
}

#[test]
fn get_env_rejects_bad_numbers() {
    for bad in ["abc", "", "   ", "-1", "+", "70000", "8 080", "0x10"] {
        let env = env_of(&[("PORT", bad)]);
        match check_env::<u16>(&env, "PORT", &Some(1)) {
            Err(EnvError::Invalid(key)) => assert_eq!(key, "PORT"),
            _ => panic!("{bad:?} should be refused"),
        }
    }
}

#[test]
fn get_env_u32_range() {
    let env = env_of(&[("DB_CONNECTIONS", "4294967295")]);
    assert_eq!(read::<u32>(&env, "DB_CONNECTIONS", None), Some(4294967295));
    let env = env_of(&[("DB_CONNECTIONS", "4294967296")]);
    assert!(matches!(check_env::<u32>(&env, "DB_CONNECTIONS", &None), Err(EnvError::Invalid(_))));
}

#[test]
fn get_env_missing_without_default() {
    let env = env_of(&[("OTHER", "1")]);
    match check_env::<u16>(&env, "PORT", &None) {
        Err(EnvError::Missing(key)) => assert_eq!(key, "PORT"),
        _ => panic!("expected a missing variable"),
    }
}

#[test]
fn get_env_default_when_unset() {
    let env = env_of(&[]);
    assert!(check_env::<u16>(&env, "PORT", &Some(9)).is_ok());
    assert_eq!(get_env::<u16>(&env, "PORT", Some(9)), 9);
}

#[test]
fn get_env_set_value_wins_over_default() {
    let env = env_of(&[("PORT", "7")]);
    assert_eq!(read::<u16>(&env, "PORT", Some(9)), Some(7));
    assert_eq!(read::<u16>(&env, "PORT", None), Some(7));
}

#[test]
fn get_env_first_entry_counts() {
    let env = env_of(&[("PORT", "1"), ("PORT", "2")]);
    assert_eq!(read::<u16>(&env, "PORT", None), Some(1));
}

#[test]
fn get_env_string_keeps_inner_spaces() {
    let env = env_of(&[("DATABASE_URL", "  a b  ")]);
    assert_eq!(read::<String>(&env, "DATABASE_URL", None), Some("a b".to_string()));
}

#[test]
fn get_env_number_round_trip() {
    for n in [0u32, 7, 10, 65535, 65536, 4294967295] {
        let env = env_of(&[("N", &n.to_string())]);
        assert_eq!(read::<u32>(&env, "N", Some(1)), Some(n));
    }
    for n in [0u16, 9, 100, 65535] {
        let env = env_of(&[("N", &n.to_string())]);
        assert_eq!(read::<u16>(&env, "N", None), Some(n));
    }
    let env = env_of(&[("S", "a value")]);
    assert_eq!(read::<String>(&env, "S", Some("d".to_string())), Some("a value".to_string()));
}

#[test]
fn log_level_names() {
    assert_eq!(parse_log_level("TRACE"), Some(LogLevel::Trace));
    assert_eq!(parse_log_level("DEBUG"), Some(LogLevel::Debug));
    assert_eq!(parse_log_level("INFO"), Some(LogLevel::Info));
    assert_eq!(parse_log_level("WARN"), Some(LogLevel::Warn));
    assert_eq!(parse_log_level("ERROR"), Some(LogLevel::Error));
    assert_eq!(parse_log_level("OFF"), Some(LogLevel::Off));
    assert_eq!(parse_log_level("info"), None);
    assert_eq!(parse_log_level("VERBOSE"), None);
    assert_eq!(parse_log_level(""), None);
}

#[test]
fn log_level_defaults_to_trace() {
    let env = env_of(&[]);
    assert!(check_log_level(LogOutput::Console, &env).is_ok());
    assert_eq!(get_log_level(LogOutput::Console, &env), LogLevel::Trace);
    assert!(check_log_level(LogOutput::File, &env).is_ok());
    assert_eq!(get_log_level(LogOutput::File, &env), LogLevel::Trace);
}

#[test]
fn log_level_reads_its_variable_trimmed() {
    let env = env_of(&[("LOG_CONSOLE_LEVEL", " WARN "), ("LOG_FILE_NAME", "ERROR")]);
    assert!(check_log_level(LogOutput::Console, &env).is_ok());
    assert_eq!(get_log_level(LogOutput::Console, &env), LogLevel::Warn);
    assert!(check_log_level(LogOutput::File, &env).is_ok());
    assert_eq!(get_log_level(LogOutput::File, &env), LogLevel::Error);
}

#[test]
fn log_level_invalid_value() {
    for (raw, trimmed) in [(" verbose ", "verbose"), ("debug", "debug"), ("", "")] {
        let env = env_of(&[("LOG_CONSOLE_LEVEL", raw)]);
        match check_log_level(LogOutput::Console, &env) {
            Err(EnvError::InvalidLogLevel(v)) => assert_eq!(v, trimmed),
            _ => panic!("expected an invalid level"),
        }
    }
}

#[test]
fn config_with_defaults() {
    let env = env_of(&required());
    assert!(Config::check(&env).is_ok());
    let c = Config::init(&env);
    assert_eq!(c.private.db_url, "postgres://localhost/todo");
    assert_eq!(c.public.port, 3000);
    assert_eq!(c.public.db_connections, 5);
    assert_eq!(c.public.log_dir, "./logs");
    assert_eq!(c.public.log_file_name, "log");
    assert_eq!(c.public.log_console_level, LogLevel::Trace);
    assert_eq!(c.public.log_file_level, LogLevel::Trace);
}

#[test]
fn config_with_everything_set() {
    let mut pairs = required();
    pairs.push(("LOG_DIR", "/tmp/logs"));
    pairs.push(("LOG_CONSOLE_LEVEL", "INFO"));
    pairs.push(("LOG_FILE_NAME", "DEBUG"));
    let env = env_of(&pairs);
    assert!(Config::check(&env).is_ok());
    let c = Config::init(&env);
    assert_eq!(c.public.log_dir, "/tmp/logs");
    assert_eq!(c.public.log_console_level, LogLevel::Info);
    assert_eq!(c.public.log_file_level, LogLevel::Debug);
    assert_eq!(c.public.log_file_name, "DEBUG");
}

#[test]
fn config_file_name_must_name_a_level() {
    let mut pairs = required();
    pairs.push(("LOG_FILE_NAME", "app.log"));
    match Config::check(&env_of(&pairs)) {
        Err(EnvError::InvalidLogLevel(v)) => assert_eq!(v, "app.log"),
        _ => panic!("expected the file level to be refused"),
    }
}

#[test]
fn config_first_error_wins() {
    let env = env_of(&[("PORT", "x"), ("DB_CONNECTIONS", "y")]);
    match Config::check(&env) {
        Err(EnvError::Missing(k)) => assert_eq!(k, "DATABASE_URL"),
        _ => panic!("expected DATABASE_URL to be missing"),
    }
    let env = env_of(&[("DATABASE_URL", "u"), ("PORT", "x"), ("DB_CONNECTIONS", "y")]);
    match Config::check(&env) {
        Err(EnvError::Invalid(k)) => assert_eq!(k, "PORT"),
        _ => panic!("expected PORT to be invalid"),
    }
    let env = env_of(&[("DATABASE_URL", "u"), ("PORT", "1")]);
    match Config::check(&env) {
        Err(EnvError::Missing(k)) => assert_eq!(k, "DB_CONNECTIONS"),
        _ => panic!("expected DB_CONNECTIONS to be missing"),
    }
    let env = env_of(&[("DATABASE_URL", "u"), ("PORT", "1"), ("DB_CONNECTIONS", "-1")]);
    match Config::check(&env) {
        Err(EnvError::Invalid(k)) => assert_eq!(k, "DB_CONNECTIONS"),
        _ => panic!("expected DB_CONNECTIONS to be invalid"),
    }
}

#[test]
fn string_equality() {
    assert!(str_equal("abc", "abc"));
    assert!(!str_equal("abc", "abd"));
    assert!(!str_equal("abc", "ab"));
}
