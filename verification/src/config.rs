//! The service's settings, read from the environment.

use vstd::prelude::*;
use crate::env::{
    EnvError, EnvErrorView, EnvVars, env_lookup, check_env, get_env, spec_get_env, lemma_unset_variable,
    lemma_set_string,
};
use vstd::pervasive::unreached;
use crate::text::{trim, str_equal};

verus! {

/// Which log sink a level is read for.
#[derive(Clone, Copy, Debug, PartialEq, Eq, Structural)]
pub enum LogOutput {
    Console,
    File,
}

/// A level below which log records are filtered out.
#[derive(Clone, Copy, Debug, PartialEq, Eq, Structural)]
pub enum LogLevel {
    Trace,
    Debug,
    Info,
    Warn,
    Error,
    Off,
}

impl View for LogLevel {
    type V = LogLevel;

    open spec fn view(&self) -> LogLevel {
        *self
    }
}

/// The text that names each level.
pub open spec fn level_name(level: LogLevel) -> Seq<char> {
    match level {
        LogLevel::Trace => "TRACE"@,
        LogLevel::Debug => "DEBUG"@,
        LogLevel::Info => "INFO"@,
        LogLevel::Warn => "WARN"@,
        LogLevel::Error => "ERROR"@,
        LogLevel::Off => "OFF"@,
    }
}

/// The level that `s` names, if any (names are upper case).
pub open spec fn spec_parse_log_level(s: Seq<char>) -> Option<LogLevel> {
    if s == "TRACE"@ {
        Some(LogLevel::Trace)
    } else if s == "DEBUG"@ {
        Some(LogLevel::Debug)
    } else if s == "INFO"@ {
        Some(LogLevel::Info)
    } else if s == "WARN"@ {
        Some(LogLevel::Warn)
    } else if s == "ERROR"@ {
        Some(LogLevel::Error)
    } else if s == "OFF"@ {
        Some(LogLevel::Off)
    } else {
        None
    }
}

/// The level that `s` names, if any.
pub fn parse_log_level(s: &str) -> (r: Option<LogLevel>)
    ensures
        r == spec_parse_log_level(s@),
{
    if str_equal(s, "TRACE") {
        Some(LogLevel::Trace)
    } else if str_equal(s, "DEBUG") {
        Some(LogLevel::Debug)
    } else if str_equal(s, "INFO") {
        Some(LogLevel::Info)
    } else if str_equal(s, "WARN") {
        Some(LogLevel::Warn)
    } else if str_equal(s, "ERROR") {
        Some(LogLevel::Error)
    } else if str_equal(s, "OFF") {
        Some(LogLevel::Off)
    } else {
        None
    }
}

/// The variable that holds the level of a sink.
pub open spec fn log_level_key(log_output: LogOutput) -> Seq<char> {
    match log_output {
        LogOutput::Console => "LOG_CONSOLE_LEVEL"@,
        LogOutput::File => "LOG_FILE_NAME"@,
    }
}

/// The level text in effect for a sink: the variable's trimmed value, or
/// `TRACE` when it is not set.
pub open spec fn log_level_text(log_output: LogOutput, vars: Seq<(String, String)>) -> Seq<char> {
    match env_lookup(vars, log_level_key(log_output)) {
        Some(raw) => trim(raw),
        None => "TRACE"@,
    }
}

/// The result of [`get_log_level`], over views.
pub open spec fn spec_get_log_level(log_output: LogOutput, vars: Seq<(String, String)>) -> Result<
    LogLevel,
    EnvErrorView,
> {
    let text = log_level_text(log_output, vars);
    match spec_parse_log_level(text) {
        Some(level) => Ok(level),
        None => Err(EnvErrorView::InvalidLogLevel(text)),
    }
}

/// Whether the level of a sink can be read: `Ok` exactly when
/// [`get_log_level`] accepts the environment, and otherwise the (trimmed)
/// value that names no level.
pub fn check_log_level(log_output: LogOutput, env: &EnvVars) -> (r: Result<(), EnvError>)
    ensures
        match spec_get_log_level(log_output, env.vars@) {
            Ok(_) => r is Ok,
            Err(e) => r matches Err(x) && x@ == e,
        },
{
    let env_key = match log_output {
        LogOutput::Console => "LOG_CONSOLE_LEVEL",
        LogOutput::File => "LOG_FILE_NAME",
    };
    let val: String = get_env(env, env_key, Some("TRACE".to_owned()));
    match parse_log_level(val.as_str()) {
        Some(_) => Ok(()),
        None => Err(EnvError::InvalidLogLevel(val)),
    }
}

/// The level configured for a sink: the trimmed value of its variable,
/// which must name a level ([`check_log_level`] says when it does not), or
/// `TRACE` when the variable is not set.
pub fn get_log_level(log_output: LogOutput, env: &EnvVars) -> (r: LogLevel)
    requires
        spec_get_log_level(log_output, env.vars@) is Ok,
    ensures
        spec_get_log_level(log_output, env.vars@) == Ok::<LogLevel, EnvErrorView>(r),
{
    let env_key = match log_output {
        LogOutput::Console => "LOG_CONSOLE_LEVEL",
        LogOutput::File => "LOG_FILE_NAME",
    };
    let val: String = get_env(env, env_key, Some("TRACE".to_owned()));
    match parse_log_level(val.as_str()) {
        Some(level) => level,
        None => unreached(),
    }
}

/// Settings that are not to be shown.
pub struct PrivateConf {
    pub db_url: String,
}

/// Settings that may be shown.
pub struct PublicConf {
    pub port: u16,
    pub db_connections: u32,
    pub log_dir: String,
    pub log_console_level: LogLevel,
    pub log_file_level: LogLevel,
    pub log_file_name: String,
}

pub struct Config {
    pub private: PrivateConf,
    pub public: PublicConf,
}

/// A [`Config`] with its text taken as characters.
pub struct ConfigView {
    pub db_url: Seq<char>,
    pub port: u16,
    pub db_connections: u32,
    pub log_dir: Seq<char>,
    pub log_console_level: LogLevel,
    pub log_file_level: LogLevel,
    pub log_file_name: Seq<char>,
}

impl View for Config {
    type V = ConfigView;

    open spec fn view(&self) -> ConfigView {
        ConfigView {
            db_url: self.private.db_url@,
            port: self.public.port,
            db_connections: self.public.db_connections,
            log_dir: self.public.log_dir@,
            log_console_level: self.public.log_console_level,
            log_file_level: self.public.log_file_level,
            log_file_name: self.public.log_file_name@,
        }
    }
}

/// The result of [`Config::init`], over views: each setting in turn, the
/// first that fails giving the error.
pub open spec fn spec_config(vars: Seq<(String, String)>) -> Result<ConfigView, EnvErrorView> {
    match spec_get_env::<String>(vars, "DATABASE_URL"@, None) {
        Err(e) => Err(e),
        Ok(db_url) => match spec_get_env::<u16>(vars, "PORT"@, None) {
            Err(e) => Err(e),
            Ok(port) => match spec_get_env::<u32>(vars, "DB_CONNECTIONS"@, None) {
                Err(e) => Err(e),
                Ok(db_connections) => match spec_get_env::<String>(
                    vars,
                    "LOG_DIR"@,
                    Some("./logs"@),
                ) {
                    Err(e) => Err(e),
                    Ok(log_dir) => match spec_get_log_level(LogOutput::Console, vars) {
                        Err(e) => Err(e),
                        Ok(log_console_level) => match spec_get_log_level(LogOutput::File, vars) {
                            Err(e) => Err(e),
                            Ok(log_file_level) => match spec_get_env::<String>(
                                vars,
                                "LOG_FILE_NAME"@,
                                Some("log"@),
                            ) {
                                Err(e) => Err(e),
                                Ok(log_file_name) => Ok(
                                    ConfigView {
                                        db_url,
                                        port,
                                        db_connections,
                                        log_dir,
                                        log_console_level,
                                        log_file_level,
                                        log_file_name,
                                    },
                                ),
                            },
                        },
                    },
                },
            },
        },
    }
}

impl Config {
    /// Whether the settings can be read: `Ok` exactly when [`Config::init`]
    /// accepts the environment, and otherwise the error of the first setting,
    /// in the order `init` reads them, that cannot be read.
    pub fn check(env: &EnvVars) -> (r: Result<(), EnvError>)
        ensures
            match spec_config(env.vars@) {
                Ok(_) => r is Ok,
                Err(e) => r matches Err(x) && x@ == e,
            },
    {
        let none_string: Option<String> = None;
        let none_u16: Option<u16> = None;
        let none_u32: Option<u32> = None;
        match check_env(env, "DATABASE_URL", &none_string) {
            Ok(()) => {},
            Err(e) => return Err(e),
        }
        match check_env(env, "PORT", &none_u16) {
            Ok(()) => {},
            Err(e) => return Err(e),
        }
        match check_env(env, "DB_CONNECTIONS", &none_u32) {
            Ok(()) => {},
            Err(e) => return Err(e),
        }
        match check_env(env, "LOG_DIR", &Some("./logs".to_owned())) {
            Ok(()) => {},
            Err(e) => return Err(e),
        }
        match check_log_level(LogOutput::Console, env) {
            Ok(()) => {},
            Err(e) => return Err(e),
        }
        match check_log_level(LogOutput::File, env) {
            Ok(()) => {},
            Err(e) => return Err(e),
        }
        check_env(env, "LOG_FILE_NAME", &Some("log".to_owned()))
    }

    /// Reads the settings from the environment: `DATABASE_URL`, `PORT` and
    /// `DB_CONNECTIONS` are required; `LOG_DIR` defaults to `./logs`,
    /// `LOG_FILE_NAME` to `log`, and the levels to `TRACE`. Every setting
    /// must be readable ([`Config::check`] says when one is not).
    pub fn init(env: &EnvVars) -> (r: Config)
        requires
            spec_config(env.vars@) is Ok,
        ensures
            spec_config(env.vars@) == Ok::<ConfigView, EnvErrorView>(r@),
    {
        let db_url: String = get_env(env, "DATABASE_URL", None);
        let port: u16 = get_env(env, "PORT", None);
        let db_connections: u32 = get_env(env, "DB_CONNECTIONS", None);
        let log_dir: String = get_env(env, "LOG_DIR", Some("./logs".to_owned()));
        let log_console_level = get_log_level(LogOutput::Console, env);
        let log_file_level = get_log_level(LogOutput::File, env);
        let log_file_name: String = get_env(env, "LOG_FILE_NAME", Some("log".to_owned()));
        let private = PrivateConf { db_url };
        let public = PublicConf {
            port,
            db_connections,
            log_dir,
            log_console_level,
            log_file_level,
            log_file_name,
        };
        Config { private, public }
    }
}

/// Exactly the six level names are accepted, each giving its own level.
pub proof fn lemma_log_level_names(s: Seq<char>, level: LogLevel)
    ensures
        spec_parse_log_level(s) == Some(level) <==> s == level_name(level),
{
    reveal_strlit("TRACE");
    reveal_strlit("DEBUG");
    reveal_strlit("INFO");
    reveal_strlit("WARN");
    reveal_strlit("ERROR");
    reveal_strlit("OFF");
    assert("TRACE"@[0] == 'T' && "DEBUG"@[0] == 'D' && "INFO"@[0] == 'I');
    assert("WARN"@[0] == 'W' && "ERROR"@[0] == 'E' && "OFF"@[0] == 'O');
}

/// The variable that each sink's level is read from.
pub open spec fn sink_variable(log_output: LogOutput) -> Seq<char> {
    match log_output {
        LogOutput::Console => "LOG_CONSOLE_LEVEL"@,
        LogOutput::File => "LOG_FILE_NAME"@,
    }
}

/// A sink whose level variable is not set logs at `TRACE`.
pub proof fn lemma_unset_level_is_trace(log_output: LogOutput, vars: Seq<(String, String)>)
    requires
        env_lookup(vars, sink_variable(log_output)) is None,
    ensures
        spec_get_log_level(log_output, vars) == Ok::<LogLevel, EnvErrorView>(LogLevel::Trace),
{
    reveal_strlit("TRACE");
    reveal_strlit("DEBUG");
    reveal_strlit("INFO");
    reveal_strlit("WARN");
    reveal_strlit("ERROR");
    reveal_strlit("OFF");
    assert("TRACE"@[0] == 'T' && "DEBUG"@[0] == 'D' && "INFO"@[0] == 'I');
    assert("WARN"@[0] == 'W' && "ERROR"@[0] == 'E' && "OFF"@[0] == 'O');
}

/// A sink whose level variable is set reads the level that the trimmed
/// value names, exactly and case-sensitively, whichever the sink; any other
/// value is refused with that trimmed value.
pub proof fn lemma_set_level(log_output: LogOutput, vars: Seq<(String, String)>, raw: Seq<char>)
    requires
        env_lookup(vars, sink_variable(log_output)) == Some(raw),
    ensures
        trim(raw) == "TRACE"@ ==> spec_get_log_level(log_output, vars) == Ok::<
            LogLevel,
            EnvErrorView,
        >(LogLevel::Trace),
        trim(raw) == "DEBUG"@ ==> spec_get_log_level(log_output, vars) == Ok::<
            LogLevel,
            EnvErrorView,
        >(LogLevel::Debug),
        trim(raw) == "INFO"@ ==> spec_get_log_level(log_output, vars) == Ok::<
            LogLevel,
            EnvErrorView,
        >(LogLevel::Info),
        trim(raw) == "WARN"@ ==> spec_get_log_level(log_output, vars) == Ok::<
            LogLevel,
            EnvErrorView,
        >(LogLevel::Warn),
        trim(raw) == "ERROR"@ ==> spec_get_log_level(log_output, vars) == Ok::<
            LogLevel,
            EnvErrorView,
        >(LogLevel::Error),
        trim(raw) == "OFF"@ ==> spec_get_log_level(log_output, vars) == Ok::<
            LogLevel,
            EnvErrorView,
        >(LogLevel::Off),
        trim(raw) != "TRACE"@ && trim(raw) != "DEBUG"@ && trim(raw) != "INFO"@ && trim(raw)
            != "WARN"@ && trim(raw) != "ERROR"@ && trim(raw) != "OFF"@ ==> spec_get_log_level(
            log_output,
            vars,
        ) == Err::<LogLevel, EnvErrorView>(EnvErrorView::InvalidLogLevel(trim(raw))),
{
    reveal_strlit("TRACE");
    reveal_strlit("DEBUG");
    reveal_strlit("INFO");
    reveal_strlit("WARN");
    reveal_strlit("ERROR");
    reveal_strlit("OFF");
    assert("TRACE"@[0] == 'T' && "DEBUG"@[0] == 'D' && "INFO"@[0] == 'I');
    assert("WARN"@[0] == 'W' && "ERROR"@[0] == 'E' && "OFF"@[0] == 'O');
}

/// Each field of a read configuration is the setting read for it on its
/// own (with its own variable and default); the configuration is read
/// exactly when every setting is, and otherwise the error is that of the
/// first setting, in the order database URL, port, connections, log
/// directory, console level, file level, file name, that cannot be read.
pub proof fn lemma_config_reads_each_setting(vars: Seq<(String, String)>)
    ensures
        spec_config(vars) is Ok <==> {
            &&& spec_get_env::<String>(vars, "DATABASE_URL"@, None) is Ok
            &&& spec_get_env::<u16>(vars, "PORT"@, None) is Ok
            &&& spec_get_env::<u32>(vars, "DB_CONNECTIONS"@, None) is Ok
            &&& spec_get_env::<String>(vars, "LOG_DIR"@, Some("./logs"@)) is Ok
            &&& spec_get_log_level(LogOutput::Console, vars) is Ok
            &&& spec_get_log_level(LogOutput::File, vars) is Ok
            &&& spec_get_env::<String>(vars, "LOG_FILE_NAME"@, Some("log"@)) is Ok
        },
        spec_config(vars) matches Ok(c) ==> {
            &&& spec_get_env::<String>(vars, "DATABASE_URL"@, None) == Ok::<
                Seq<char>,
                EnvErrorView,
            >(c.db_url)
            &&& spec_get_env::<u16>(vars, "PORT"@, None) == Ok::<u16, EnvErrorView>(c.port)
            &&& spec_get_env::<u32>(vars, "DB_CONNECTIONS"@, None) == Ok::<u32, EnvErrorView>(
                c.db_connections,
            )
            &&& spec_get_env::<String>(vars, "LOG_DIR"@, Some("./logs"@)) == Ok::<
                Seq<char>,
                EnvErrorView,
            >(c.log_dir)
            &&& spec_get_log_level(LogOutput::Console, vars) == Ok::<LogLevel, EnvErrorView>(
                c.log_console_level,
            )
            &&& spec_get_log_level(LogOutput::File, vars) == Ok::<LogLevel, EnvErrorView>(
                c.log_file_level,
            )
            &&& spec_get_env::<String>(vars, "LOG_FILE_NAME"@, Some("log"@)) == Ok::<
                Seq<char>,
                EnvErrorView,
            >(c.log_file_name)
        },
        spec_get_env::<String>(vars, "DATABASE_URL"@, None) matches Err(e) ==> spec_config(vars)
            == Err::<ConfigView, EnvErrorView>(e),
        spec_get_env::<u16>(vars, "PORT"@, None) matches Err(e) ==> (spec_get_env::<String>(
            vars,
            "DATABASE_URL"@,
            None,
        ) is Ok ==> spec_config(vars) == Err::<ConfigView, EnvErrorView>(e)),
        spec_get_env::<u32>(vars, "DB_CONNECTIONS"@, None) matches Err(e) ==> (
        spec_get_env::<String>(vars, "DATABASE_URL"@, None) is Ok && spec_get_env::<u16>(
            vars,
            "PORT"@,
            None,
        ) is Ok ==> spec_config(vars) == Err::<ConfigView, EnvErrorView>(e)),
        spec_get_log_level(LogOutput::Console, vars) matches Err(e) ==> (spec_get_env::<String>(
            vars,
            "DATABASE_URL"@,
            None,
        ) is Ok && spec_get_env::<u16>(vars, "PORT"@, None) is Ok && spec_get_env::<u32>(
            vars,
            "DB_CONNECTIONS"@,
            None,
        ) is Ok ==> spec_config(vars) == Err::<ConfigView, EnvErrorView>(e)),
        spec_get_log_level(LogOutput::File, vars) matches Err(e) ==> (spec_get_env::<String>(
            vars,
            "DATABASE_URL"@,
            None,
        ) is Ok && spec_get_env::<u16>(vars, "PORT"@, None) is Ok && spec_get_env::<u32>(
            vars,
            "DB_CONNECTIONS"@,
            None,
        ) is Ok && spec_get_log_level(LogOutput::Console, vars) is Ok ==> spec_config(vars)
            == Err::<ConfigView, EnvErrorView>(e)),
{
}

/// The database URL, the port and the connection count are required: when
/// one is unset and those read before it are readable, the configuration is
/// refused as missing that variable.
pub proof fn lemma_config_required(vars: Seq<(String, String)>)
    ensures
        env_lookup(vars, "DATABASE_URL"@) is None ==> spec_config(vars) == Err::<
            ConfigView,
            EnvErrorView,
        >(EnvErrorView::Missing("DATABASE_URL"@)),
        env_lookup(vars, "DATABASE_URL"@) is Some && env_lookup(vars, "PORT"@) is None
            ==> spec_config(vars) == Err::<ConfigView, EnvErrorView>(
            EnvErrorView::Missing("PORT"@),
        ),
        env_lookup(vars, "DATABASE_URL"@) is Some && spec_get_env::<u16>(vars, "PORT"@, None) is Ok
            && env_lookup(vars, "DB_CONNECTIONS"@) is None ==> spec_config(vars) == Err::<
            ConfigView,
            EnvErrorView,
        >(EnvErrorView::Missing("DB_CONNECTIONS"@)),
{
    lemma_config_reads_each_setting(vars);
    if env_lookup(vars, "DATABASE_URL"@) is None {
        lemma_unset_variable::<String>(vars, "DATABASE_URL"@, None);
    } else {
        lemma_set_string(vars, "DATABASE_URL"@, env_lookup(vars, "DATABASE_URL"@)->0, None);
        if env_lookup(vars, "PORT"@) is None {
            lemma_unset_variable::<u16>(vars, "PORT"@, None);
        }
        if env_lookup(vars, "DB_CONNECTIONS"@) is None {
            lemma_unset_variable::<u32>(vars, "DB_CONNECTIONS"@, None);
        }
    }
}

/// With the required settings valid and the optional ones unset, the
/// configuration holds the defaults: logs under `./logs` in the file `log`,
/// both sinks at `TRACE`.
pub proof fn lemma_config_defaults(vars: Seq<(String, String)>)
    requires
        spec_get_env::<String>(vars, "DATABASE_URL"@, None) is Ok,
        spec_get_env::<u16>(vars, "PORT"@, None) is Ok,
        spec_get_env::<u32>(vars, "DB_CONNECTIONS"@, None) is Ok,
        env_lookup(vars, "LOG_DIR"@) is None,
        env_lookup(vars, "LOG_CONSOLE_LEVEL"@) is None,
        env_lookup(vars, "LOG_FILE_NAME"@) is None,
    ensures
        spec_config(vars) matches Ok(c) && c.log_dir == "./logs"@ && c.log_file_name == "log"@
            && c.log_console_level == LogLevel::Trace && c.log_file_level == LogLevel::Trace,
{
    lemma_unset_level_is_trace(LogOutput::Console, vars);
    lemma_unset_level_is_trace(LogOutput::File, vars);
}

/// The file sink's level and the log file's name are read from the same
/// variable, `LOG_FILE_NAME`: when it is set and the configuration is read,
/// the file name is the name of the file sink's level.
pub proof fn lemma_file_name_is_file_level_name(vars: Seq<(String, String)>)
    requires
        spec_config(vars) is Ok,
        env_lookup(vars, "LOG_FILE_NAME"@) is Some,
    ensures
        spec_config(vars) matches Ok(c) && c.log_file_name == level_name(c.log_file_level),
{
    let c = spec_config(vars)->Ok_0;
    lemma_log_level_names(c.log_file_name, c.log_file_level);
}

} // verus!
