//! The default logger module: one appender, to a file when a location is
//! configured and to standard output otherwise.

use crate::interface::{LevelFilter, LogTarget, LoggerModule, LoggerSetup};
use crate::text::{ascii_lower, chars_eq, chars_of, to_ascii_lower};
use vstd::prelude::*;

verus! {

/// The level that a configured level name selects. Names are compared
/// without regard to case, as the name lowered by `str::to_lowercase`: no
/// character outside ASCII lowers to a letter of these names, so the
/// comparison after ASCII lowering selects the same level.
pub open spec fn level_named(name: Seq<char>) -> Option<LevelFilter> {
    let l = ascii_lower(name);
    if l == "info"@ {
        Some(LevelFilter::Info)
    } else if l == "error"@ {
        Some(LevelFilter::Error)
    } else if l == "warn"@ {
        Some(LevelFilter::Warn)
    } else if l == "debug"@ {
        Some(LevelFilter::Debug)
    } else if l == "trace"@ {
        Some(LevelFilter::Trace)
    } else if l == "off"@ {
        Some(LevelFilter::Off)
    } else {
        None
    }
}

/// Level names are read without regard to ASCII case: a name selects the
/// same level as its lowercase form.
pub proof fn lemma_level_name_ignores_case(name: Seq<char>)
    ensures
        level_named(name) == level_named(ascii_lower(name)),
        configured_level(name) == configured_level(ascii_lower(name)),
{
    assert(ascii_lower(ascii_lower(name)) =~= ascii_lower(name));
}

/// The level a logger runs at: the named level, or `Info` when the name is
/// not one of the level names.
pub open spec fn configured_level(name: Seq<char>) -> LevelFilter {
    match level_named(name) {
        Some(level) => level,
        None => LevelFilter::Info,
    }
}

/// The level that `level_str` names, or `None` when it names none (the
/// logger then reports the error and runs at `Info`).
pub fn parse_level_filter(level_str: &str) -> (res: Option<LevelFilter>)
    ensures
        res == level_named(level_str@),
{
    let l = to_ascii_lower(&chars_of(level_str));
    if chars_eq(&l, &chars_of("info")) {
        Some(LevelFilter::Info)
    } else if chars_eq(&l, &chars_of("error")) {
        Some(LevelFilter::Error)
    } else if chars_eq(&l, &chars_of("warn")) {
        Some(LevelFilter::Warn)
    } else if chars_eq(&l, &chars_of("debug")) {
        Some(LevelFilter::Debug)
    } else if chars_eq(&l, &chars_of("trace")) {
        Some(LevelFilter::Trace)
    } else if chars_eq(&l, &chars_of("off")) {
        Some(LevelFilter::Off)
    } else {
        None
    }
}

/// The level a logger runs at for the configured name.
pub fn level_or_info(level_str: &str) -> (res: LevelFilter)
    ensures
        res == configured_level(level_str@),
{
    match parse_level_filter(level_str) {
        Some(level) => level,
        None => LevelFilter::Info,
    }
}

/// The record layout of the default logger.
pub open spec fn default_pattern() -> Seq<char> {
    "{d(%Y-%m-%d %H:%M:%S)} {l} {t} - {m}\n"@
}

/// The default logger module.
pub struct ApplicationLogger {
    pub level: LevelFilter,
    pub location: Option<String>,
    pub _config: Option<String>,
}

impl LoggerModule for ApplicationLogger {
    open spec fn can_init(&self) -> bool {
        true
    }

    fn new(level_str: &str, location: Option<String>, config: Option<String>) -> (res: Self)
        ensures
            res.level == configured_level(level_str@),
            res.location == location,
            res._config == config,
    {
        Self { level: level_or_info(level_str), location: location, _config: config }
    }

    fn init_allowed(&self) -> (res: bool) {
        true
    }

    fn init(self) -> (res: LoggerSetup)
        ensures
            res.pattern@ == default_pattern(),
            !res.retain_handle,
            res.level == self.level,
            match self.location {
                Some(p) => res.appender@ == "file"@ && res.target == (LogTarget::File { path: p }),
                None => res.appender@ == "stdout"@ && res.target == LogTarget::Console,
            },
    {
        let pattern = "{d(%Y-%m-%d %H:%M:%S)} {l} {t} - {m}\n".to_owned();
        match self.location {
            Some(p) => LoggerSetup {
                appender: "file".to_owned(),
                pattern: pattern,
                target: LogTarget::File { path: p },
                level: self.level,
                retain_handle: false,
            },
            None => LoggerSetup {
                appender: "stdout".to_owned(),
                pattern: pattern,
                target: LogTarget::Console,
                level: self.level,
                retain_handle: false,
            },
        }
    }
}

} // verus!
