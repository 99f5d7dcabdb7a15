//! The size-rotating logger module: with a location it writes to a file
//! that is rolled over at a configured size (in megabytes, 200 when not
//! configured), keeping the archives `<file>.1` to `<file>.5`; without one
//! it writes to standard output.

use crate::interface::{LevelFilter, LogTarget, LoggerModule, LoggerSetup};
use crate::logger::{configured_level, level_or_info};
use crate::text::{parse_i16, parsed_i16, push_str};
use vstd::prelude::*;

verus! {

/// The rotation size in megabytes that the extra setting selects: the
/// setting read as an `i16`, or 200 when there is none or it does not read
/// as one.
pub open spec fn rotation_size_mb(config: Option<Seq<char>>) -> int {
    match config {
        Some(s) => match parsed_i16(s) {
            Some(v) => v as int,
            None => 200,
        },
        None => 200,
    }
}

/// The archive names of a rotated file: the file name, a dot, and the
/// archive number where `{}` stands.
pub open spec fn roll_pattern_for(path: Seq<char>) -> Seq<char> {
    path + ".{}"@
}

/// The record layout of the rotating logger (with milliseconds).
pub open spec fn rotating_pattern() -> Seq<char> {
    "{d(%Y-%m-%d %H:%M:%S%.3f)} {l} {t} - {m}\n"@
}

/// The view of an optional string.
pub open spec fn opt_view(s: Option<String>) -> Option<Seq<char>> {
    match s {
        Some(t) => Some(t@),
        None => None,
    }
}

/// A rotating logger can be initialised when it has no file, when no size
/// is configured (the size is then 200), when the setting does not read as
/// an `i16`, or when it reads as a size of 0 or more; only a file logger
/// whose setting reads as a negative `i16` cannot.
pub proof fn lemma_rotating_logger_init_allowed(logger: ApplicationLogger)
    ensures
        rotation_size_mb(None) == 200,
        logger.path() is None ==> logger.can_init(),
        logger.config() is None ==> logger.can_init(),
        logger.config() matches Some(s) ==> (parsed_i16(s@) is None ==> logger.can_init()),
        logger.config() matches Some(s) ==> (parsed_i16(s@) matches Some(v) ==> (v >= 0
            ==> logger.can_init())),
        logger.config() matches Some(s) ==> (parsed_i16(s@) matches Some(v) ==> (v < 0
            && logger.path() is Some ==> !logger.can_init())),
{
}

/// The rotating logger module.
pub struct ApplicationLogger {
    level: LevelFilter,
    path: Option<String>,
    config: Option<String>,
}

impl ApplicationLogger {
    pub closed spec fn level(&self) -> LevelFilter {
        self.level
    }

    pub closed spec fn path(&self) -> Option<String> {
        self.path
    }

    pub closed spec fn config(&self) -> Option<String> {
        self.config
    }
}

/// The rotation size in megabytes of the configured extra setting.
fn size_mb(config: &Option<String>) -> (res: i16)
    ensures
        res as int == rotation_size_mb(opt_view(*config)),
{
    match config {
        Some(s) => match parse_i16(s.as_str()) {
            Some(v) => v,
            None => 200,
        },
        None => 200,
    }
}

impl LoggerModule for ApplicationLogger {
    /// A file logger needs a rotation size that is not negative: the size
    /// in bytes is computed as `size_mb as u64 * 1024 * 1024`, which
    /// overflows for a negative size.
    open spec fn can_init(&self) -> bool {
        self.path() is Some ==> rotation_size_mb(opt_view(self.config())) >= 0
    }

    fn new(level_str: &str, location: Option<String>, config: Option<String>) -> (res: Self)
        ensures
            res.level() == configured_level(level_str@),
            res.path() == location,
            res.config() == config,
    {
        Self { level: level_or_info(level_str), path: location, config: config }
    }

    fn init_allowed(&self) -> (res: bool) {
        match &self.path {
            Some(_) => size_mb(&self.config) >= 0,
            None => true,
        }
    }

    fn init(self) -> (res: LoggerSetup)
        ensures
            res.pattern@ == rotating_pattern(),
            res.retain_handle,
            res.level == self.level(),
            match self.path() {
                Some(p) => {
                    &&& res.appender@ == "file"@
                    &&& res.target matches LogTarget::RollingFile {
                        path,
                        max_size_bytes,
                        roll_pattern,
                        first_index,
                        count,
                    }
                    &&& path == p
                    &&& max_size_bytes == rotation_size_mb(opt_view(self.config())) * 1024 * 1024
                    &&& roll_pattern@ == roll_pattern_for(p@)
                    &&& first_index == 1
                    &&& count == 5
                },
                None => res.appender@ == "stdout"@ && res.target == LogTarget::Console,
            },
    {
        let pattern = "{d(%Y-%m-%d %H:%M:%S%.3f)} {l} {t} - {m}\n".to_owned();
        match self.path {
            Some(p) => {
                let mb = size_mb(&self.config);
                let max_size_bytes = (mb as u64) * 1024 * 1024;
                let mut roll_pattern = String::new();
                push_str(&mut roll_pattern, p.as_str());
                push_str(&mut roll_pattern, ".{}");
                LoggerSetup {
                    appender: "file".to_owned(),
                    pattern: pattern,
                    target: LogTarget::RollingFile {
                        path: p,
                        max_size_bytes: max_size_bytes,
                        roll_pattern: roll_pattern,
                        first_index: 1,
                        count: 5,
                    },
                    level: self.level,
                    retain_handle: true,
                }
            },
            None => LoggerSetup {
                appender: "stdout".to_owned(),
                pattern: pattern,
                target: LogTarget::Console,
                level: self.level,
                retain_handle: true,
            },
        }
    }
}

} // verus!
