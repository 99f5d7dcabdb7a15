use aralez::custom_logger::ApplicationLogger as RotatingLogger;
use aralez::interface::{ApplicationLogHandle, LevelFilter, LogTarget, LoggerModule};
use aralez::logger::{level_or_info, parse_level_filter, ApplicationLogger};
use aralez::text::parse_i16;

#[test]
fn level_names_are_read_without_case() {
    assert_eq!(parse_level_filter("info"), Some(LevelFilter::Info));
    assert_eq!(parse_level_filter("INFO"), Some(LevelFilter::Info));
    assert_eq!(parse_level_filter("Error"), Some(LevelFilter::Error));
    assert_eq!(parse_level_filter("wArN"), Some(LevelFilter::Warn));
    assert_eq!(parse_level_filter("DEBUG"), Some(LevelFilter::Debug));
    assert_eq!(parse_level_filter("trace"), Some(LevelFilter::Trace));
    assert_eq!(parse_level_filter("Off"), Some(LevelFilter::Off));
}

#[test]
fn unknown_level_names_select_info() {
    assert_eq!(parse_level_filter("verbose"), None);
    assert_eq!(parse_level_filter(""), None);
    assert_eq!(parse_level_filter(" info"), None);
    assert_eq!(level_or_info("verbose"), LevelFilter::Info);
    assert_eq!(level_or_info("TRACE"), LevelFilter::Trace);
}

#[test]
fn default_logger_keeps_its_settings() {
    let logger = ApplicationLogger::new("Debug", Some("/tmp/a.log".to_string()), Some("x".to_string()));
    assert_eq!(logger.level, LevelFilter::Debug);
    assert_eq!(logger.location, Some("/tmp/a.log".to_string()));
    assert_eq!(logger._config, Some("x".to_string()));
    let fallback = ApplicationLogger::new("loud", None, None);
    assert_eq!(fallback.level, LevelFilter::Info);
}

#[test]
fn default_logger_writes_to_the_configured_file() {
    let setup = ApplicationLogger::new("warn", Some("/var/log/aralez.log".to_string()), None).init();
    assert_eq!(setup.appender, "file");
    assert_eq!(setup.pattern, "{d(%Y-%m-%d %H:%M:%S)} {l} {t} - {m}\n");
    assert_eq!(setup.level, LevelFilter::Warn);
    assert!(!setup.retain_handle);
    match setup.target {
        LogTarget::File { path } => assert_eq!(path, "/var/log/aralez.log"),
        _ => panic!("expected a file target"),
    }
}

#[test]
fn default_logger_without_location_writes_to_stdout() {
    let setup = ApplicationLogger::new("error", None, None).init();
    assert_eq!(setup.appender, "stdout");
    assert_eq!(setup.level, LevelFilter::Error);
    assert!(matches!(setup.target, LogTarget::Console));
}

fn rolling(config: Option<&str>) -> (u64, String, u32, u32) {
    let setup = RotatingLogger::new("info", Some("/var/log/a.log".to_string()), config.map(|s| s.to_string())).init();
    assert_eq!(setup.appender, "file");
    assert_eq!(setup.pattern, "{d(%Y-%m-%d %H:%M:%S%.3f)} {l} {t} - {m}\n");
    assert!(setup.retain_handle);
    match setup.target {
        LogTarget::RollingFile { path, max_size_bytes, roll_pattern, first_index, count } => {
            assert_eq!(path, "/var/log/a.log");
            (max_size_bytes, roll_pattern, first_index, count)
        }
        _ => panic!("expected a rolling file target"),
    }
}

#[test]
fn rotation_defaults_to_200_megabytes() {
    let (size, pattern, first, count) = rolling(None);
    assert_eq!(size, 200 * 1024 * 1024);
    assert_eq!(pattern, "/var/log/a.log.{}");
    assert_eq!(first, 1);
    assert_eq!(count, 5);
}

#[test]
fn rotation_size_is_read_in_megabytes() {
    assert_eq!(rolling(Some("10")).0, 10_485_760);
    assert_eq!(rolling(Some("+5")).0, 5 * 1_048_576);
    assert_eq!(rolling(Some("0")).0, 0);
    assert_eq!(rolling(Some("32767")).0, 32767 * 1_048_576);
}

#[test]
fn unreadable_rotation_size_falls_back_to_200() {
    assert_eq!(rolling(Some("big")).0, 209_715_200);
    assert_eq!(rolling(Some("40000")).0, 209_715_200);
    assert_eq!(rolling(Some("")).0, 209_715_200);
    assert_eq!(rolling(Some(" 10")).0, 209_715_200);
    assert_eq!(rolling(Some("10MB")).0, 209_715_200);
}

#[test]
fn rotating_logger_without_path_writes_to_stdout() {
    let setup = RotatingLogger::new("TRACE", None, Some("-5".to_string())).init();
    assert_eq!(setup.appender, "stdout");
    assert_eq!(setup.level, LevelFilter::Trace);
    assert!(matches!(setup.target, LogTarget::Console));
}

#[test]
fn i16_text_is_read_as_str_parse_reads_it() {
    for text in ["0", "-0", "+7", "-32768", "32767", "32768", "-32769", "+", "-", "", "1_0", "٣", "12a"] {
        assert_eq!(parse_i16(text), text.parse::<i16>().ok(), "{text:?}");
    }
}

#[test]
fn handles_are_built() {
    let _kept = ApplicationLogHandle::new(String::from("logger"));
    let _none = ApplicationLogHandle::empty();
}

#[test]
fn negative_rotation_size_cannot_be_initialised() {
    let with_file = RotatingLogger::new("info", Some("/var/log/a.log".to_string()), Some("-5".to_string()));
    assert!(!with_file.init_allowed());
    let console = RotatingLogger::new("info", None, Some("-5".to_string()));
    assert!(console.init_allowed());
    let sized = RotatingLogger::new("info", Some("/var/log/a.log".to_string()), Some("12".to_string()));
    assert!(sized.init_allowed());
    let default = ApplicationLogger::new("info", Some("/var/log/a.log".to_string()), Some("-5".to_string()));
    assert!(default.init_allowed());
}
