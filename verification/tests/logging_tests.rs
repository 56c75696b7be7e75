use thunder_mirror::logging::{log_file_name, parse_log_level, LogLevel};

#[test]
fn levels_by_name() {
    assert_eq!(parse_log_level("trace"), LogLevel::Trace);
    assert_eq!(parse_log_level("debug"), LogLevel::Debug);
    assert_eq!(parse_log_level("info"), LogLevel::Info);
    assert_eq!(parse_log_level("warn"), LogLevel::Warn);
    assert_eq!(parse_log_level("error"), LogLevel::Error);
}

#[test]
fn unknown_names_mean_info() {
    assert_eq!(parse_log_level(""), LogLevel::Info);
    assert_eq!(parse_log_level("verbose"), LogLevel::Info);
    assert_eq!(parse_log_level("TRACE"), LogLevel::Info);
    assert_eq!(parse_log_level(" debug"), LogLevel::Info);
    assert_eq!(parse_log_level("warning"), LogLevel::Info);
}

#[test]
fn log_file_names() {
    assert_eq!(
        log_file_name("win_receiver", "20240131_235959"),
        "win_receiver_20240131_235959.log"
    );
    assert_eq!(log_file_name("", ""), "_.log");
}
