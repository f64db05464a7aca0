use camera_pipeline::logging::{default_filter, level_style, record_line, LevelColor, LogLevel};

#[test]
fn levels_have_their_colors_and_labels() {
    assert_eq!(level_style(LogLevel::Trace), (LevelColor::Magenta, "TRACE"));
    assert_eq!(level_style(LogLevel::Debug), (LevelColor::Blue, "DEBUG"));
    assert_eq!(level_style(LogLevel::Info), (LevelColor::Green, "INFO "));
    assert_eq!(level_style(LogLevel::Warn), (LevelColor::Yellow, "WARN "));
    assert_eq!(level_style(LogLevel::Error), (LevelColor::Red, "ERROR"));
}

#[test]
fn labels_line_up() {
    for level in [LogLevel::Trace, LogLevel::Debug, LogLevel::Info, LogLevel::Warn, LogLevel::Error] {
        assert_eq!(level_style(level).1.len(), 5);
    }
}

#[test]
fn verbose_logs_debug() {
    assert_eq!(default_filter(true), "debug");
    assert_eq!(default_filter(false), "info");
}

#[test]
fn record_lines() {
    assert_eq!(
        record_line("INFO ", "12:00:00.000", Some("src/main.rs"), Some(42), "started"),
        "INFO  12:00:00.000 src/main.rs:42: started"
    );
    assert_eq!(record_line("ERROR", "t", None, None, "m"), "ERROR t unknown:0: m");
}
