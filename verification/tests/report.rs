use status_relay::journal::{Level, LogLine};
use status_relay::report::Info;

#[test]
fn report_holds_its_fields() {
    let info = Info::new("Washer".to_string(), "done".to_string());
    assert_eq!(info.applianace, "Washer");
    assert_eq!(info.status, "done");
    assert_eq!(info, Info { applianace: "Washer".to_string(), status: "done".to_string() });
}

#[test]
fn report_log_line() {
    let info = Info::new("Washer".to_string(), "done".to_string());
    assert_eq!(info.log_line(), "applianace: Washer status: done");
}

#[test]
fn log_line_holds_level_and_text() {
    let line = LogLine::new(Level::Debug, "text".to_string());
    assert_eq!(line, LogLine { level: Level::Debug, text: "text".to_string() });
    assert_ne!(line, LogLine { level: Level::Info, text: "text".to_string() });
}
