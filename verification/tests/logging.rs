use nomad_logger::install::{install_step, InstallOutcome};
use nomad_logger::level::LogLevel;
use nomad_logger::logger::{NomadLogger, Stream};
use nomad_logger::record::{normalize, normalize_at};
use nomad_logger::render::render_line;

fn encoded_empty_object() -> String {
    let value: std::collections::BTreeMap<String, i64> = std::collections::BTreeMap::new();
    serde_json::to_string(&value).unwrap()
}

#[test]
fn compiles_info() {
    let logger = NomadLogger::default();
    logger.info("Fooobar");
    logger.info(&format!("Fooobar {}", "foo"));
    logger.info(&encoded_empty_object());
}

#[test]
fn compiles_warn() {
    let logger = NomadLogger::default();
    logger.warn("Fooobar");
    logger.warn(&format!("Fooobar {}", "foo"));
    logger.warn(&encoded_empty_object());
}

#[test]
fn compiles_trace() {
    let logger = NomadLogger::default();
    logger.trace("Fooobar");
    logger.trace(&format!("Fooobar {}", "foo"));
    logger.trace(&encoded_empty_object());
}

#[test]
fn compiles_error() {
    let logger = NomadLogger::default();
    logger.error("Fooobar");
    logger.error(&format!("Fooobar {}", "foo"));
    logger.error(&encoded_empty_object());
}

#[test]
fn compiles_debug() {
    let logger = NomadLogger::default();
    logger.debug("Fooobar");
    logger.debug(&format!("Fooobar {}", "foo"));
    logger.debug(&encoded_empty_object());
}

#[test]
fn enabled_matrix_info_threshold() {
    let logger = NomadLogger::default();
    assert!(logger.enabled(LogLevel::Error));
    assert!(logger.enabled(LogLevel::Warn));
    assert!(logger.enabled(LogLevel::Info));
    assert!(!logger.enabled(LogLevel::Debug));
    assert!(!logger.enabled(LogLevel::Trace));
}

#[test]
fn enabled_matrix_error_threshold() {
    let logger = NomadLogger::default().with_log_level(LogLevel::Error);
    assert!(logger.enabled(LogLevel::Error));
    assert!(!logger.enabled(LogLevel::Warn));
    assert!(!logger.enabled(LogLevel::Info));
}

#[test]
fn enabled_matrix_trace_threshold() {
    let logger = NomadLogger::default().with_log_level(LogLevel::Trace);
    assert!(logger.enabled(LogLevel::Error));
    assert!(logger.enabled(LogLevel::Trace));
}

#[test]
fn enabled_is_idempotent() {
    let logger = NomadLogger::default();
    let first = logger.enabled(LogLevel::Debug);
    let second = logger.enabled(LogLevel::Debug);
    assert_eq!(first, second);
    let third = logger.enabled(LogLevel::Error);
    let fourth = logger.enabled(LogLevel::Error);
    assert_eq!(third, fourth);
}

#[test]
fn dispatch_routes_error_to_stderr() {
    let logger = NomadLogger::default();
    let record = normalize_at(LogLevel::Error, "{\"code\": 42}", 7);
    let out = logger.dispatch(&record).unwrap();
    assert_eq!(out.0, Stream::Stderr);
    assert_eq!(out.1, "{\"timestamp\":7,\"log_level\":\"ERROR\",\"code\": 42}");
}

#[test]
fn dispatch_routes_info_to_stdout() {
    let logger = NomadLogger::default();
    let record = normalize_at(LogLevel::Info, "hello", 5);
    let out = logger.dispatch(&record).unwrap();
    assert_eq!(out.0, Stream::Stdout);
    assert_eq!(out.1, "{\"timestamp\":5,\"log_level\":\"INFO\",\"data\":\"hello\"}");
}

#[test]
fn dispatch_drops_debug_under_info_threshold() {
    let logger = NomadLogger::default();
    let record = normalize_at(LogLevel::Debug, "hello", 5);
    assert!(logger.dispatch(&record).is_none());
    let record = normalize_at(LogLevel::Trace, "{\"a\":1}", 5);
    assert!(logger.dispatch(&record).is_none());
}

#[test]
fn normalize_keeps_valid_json_verbatim() {
    let record = normalize_at(LogLevel::Info, "{\"code\": 42}", 0);
    assert_eq!(record.data, "{\"code\": 42}");
    let record = normalize_at(LogLevel::Info, "[1, 2, 3]", 0);
    assert_eq!(record.data, "[1, 2, 3]");
    let record = normalize_at(LogLevel::Info, "\"hi\"", 0);
    assert_eq!(record.data, "\"hi\"");
    let record = normalize_at(LogLevel::Info, "42", 0);
    assert_eq!(record.data, "42");
}

#[test]
fn normalize_parsed_data_round_trips() {
    let payload = "{\"code\": 42, \"tag\": \"x\"}";
    let record = normalize_at(LogLevel::Info, payload, 0);
    let parsed_payload: serde_json::Value = serde_json::from_str(payload).unwrap();
    let parsed_data: serde_json::Value = serde_json::from_str(&record.data).unwrap();
    assert_eq!(parsed_payload, parsed_data);
}

#[test]
fn normalize_wraps_invalid_json_as_string() {
    let record = normalize_at(LogLevel::Info, "hello", 0);
    assert_eq!(record.data, "\"hello\"");
    let record = normalize_at(LogLevel::Info, "Fooobar foo", 0);
    assert_eq!(record.data, "\"Fooobar foo\"");
    let record = normalize_at(LogLevel::Info, "", 0);
    assert_eq!(record.data, "\"\"");
}

#[test]
fn normalize_escapes_wrapped_text() {
    let record = normalize_at(LogLevel::Info, "a\"b\\c", 0);
    assert_eq!(record.data, "\"a\\\"b\\\\c\"");
    let record = normalize_at(LogLevel::Info, "line\nbreak\ttab\rret", 0);
    assert_eq!(record.data, "\"line\\nbreak\\ttab\\rret\"");
    let record = normalize_at(LogLevel::Info, "ctl\u{0001}\u{0008}\u{000C}\u{001f}end", 0);
    assert_eq!(record.data, "\"ctl\\u0001\\b\\f\\u001fend\"");
}

#[test]
fn normalize_wrapped_text_decodes_back() {
    let payload = "not json: \"quoted\" and \\slash\u{0002}";
    let record = normalize_at(LogLevel::Warn, payload, 0);
    let decoded: serde_json::Value = serde_json::from_str(&record.data).unwrap();
    assert_eq!(decoded.as_str().unwrap(), payload);
}

#[test]
fn normalize_encoded_value_is_kept() {
    let mut value: std::collections::BTreeMap<String, i64> = std::collections::BTreeMap::new();
    value.insert("code".to_string(), 42);
    let encoded = serde_json::to_string(&value).unwrap();
    let record = normalize_at(LogLevel::Error, &encoded, 0);
    assert_eq!(record.data, encoded);
    assert_eq!(record.data, "{\"code\":42}");
}

#[test]
fn normalize_samples_level_and_payload() {
    let record = normalize(LogLevel::Warn, "hello");
    assert_eq!(record.log_level, LogLevel::Warn);
    assert_eq!(record.data, "\"hello\"");
}

#[test]
fn render_flattens_object_payload() {
    let record = normalize_at(LogLevel::Error, "{\"code\": 42}", 7);
    let line = render_line(&record);
    assert_eq!(line, "{\"timestamp\":7,\"log_level\":\"ERROR\",\"code\": 42}");
}

#[test]
fn render_nests_string_payload_under_data() {
    let record = normalize_at(LogLevel::Info, "hello", 5);
    let line = render_line(&record);
    assert_eq!(line, "{\"timestamp\":5,\"log_level\":\"INFO\",\"data\":\"hello\"}");
}

#[test]
fn render_nests_array_payload_under_data() {
    let record = normalize_at(LogLevel::Warn, "[1, 2]", 3);
    let line = render_line(&record);
    assert_eq!(line, "{\"timestamp\":3,\"log_level\":\"WARN\",\"data\":[1, 2]}");
}

#[test]
fn render_drops_fields_of_empty_object() {
    let record = normalize_at(LogLevel::Info, "{}", 1);
    assert_eq!(render_line(&record), "{\"timestamp\":1,\"log_level\":\"INFO\"}");
    let record = normalize_at(LogLevel::Info, "{   }", 1);
    assert_eq!(render_line(&record), "{\"timestamp\":1,\"log_level\":\"INFO\"}");
}

#[test]
fn render_flattens_object_with_surrounding_whitespace() {
    let record = normalize_at(LogLevel::Info, "  {\"a\": 1} \n", 2);
    let line = render_line(&record);
    assert_eq!(line, "{\"timestamp\":2,\"log_level\":\"INFO\",\"a\": 1}");
}

#[test]
fn render_negative_timestamp() {
    let record = normalize_at(LogLevel::Info, "1", -3);
    assert_eq!(render_line(&record), "{\"timestamp\":-3,\"log_level\":\"INFO\",\"data\":1}");
}

#[test]
fn rendered_line_is_valid_json() {
    let record = normalize_at(LogLevel::Error, "{\"code\": 42}", 1700000000000);
    let line = render_line(&record);
    let parsed: serde_json::Value = serde_json::from_str(&line).unwrap();
    assert_eq!(parsed.get("timestamp").unwrap().as_i64().unwrap(), 1700000000000);
    assert_eq!(parsed.get("log_level").unwrap().as_str().unwrap(), "ERROR");
    assert_eq!(parsed.get("code").unwrap().as_i64().unwrap(), 42);
    assert!(parsed.get("data").is_none());
}

#[test]
fn rendered_wrapped_line_is_valid_json() {
    let record = normalize_at(LogLevel::Info, "plain text \"with\" quotes", 12);
    let line = render_line(&record);
    let parsed: serde_json::Value = serde_json::from_str(&line).unwrap();
    assert_eq!(parsed.get("timestamp").unwrap().as_i64().unwrap(), 12);
    assert_eq!(parsed.get("log_level").unwrap().as_str().unwrap(), "INFO");
    assert_eq!(parsed.get("data").unwrap().as_str().unwrap(), "plain text \"with\" quotes");
}

#[test]
fn level_names_are_canonical() {
    assert_eq!(LogLevel::Error.name(), "ERROR");
    assert_eq!(LogLevel::Warn.name(), "WARN");
    assert_eq!(LogLevel::Info.name(), "INFO");
    assert_eq!(LogLevel::Debug.name(), "DEBUG");
    assert_eq!(LogLevel::Trace.name(), "TRACE");
}

#[test]
fn severity_order_is_total() {
    assert!(LogLevel::Error.severity() < LogLevel::Warn.severity());
    assert!(LogLevel::Warn.severity() < LogLevel::Info.severity());
    assert!(LogLevel::Info.severity() < LogLevel::Debug.severity());
    assert!(LogLevel::Debug.severity() < LogLevel::Trace.severity());
}

#[test]
fn first_install_is_accepted() {
    let (installed, outcome) = install_step(false);
    assert!(installed);
    assert_eq!(outcome, InstallOutcome::Accepted);
}

#[test]
fn second_install_is_refused() {
    let (installed, outcome) = install_step(false);
    assert!(installed);
    assert_eq!(outcome, InstallOutcome::Accepted);
    let (still_installed, second) = install_step(installed);
    assert!(still_installed);
    assert_eq!(second, InstallOutcome::AlreadyInstalled);
}

#[test]
fn with_log_level_replaces_threshold() {
    let logger = NomadLogger::default().with_log_level(LogLevel::Debug);
    assert!(logger.enabled(LogLevel::Debug));
    assert!(!logger.enabled(LogLevel::Trace));
    assert_eq!(logger.max_level(), LogLevel::Debug);
}

#[test]
fn default_threshold_is_info() {
    let logger = NomadLogger::default();
    assert_eq!(logger.max_level(), LogLevel::Info);
}
