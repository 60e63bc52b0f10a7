use rabbitmq_tutorial::common::{
    get_rabbitmq_address, set_default_logging_env, RABBITMQ_URL, RUST_LOG_DEFAULT_VALUE,
};
use rabbitmq_tutorial::routing::Severity;
use rabbitmq_tutorial::text::{format_received, join_from};

#[test]
fn severity_parses_its_three_words() {
    assert_eq!(Severity::try_from("info"), Ok(Severity::Info));
    assert_eq!(Severity::try_from("warn"), Ok(Severity::Warn));
    assert_eq!(Severity::try_from("error"), Ok(Severity::Error));
}

#[test]
fn severity_refuses_other_words_with_a_message_quoting_them() {
    assert_eq!(Severity::try_from("debug"), Err("不明な重要度(debug)です。".to_string()));
    assert_eq!(Severity::try_from("Info"), Err("不明な重要度(Info)です。".to_string()));
    assert_eq!(Severity::try_from(""), Err("不明な重要度()です。".to_string()));
    assert_eq!(Severity::try_from("info "), Err("不明な重要度(info )です。".to_string()));
}

#[test]
fn severity_text() {
    assert_eq!(Severity::Info.to_string(), "info");
    assert_eq!(Severity::Warn.to_string(), "warn");
    assert_eq!(Severity::Error.to_string(), "error");
}

#[test]
fn severity_round_trip() {
    for severity in [Severity::Info, Severity::Warn, Severity::Error] {
        assert_eq!(Severity::try_from(severity.to_string().as_str()), Ok(severity));
    }
    for word in ["info", "warn", "error"] {
        assert_eq!(Severity::try_from(word).unwrap().to_string(), word);
    }
}

#[test]
fn address_from_environment_or_default() {
    assert_eq!(get_rabbitmq_address(None), "amqp://127.0.0.1:5672/%2f");
    assert_eq!(get_rabbitmq_address(None), RABBITMQ_URL);
    assert_eq!(
        get_rabbitmq_address(Some("amqp://broker:5672/%2f".to_string())),
        "amqp://broker:5672/%2f"
    );
    assert_eq!(get_rabbitmq_address(Some(String::new())), "");
}

#[test]
fn logging_default_only_when_unset() {
    assert_eq!(set_default_logging_env(None), Some("info".to_string()));
    assert_eq!(set_default_logging_env(None), Some(RUST_LOG_DEFAULT_VALUE.to_string()));
    assert_eq!(set_default_logging_env(Some("debug".to_string())), None);
    assert_eq!(set_default_logging_env(Some(String::new())), None);
}

#[test]
fn join_from_index() {
    let args: Vec<String> = ["prog", "a", "bb", "c"].iter().map(|s| s.to_string()).collect();
    assert_eq!(join_from(&args, 0, " "), "prog a bb c");
    assert_eq!(join_from(&args, 2, " "), "bb c");
    assert_eq!(join_from(&args, 3, " "), "c");
    assert_eq!(join_from(&args, 4, " "), "");
    assert_eq!(join_from(&args, 1, ", "), "a, bb, c");
}

#[test]
fn received_line_format() {
    assert_eq!(format_received("kern.critical", "disk full"), "[x] kern.critical:disk full");
    assert_eq!(format_received("", ""), "[x] :");
}
