use gt7_telemetry::config::{
    parse_decimal_u64, parse_log_packet_interval, validate_required_env_vars,
    DEFAULT_LOG_INTERVAL_SECONDS,
};
use std::time::Duration;

#[test]
fn test_parse_log_packet_interval_default() {
    let result = parse_log_packet_interval(None);
    assert_eq!(result, Some(Duration::from_secs(5)));
}

#[test]
fn test_parse_log_packet_interval_disabled() {
    let result = parse_log_packet_interval(Some("0"));
    assert_eq!(result, None);
}

#[test]
fn test_parse_log_packet_interval_valid_values() {
    let test_cases = vec![("1", 1), ("10", 10), ("60", 60)];

    for (input, expected) in test_cases {
        let result = parse_log_packet_interval(Some(input));
        assert_eq!(
            result,
            Some(Duration::from_secs(expected)),
            "Failed for input: {}",
            input
        );
    }
}

#[test]
fn test_parse_log_packet_interval_invalid_values() {
    let invalid_inputs = vec!["-1", "abc", "", "1.5"];

    for input in invalid_inputs {
        let result = parse_log_packet_interval(Some(input));
        assert_eq!(
            result,
            Some(Duration::from_secs(5)),
            "Should use default for invalid input: {}",
            input
        );
    }
}

#[test]
fn test_validate_required_env_vars_success() {
    let result = validate_required_env_vars(
        Some("192.168.1.100".to_string()),
        Some("pulsar://localhost:6650".to_string()),
        Some("test-topic".to_string()),
    );
    assert!(result.is_ok());

    let (ps5_ip, pulsar_url, pulsar_topic) = result.unwrap();
    assert_eq!(ps5_ip, "192.168.1.100");
    assert_eq!(pulsar_url, "pulsar://localhost:6650");
    assert_eq!(pulsar_topic, "test-topic");
}

#[test]
fn test_validate_required_env_vars_missing_ps5_ip() {
    let result = validate_required_env_vars(
        None,
        Some("pulsar://localhost:6650".to_string()),
        Some("test-topic".to_string()),
    );
    assert!(result.is_err());
    assert!(result.unwrap_err().contains("PS5_IP_ADDRESS"));
}

#[test]
fn test_validate_required_env_vars_missing_pulsar_url() {
    let result = validate_required_env_vars(
        Some("192.168.1.100".to_string()),
        None,
        Some("test-topic".to_string()),
    );
    assert!(result.is_err());
    assert!(result.unwrap_err().contains("PULSAR_SERVICE_URL"));
}

#[test]
fn test_validate_required_env_vars_missing_pulsar_topic() {
    let result = validate_required_env_vars(
        Some("192.168.1.100".to_string()),
        Some("pulsar://localhost:6650".to_string()),
        None,
    );
    assert!(result.is_err());
    assert!(result.unwrap_err().contains("PULSAR_TOPIC"));
}

#[test]
fn test_validate_required_env_vars_all_missing() {
    let result = validate_required_env_vars(None, None, None);
    assert!(result.is_err());
    assert!(result.unwrap_err().contains("PS5_IP_ADDRESS"));
}

#[test]
fn complaints_name_the_first_missing_setting() {
    assert_eq!(
        validate_required_env_vars(None, None, Some("t".to_string())),
        Err("Error: The PS5_IP_ADDRESS environment variable must be set.".to_string())
    );
    assert_eq!(
        validate_required_env_vars(Some("a".to_string()), None, None),
        Err("Error: The PULSAR_SERVICE_URL environment variable must be set.".to_string())
    );
    assert_eq!(
        validate_required_env_vars(Some("a".to_string()), Some("b".to_string()), None),
        Err("Error: The PULSAR_TOPIC environment variable must be set.".to_string())
    );
}

#[test]
fn decimal_numbers_parse_as_the_standard_library_does() {
    let texts = [
        "0",
        "7",
        "007",
        "+5",
        "+",
        "",
        "-0",
        "-1",
        "1.5",
        "abc",
        "12a",
        " 12",
        "12 ",
        "1_000",
        "++1",
        "18446744073709551615",
        "18446744073709551616",
        "+18446744073709551615",
        "99999999999999999999999",
        "000000000000000000000000000001",
        "١٢",
    ];
    for text in texts {
        assert_eq!(parse_decimal_u64(text), text.parse::<u64>().ok(), "{:?}", text);
    }
    assert_eq!(parse_decimal_u64("18446744073709551615"), Some(u64::MAX));
    assert_eq!(parse_decimal_u64("18446744073709551616"), None);
    assert_eq!(parse_decimal_u64("+42"), Some(42));
    assert_eq!(parse_decimal_u64("4 2"), None);
}

#[test]
fn log_interval_edge_cases() {
    assert_eq!(DEFAULT_LOG_INTERVAL_SECONDS, 5);
    assert_eq!(parse_log_packet_interval(Some("+0")), None);
    assert_eq!(parse_log_packet_interval(Some("000")), None);
    assert_eq!(
        parse_log_packet_interval(Some("18446744073709551615")),
        Some(Duration::from_secs(u64::MAX))
    );
    assert_eq!(
        parse_log_packet_interval(Some("18446744073709551616")),
        Some(Duration::from_secs(5))
    );
    assert_eq!(
        parse_log_packet_interval(Some("3600")),
        Some(Duration::from_secs(3600))
    );
}
