use pj::id_manager::{parse_count, parse_duration};
use pj::parse_proxy_mapping;
use pj::ProxyMapping;

#[test]
fn test_parse_duration_single_unit() {
    assert_eq!(parse_duration("1d").unwrap(), 86400);
    assert_eq!(parse_duration("24h").unwrap(), 86400);
    assert_eq!(parse_duration("60m").unwrap(), 3600);
    assert_eq!(parse_duration("3600s").unwrap(), 3600);
}

#[test]
fn test_parse_duration_combined() {
    assert_eq!(parse_duration("1d12h").unwrap(), 129600);
    assert_eq!(parse_duration("1h30m").unwrap(), 5400);
    assert_eq!(parse_duration("2h30m45s").unwrap(), 9045);
}

#[test]
fn test_parse_duration_errors() {
    assert!(parse_duration("").is_err());
    assert!(parse_duration("abc").is_err());
    assert!(parse_duration("10").is_err());
    assert!(parse_duration("10x").is_err());
    assert!(parse_duration("h10").is_err());
}

#[test]
fn test_parse_duration_error_messages() {
    assert_eq!(parse_duration("").unwrap_err(), "Empty duration string");
    assert_eq!(
        parse_duration("h10").unwrap_err(),
        "Invalid duration format: missing number before 'h'"
    );
    assert_eq!(parse_duration("10x").unwrap_err(), "Invalid time unit: 'x'");
    assert_eq!(
        parse_duration("10").unwrap_err(),
        "Duration must include a unit (d/h/m/s)"
    );
    assert_eq!(
        parse_duration("0s").unwrap_err(),
        "Duration must be greater than 0"
    );
    assert_eq!(
        parse_duration("99999999999999999999s").unwrap_err(),
        "Invalid number: 99999999999999999999"
    );
    assert_eq!(
        parse_duration("300000000000000d").unwrap_err(),
        "Duration value too large"
    );
}

#[test]
fn test_parse_duration_trims_and_folds_case() {
    assert_eq!(parse_duration("  1d  ").unwrap(), 86400);
    assert_eq!(parse_duration("1D12H").unwrap(), 129600);
}

#[test]
fn test_parse_count_plain() {
    assert_eq!(parse_count("1000").unwrap(), 1000);
    assert_eq!(parse_count("999999").unwrap(), 999999);
}

#[test]
fn test_parse_count_with_units() {
    assert_eq!(parse_count("1k").unwrap(), 1_000);
    assert_eq!(parse_count("100k").unwrap(), 100_000);
    assert_eq!(parse_count("1m").unwrap(), 1_000_000);
    assert_eq!(parse_count("10m").unwrap(), 10_000_000);
    assert_eq!(parse_count("1g").unwrap(), 1_000_000_000);
}

#[test]
fn test_parse_count_errors() {
    assert!(parse_count("").is_err());
    assert!(parse_count("abc").is_err());
    assert!(parse_count("0").is_err());
    assert!(parse_count("0k").is_err());
    assert!(parse_count("-100").is_err());
}

#[test]
fn test_parse_count_error_messages() {
    assert_eq!(parse_count("").unwrap_err(), "Empty count string");
    assert_eq!(parse_count("abc").unwrap_err(), "Invalid number: abc");
    assert_eq!(parse_count("-100").unwrap_err(), "Invalid number: -100");
    assert_eq!(
        parse_count("0").unwrap_err(),
        "Count must be greater than 0"
    );
    assert_eq!(
        parse_count("99999999999999999999").unwrap_err(),
        "Invalid number: 99999999999999999999"
    );
    assert_eq!(
        parse_count("19000000000g").unwrap_err(),
        "Count value too large"
    );
}

#[test]
fn test_parse_count_accepts_plus_and_upper_case() {
    assert_eq!(parse_count("+100").unwrap(), 100);
    assert_eq!(parse_count("1K").unwrap(), 1_000);
    assert_eq!(parse_count(" 2g ").unwrap(), 2_000_000_000);
}

#[test]
fn test_parse_proxy_mapping_valid() {
    let input = "127.0.0.1:8080:192.168.1.1:9090";
    let result = parse_proxy_mapping(input);

    assert!(result.is_ok());
    let mapping = result.expect("Failed to parse valid mapping");
    assert_eq!(mapping.listen_addr, "127.0.0.1:8080");
    assert_eq!(mapping.proxy_addr, "192.168.1.1:9090");
}

#[test]
fn test_parse_proxy_mapping_with_localhost() {
    let input = "localhost:8080:localhost:9090";
    let result = parse_proxy_mapping(input);

    assert!(result.is_ok());
    let mapping = result.expect("Failed to parse localhost mapping");
    assert_eq!(mapping.listen_addr, "localhost:8080");
    assert_eq!(mapping.proxy_addr, "localhost:9090");
}

#[test]
fn test_parse_proxy_mapping_with_zeros() {
    let input = "0.0.0.0:80:10.0.0.1:8080";
    let result = parse_proxy_mapping(input);

    assert!(result.is_ok());
    let mapping = result.expect("Failed to parse zeros mapping");
    assert_eq!(mapping.listen_addr, "0.0.0.0:80");
    assert_eq!(mapping.proxy_addr, "10.0.0.1:8080");
}

#[test]
fn test_parse_proxy_mapping_invalid_format() {
    let test_cases = vec![
        "127.0.0.1:8080",
        "127.0.0.1:8080:192.168.1.1",
        "127.0.0.1",
        "",
        "127.0.0.1:8080:192.168.1.1:9090:extra",
    ];

    for input in test_cases {
        let result = parse_proxy_mapping(input);
        assert!(result.is_err(), "Expected error for input: {}", input);
    }
}

#[test]
fn test_proxy_mapping_clone() {
    let mapping = ProxyMapping {
        listen_addr: "127.0.0.1:8080".to_string(),
        proxy_addr: "192.168.1.1:9090".to_string(),
    };

    let cloned = mapping.clone();
    assert_eq!(cloned.listen_addr, mapping.listen_addr);
    assert_eq!(cloned.proxy_addr, mapping.proxy_addr);
}

#[test]
fn test_proxy_mapping_debug() {
    let mapping = ProxyMapping {
        listen_addr: "127.0.0.1:8080".to_string(),
        proxy_addr: "192.168.1.1:9090".to_string(),
    };

    let debug_str = format!("{:?}", mapping);
    assert!(debug_str.contains("127.0.0.1:8080"));
    assert!(debug_str.contains("192.168.1.1:9090"));
}
