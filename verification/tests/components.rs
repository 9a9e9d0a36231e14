use code_runner::config::Config;
use code_runner::logs::{collect_logs, ContainerLogs, LogChunk};
use code_runner::mapper::{build_request, create_error_response};
use code_runner::models::{CodeExecutionRequest, Language};
use code_runner::numerals::parse_i64;
use code_runner::profile::{create_container_config, resolve_profile};
use code_runner::text::{str_eq, swap_quotes};
use code_runner::truncate::truncate_output;

#[test]
fn default_config_matches_stock_values() {
    let config = Config::default();
    assert_eq!(config.server.host, "0.0.0.0");
    assert_eq!(config.server.port, 8080);
    assert_eq!(config.docker.socket_path, "/var/run/docker.sock");
    assert_eq!(config.docker.network, "none");
    assert_eq!(config.docker.memory_limit, "100m");
    assert_eq!(config.docker.cpu_shares, 512);
    assert_eq!(config.execution.default_timeout, 120);
    assert_eq!(config.execution.max_output_size, 10 * 1024 * 1024);
}

#[test]
fn default_request_is_empty_python() {
    let request = CodeExecutionRequest::default();
    assert_eq!(request.code, "");
    assert!(matches!(request.language, Language::Python));
    assert!(request.timeout.is_none());
    assert!(request.stdin.is_none());
}

#[test]
fn language_tags_round_trip_case_insensitively() {
    for (tag, want) in [
        ("python", Language::Python),
        ("Python", Language::Python),
        ("PYTHON", Language::Python),
        ("javascript", Language::JavaScript),
        ("JavaScript", Language::JavaScript),
        ("golang", Language::Golang),
        ("GOLANG", Language::Golang),
        ("kotlin", Language::Kotlin),
        ("Kotlin", Language::Kotlin),
    ] {
        match Language::from_str(tag) {
            Ok(got) => assert_eq!(got, want, "tag {tag}"),
            Err(e) => panic!("tag {tag} rejected: {e}"),
        }
    }
}

#[test]
fn unsupported_language_is_an_error_not_a_default() {
    match Language::from_str("ruby") {
        Ok(_) => panic!("ruby must not parse"),
        Err(message) => assert_eq!(message, "Unsupported language: ruby"),
    }
    assert!(Language::from_str("").is_err());
    assert!(Language::from_str("python3").is_err());
}

#[test]
fn error_response_shape() {
    let response = create_error_response("Unsupported language: ruby");
    assert_eq!(response.execution_id, "error");
    assert_eq!(response.stdout, "");
    assert_eq!(response.stderr, "Unsupported language: ruby");
    assert_eq!(response.exit_code, -1);
    assert_eq!(response.duration_ms, 0);
    assert!(!response.timed_out);
}

#[test]
fn empty_code_is_rejected_before_any_daemon_work() {
    match build_request(String::new(), Language::Python, None) {
        Ok(_) => panic!("empty code must be rejected"),
        Err(message) => assert_eq!(message, "code is empty"),
    }
    let request = build_request("print(1)".to_string(), Language::Golang, Some(3)).unwrap();
    assert_eq!(request.code, "print(1)");
    assert!(matches!(request.language, Language::Golang));
    assert_eq!(request.timeout, Some(3));
    assert!(request.stdin.is_none());
}

#[test]
fn truncation_at_the_limit_is_identity() {
    let text = "x".repeat(10);
    assert_eq!(truncate_output(text.clone(), 10), text);
    assert_eq!(truncate_output("short".to_string(), 10), "short");
    assert_eq!(truncate_output(String::new(), 0), "");
}

#[test]
fn truncation_one_over_the_limit_appends_the_marker() {
    let text = "x".repeat(11);
    let truncated = truncate_output(text, 10);
    assert_eq!(truncated, format!("{}...\n[Output truncated]", "x".repeat(10)));
    assert!(truncated.ends_with("...\n[Output truncated]"));
}

#[test]
fn truncation_of_already_truncated_length_text_is_identity() {
    let kept: String = "y".repeat(10);
    assert_eq!(truncate_output(kept.clone(), 10), kept);
}

#[test]
fn truncation_counts_characters_not_bytes() {
    let text = "ééééé".to_string();
    assert_eq!(truncate_output(text.clone(), 5), text);
    let cut = truncate_output("ééééé".to_string(), 4);
    assert_eq!(cut, "éééé...\n[Output truncated]");
}

#[test]
fn quote_swap_rewrites_single_quotes_only() {
    assert_eq!(swap_quotes("print('hi')"), "print(\"hi\")");
    assert_eq!(swap_quotes(""), "");
    assert_eq!(swap_quotes("no quotes"), "no quotes");
    assert_eq!(swap_quotes("'''"), "\"\"\"");
}

#[test]
fn str_eq_compares_by_characters() {
    assert!(str_eq("abc", "abc"));
    assert!(!str_eq("abc", "abd"));
    assert!(!str_eq("abc", "ab"));
    assert!(str_eq("", ""));
    assert!(str_eq("héllo", "héllo"));
}

#[test]
fn parse_i64_accepts_exactly_decimal_numerals() {
    assert_eq!(parse_i64("0"), Some(0));
    assert_eq!(parse_i64("123"), Some(123));
    assert_eq!(parse_i64("-123"), Some(-123));
    assert_eq!(parse_i64("+5"), Some(5));
    assert_eq!(parse_i64("9223372036854775807"), Some(i64::MAX));
    assert_eq!(parse_i64("-9223372036854775808"), Some(i64::MIN));
    assert_eq!(parse_i64("9223372036854775808"), None);
    assert_eq!(parse_i64("-9223372036854775809"), None);
    assert_eq!(parse_i64(""), None);
    assert_eq!(parse_i64("-"), None);
    assert_eq!(parse_i64("+"), None);
    assert_eq!(parse_i64("12a"), None);
    assert_eq!(parse_i64("100m"), None);
    assert_eq!(parse_i64(" 5"), None);
}

#[test]
fn parse_i64_rejects_non_ascii_digits() {
    assert_eq!(parse_i64("١٢٣"), None);
    assert_eq!(parse_i64("-١"), None);
}

#[test]
fn truncation_with_a_zero_limit_keeps_only_the_marker() {
    assert_eq!(truncate_output("a".to_string(), 0), "...\n[Output truncated]");
    assert_eq!(truncate_output(String::new(), 0), "");
}

#[test]
fn mixed_case_tags_parse() {
    assert!(matches!(Language::from_str("PyThOn"), Ok(Language::Python)));
    assert!(matches!(Language::from_str("gOlAnG"), Ok(Language::Golang)));
}

#[test]
fn profile_embeds_swapped_code_into_the_shell_line() {
    let profile = resolve_profile(Language::Python, "print('hi')");
    assert_eq!(profile.image, "python:3.9-slim");
    assert_eq!(profile.command.len(), 3);
    assert_eq!(profile.command[0], "sh");
    assert_eq!(profile.command[1], "-c");
    assert_eq!(
        profile.command[2],
        "mkdir -p /app && echo 'print(\"hi\")' > /app/code.py && python /app/code.py"
    );
}

#[test]
fn profile_images_per_language() {
    assert_eq!(resolve_profile(Language::JavaScript, "1").image, "node:18-alpine");
    assert_eq!(resolve_profile(Language::Golang, "1").image, "golang:1.19-alpine");
    assert_eq!(resolve_profile(Language::Kotlin, "1").image, "kotlin:latest");
    assert!(resolve_profile(Language::Golang, "x").command[2].contains("go run code.go"));
    assert!(resolve_profile(Language::Kotlin, "x").command[2].contains("kotlinc code.kt"));
    assert!(resolve_profile(Language::JavaScript, "x").command[2].contains("node /app/code.js"));
}

#[test]
fn container_config_takes_limits_from_configuration() {
    let config = Config::default();
    let spec = create_container_config(&config, Language::Python, "pass");
    assert_eq!(spec.image, "python:3.9-slim");
    assert_eq!(spec.network_mode, "none");
    // "100m" is not a plain numeral, so the fixed default applies.
    assert_eq!(spec.memory, 100 * 1024 * 1024);
    assert_eq!(spec.memory_swap, 0);
    assert_eq!(spec.cpu_shares, 512);
    assert!(!spec.auto_remove);
}

#[test]
fn container_config_parses_a_numeric_memory_limit() {
    let mut config = Config::default();
    config.docker.memory_limit = "268435456".to_string();
    let spec = create_container_config(&config, Language::Python, "pass");
    assert_eq!(spec.memory, 268435456);
}

#[test]
fn log_collection_classifies_and_concatenates_records() {
    let chunks = vec![
        LogChunk::StdOut { message: b"hi".to_vec() },
        LogChunk::StdErr { message: b"oops".to_vec() },
        LogChunk::Console { message: b" there".to_vec() },
        LogChunk::Other,
        LogChunk::StdOut { message: b"!".to_vec() },
    ];
    let logs = collect_logs(&chunks);
    assert_eq!(logs.stdout, "hi there!");
    assert_eq!(logs.stderr, "oops");
}

#[test]
fn log_records_that_are_not_text_are_dropped() {
    let chunks = vec![
        LogChunk::StdOut { message: vec![0xff, 0xfe] },
        LogChunk::StdOut { message: "héllo".as_bytes().to_vec() },
        LogChunk::StdErr { message: vec![0xc0] },
    ];
    let logs = collect_logs(&chunks);
    assert_eq!(logs.stdout, "héllo");
    assert_eq!(logs.stderr, "");
}

#[test]
fn empty_log_stream_yields_empty_output() {
    let logs: ContainerLogs = collect_logs(&Vec::new());
    assert_eq!(logs.stdout, "");
    assert_eq!(logs.stderr, "");
}
