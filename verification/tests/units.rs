use nlsql::config::Config;
use nlsql::decimal::i32_to_string;
use nlsql::error::AppError;
use nlsql::repository::{render_schema, schema_query};
use nlsql::text::{ends_with, find_newline, join_strings, starts_with, trim};

#[test]
fn every_error_kind_renders_its_own_prefix() {
    let cases = [
        (AppError::Database("d".to_string()), "Database error: d"),
        (AppError::SqlExecution("s".to_string()), "SQL execution error: s"),
        (AppError::HttpClient("h".to_string()), "HTTP client error: h"),
        (AppError::Serialization("j".to_string()), "JSON serialization error: j"),
        (AppError::Env("e".to_string()), "Environment variable error: e"),
        (AppError::AIModel("a".to_string()), "AI model error: a"),
        (AppError::Generic("g".to_string()), "Generic error: g"),
    ];
    for (err, expected) in cases {
        assert_eq!(err.message(), expected);
    }
}

#[test]
fn the_endpoint_url_carries_the_api_key() {
    let config = Config::new("postgres://localhost/db".to_string(), "SECRET-REDACTED".to_string());
    assert_eq!(config.database_url, "postgres://localhost/db");
    assert_eq!(config.gemini_api_key, "SECRET-REDACTED");
    assert_eq!(
        config.gemini_api_url,
        "https://generativelanguage.googleapis.com/v1beta/models/gemini-2.0-flash:generateContent?key=SECRET-REDACTED"
    );
}

#[test]
fn schema_entries_are_comma_joined_name_type_pairs() {
    let cols = vec![
        ("id".to_string(), "int4".to_string()),
        ("total".to_string(), "float8".to_string()),
        ("order_date".to_string(), "date".to_string()),
    ];
    assert_eq!(render_schema(&cols), "id (int4), total (float8), order_date (date)");
}

#[test]
fn the_catalog_query_names_the_table_in_ordinal_order() {
    assert_eq!(
        schema_query("orders_data"),
        "SELECT column_name, data_type FROM information_schema.columns \
         WHERE table_name = 'orders_data' ORDER BY ordinal_position"
    );
}

#[test]
fn an_empty_catalog_renders_an_empty_schema() {
    assert_eq!(render_schema(&Vec::new()), "");
}

#[test]
fn trimming_removes_ascii_whitespace_on_both_sides() {
    assert_eq!(trim("  a b  "), "a b");
    assert_eq!(trim("\t\r\nx\n"), "x");
    assert_eq!(trim(""), "");
    assert_eq!(trim(" \n "), "");
    assert_eq!(trim("inner  kept"), "inner  kept");
}

#[test]
fn joining_puts_the_separator_between_neighbours_only() {
    let items = vec!["a".to_string(), "b".to_string(), "c".to_string()];
    assert_eq!(join_strings(&items, " | "), "a | b | c");
    assert_eq!(join_strings(&vec!["solo".to_string()], ", "), "solo");
    assert_eq!(join_strings(&Vec::new(), ", "), "");
}

#[test]
fn prefix_and_suffix_checks_are_exact() {
    assert!(starts_with("```sql select", "```sql"));
    assert!(!starts_with("``sql", "```sql"));
    assert!(ends_with("select```", "```"));
    assert!(!ends_with("``", "```"));
}

#[test]
fn the_first_newline_is_found_or_the_length_returned() {
    assert_eq!(find_newline("ab\ncd"), 2);
    assert_eq!(find_newline("\n"), 0);
    assert_eq!(find_newline("abc"), 3);
    assert_eq!(find_newline(""), 0);
}

#[test]
fn decimal_strings_are_exact() {
    assert_eq!(i32_to_string(0), "0");
    assert_eq!(i32_to_string(9), "9");
    assert_eq!(i32_to_string(10), "10");
    assert_eq!(i32_to_string(-1), "-1");
    assert_eq!(i32_to_string(1000000), "1000000");
    assert_eq!(i32_to_string(i32::MIN), "-2147483648");
    assert_eq!(i32_to_string(i32::MAX), "2147483647");
}
