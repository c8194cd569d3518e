use zkp_explorer::records::fixed4_label;
use zkp_explorer::shorten_address;
use zkp_explorer::shorten_md5;
use zkp_explorer::strutil::join_spaces_exec;
use zkp_explorer::strutil::split_lines_exec;
use zkp_explorer::time::calc_processing_time_secs;
use zkp_explorer::time::epoch_to_rfc3339;
use zkp_explorer::time::full_pattern;
use zkp_explorer::time::last_month_range;
use zkp_explorer::time::parse_timestamp;
use zkp_explorer::time::processing_time_label;
use zkp_explorer::time::simple_pattern;
use zkp_explorer::time::timestamp_formatted;
use zkp_explorer::time::TimestampStyle;
use zkp_explorer::u64_to_string;
use zkp_explorer::UnwrapOrNA;

#[test]
fn decimal_rendering() {
    assert_eq!(u64_to_string(0), "0");
    assert_eq!(u64_to_string(7), "7");
    assert_eq!(u64_to_string(10), "10");
    assert_eq!(u64_to_string(1234567890), "1234567890");
    assert_eq!(u64_to_string(u64::MAX), "18446744073709551615");
}

#[test]
fn shortened_identifiers() {
    assert_eq!(
        shorten_md5("0123456789abcdef0123456789abcdef".to_string()),
        "0123456...abcdef"
    );
    assert_eq!(
        shorten_address("0x1234567890abcdef1234567890abcdef12345678".to_string()),
        "0x123456...5678"
    );
}

#[test]
fn absent_values_render_the_placeholder() {
    assert_eq!(Some("x".to_string()).unwrap_or_na(), "x");
    assert_eq!(Option::<String>::None.unwrap_or_na(), "N/A");
}

#[test]
fn line_splitting() {
    assert_eq!(split_lines_exec(""), vec![""]);
    assert_eq!(split_lines_exec("one"), vec!["one"]);
    assert_eq!(split_lines_exec("a\nb\nc"), vec!["a", "b", "c"]);
    assert_eq!(split_lines_exec("a\n"), vec!["a", ""]);
    assert_eq!(split_lines_exec("\n"), vec!["", ""]);
}

#[test]
fn space_joining() {
    assert_eq!(join_spaces_exec(&vec![]), "");
    assert_eq!(join_spaces_exec(&vec!["one".to_string()]), "one");
    assert_eq!(
        join_spaces_exec(&vec!["a".to_string(), "b".to_string(), "c".to_string()]),
        "a b c"
    );
}

#[test]
fn fixed_point_seconds() {
    assert_eq!(fixed4_label(12345678), "1234.5678");
    assert_eq!(fixed4_label(5), "0.0005");
    assert_eq!(fixed4_label(0), "0.0000");
    assert_eq!(fixed4_label(10000), "1.0000");
}

#[test]
fn ninety_seconds_apart_renders_ninety_seconds() {
    let start = Some("2024-01-01T00:00:00Z".to_string());
    let end = Some("2024-01-01T00:01:30Z".to_string());
    assert_eq!(calc_processing_time_secs(start.clone(), end.clone()), Some((90, 0)));
    assert_eq!(processing_time_label(start, end), "90 seconds");
}

#[test]
fn absent_timestamp_renders_na() {
    let end = Some("2024-01-01T00:01:30Z".to_string());
    assert_eq!(processing_time_label(None, end.clone()), "NA");
    assert_eq!(processing_time_label(end, None), "NA");
    assert_eq!(processing_time_label(None, None), "NA");
}

#[test]
fn subsecond_span_keeps_its_fraction() {
    let start = Some("2024-01-01T00:00:00Z".to_string());
    let end = Some("2024-01-01T00:01:30.500Z".to_string());
    assert_eq!(processing_time_label(start, end), "90.5 seconds");
}

#[test]
fn reversed_or_malformed_span_is_na() {
    let start = Some("2024-01-01T00:01:30Z".to_string());
    let end = Some("2024-01-01T00:00:00Z".to_string());
    assert_eq!(calc_processing_time_secs(start.clone(), end.clone()), None);
    assert_eq!(processing_time_label(start, end), "NA");
    assert_eq!(
        processing_time_label(Some("garbage".to_string()), Some("garbage".to_string())),
        "NA"
    );
}

#[test]
fn timestamps_parse_and_format() {
    assert_eq!(parse_timestamp("2024-01-01T00:00:00Z"), Some((1704067200, 0)));
    assert_eq!(parse_timestamp("not a timestamp"), None);
    assert_eq!(timestamp_formatted("not a timestamp", TimestampStyle::Full), "N/A");
    let full = timestamp_formatted("2024-01-02T03:04:05Z", TimestampStyle::Full);
    assert_ne!(full, "N/A");
    assert!(full.contains('/'));
    let simple = timestamp_formatted("2024-01-02T03:04:05Z", TimestampStyle::Simple);
    assert_ne!(simple, "N/A");
}

#[test]
fn epoch_renders_rfc3339() {
    assert_eq!(epoch_to_rfc3339(0, 0), "1970-01-01T00:00:00+00:00");
    assert_eq!(epoch_to_rfc3339(1704067200, 0), "2024-01-01T00:00:00+00:00");
    assert_eq!(epoch_to_rfc3339(u64::MAX, 0), "N/A");
}

#[test]
fn last_month_window() {
    let four_weeks: u64 = 4 * 7 * 24 * 60 * 60;
    assert_eq!(last_month_range(1_700_000_000), (1_700_000_000 - four_weeks, 1_700_000_000));
    assert_eq!(last_month_range(10), (0, 10));
}

#[test]
fn pattern_choice() {
    // Today's instants render as a time of day; other days as a date; the
    // full style always carries both.
    assert_eq!(simple_pattern(Some((2024, 1, 2)), Some((2024, 1, 2))), "%-I:%M:%S %P");
    assert_eq!(simple_pattern(Some((2024, 1, 1)), Some((2024, 1, 2))), "%d/%m/%Y");
    assert_eq!(simple_pattern(None, Some((2024, 1, 2))), "%d/%m/%Y");
    assert_eq!(simple_pattern(Some((2024, 1, 2)), None), "%d/%m/%Y");
    assert_eq!(full_pattern(), "%d/%m/%Y, %-I:%M:%S %P");
}

#[test]
fn rfc3339_text_parses_back() {
    assert_eq!(
        parse_timestamp(&epoch_to_rfc3339(1704067200, 0)),
        Some((1704067200, 0))
    );
    assert_eq!(
        parse_timestamp(&epoch_to_rfc3339(1704067200, 500_000_000)),
        Some((1704067200, 500_000_000))
    );
    assert_eq!(parse_timestamp(&epoch_to_rfc3339(0, 1)), Some((0, 1)));
}
