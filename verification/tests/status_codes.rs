use thermal_ticket::status::{parse_status_code, status_from_code, status_from_query};
use thermal_ticket::PrinterStatus;

#[test]
fn known_codes_map_to_their_status() {
    assert_eq!(status_from_code(0), PrinterStatus::Ready);
    assert_eq!(status_from_code(1), PrinterStatus::Paused);
    assert_eq!(status_from_code(2), PrinterStatus::Error);
    assert_eq!(status_from_code(3), PrinterStatus::Deleting);
    assert_eq!(status_from_code(4), PrinterStatus::PaperJam);
    assert_eq!(status_from_code(5), PrinterStatus::PaperOut);
}

#[test]
fn codes_outside_the_table_map_to_unknown() {
    assert_eq!(status_from_code(-1), PrinterStatus::Unknown);
    assert_eq!(status_from_code(6), PrinterStatus::Unknown);
    assert_eq!(status_from_code(99), PrinterStatus::Unknown);
    assert_eq!(status_from_code(i64::MIN), PrinterStatus::Unknown);
    assert_eq!(status_from_code(i64::MAX), PrinterStatus::Unknown);
}

#[test]
fn status_labels() {
    assert_eq!(status_from_code(0).label(), "Ready");
    assert_eq!(status_from_code(4).label(), "Paper Jam");
    assert_eq!(status_from_code(5).label(), "Paper Out");
    assert_eq!(status_from_code(7).label(), "Unknown");
}

#[test]
fn parse_plain_codes() {
    assert_eq!(parse_status_code("0"), 0);
    assert_eq!(parse_status_code("3"), 3);
    assert_eq!(parse_status_code("3\r\n"), 3);
    assert_eq!(parse_status_code("  5  "), 5);
    assert_eq!(parse_status_code("+4"), 4);
    assert_eq!(parse_status_code("-2"), -2);
}

#[test]
fn parse_malformed_output_defaults_to_zero() {
    assert_eq!(parse_status_code(""), 0);
    assert_eq!(parse_status_code("   "), 0);
    assert_eq!(parse_status_code("Ready"), 0);
    assert_eq!(parse_status_code("4a"), 0);
    assert_eq!(parse_status_code("-"), 0);
    assert_eq!(parse_status_code("12 34"), 0);
}

#[test]
fn parse_out_of_range_defaults_to_zero() {
    assert_eq!(parse_status_code("2147483647"), 2147483647);
    assert_eq!(parse_status_code("-2147483648"), -2147483648);
    assert_eq!(parse_status_code("2147483648"), 0);
    assert_eq!(parse_status_code("-2147483649"), 0);
    assert_eq!(parse_status_code("99999999999999999999999"), 0);
}

#[test]
fn query_failure_reads_as_unknown() {
    assert_eq!(status_from_query(false, "3"), PrinterStatus::Unknown);
    assert_eq!(status_from_query(true, "3"), PrinterStatus::Deleting);
    assert_eq!(status_from_query(true, "borked"), PrinterStatus::Ready);
}
