use store_bootstrap::decimal::{push_decimal, push_signed_decimal};
use store_bootstrap::report::{Line, WriteResult};

fn unsigned(n: u64) -> String {
    let mut out = String::new();
    push_decimal(&mut out, n);
    out
}

fn signed(i: i64) -> String {
    let mut out = String::new();
    push_signed_decimal(&mut out, i);
    out
}

#[test]
fn decimal_of_small_and_large_numbers() {
    assert_eq!(unsigned(0), "0");
    assert_eq!(unsigned(7), "7");
    assert_eq!(unsigned(10), "10");
    assert_eq!(unsigned(1234567890), "1234567890");
    assert_eq!(unsigned(u64::MAX), "18446744073709551615");
}

#[test]
fn decimal_appends_to_what_is_there() {
    let mut out = String::from("rows: ");
    push_decimal(&mut out, 42);
    assert_eq!(out, "rows: 42");
    push_signed_decimal(&mut out, -3);
    assert_eq!(out, "rows: 42-3");
}

#[test]
fn signed_decimal_carries_the_sign() {
    assert_eq!(signed(0), "0");
    assert_eq!(signed(1), "1");
    assert_eq!(signed(-1), "-1");
    assert_eq!(signed(-120), "-120");
    assert_eq!(signed(i64::MAX), "9223372036854775807");
    assert_eq!(signed(i64::MIN), "-9223372036854775808");
}

#[test]
fn decimal_agrees_with_the_standard_rendering() {
    for n in [0u64, 9, 10, 99, 100, 101, 999_999, 1 << 40, u64::MAX - 1] {
        assert_eq!(unsigned(n), format!("{}", n));
    }
    for i in [-1i64, -10, -99, 100, i64::MIN + 1, -(1 << 40)] {
        assert_eq!(signed(i), format!("{}", i));
    }
}

#[test]
fn write_result_renders_both_numbers() {
    let result = WriteResult { rows_affected: 1, last_insert_rowid: 1 };
    assert_eq!(result.render(), "SqliteQueryResult { changes: 1, last_insert_rowid: 1 }");
    let result = WriteResult { rows_affected: 0, last_insert_rowid: -12 };
    assert_eq!(result.render(), "SqliteQueryResult { changes: 0, last_insert_rowid: -12 }");
    let result = WriteResult { rows_affected: 250, last_insert_rowid: 4100 };
    assert_eq!(result.render(), "SqliteQueryResult { changes: 250, last_insert_rowid: 4100 }");
}

#[test]
fn status_lines_have_their_fixed_text() {
    assert_eq!(Line::Created.text(), "Database created successfully");
    assert_eq!(Line::AlreadyExists.text(), "Database already exists");
}

#[test]
fn schema_failure_line_carries_the_detail() {
    let line = Line::SchemaFailed(String::from("table settings already exists"));
    assert_eq!(line.text(), "Error: table settings already exists");
    assert_eq!(Line::SchemaFailed(String::new()).text(), "Error: ");
}

#[test]
fn written_line_is_the_rendered_result() {
    let result = WriteResult { rows_affected: 1, last_insert_rowid: 33 };
    assert_eq!(Line::Written(result).text(), result.render());
    assert_eq!(
        Line::Written(result).text(),
        "SqliteQueryResult { changes: 1, last_insert_rowid: 33 }"
    );
}
