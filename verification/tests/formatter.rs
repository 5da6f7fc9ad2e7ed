use nlsql::formatter::format_results;
use nlsql::result_set::{CellValue, Date, ResultSet};

fn text(s: &str) -> CellValue {
    CellValue::Text(s.to_string())
}

#[test]
fn empty_result_is_the_sentinel() {
    let rs = ResultSet { columns: Vec::new(), rows: Vec::new() };
    assert_eq!(format_results(&rs), "No result found.");
}

#[test]
fn empty_result_ignores_column_metadata() {
    let rs = ResultSet {
        columns: vec!["id".to_string(), "total".to_string()],
        rows: Vec::new(),
    };
    assert_eq!(format_results(&rs), "No result found.");
}

#[test]
fn one_row_formats_to_three_lines() {
    let rs = ResultSet {
        columns: vec!["id".to_string(), "total".to_string()],
        rows: vec![vec![CellValue::Integer(1), CellValue::Float(99.5f64.to_string())]],
    };
    let out = format_results(&rs);
    let lines: Vec<&str> = out.lines().collect();
    assert_eq!(lines.len(), 3);
    assert_eq!(lines[0], "id | total");
    assert_eq!(lines[1], "-".repeat("id | total\n".len()));
    assert_eq!(lines[2], "1 | 99.5");
    assert_eq!(out, "id | total\n-----------\n1 | 99.5\n");
}

#[test]
fn line_count_and_delimiters_match_rows_and_columns() {
    let rs = ResultSet {
        columns: vec!["a".to_string(), "b".to_string(), "c".to_string()],
        rows: vec![
            vec![text("x"), text("y"), text("z")],
            vec![CellValue::Integer(7), text("w"), CellValue::Unknown],
        ],
    };
    let out = format_results(&rs);
    let lines: Vec<&str> = out.lines().collect();
    assert_eq!(lines.len(), 2 + rs.rows.len());
    for line in &lines[2..] {
        assert_eq!(line.matches('|').count(), rs.columns.len() - 1);
    }
    assert_eq!(out.matches('\n').count(), 2 + rs.rows.len());
}

#[test]
fn integer_cells_render_their_exact_decimal_string() {
    let rs = ResultSet {
        columns: vec!["v".to_string()],
        rows: vec![
            vec![CellValue::Integer(0)],
            vec![CellValue::Integer(-123)],
            vec![CellValue::Integer(i32::MAX)],
            vec![CellValue::Integer(i32::MIN)],
        ],
    };
    let out = format_results(&rs);
    let lines: Vec<&str> = out.lines().collect();
    assert_eq!(lines[2], "0");
    assert_eq!(lines[3], "-123");
    assert_eq!(lines[4], "2147483647");
    assert_eq!(lines[5], "-2147483648");
}

#[test]
fn unknown_cells_render_the_fixed_token() {
    let rs = ResultSet {
        columns: vec!["v".to_string()],
        rows: vec![vec![CellValue::Unknown]],
    };
    let out = format_results(&rs);
    assert_eq!(out.lines().nth(2).unwrap(), "Unknow type");
}

#[test]
fn date_cells_render_zero_padded_calendar_dates() {
    let rs = ResultSet {
        columns: vec!["d".to_string(), "e".to_string()],
        rows: vec![vec![
            CellValue::Date(Date { year: 7, month: 3, day: 9 }),
            CellValue::Date(Date { year: 2024, month: 12, day: 31 }),
        ]],
    };
    let out = format_results(&rs);
    assert_eq!(out.lines().nth(2).unwrap(), "0007-03-09 | 2024-12-31");
}

#[test]
fn text_cells_render_verbatim() {
    let rs = ResultSet {
        columns: vec!["name".to_string()],
        rows: vec![vec![text("Alice B.")]],
    };
    let out = format_results(&rs);
    assert_eq!(out.lines().nth(2).unwrap(), "Alice B.");
}

#[test]
fn well_formed_checks_alignment_and_dates() {
    let ok = ResultSet {
        columns: vec!["a".to_string(), "b".to_string()],
        rows: vec![vec![text("x"), text("y")]],
    };
    assert!(ok.well_formed());
    let misaligned = ResultSet {
        columns: vec!["a".to_string(), "b".to_string()],
        rows: vec![vec![text("x")]],
    };
    assert!(!misaligned.well_formed());
    let bad_date = ResultSet {
        columns: vec!["d".to_string()],
        rows: vec![vec![CellValue::Date(Date { year: 2024, month: 13, day: 1 })]],
    };
    assert!(!bad_date.well_formed());
}
