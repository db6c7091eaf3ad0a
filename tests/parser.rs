use durandal::parser::{new_task_parser, ParseError};
use durandal::text::to_decimal;

#[test]
fn parsing_created_task_id() {
    let input = "Created task 30.\n";
    let id = new_task_parser(input).unwrap();

    assert_eq!(id, 30);

    let input = "Created task 4.";
    let id = new_task_parser(input).unwrap();

    assert_eq!(id, 4);
}

#[test]
fn parser_rejects_other_text() {
    assert_eq!(new_task_parser("Created task 30"), Err(ParseError::Malformed));
    assert_eq!(new_task_parser("Created task .\n"), Err(ParseError::Malformed));
    assert_eq!(new_task_parser("Modified 1 task."), Err(ParseError::Malformed));
    assert_eq!(new_task_parser(""), Err(ParseError::Malformed));
    assert_eq!(new_task_parser("Created task 12a."), Err(ParseError::Malformed));
}

#[test]
fn parser_reports_overflow() {
    assert_eq!(new_task_parser("Created task 18446744073709551615."), Ok(u64::MAX));
    assert_eq!(new_task_parser("Created task 18446744073709551616."), Err(ParseError::Overflow));
}

#[test]
fn parser_reads_back_rendered_ids() {
    for id in [0u64, 7, 10, 999, 123456789, u64::MAX] {
        let text = format!("Created task {}.\nmore", to_decimal(id));
        assert_eq!(new_task_parser(&text), Ok(id));
    }
}

#[test]
fn decimal_rendering() {
    assert_eq!(to_decimal(0), "0");
    assert_eq!(to_decimal(360), "360");
    assert_eq!(durandal::text::padded_decimal(7, 2), "07");
    assert_eq!(durandal::text::padded_decimal(2024, 4), "2024");
    assert_eq!(durandal::text::padded_decimal(123, 2), "123");
}
