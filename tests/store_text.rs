use chrono::{Datelike, NaiveDate};
use todo_tui::date::{Date, MAX_DAY};
use todo_tui::model::Todo;
use todo_tui::store::{date_param, stored_date};
use todo_tui::view::report_line;

fn day(y: i32, m: u32, d: u32) -> Date {
    Date { day: NaiveDate::from_ymd_opt(y, m, d).unwrap().num_days_from_ce() }
}

#[test]
fn dates_are_stored_as_year_month_day() {
    assert_eq!(date_param(Some(day(2024, 1, 4))), Some("2024-01-04".to_string()));
    assert_eq!(date_param(Some(day(999, 12, 31))), Some("0999-12-31".to_string()));
    assert_eq!(date_param(None), None);
    assert_eq!(date_param(Some(Date { day: MAX_DAY + 1 })), None);
}

#[test]
fn stored_dates_are_read_back() {
    assert_eq!(stored_date(&Some("2024-01-04".to_string())), Some(day(2024, 1, 4)));
    assert_eq!(stored_date(&Some("2024-02-30".to_string())), None);
    assert_eq!(stored_date(&Some("2024-01-01 10:00:00.5".to_string())), None);
    assert_eq!(stored_date(&Some("soon".to_string())), None);
    assert_eq!(stored_date(&None), None);
    let d = day(2031, 7, 9);
    assert_eq!(stored_date(&date_param(Some(d))), Some(d));
}

#[test]
fn report_lines_of_due_todos() {
    let mut t = Todo {
        id: Some(12),
        list_id: 1,
        title: "Pay \"rent\"".to_string(),
        description: None,
        due_date: Some(day(2024, 1, 5)),
        completed: false,
        completed_date: None,
        dependencies: vec![],
    };
    assert_eq!(report_line(&t), Some("12\t2024-01-05\t\"Pay \\\"rent\\\"\"".to_string()));
    t.id = None;
    t.title = "x".to_string();
    assert_eq!(report_line(&t), Some("0\t2024-01-05\t\"x\"".to_string()));
    t.due_date = None;
    assert_eq!(report_line(&t), None);
}
