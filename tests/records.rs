use chrono::{Datelike, NaiveDate};
use todo_tui::cursor::{clamp, move_down, move_up};
use todo_tui::date::{Date, MAX_DAY, MIN_DAY};
use todo_tui::model::Todo;
use todo_tui::order::sort_todos;
use todo_tui::store::{get_lists, get_todos, save_todo_list, DatabaseError};
use todo_tui::text::parse_u64;
use todo_tui::view::{todo_details, todo_row};

fn day(y: i32, m: u32, d: u32) -> Date {
    Date { day: NaiveDate::from_ymd_opt(y, m, d).unwrap().num_days_from_ce() }
}

fn todo(id: usize, due: Option<Date>, completed: bool) -> Todo {
    Todo {
        id: Some(id),
        list_id: 1,
        title: format!("t{}", id),
        description: None,
        due_date: due,
        completed,
        completed_date: None,
        dependencies: vec![],
    }
}

#[test]
fn sort_order_example() {
    let todos = vec![
        todo(1, Some(day(2024, 1, 10)), false),
        todo(2, None, false),
        todo(3, Some(day(2024, 1, 5)), false),
        todo(4, Some(day(2024, 1, 1)), true),
    ];
    let ids: Vec<Option<usize>> = sort_todos(todos).iter().map(|t| t.id).collect();
    assert_eq!(ids, vec![Some(3), Some(1), Some(2), Some(4)]);
}

#[test]
fn sort_keeps_order_of_equal_rank() {
    let todos = vec![
        todo(1, None, true),
        todo(2, None, false),
        todo(3, Some(day(2024, 1, 5)), true),
        todo(4, None, false),
        todo(5, Some(day(2024, 1, 5)), false),
        todo(6, Some(day(2024, 1, 5)), false),
    ];
    let ids: Vec<Option<usize>> = sort_todos(todos).iter().map(|t| t.id).collect();
    assert_eq!(ids, vec![Some(5), Some(6), Some(2), Some(4), Some(3), Some(1)]);
}

#[test]
fn sort_empty() {
    assert!(sort_todos(vec![]).is_empty());
}

#[test]
fn cursor_moves_stay_on_the_pane() {
    let len = 3;
    let mut c = None;
    let moves = [true, true, true, true, false, false, false, false, true, false];
    for up in moves {
        c = if up { move_up(c, len) } else { move_down(c, len) };
        assert!(c.map_or(true, |i| i < len));
    }
    assert_eq!(move_up(None, 3), Some(0));
    assert_eq!(move_up(Some(0), 3), Some(0));
    assert_eq!(move_up(Some(2), 3), Some(1));
    assert_eq!(move_down(None, 3), Some(0));
    assert_eq!(move_down(Some(1), 3), Some(2));
    assert_eq!(move_down(Some(2), 3), Some(2));
}

#[test]
fn cursor_on_an_empty_pane_is_cleared() {
    assert_eq!(move_down(Some(0), 0), None);
    assert_eq!(move_down(None, 0), None);
    assert_eq!(move_up(Some(3), 0), None);
    assert_eq!(move_up(None, 0), None);
    assert_eq!(clamp(Some(7), 3), Some(2));
    assert_eq!(clamp(Some(1), 3), Some(1));
    assert_eq!(clamp(Some(1), 0), None);
    assert_eq!(clamp(None, 3), None);
}

#[test]
fn toggle_twice_restores_completion() {
    let mut t = todo(1, None, false);
    t.toggle_completion(day(2024, 1, 1));
    assert!(t.completed);
    assert_eq!(t.completed_date, Some(day(2024, 1, 1)));
    t.toggle_completion(day(2024, 1, 2));
    assert!(!t.completed);
    assert_eq!(t.completed_date, None);
}

#[test]
fn overdue_todos() {
    let today = day(2024, 1, 5);
    assert!(todo(1, Some(day(2024, 1, 5)), false).is_overdue(today));
    assert!(todo(1, Some(day(2023, 12, 31)), false).is_overdue(today));
    assert!(!todo(1, Some(day(2024, 1, 6)), false).is_overdue(today));
    assert!(!todo(1, Some(day(2024, 1, 1)), true).is_overdue(today));
    assert!(!todo(1, None, false).is_overdue(today));
}

#[test]
fn parse_unsigned_numbers() {
    assert_eq!(parse_u64(&"3".to_string()), Some(3));
    assert_eq!(parse_u64(&"+42".to_string()), Some(42));
    assert_eq!(parse_u64(&"007".to_string()), Some(7));
    assert_eq!(parse_u64(&"18446744073709551615".to_string()), Some(u64::MAX));
    assert_eq!(parse_u64(&"18446744073709551616".to_string()), None);
    assert_eq!(parse_u64(&"".to_string()), None);
    assert_eq!(parse_u64(&"+".to_string()), None);
    assert_eq!(parse_u64(&"-1".to_string()), None);
    assert_eq!(parse_u64(&"1+".to_string()), None);
    assert_eq!(parse_u64(&" 1".to_string()), None);
    assert_eq!(parse_u64(&"abc".to_string()), None);
    for s in ["0", "12", "+9", "99999", "1a", "", "++1"] {
        assert_eq!(parse_u64(&s.to_string()), s.parse::<u64>().ok());
    }
}

#[test]
fn calendar_range_matches_chrono() {
    assert_eq!(NaiveDate::MIN.num_days_from_ce(), MIN_DAY);
    assert_eq!(NaiveDate::MAX.num_days_from_ce(), MAX_DAY);
    assert_eq!(day(1, 1, 1).day, 1);
}

#[test]
fn add_days_moves_the_date() {
    assert_eq!(day(2024, 1, 1).add_days(3), Some(day(2024, 1, 4)));
    assert_eq!(day(2023, 12, 31).add_days(1), Some(day(2024, 1, 1)));
    assert_eq!(day(2024, 1, 1).add_days(0), Some(day(2024, 1, 1)));
    assert_eq!(Date { day: MAX_DAY }.add_days(0), Some(Date { day: MAX_DAY }));
    assert_eq!(Date { day: MAX_DAY }.add_days(1), None);
    assert_eq!(day(2024, 1, 1).add_days(u64::MAX), None);
    assert_eq!(Date { day: MAX_DAY + 1 }.add_days(0), None);
}

#[test]
fn store_results() {
    let lists = get_lists(Ok(vec![save_todo_list("Home".to_string())]));
    assert_eq!(lists.len(), 1);
    assert_eq!(lists[0].title, "Home");
    assert_eq!(lists[0].id, None);
    let failed: Result<Vec<todo_tui::model::TodoList>, DatabaseError> =
        Err(DatabaseError::from(rusqlite::Error::QueryReturnedNoRows));
    assert!(get_lists(failed).is_empty());
    let failed: Result<Vec<Todo>, DatabaseError> =
        Err(DatabaseError::RusqliteError(rusqlite::Error::InvalidQuery));
    assert!(get_todos(failed).is_empty());
    let sorted = get_todos(Ok(vec![todo(1, None, true), todo(2, None, false)]));
    assert_eq!(sorted[0].id, Some(2));
    assert_eq!(sorted[1].id, Some(1));
}

#[test]
fn todo_rows() {
    let mut t = todo(5, None, false);
    t.title = "Buy milk".to_string();
    assert_eq!(todo_row(&t), "5 [ ] Buy milk");
    t.completed = true;
    t.id = Some(1234);
    assert_eq!(todo_row(&t), "1234 [x] Buy milk");
    t.id = None;
    assert_eq!(todo_row(&t), "9 [x] Buy milk");
}

#[test]
fn details_of_a_todo() {
    let mut with = todo(1, None, false);
    with.description = Some("note".to_string());
    let todos = vec![with, todo(2, None, false)];
    assert_eq!(todo_details(&todos, 0), Some(("t1".to_string(), "note".to_string())));
    assert_eq!(todo_details(&todos, 1), Some(("t2".to_string(), String::new())));
    assert_eq!(todo_details(&todos, 2), None);
}
