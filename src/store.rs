use vstd::prelude::*;

use crate::date::{date_text_of, format_day, parse_day, parsed_day, Date, MAX_DAY, MIN_DAY};
use crate::model::{opt_view, Todo, TodoList, TodoListView};
use crate::order::{in_display_order, sort_todos};

verus! {

/// An error of the SQLite driver, carried through unread.
#[verifier::external_type_specification]
#[verifier::external_body]
pub struct ExSqliteError(rusqlite::Error);

/// The one kind of failure of the store.
#[derive(Debug)]
pub enum DatabaseError {
    RusqliteError(rusqlite::Error),
}

impl From<rusqlite::Error> for DatabaseError {
    fn from(error: rusqlite::Error) -> (r: DatabaseError)
        ensures
            r == DatabaseError::RusqliteError(error),
    {
        DatabaseError::RusqliteError(error)
    }
}

impl vstd::std_specs::convert::FromSpecImpl<rusqlite::Error> for DatabaseError {
    open spec fn obeys_from_spec() -> bool {
        true
    }

    open spec fn from_spec(error: rusqlite::Error) -> DatabaseError {
        DatabaseError::RusqliteError(error)
    }
}

/// The result of an operation of the store.
pub type SqlResult<T> = Result<T, DatabaseError>;

/// The lists to show, from what fetching them gave: none where it failed.
pub fn get_lists(fetched: SqlResult<Vec<TodoList>>) -> (r: Vec<TodoList>)
    ensures
        r@ == (match fetched {
            Ok(lists) => lists@,
            Err(_) => Seq::empty(),
        }),
{
    match fetched {
        Ok(lists) => lists,
        Err(_) => Vec::new(),
    }
}

/// The todos of a list to show, from what fetching them gave, in display
/// order: none where the fetch failed.
pub fn get_todos(fetched: SqlResult<Vec<Todo>>) -> (r: Vec<Todo>)
    ensures
        match fetched {
            Ok(todos) => in_display_order(r@, todos@),
            Err(_) => r@.len() == 0,
        },
{
    match fetched {
        Ok(todos) => sort_todos(todos),
        Err(_) => Vec::new(),
    }
}

/// The record that saving a new list titled `title` stores.
pub fn save_todo_list(title: String) -> (r: TodoList)
    ensures
        r@ == (TodoListView { id: None, title: title@ }),
{
    TodoList { id: None, title }
}

/// The chrono format in which the store keeps dates, year-month-day.
pub open spec fn date_format() -> Seq<char> {
    seq!['%', 'Y', '-', '%', 'm', '-', '%', 'd']
}

/// The date that a stored text names: none for no text or for a text that
/// names no date in the store's format.
pub open spec fn date_of_stored(text: Option<Seq<char>>) -> Option<Date> {
    match text {
        Some(t) => match parsed_day(t, date_format()) {
            Some(day) => Some(Date { day }),
            None => None,
        },
        None => None,
    }
}

/// The date that a text read from the store names.
pub fn stored_date(text: &Option<String>) -> (r: Option<Date>)
    ensures
        r == date_of_stored(opt_view(*text)),
{
    proof {
        reveal_strlit("%Y-%m-%d");
    }
    let format = "%Y-%m-%d";
    assert(format@ =~= date_format());
    match text {
        Some(t) => match parse_day(t.as_str(), format) {
            Some(day) => Some(Date { day }),
            None => None,
        },
        None => None,
    }
}

/// The text under which the store keeps a date: none for no date, or for a
/// day outside the calendar's range.
pub fn date_param(d: Option<Date>) -> (r: Option<String>)
    ensures
        r is Some <==> (d matches Some(x) && MIN_DAY <= x.day <= MAX_DAY),
        r matches Some(t) ==> t@ == date_text_of(d->0.day),
{
    match d {
        Some(x) => format_day(x.day),
        None => None,
    }
}

} // verus!
