use vstd::prelude::*;

use crate::date::{date_text_of, format_day, MAX_DAY, MIN_DAY};
use crate::model::{Todo, TodoView};
use crate::text::push_char;

verus! {

/// The decimal digits of `n`, most significant first, without leading zeros.
pub open spec fn decimal(n: nat) -> Seq<char>
    decreases n,
{
    let last = seq![(('0' as nat) + n % 10) as char];
    if n < 10 {
        last
    } else {
        decimal(n / 10) + last
    }
}

/// The number shown for a todo: its id, or 9 for a todo not yet stored.
pub open spec fn shown_number(t: TodoView) -> nat {
    match t.id {
        Some(id) => id as nat,
        None => 9,
    }
}

/// The row of a todo in its pane: its number, its box, ticked when the todo
/// is completed, and its title, separated by spaces.
pub open spec fn todo_row_text(t: TodoView) -> Seq<char> {
    decimal(shown_number(t)) + seq![' '] + (if t.completed {
        seq!['[', 'x', ']']
    } else {
        seq!['[', ' ', ']']
    }) + seq![' '] + t.title
}

/// The decimal digit of `d`.
fn digit_char(d: usize) -> (r: char)
    requires
        d < 10,
    ensures
        r == (('0' as nat) + d) as char,
{
    match d {
        0 => '0',
        1 => '1',
        2 => '2',
        3 => '3',
        4 => '4',
        5 => '5',
        6 => '6',
        7 => '7',
        8 => '8',
        _ => '9',
    }
}

/// Appends the decimal digits of `n` to `s`.
fn push_decimal(s: &mut String, n: usize)
    ensures
        final(s)@ == old(s)@ + decimal(n as nat),
    decreases n,
{
    if n >= 10 {
        push_decimal(s, n / 10);
    }
    push_char(s, digit_char(n % 10));
    assert(final(s)@ =~= old(s)@ + decimal(n as nat));
}

/// The text of the row of `t` in the pane of todos.
pub fn todo_row(t: &Todo) -> (r: String)
    ensures
        r@ == todo_row_text(t@),
{
    let mut s = String::new();
    push_decimal(&mut s, match t.id { Some(id) => id, None => 9 });
    push_char(&mut s, ' ');
    push_char(&mut s, '[');
    push_char(&mut s, if t.completed { 'x' } else { ' ' });
    push_char(&mut s, ']');
    push_char(&mut s, ' ');
    push_text(&mut s, &t.title);
    assert(s@ =~= todo_row_text(t@));
    s
}

/// The title and description shown in the details of the todo at position
/// `i` of `todos`, where there is one: a todo without a description shows
/// an empty one.
pub fn todo_details(todos: &Vec<Todo>, i: usize) -> (r: Option<(String, String)>)
    ensures
        match r {
            Some((title, description)) => i < todos@.len() && title@ == todos@[i as int].title@
                && description@ == (match todos@[i as int]@.description {
                Some(d) => d,
                None => Seq::empty(),
            }),
            None => i >= todos@.len(),
        },
{
    if i < todos.len() {
        let t = &todos[i];
        let description = match &t.description {
            Some(d) => d.clone(),
            None => String::new(),
        };
        Some((t.title.clone(), description))
    } else {
        None
    }
}

/// The text that `Debug` gives for a string: quoted, with special characters
/// escaped.
pub uninterp spec fn debug_text_of(s: Seq<char>) -> Seq<char>;

/// Relies on the `Debug` of `str`, whose text depends on the string alone.
#[verifier::external_body]
fn debug_text(s: &String) -> (r: String)
    ensures
        r@ == debug_text_of(s@),
{
    format!("{:?}", s)
}

/// Appends `t` to `s`.
fn push_text(s: &mut String, t: &String)
    ensures
        final(s)@ == old(s)@ + t@,
{
    let ghost before = s@;
    for c in it: t.as_str().chars()
        invariant
            it.seq() == t@,
            s@ == before + t@.subrange(0, it.index() as int),
    {
        let ghost k = it.index();
        push_char(s, c);
        assert(t@.subrange(0, k + 1) =~= t@.subrange(0, k).push(c));
        assert(s@ =~= before + t@.subrange(0, k + 1));
    }
    assert(t@.subrange(0, t@.len() as int) =~= t@);
}

/// The line of the report of due todos for `t`: its id (0 for a todo not
/// yet stored), its due date and its quoted title, separated by tabs; none
/// for a todo without a due date in the calendar's range.
pub open spec fn report_line_text(t: TodoView) -> Option<Seq<char>> {
    match t.due_date {
        Some(d) => if MIN_DAY <= d.day <= MAX_DAY {
            Some(
                decimal(
                    match t.id {
                        Some(id) => id as nat,
                        None => 0,
                    },
                ) + seq!['\t'] + date_text_of(d.day) + seq!['\t'] + debug_text_of(t.title),
            )
        } else {
            None
        },
        None => None,
    }
}

/// The line that reports the due todo `t`.
pub fn report_line(t: &Todo) -> (r: Option<String>)
    ensures
        r matches Some(line) ==> report_line_text(t@) == Some(line@),
        r is None ==> report_line_text(t@) is None,
{
    let d = match t.due_date {
        Some(d) => d,
        None => {
            return None;
        },
    };
    let date = match format_day(d.day) {
        Some(text) => text,
        None => {
            return None;
        },
    };
    let mut s = String::new();
    push_decimal(&mut s, match t.id { Some(id) => id, None => 0 });
    push_char(&mut s, '\t');
    push_text(&mut s, &date);
    push_char(&mut s, '\t');
    push_text(&mut s, &debug_text(&t.title));
    assert(s@ =~= report_line_text(t@)->0);
    Some(s)
}

} // verus!
