use vstd::prelude::*;

use crate::date::Date;

verus! {

/// A task of a todo list.
#[derive(Debug)]
pub struct Todo {
    /// Assigned by the store when the todo is created.
    pub id: Option<usize>,
    /// The id of the list that the todo belongs to.
    pub list_id: usize,
    pub title: String,
    pub description: Option<String>,
    pub due_date: Option<Date>,
    pub completed: bool,
    /// Set exactly while `completed` is.
    pub completed_date: Option<Date>,
    /// Ids of prerequisite todos: part of the record, never filled or read by
    /// any operation.
    pub dependencies: Vec<usize>,
}

/// A named list of todos.
#[derive(Debug)]
pub struct TodoList {
    /// Assigned by the store when the list is created.
    pub id: Option<usize>,
    pub title: String,
}

/// What a `Todo` holds, with its strings as character sequences.
pub struct TodoView {
    pub id: Option<usize>,
    pub list_id: usize,
    pub title: Seq<char>,
    pub description: Option<Seq<char>>,
    pub due_date: Option<Date>,
    pub completed: bool,
    pub completed_date: Option<Date>,
    pub dependencies: Seq<usize>,
}

/// What a `TodoList` holds.
pub struct TodoListView {
    pub id: Option<usize>,
    pub title: Seq<char>,
}

pub open spec fn opt_view(s: Option<String>) -> Option<Seq<char>> {
    match s {
        Some(t) => Some(t@),
        None => None,
    }
}

impl View for Todo {
    type V = TodoView;

    open spec fn view(&self) -> TodoView {
        TodoView {
            id: self.id,
            list_id: self.list_id,
            title: self.title@,
            description: opt_view(self.description),
            due_date: self.due_date,
            completed: self.completed,
            completed_date: self.completed_date,
            dependencies: self.dependencies@,
        }
    }
}

impl View for TodoList {
    type V = TodoListView;

    open spec fn view(&self) -> TodoListView {
        TodoListView { id: self.id, title: self.title@ }
    }
}

/// The completion date is set exactly while the todo is completed.
pub open spec fn completion_consistent(t: TodoView) -> bool {
    t.completed <==> t.completed_date is Some
}

/// The todo after its completion is flipped on the day `today`.
pub open spec fn toggled(t: TodoView, today: Date) -> TodoView {
    TodoView {
        completed: !t.completed,
        completed_date: if t.completed { None } else { Some(today) },
        ..t
    }
}

/// A todo is overdue when it is open and due on or before `today`.
pub open spec fn overdue(t: TodoView, today: Date) -> bool {
    !t.completed && t.due_date is Some && t.due_date->0.day <= today.day
}

fn clone_opt_string(s: &Option<String>) -> (r: Option<String>)
    ensures
        opt_view(r) == opt_view(*s),
{
    match s {
        Some(t) => Some(t.clone()),
        None => None,
    }
}

fn clone_ids(v: &Vec<usize>) -> (r: Vec<usize>)
    ensures
        r@ == v@,
{
    let mut r: Vec<usize> = Vec::new();
    let mut i: usize = 0;
    while i < v.len()
        invariant
            i <= v@.len(),
            r@ == v@.subrange(0, i as int),
        decreases v@.len() - i,
    {
        r.push(v[i]);
        i = i + 1;
        assert(r@ =~= v@.subrange(0, i as int));
    }
    assert(r@ =~= v@);
    r
}

impl Todo {
    /// A new open todo of the list `list_id`, not yet stored.
    pub fn new(
        list_id: usize,
        title: String,
        description: Option<String>,
        due_date: Option<Date>,
    ) -> (r: Todo)
        ensures
            r@ == (TodoView {
                id: None,
                list_id,
                title: title@,
                description: opt_view(description),
                due_date,
                completed: false,
                completed_date: None,
                dependencies: Seq::empty(),
            }),
    {
        let r = Todo {
            id: None,
            list_id,
            title,
            description,
            due_date,
            completed: false,
            completed_date: None,
            dependencies: Vec::new(),
        };
        assert(r@.dependencies =~= Seq::empty());
        r
    }

    /// A copy of this todo.
    pub fn duplicate(&self) -> (r: Todo)
        ensures
            r@ == self@,
    {
        Todo {
            id: self.id,
            list_id: self.list_id,
            title: self.title.clone(),
            description: clone_opt_string(&self.description),
            due_date: self.due_date,
            completed: self.completed,
            completed_date: self.completed_date,
            dependencies: clone_ids(&self.dependencies),
        }
    }

    /// Flips the completion of the todo; a todo that becomes completed is
    /// stamped with `today`, one that is reopened loses its completion date.
    pub fn toggle_completion(&mut self, today: Date)
        ensures
            final(self)@ == toggled(old(self)@, today),
    {
        if self.completed {
            self.completed = false;
            self.completed_date = None;
        } else {
            self.completed = true;
            self.completed_date = Some(today);
        }
    }

    /// Whether the todo is open and due on or before `today`.
    pub fn is_overdue(&self, today: Date) -> (r: bool)
        ensures
            r == overdue(self@, today),
    {
        match self.due_date {
            Some(d) => !self.completed && d.is_on_or_before(today),
            None => false,
        }
    }
}

/// Toggling the completion of a todo twice gives back its completion flag,
/// and the completion date is then set exactly when the todo is completed; a
/// todo whose completion date was consistent with its flag comes back whole.
pub proof fn lemma_toggle_twice(t: TodoView, first: Date, second: Date)
    ensures
        toggled(toggled(t, first), second).completed == t.completed,
        toggled(toggled(t, first), second).completed_date == (if t.completed {
            Some(second)
        } else {
            None::<Date>
        }),
        !t.completed && completion_consistent(t) ==> toggled(toggled(t, first), second) == t,
{
}

} // verus!
