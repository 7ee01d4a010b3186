use vstd::prelude::*;

use crate::cursor::{clamp, cursor_clamped, cursor_in_range, cursor_down, cursor_up, move_down, move_up};
use crate::date::{date_after, Date};
use crate::model::{Todo, TodoList, TodoListView, TodoView};
use crate::store::save_todo_list;
use crate::text::{decimal_u64, parse_u64, pop_char, push_char};

verus! {

/// A field of the todo form; the list form has only a title.
#[derive(Clone, Copy, Debug, PartialEq, Eq, Structural)]
pub enum InputField {
    Title,
    Description,
    DueDate,
}

/// The screen shown, with what it is editing.
#[derive(Clone, Copy, Debug, PartialEq, Eq, Structural)]
pub enum Screen {
    /// The two panes; with the position of a todo whose details are shown.
    Browsing(Option<usize>),
    /// The todo form: the field being typed into, if any (else its menu),
    /// and the position, among the todos shown, of the todo being edited
    /// (none for a new todo).
    EditingTodo(Option<InputField>, Option<usize>),
    /// The form of a new list: the field being typed into, if any.
    EditingList(Option<InputField>),
}

/// A key press.
#[derive(Clone, Copy, Debug, PartialEq, Eq, Structural)]
pub enum Key {
    Char(char),
    Backspace,
    Esc,
    Enter,
    /// Any other key, which no screen reacts to.
    Other,
}

/// What the store is asked to do after a key press.
#[derive(Debug)]
pub enum Action {
    Nothing,
    /// Leave the program.
    Quit,
    /// Delete the list of this id and its todos.
    DeleteList(usize),
    /// Delete the todo of this id.
    DeleteTodo(usize),
    /// Mark the todo of this id completed (`true`) or open.
    SetCompletion(usize, bool),
    /// Store a new todo.
    AddTodo(Todo),
    /// Replace the stored todo of the same id.
    UpdateTodo(Todo),
    /// Store a new list.
    AddList(TodoList),
}

/// What an `Action` holds.
pub enum ActionView {
    Nothing,
    Quit,
    DeleteList(usize),
    DeleteTodo(usize),
    SetCompletion(usize, bool),
    AddTodo(TodoView),
    UpdateTodo(TodoView),
    AddList(TodoListView),
}

impl View for Action {
    type V = ActionView;

    open spec fn view(&self) -> ActionView {
        match self {
            Action::Nothing => ActionView::Nothing,
            Action::Quit => ActionView::Quit,
            Action::DeleteList(id) => ActionView::DeleteList(*id),
            Action::DeleteTodo(id) => ActionView::DeleteTodo(*id),
            Action::SetCompletion(id, c) => ActionView::SetCompletion(*id, *c),
            Action::AddTodo(t) => ActionView::AddTodo(t@),
            Action::UpdateTodo(t) => ActionView::UpdateTodo(t@),
            Action::AddList(l) => ActionView::AddList(l@),
        }
    }
}

/// The state of the interface between two key presses: the screen, the
/// characters typed into the field being edited, the values staged for the
/// forms, and the cursors of the two panes.
pub struct State {
    pub screen: Screen,
    /// What has been typed into the field being edited.
    pub input: String,
    pub list_title: String,
    pub todo_title: String,
    pub todo_description: String,
    pub todo_due_date: Option<Date>,
    /// The cursor of the pane of lists.
    pub lists_cursor: Option<usize>,
    /// The cursor of the pane of todos of the selected list.
    pub todos_cursor: Option<usize>,
    /// Whether the moving keys act on the pane of lists (else on the todos).
    pub selecting_list: bool,
}

/// What a `State` holds.
pub struct StateView {
    pub screen: Screen,
    pub input: Seq<char>,
    pub list_title: Seq<char>,
    pub todo_title: Seq<char>,
    pub todo_description: Seq<char>,
    pub todo_due_date: Option<Date>,
    pub lists_cursor: Option<usize>,
    pub todos_cursor: Option<usize>,
    pub selecting_list: bool,
}

impl View for State {
    type V = StateView;

    open spec fn view(&self) -> StateView {
        StateView {
            screen: self.screen,
            input: self.input@,
            list_title: self.list_title@,
            todo_title: self.todo_title@,
            todo_description: self.todo_description@,
            todo_due_date: self.todo_due_date,
            lists_cursor: self.lists_cursor,
            todos_cursor: self.todos_cursor,
            selecting_list: self.selecting_list,
        }
    }
}

/// The id of the list under the cursor of the pane of lists.
pub open spec fn selected_list_id(s: StateView, lists: Seq<TodoList>) -> Option<usize> {
    match s.lists_cursor {
        Some(i) => if i < lists.len() {
            lists[i as int].id
        } else {
            None
        },
        None => None,
    }
}

/// The position of the todo under the cursor of the pane of todos.
pub open spec fn selected_todo(s: StateView, todos: Seq<Todo>) -> Option<usize> {
    match s.todos_cursor {
        Some(i) => if i < todos.len() {
            Some(i)
        } else {
            None
        },
        None => None,
    }
}

/// The request that flips the completion of the selected todo.
pub open spec fn toggle_request(s: StateView, todos: Seq<Todo>) -> ActionView {
    match selected_todo(s, todos) {
        Some(i) => match todos[i as int].id {
            Some(id) => ActionView::SetCompletion(id, !todos[i as int].completed),
            None => ActionView::Nothing,
        },
        None => ActionView::Nothing,
    }
}

/// The due date staged from the typed number of days from `today`: none where
/// the text is no unsigned number or the date is past the calendar's range.
pub open spec fn staged_due_date(input: Seq<char>, today: Date) -> Option<Date> {
    match decimal_u64(input) {
        Some(n) => date_after(today, n as nat),
        None => None,
    }
}

/// A key press on the two panes, with `detail` the todo whose details are
/// shown; `lists` and `todos` are the rows of the two panes.
pub open spec fn browsing_step(
    s: StateView,
    detail: Option<usize>,
    key: Key,
    lists: Seq<TodoList>,
    todos: Seq<Todo>,
) -> (StateView, ActionView) {
    let same = (s, ActionView::Nothing);
    match key {
        Key::Char(c) => if c == 'q' {
            (s, ActionView::Quit)
        } else if c == 'v' {
            match (detail, s.todos_cursor) {
                (Some(_), _) => (StateView { screen: Screen::Browsing(None), ..s }, ActionView::Nothing),
                (None, Some(i)) => (
                    StateView { screen: Screen::Browsing(Some(i)), ..s },
                    ActionView::Nothing,
                ),
                (None, None) => same,
            }
        } else if c == 'E' {
            match (s.lists_cursor, selected_todo(s, todos)) {
                (Some(_), Some(i)) => {
                    let t = todos[i as int]@;
                    (
                        StateView {
                            screen: Screen::EditingTodo(Some(InputField::Title), Some(i)),
                            input: t.title,
                            todo_title: t.title,
                            todo_description: match t.description {
                                Some(d) => d,
                                None => Seq::empty(),
                            },
                            todo_due_date: t.due_date,
                            ..s
                        },
                        ActionView::Nothing,
                    )
                },
                _ => same,
            }
        } else if c == 'N' {
            if s.lists_cursor is Some {
                (
                    StateView { screen: Screen::EditingTodo(Some(InputField::Title), None), ..s },
                    ActionView::Nothing,
                )
            } else {
                same
            }
        } else if c == 'L' {
            (
                StateView { screen: Screen::EditingList(Some(InputField::Title)), ..s },
                ActionView::Nothing,
            )
        } else if c == 'D' {
            if s.selecting_list {
                match selected_list_id(s, lists) {
                    Some(id) => (
                        StateView { lists_cursor: None, todos_cursor: None, ..s },
                        ActionView::DeleteList(id),
                    ),
                    None => same,
                }
            } else {
                match selected_todo(s, todos) {
                    Some(i) => match todos[i as int].id {
                        Some(id) => (s, ActionView::DeleteTodo(id)),
                        None => same,
                    },
                    None => same,
                }
            }
        } else if c == 'j' {
            if s.selecting_list {
                (
                    StateView { lists_cursor: cursor_down(s.lists_cursor, lists.len()), ..s },
                    ActionView::Nothing,
                )
            } else {
                (
                    StateView { todos_cursor: cursor_down(s.todos_cursor, todos.len()), ..s },
                    ActionView::Nothing,
                )
            }
        } else if c == 'k' {
            if s.selecting_list {
                (
                    StateView { lists_cursor: cursor_up(s.lists_cursor, lists.len()), ..s },
                    ActionView::Nothing,
                )
            } else {
                (
                    StateView { todos_cursor: cursor_up(s.todos_cursor, todos.len()), ..s },
                    ActionView::Nothing,
                )
            }
        } else if c == 'h' {
            if s.selecting_list {
                same
            } else {
                (
                    StateView {
                        selecting_list: true,
                        screen: Screen::Browsing(None),
                        todos_cursor: None,
                        ..s
                    },
                    ActionView::Nothing,
                )
            }
        } else if c == 'l' {
            if s.selecting_list {
                (
                    StateView {
                        selecting_list: false,
                        todos_cursor: if todos.len() > 0 {
                            Some(0)
                        } else {
                            s.todos_cursor
                        },
                        ..s
                    },
                    ActionView::Nothing,
                )
            } else {
                (s, toggle_request(s, todos))
            }
        } else if c == ' ' {
            if s.selecting_list {
                same
            } else {
                (s, toggle_request(s, todos))
            }
        } else {
            same
        },
        _ => same,
    }
}


/// A key press while `field` of a form is typed into; `menu` is the screen
/// that the form goes back to when the typing ends.
pub open spec fn typing_step(s: StateView, key: Key, menu: Screen) -> StateView {
    match key {
        Key::Char(c) => StateView { input: s.input.push(c), ..s },
        Key::Backspace => StateView {
            input: if s.input.len() > 0 {
                s.input.drop_last()
            } else {
                s.input
            },
            ..s
        },
        Key::Esc => StateView { input: Seq::empty(), screen: menu, ..s },
        _ => s,
    }
}

/// A key press while `field` of the todo form is typed into, `edit` being
/// the position of the todo edited.
pub open spec fn todo_field_step(
    s: StateView,
    field: InputField,
    edit: Option<usize>,
    key: Key,
    today: Date,
) -> StateView {
    match key {
        Key::Enter => match field {
            InputField::Title => StateView {
                todo_title: s.input,
                input: Seq::empty(),
                screen: Screen::EditingTodo(Some(InputField::Description), edit),
                ..s
            },
            InputField::Description => StateView {
                todo_description: s.input,
                input: Seq::empty(),
                screen: Screen::EditingTodo(Some(InputField::DueDate), edit),
                ..s
            },
            InputField::DueDate => StateView {
                todo_due_date: staged_due_date(s.input, today),
                input: Seq::empty(),
                screen: Screen::EditingTodo(None, edit),
                ..s
            },
        },
        _ => typing_step(s, key, Screen::EditingTodo(None, edit)),
    }
}

/// The todo that saving the todo form stores: the edited todo at position
/// `i` of `todos` with the staged title, description and due date, or a new
/// open todo of the selected list.
pub open spec fn saved_todo(s: StateView, edit: Option<usize>, lists: Seq<TodoList>, todos: Seq<Todo>) -> ActionView {
    match edit {
        Some(i) => if i < todos.len() {
            ActionView::UpdateTodo(
                TodoView {
                    title: s.todo_title,
                    description: Some(s.todo_description),
                    due_date: s.todo_due_date,
                    ..todos[i as int]@
                },
            )
        } else {
            ActionView::Nothing
        },
        None => match selected_list_id(s, lists) {
            Some(list_id) => ActionView::AddTodo(
                TodoView {
                    id: None,
                    list_id,
                    title: s.todo_title,
                    description: Some(s.todo_description),
                    due_date: s.todo_due_date,
                    completed: false,
                    completed_date: None,
                    dependencies: Seq::empty(),
                },
            ),
            None => ActionView::Nothing,
        },
    }
}

/// A key press on the menu of the todo form.
pub open spec fn todo_menu_step(
    s: StateView,
    edit: Option<usize>,
    key: Key,
    lists: Seq<TodoList>,
    todos: Seq<Todo>,
) -> (StateView, ActionView) {
    let same = (s, ActionView::Nothing);
    let back = (StateView { screen: Screen::Browsing(None), ..s }, ActionView::Nothing);
    match key {
        Key::Esc => back,
        Key::Char(c) => if c == 'q' {
            back
        } else if c == 'D' {
            (
                StateView { screen: Screen::EditingTodo(Some(InputField::DueDate), edit), ..s },
                ActionView::Nothing,
            )
        } else if c == 'd' {
            (
                StateView {
                    screen: Screen::EditingTodo(Some(InputField::Description), edit),
                    input: s.todo_description,
                    ..s
                },
                ActionView::Nothing,
            )
        } else if c == 't' {
            (
                StateView {
                    screen: Screen::EditingTodo(Some(InputField::Title), edit),
                    input: s.todo_title,
                    ..s
                },
                ActionView::Nothing,
            )
        } else if c == 's' {
            (
                StateView {
                    todo_title: Seq::empty(),
                    todo_description: Seq::empty(),
                    todo_due_date: None,
                    screen: Screen::Browsing(None),
                    ..s
                },
                saved_todo(s, edit, lists, todos),
            )
        } else {
            same
        },
        _ => same,
    }
}

/// A key press while `field` of the list form is typed into.
pub open spec fn list_field_step(s: StateView, field: InputField, key: Key) -> StateView {
    match key {
        Key::Enter => match field {
            InputField::Title => StateView {
                list_title: s.input,
                input: Seq::empty(),
                screen: Screen::EditingList(None),
                ..s
            },
            _ => s,
        },
        _ => typing_step(s, key, Screen::EditingList(None)),
    }
}

/// A key press on the menu of the list form.
pub open spec fn list_menu_step(s: StateView, key: Key) -> (StateView, ActionView) {
    let same = (s, ActionView::Nothing);
    let back = (StateView { screen: Screen::Browsing(None), ..s }, ActionView::Nothing);
    match key {
        Key::Esc => back,
        Key::Char(c) => if c == 'q' {
            back
        } else if c == 't' {
            (
                StateView { screen: Screen::EditingList(Some(InputField::Title)), ..s },
                ActionView::Nothing,
            )
        } else if c == 's' {
            (
                StateView { input: Seq::empty(), screen: Screen::Browsing(None), ..s },
                ActionView::AddList(TodoListView { id: None, title: s.list_title }),
            )
        } else {
            same
        },
        _ => same,
    }
}

/// A key press on any screen, with `lists` and `todos` the rows of the two
/// panes as last shown and `today` the current date.
pub open spec fn step(
    s: StateView,
    key: Key,
    lists: Seq<TodoList>,
    todos: Seq<Todo>,
    today: Date,
) -> (StateView, ActionView) {
    match s.screen {
        Screen::Browsing(detail) => browsing_step(s, detail, key, lists, todos),
        Screen::EditingTodo(Some(field), edit) => (
            todo_field_step(s, field, edit, key, today),
            ActionView::Nothing,
        ),
        Screen::EditingTodo(None, edit) => todo_menu_step(s, edit, key, lists, todos),
        Screen::EditingList(Some(field)) => (list_field_step(s, field, key), ActionView::Nothing),
        Screen::EditingList(None) => list_menu_step(s, key),
    }
}

/// The cursors of both panes are unset or on a row of their pane.
pub open spec fn cursors_in_range(s: StateView, lists: Seq<TodoList>, todos: Seq<Todo>) -> bool {
    cursor_in_range(s.lists_cursor, lists.len()) && cursor_in_range(s.todos_cursor, todos.len())
}

/// Whatever key is pressed, the cursors of both panes stay unset or on a row
/// of their pane.
pub proof fn lemma_step_keeps_cursors_in_range(
    s: StateView,
    key: Key,
    lists: Seq<TodoList>,
    todos: Seq<Todo>,
    today: Date,
)
    requires
        cursors_in_range(s, lists, todos),
    ensures
        cursors_in_range(step(s, key, lists, todos, today).0, lists, todos),
{
}

/// The id of a stored list, if it has one.
fn list_id_at(lists: &Vec<TodoList>, cursor: Option<usize>) -> (r: Option<usize>)
    ensures
        r == (match cursor {
            Some(i) => if i < lists@.len() {
                lists@[i as int].id
            } else {
                None
            },
            None => None,
        }),
{
    match cursor {
        Some(i) => if i < lists.len() {
            lists[i].id
        } else {
            None
        },
        None => None,
    }
}

impl State {
    /// The state at start: the two panes, nothing selected or staged, the
    /// moving keys on the pane of lists.
    pub fn new() -> (r: State)
        ensures
            r@ == (StateView {
                screen: Screen::Browsing(None),
                input: Seq::empty(),
                list_title: Seq::empty(),
                todo_title: Seq::empty(),
                todo_description: Seq::empty(),
                todo_due_date: None,
                lists_cursor: None,
                todos_cursor: None,
                selecting_list: true,
            }),
    {
        State {
            screen: Screen::Browsing(None),
            input: String::new(),
            list_title: String::new(),
            todo_title: String::new(),
            todo_description: String::new(),
            todo_due_date: None,
            lists_cursor: None,
            todos_cursor: None,
            selecting_list: true,
        }
    }

    /// The position of the todo under the cursor of the pane of todos.
    fn todo_under_cursor(&self, todos: &Vec<Todo>) -> (r: Option<usize>)
        ensures
            r == selected_todo(self@, todos@),
    {
        match self.todos_cursor {
            Some(i) => if i < todos.len() {
                Some(i)
            } else {
                None
            },
            None => None,
        }
    }

    /// The request that flips the completion of the selected todo.
    fn toggle(&self, todos: &Vec<Todo>) -> (r: Action)
        ensures
            r@ == toggle_request(self@, todos@),
    {
        match self.todo_under_cursor(todos) {
            Some(i) => match todos[i].id {
                Some(id) => Action::SetCompletion(id, !todos[i].completed),
                None => Action::Nothing,
            },
            None => Action::Nothing,
        }
    }

    /// Handles a key press on the two panes.
    fn browsing_key(
        &mut self,
        detail: Option<usize>,
        key: Key,
        lists: &Vec<TodoList>,
        todos: &Vec<Todo>,
    ) -> (r: Action)
        ensures
            (final(self)@, r@) == browsing_step(old(self)@, detail, key, lists@, todos@),
    {
        let c = match key {
            Key::Char(c) => c,
            _ => {
                return Action::Nothing;
            },
        };
        if c == 'q' {
            Action::Quit
        } else if c == 'v' {
            match (detail, self.todos_cursor) {
                (Some(_), _) => {
                    self.screen = Screen::Browsing(None);
                },
                (None, Some(i)) => {
                    self.screen = Screen::Browsing(Some(i));
                },
                (None, None) => {},
            }
            Action::Nothing
        } else if c == 'E' {
            match (self.lists_cursor, self.todo_under_cursor(todos)) {
                (Some(_), Some(i)) => {
                    let t = &todos[i];
                    self.todo_description = match &t.description {
                        Some(d) => d.clone(),
                        None => String::new(),
                    };
                    self.input = t.title.clone();
                    self.todo_title = t.title.clone();
                    self.todo_due_date = t.due_date;
                    self.screen = Screen::EditingTodo(Some(InputField::Title), Some(i));
                },
                _ => {},
            }
            Action::Nothing
        } else if c == 'N' {
            if self.lists_cursor.is_some() {
                self.screen = Screen::EditingTodo(Some(InputField::Title), None);
            }
            Action::Nothing
        } else if c == 'L' {
            self.screen = Screen::EditingList(Some(InputField::Title));
            Action::Nothing
        } else if c == 'D' {
            if self.selecting_list {
                match list_id_at(lists, self.lists_cursor) {
                    Some(id) => {
                        self.lists_cursor = None;
                        self.todos_cursor = None;
                        Action::DeleteList(id)
                    },
                    None => Action::Nothing,
                }
            } else {
                match self.todo_under_cursor(todos) {
                    Some(i) => match todos[i].id {
                        Some(id) => Action::DeleteTodo(id),
                        None => Action::Nothing,
                    },
                    None => Action::Nothing,
                }
            }
        } else if c == 'j' {
            if self.selecting_list {
                self.lists_cursor = move_down(self.lists_cursor, lists.len());
            } else {
                self.todos_cursor = move_down(self.todos_cursor, todos.len());
            }
            Action::Nothing
        } else if c == 'k' {
            if self.selecting_list {
                self.lists_cursor = move_up(self.lists_cursor, lists.len());
            } else {
                self.todos_cursor = move_up(self.todos_cursor, todos.len());
            }
            Action::Nothing
        } else if c == 'h' {
            if !self.selecting_list {
                self.selecting_list = true;
                self.screen = Screen::Browsing(None);
                self.todos_cursor = None;
            }
            Action::Nothing
        } else if c == 'l' {
            if self.selecting_list {
                self.selecting_list = false;
                if todos.len() > 0 {
                    self.todos_cursor = Some(0);
                }
                Action::Nothing
            } else {
                self.toggle(todos)
            }
        } else if c == ' ' {
            if self.selecting_list {
                Action::Nothing
            } else {
                self.toggle(todos)
            }
        } else {
            Action::Nothing
        }
    }
    /// Handles a key press that edits the text being typed into a form field.
    fn typing_key(&mut self, key: Key, menu: Screen)
        ensures
            final(self)@ == typing_step(old(self)@, key, menu),
    {
        match key {
            Key::Char(c) => push_char(&mut self.input, c),
            Key::Backspace => pop_char(&mut self.input),
            Key::Esc => {
                self.input = String::new();
                self.screen = menu;
            },
            _ => {},
        }
    }

    /// Handles a key press while `field` of the todo form is typed into.
    fn todo_field_key(&mut self, field: InputField, edit: Option<usize>, key: Key, today: Date)
        ensures
            final(self)@ == todo_field_step(old(self)@, field, edit, key, today),
    {
        match key {
            Key::Enter => match field {
                InputField::Title => {
                    self.todo_title = self.input.clone();
                    self.input = String::new();
                    self.screen = Screen::EditingTodo(Some(InputField::Description), edit);
                },
                InputField::Description => {
                    self.todo_description = self.input.clone();
                    self.input = String::new();
                    self.screen = Screen::EditingTodo(Some(InputField::DueDate), edit);
                },
                InputField::DueDate => {
                    self.todo_due_date = match parse_u64(&self.input) {
                        Some(n) => today.add_days(n),
                        None => None,
                    };
                    self.input = String::new();
                    self.screen = Screen::EditingTodo(None, edit);
                },
            },
            _ => self.typing_key(key, Screen::EditingTodo(None, edit)),
        }
    }

    /// The request that saving the todo form makes.
    fn save_todo(&self, edit: Option<usize>, lists: &Vec<TodoList>, todos: &Vec<Todo>) -> (r: Action)
        ensures
            r@ == saved_todo(self@, edit, lists@, todos@),
    {
        match edit {
            Some(i) => if i < todos.len() {
                let mut t = todos[i].duplicate();
                t.title = self.todo_title.clone();
                t.description = Some(self.todo_description.clone());
                t.due_date = self.todo_due_date;
                Action::UpdateTodo(t)
            } else {
                Action::Nothing
            },
            None => match list_id_at(lists, self.lists_cursor) {
                Some(list_id) => Action::AddTodo(
                    Todo::new(
                        list_id,
                        self.todo_title.clone(),
                        Some(self.todo_description.clone()),
                        self.todo_due_date,
                    ),
                ),
                None => Action::Nothing,
            },
        }
    }

    /// Handles a key press on the menu of the todo form.
    fn todo_menu_key(
        &mut self,
        edit: Option<usize>,
        key: Key,
        lists: &Vec<TodoList>,
        todos: &Vec<Todo>,
    ) -> (r: Action)
        ensures
            (final(self)@, r@) == todo_menu_step(old(self)@, edit, key, lists@, todos@),
    {
        let c = match key {
            Key::Esc => 'q',
            Key::Char(c) => c,
            _ => {
                return Action::Nothing;
            },
        };
        if c == 'q' {
            self.screen = Screen::Browsing(None);
            Action::Nothing
        } else if c == 'D' {
            self.screen = Screen::EditingTodo(Some(InputField::DueDate), edit);
            Action::Nothing
        } else if c == 'd' {
            self.screen = Screen::EditingTodo(Some(InputField::Description), edit);
            self.input = self.todo_description.clone();
            Action::Nothing
        } else if c == 't' {
            self.screen = Screen::EditingTodo(Some(InputField::Title), edit);
            self.input = self.todo_title.clone();
            Action::Nothing
        } else if c == 's' {
            let r = self.save_todo(edit, lists, todos);
            self.todo_title = String::new();
            self.todo_description = String::new();
            self.todo_due_date = None;
            self.screen = Screen::Browsing(None);
            r
        } else {
            Action::Nothing
        }
    }

    /// Handles a key press while `field` of the list form is typed into.
    fn list_field_key(&mut self, field: InputField, key: Key)
        ensures
            final(self)@ == list_field_step(old(self)@, field, key),
    {
        match key {
            Key::Enter => match field {
                InputField::Title => {
                    self.list_title = self.input.clone();
                    self.input = String::new();
                    self.screen = Screen::EditingList(None);
                },
                _ => {},
            },
            _ => self.typing_key(key, Screen::EditingList(None)),
        }
    }

    /// Handles a key press on the menu of the list form.
    fn list_menu_key(&mut self, key: Key) -> (r: Action)
        ensures
            (final(self)@, r@) == list_menu_step(old(self)@, key),
    {
        let c = match key {
            Key::Esc => 'q',
            Key::Char(c) => c,
            _ => {
                return Action::Nothing;
            },
        };
        if c == 'q' {
            self.screen = Screen::Browsing(None);
            Action::Nothing
        } else if c == 't' {
            self.screen = Screen::EditingList(Some(InputField::Title));
            Action::Nothing
        } else if c == 's' {
            let r = Action::AddList(save_todo_list(self.list_title.clone()));
            self.input = String::new();
            self.screen = Screen::Browsing(None);
            r
        } else {
            Action::Nothing
        }
    }

    /// Brings the cursor of the pane of lists back onto `lists`, as fetched
    /// for this frame, and returns the id of the selected list, whose todos
    /// the other pane shows.
    pub fn sync_lists(&mut self, lists: &Vec<TodoList>) -> (r: Option<usize>)
        ensures
            final(self)@ == (StateView {
                lists_cursor: cursor_clamped(old(self).lists_cursor, lists@.len()),
                ..old(self)@
            }),
            r == selected_list_id(final(self)@, lists@),
            cursor_in_range(final(self).lists_cursor, lists@.len()),
    {
        self.lists_cursor = clamp(self.lists_cursor, lists.len());
        list_id_at(lists, self.lists_cursor)
    }

    /// Brings the cursor of the pane of todos back onto the `len` todos
    /// fetched for this frame.
    pub fn sync_todos(&mut self, len: usize)
        ensures
            final(self)@ == (StateView {
                todos_cursor: cursor_clamped(old(self).todos_cursor, len as nat),
                ..old(self)@
            }),
            cursor_in_range(final(self).todos_cursor, len as nat),
    {
        self.todos_cursor = clamp(self.todos_cursor, len);
    }

    /// The field of a form being typed into, if any.
    pub fn active_field(&self) -> (r: Option<InputField>)
        ensures
            r == (match self.screen {
                Screen::EditingTodo(f, _) => f,
                Screen::EditingList(f) => f,
                Screen::Browsing(_) => None,
            }),
    {
        match self.screen {
            Screen::EditingTodo(f, _) => f,
            Screen::EditingList(f) => f,
            Screen::Browsing(_) => None,
        }
    }

    /// Handles a key press: changes the state as the screen shown says and
    /// returns what the store is to do. `lists` and `todos` are the rows of
    /// the two panes as last shown, `today` the current date.
    pub fn handle_key(
        &mut self,
        key: Key,
        lists: &Vec<TodoList>,
        todos: &Vec<Todo>,
        today: Date,
    ) -> (r: Action)
        ensures
            (final(self)@, r@) == step(old(self)@, key, lists@, todos@, today),
    {
        match self.screen {
            Screen::Browsing(detail) => self.browsing_key(detail, key, lists, todos),
            Screen::EditingTodo(Some(field), edit) => {
                self.todo_field_key(field, edit, key, today);
                Action::Nothing
            },
            Screen::EditingTodo(None, edit) => self.todo_menu_key(edit, key, lists, todos),
            Screen::EditingList(Some(field)) => {
                self.list_field_key(field, key);
                Action::Nothing
            },
            Screen::EditingList(None) => self.list_menu_key(key),
        }
    }
}

} // verus!
