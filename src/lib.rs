//! Core of a terminal todo-list manager: the records, the order in which a
//! list's todos are shown, the cursors of the two panes and the state machine
//! that turns key presses into edits of the screen state and into requests to
//! the store.

pub mod date;
pub mod model;
pub mod cursor;
pub mod order;
pub mod text;
pub mod machine;
pub mod store;
pub mod view;
