use vstd::prelude::*;

verus! {

/// A cursor over a pane of `len` rows is unset or on one of the rows.
pub open spec fn cursor_in_range(c: Option<usize>, len: nat) -> bool {
    match c {
        Some(i) => i < len,
        None => true,
    }
}

/// The cursor after a move up over a pane of `len` rows: an unset cursor
/// goes to the first row, a set one to the row above, staying on the first,
/// and one past the end of a pane that shrank to its last row; over an empty
/// pane the cursor is cleared.
pub open spec fn cursor_up(c: Option<usize>, len: nat) -> Option<usize> {
    if len == 0 {
        None
    } else {
        match c {
            None => Some(0),
            Some(i) => if i == 0 {
                Some(0)
            } else if i - 1 < len {
                Some((i - 1) as usize)
            } else {
                Some((len - 1) as usize)
            },
        }
    }
}

/// The cursor after a move down over a pane of `len` rows: an unset cursor
/// goes to the first row, a set one to the row below, staying on the last
/// (where a pane that shrank leaves it); over an empty pane the cursor is
/// cleared.
pub open spec fn cursor_down(c: Option<usize>, len: nat) -> Option<usize> {
    if len == 0 {
        None
    } else {
        match c {
            None => Some(0),
            Some(i) => if i + 1 < len {
                Some((i + 1) as usize)
            } else {
                Some((len - 1) as usize)
            },
        }
    }
}

/// The cursor brought back onto a pane of `len` rows, which may have shrunk
/// since it was set: past the end it goes to the last row.
pub open spec fn cursor_clamped(c: Option<usize>, len: nat) -> Option<usize> {
    match c {
        None => None,
        Some(i) => if len == 0 {
            None
        } else if i < len {
            Some(i)
        } else {
            Some((len - 1) as usize)
        },
    }
}

/// A move of a cursor.
pub enum Move {
    Up,
    Down,
}

/// The cursor after the moves `moves`, in order, over a pane of `len` rows.
pub open spec fn cursor_after(c: Option<usize>, moves: Seq<Move>, len: nat) -> Option<usize>
    decreases moves.len(),
{
    if moves.len() == 0 {
        c
    } else {
        let next = match moves[0] {
            Move::Up => cursor_up(c, len),
            Move::Down => cursor_down(c, len),
        };
        cursor_after(next, moves.drop_first(), len)
    }
}

/// Moves the cursor one row up over a pane of `len` rows.
pub fn move_up(c: Option<usize>, len: usize) -> (r: Option<usize>)
    ensures
        r == cursor_up(c, len as nat),
{
    if len == 0 {
        return None;
    }
    match c {
        None => Some(0),
        Some(i) => if i == 0 {
            Some(0)
        } else if i - 1 < len {
            Some(i - 1)
        } else {
            Some(len - 1)
        },
    }
}

/// Moves the cursor one row down over a pane of `len` rows.
pub fn move_down(c: Option<usize>, len: usize) -> (r: Option<usize>)
    ensures
        r == cursor_down(c, len as nat),
{
    if len == 0 {
        return None;
    }
    match c {
        None => Some(0),
        Some(i) => if i < len - 1 {
            Some(i + 1)
        } else {
            Some(len - 1)
        },
    }
}

/// Brings the cursor back onto a pane of `len` rows.
pub fn clamp(c: Option<usize>, len: usize) -> (r: Option<usize>)
    ensures
        r == cursor_clamped(c, len as nat),
        cursor_in_range(r, len as nat),
{
    match c {
        None => None,
        Some(i) => if len == 0 {
            None
        } else if i < len {
            Some(i)
        } else {
            Some(len - 1)
        },
    }
}

/// Whatever moves are made from an unset cursor, the cursor stays unset or on
/// a row of the pane; so it does from any cursor on a row of the pane.
pub proof fn lemma_moves_stay_in_range(c: Option<usize>, moves: Seq<Move>, len: nat)
    requires
        cursor_in_range(c, len),
    ensures
        cursor_in_range(cursor_after(c, moves, len), len),
    decreases moves.len(),
{
    if moves.len() > 0 {
        let next = match moves[0] {
            Move::Up => cursor_up(c, len),
            Move::Down => cursor_down(c, len),
        };
        lemma_moves_stay_in_range(next, moves.drop_first(), len);
    }
}

} // verus!
