use vstd::prelude::*;

use crate::model::{Todo, TodoView};

verus! {

/// The day a todo is due, with no due date counting as day 0: only compared
/// between todos that both have a due date or both have none.
pub open spec fn due_day(t: TodoView) -> int {
    match t.due_date {
        Some(d) => d.day as int,
        None => 0,
    }
}

/// Whether `a` is shown before `b` whatever their positions: open todos come
/// before completed ones, then todos with a due date before those without,
/// then earlier due dates first.
pub open spec fn shown_before(a: TodoView, b: TodoView) -> bool {
    if a.completed != b.completed {
        !a.completed
    } else if (a.due_date is None) != (b.due_date is None) {
        a.due_date is Some
    } else {
        due_day(a) < due_day(b)
    }
}

/// `a` and `b` have the same place in the display order.
pub open spec fn same_rank(a: TodoView, b: TodoView) -> bool {
    !shown_before(a, b) && !shown_before(b, a)
}

/// `p` lists each of the positions `0..n` exactly once.
pub open spec fn is_permutation(p: Seq<int>, n: nat) -> bool {
    &&& p.len() == n
    &&& forall|k: int| 0 <= k < p.len() ==> 0 <= #[trigger] p[k] < n
    &&& forall|k: int, l: int| 0 <= k < l < p.len() ==> p[k] != p[l]
}

/// `out` holds the todos of `s` in display order, todos of the same rank
/// keeping their order in `s`: the todo at position `k` of `out` is the one
/// at position `p[k]` of `s`.
pub open spec fn display_order_by(out: Seq<Todo>, s: Seq<Todo>, p: Seq<int>) -> bool {
    &&& out.len() == s.len()
    &&& is_permutation(p, s.len())
    &&& forall|k: int| 0 <= k < out.len() ==> #[trigger] out[k] == s[p[k]]
    &&& forall|k: int, l: int|
        0 <= k < l < out.len() ==> shown_before(#[trigger] out[k]@, #[trigger] out[l]@) || (
        same_rank(out[k]@, out[l]@) && p[k] < p[l])
}

/// `out` holds the todos of `s` in display order.
pub open spec fn in_display_order(out: Seq<Todo>, s: Seq<Todo>) -> bool {
    exists|p: Seq<int>| display_order_by(out, s, p)
}

/// Whether `a` is shown before `b` whatever their positions.
pub fn comes_before(a: &Todo, b: &Todo) -> (r: bool)
    ensures
        r == shown_before(a@, b@),
{
    if a.completed != b.completed {
        !a.completed
    } else {
        match (a.due_date, b.due_date) {
            (Some(x), Some(y)) => x.day < y.day,
            (Some(_), None) => true,
            (None, Some(_)) => false,
            (None, None) => false,
        }
    }
}

/// Sorts the todos of a list into the order in which they are shown: open
/// todos before completed ones, todos with a due date before those without,
/// earlier due dates first, and todos of the same rank in the order given.
pub fn sort_todos(todos: Vec<Todo>) -> (r: Vec<Todo>)
    ensures
        in_display_order(r@, todos@),
{
    let ghost s = todos@;
    let n: usize = todos.len();
    let mut rest = todos;
    let mut out: Vec<Todo> = Vec::new();
    let ghost mut p: Seq<int> = Seq::empty();
    let mut i: usize = 0;
    while rest.len() > 0
        invariant
            s.len() == n,
            i as int + rest@.len() == s.len(),
            rest@ == s.subrange(i as int, s.len() as int),
            out@.len() == i,
            p.len() == i,
            forall|k: int| 0 <= k < p.len() ==> 0 <= #[trigger] p[k] < i,
            forall|k: int, l: int| 0 <= k < l < p.len() ==> p[k] != p[l],
            forall|k: int| 0 <= k < out@.len() ==> #[trigger] out@[k] == s[p[k]],
            forall|k: int, l: int|
                0 <= k < l < out@.len() ==> shown_before(#[trigger] out@[k]@, #[trigger] out@[l]@)
                    || (same_rank(out@[k]@, out@[l]@) && p[k] < p[l]),
        decreases rest@.len(),
    {
        let t = rest.remove(0);
        let mut pos: usize = out.len();
        while pos > 0 && comes_before(&t, &out[pos - 1])
            invariant
                pos <= out@.len(),
                forall|k: int| pos <= k < out@.len() ==> shown_before(t@, #[trigger] out@[k]@),
            decreases pos,
        {
            pos = pos - 1;
        }
        proof {
            assert forall|k: int| 0 <= k < pos implies !shown_before(t@, #[trigger] out@[k]@) by {
                if k < pos - 1 {
                    let a = out@[k]@;
                    let b = out@[pos - 1]@;
                    assert(shown_before(a, b) || same_rank(a, b));
                }
            }
        }
        out.insert(pos, t);
        proof {
            p = p.insert(pos as int, i as int);
        }
        i = i + 1;
    }
    assert(display_order_by(out@, s, p));
    out
}

} // verus!
