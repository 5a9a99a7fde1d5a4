//! The listing: one numbered line for each item.

use crate::terminal::{decimal, numeral, strikethrough, struck};
use crate::todo::{Todo, TodoView};
use vstd::prelude::*;
use vstd::string::StringExecFns;

verus! {

/// The title as the listing shows it: crossed out if the item is done.
pub open spec fn shown_title(todo: TodoView) -> Seq<char> {
    if todo.done {
        struck(todo.title)
    } else {
        todo.title
    }
}

/// The line of the listing for the item at `position`: the position in
/// decimal, a colon, a space and the title as shown.
pub open spec fn line(position: nat, todo: TodoView) -> Seq<char> {
    numeral(position) + seq![':', ' '] + shown_title(todo)
}

/// The listing of `todos`: one line for each item, in the order of the list,
/// numbered from 0.
pub open spec fn listing(todos: Seq<TodoView>) -> Seq<Seq<char>> {
    Seq::new(todos.len(), |position: int| line(position as nat, todos[position]))
}

/// Renders the listing of `todos`, one string for each line.
pub fn render(todos: &Vec<Todo>) -> (lines: Vec<String>)
    ensures
        lines.deep_view() == listing(todos.deep_view()),
{
    let mut lines: Vec<String> = Vec::new();
    let mut position: usize = 0;
    while position < todos.len()
        invariant
            position <= todos.len(),
            lines@.len() == position,
            forall|k: int|
                0 <= k < position ==> (#[trigger] lines@[k])@ == line(k as nat, todos@[k]@),
        decreases todos.len() - position,
    {
        proof {
            reveal_strlit(": ");
        }
        let todo = &todos[position];
        let mut text = decimal(position);
        text.append(": ");
        if todo.done {
            let title = strikethrough(todo.title.as_str());
            text.append(title.as_str());
        } else {
            text.append(todo.title.as_str());
        }
        assert(text@ == line(position as nat, todo@));
        lines.push(text);
        position += 1;
    }
    assert(lines.deep_view() =~= listing(todos.deep_view()));
    lines
}

/// The listing shows titles and done flags, not ids: lists that agree on
/// those, item for item, have the same listing.
pub proof fn lemma_listing_ignores_ids(todos: Seq<TodoView>, others: Seq<TodoView>)
    requires
        todos.len() == others.len(),
        forall|k: int|
            0 <= k < todos.len() ==> todos[k].title == others[k].title && todos[k].done
                == others[k].done,
    ensures
        listing(todos) == listing(others),
{
}

} // verus!
