//! What a command writes.
//!
//! A command is turned into one write before anything is handed to the
//! database: new items to insert, items to update by id, ids to delete, or
//! nothing. The commands that name items by position need the list as it was
//! read; the others do not look at it.

use crate::args::Commands;
use crate::commands::{fresh_items, new_todos};
use crate::select::{
    chosen_ids, done_ids, done_positions, id_values, ids_at, marked_at, positions, with_done,
};
use crate::todo::{Todo, TodoView};
use vstd::prelude::*;

verus! {

/// One write to the table.
pub enum Write {
    /// Store these as new items.
    Insert(Vec<Todo>),
    /// Set the title and done flag of the rows that have the ids of these.
    Update(Vec<Todo>),
    /// Delete the rows that have these ids.
    Delete(Vec<usize>),
    /// Write nothing.
    Nothing,
}

/// What a [`Write`] holds, as plain values.
pub ghost enum WriteView {
    Insert(Seq<TodoView>),
    Update(Seq<TodoView>),
    Delete(Seq<nat>),
    Nothing,
}

impl View for Write {
    type V = WriteView;

    open spec fn view(&self) -> WriteView {
        match self {
            Write::Insert(items) => WriteView::Insert(items.deep_view()),
            Write::Update(items) => WriteView::Update(items.deep_view()),
            Write::Delete(ids) => WriteView::Delete(id_values(ids@)),
            Write::Nothing => WriteView::Nothing,
        }
    }
}

/// Whether a command names items by position, so that the list has to be
/// read before the write is known.
pub open spec fn reads(command: Option<Commands>) -> bool {
    match command {
        Some(Commands::Done { .. }) => true,
        Some(Commands::Undone { .. }) => true,
        Some(Commands::Remove { .. }) => true,
        Some(Commands::Clear) => true,
        _ => false,
    }
}

/// The write that a command makes of the list `todos`:
/// adding inserts one fresh item for each title; marking done or not done
/// updates the items at the positions named, with the flag set; removing
/// deletes the ids of the items at the positions named; clearing deletes the
/// ids of the done items; showing the list, or no command, writes nothing.
pub open spec fn planned(command: Option<Commands>, todos: Seq<TodoView>) -> WriteView {
    match command {
        Some(Commands::Add { titles }) => WriteView::Insert(fresh_items(titles.deep_view())),
        Some(Commands::Done { ids }) => WriteView::Update(
            marked_at(todos, positions(ids@), true),
        ),
        Some(Commands::Undone { ids }) => WriteView::Update(
            marked_at(todos, positions(ids@), false),
        ),
        Some(Commands::Remove { ids }) => WriteView::Delete(ids_at(todos, positions(ids@))),
        Some(Commands::Clear) => WriteView::Delete(ids_at(todos, done_positions(todos))),
        Some(Commands::Print) => WriteView::Nothing,
        None => WriteView::Nothing,
    }
}

/// Whether the list has to be read before the write of `command` is known.
pub fn reads_list(command: &Option<Commands>) -> (needed: bool)
    ensures
        needed == reads(*command),
{
    match command {
        Some(Commands::Done { .. }) => true,
        Some(Commands::Undone { .. }) => true,
        Some(Commands::Remove { .. }) => true,
        Some(Commands::Clear) => true,
        _ => false,
    }
}

fn copied(titles: &Vec<String>) -> (copies: Vec<String>)
    ensures
        copies.deep_view() == titles.deep_view(),
{
    let mut copies: Vec<String> = Vec::new();
    let mut i: usize = 0;
    while i < titles.len()
        invariant
            i <= titles.len(),
            copies@.len() == i,
            forall|k: int| 0 <= k < i ==> copies@[k]@ == titles@[k]@,
        decreases titles.len() - i,
    {
        copies.push(titles[i].clone());
        i += 1;
    }
    assert(copies.deep_view() =~= titles.deep_view());
    copies
}

/// Makes of a command, and of the list as it was read, the write to hand to
/// the database. A command that does not name items by position makes the
/// same write of every list.
pub fn write_of(command: &Option<Commands>, todos: Vec<Todo>) -> (write: Write)
    ensures
        write@ == planned(*command, todos.deep_view()),
{
    match command {
        Some(Commands::Add { titles }) => Write::Insert(new_todos(copied(titles))),
        Some(Commands::Done { ids }) => Write::Update(with_done(todos, ids, true)),
        Some(Commands::Undone { ids }) => Write::Update(with_done(todos, ids, false)),
        Some(Commands::Remove { ids }) => Write::Delete(chosen_ids(&todos, ids)),
        Some(Commands::Clear) => Write::Delete(done_ids(&todos)),
        Some(Commands::Print) => Write::Nothing,
        None => Write::Nothing,
    }
}

} // verus!
