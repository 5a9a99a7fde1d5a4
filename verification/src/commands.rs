//! The commands of the list: what each reads, decides and writes.
//!
//! A caller names items by position in the listing. Each command that takes
//! positions reads the list first, picks the items at those positions and
//! writes by id; a position that the list does not have is passed over.

use crate::db::{
    add_todos, committed, delete_of, deleted_ids, get_todos, inserts, left_by_failure,
    lemma_read_ids_are_row_ids, lemma_row_ids_are_deleted, read_of, remove_todos, update_todos,
    updates, was_read, AddTodosError, CreateTableError, GetTodosError, RemoveTodoError,
    UpdateTodosError,
};
use crate::listing::{listing, render};
use crate::sqlite::Store;
use crate::select::{
    at_positions, chosen_ids, done_ids, done_positions, id_values, ids_at, lemma_nothing_chosen,
    lemma_picked_items, marked_at, positions, with_done,
};
use crate::todo::{Todo, TodoView};
use vstd::prelude::*;

verus! {

/// The item that a title stands for before it is stored.
pub open spec fn fresh(title: Seq<char>) -> TodoView {
    TodoView { id: 0, title, done: false }
}

/// One fresh item for each title, in the order of the titles.
pub open spec fn fresh_items(titles: Seq<Seq<char>>) -> Seq<TodoView> {
    titles.map_values(|title: Seq<char>| fresh(title))
}

/// One new item for each title, in the order of the titles.
pub fn new_todos(titles: Vec<String>) -> (todos: Vec<Todo>)
    ensures
        todos.deep_view() == fresh_items(titles.deep_view()),
{
    let mut todos: Vec<Todo> = Vec::new();
    for title in it: titles
        invariant
            it.seq() == titles@,
            todos@.len() == it.index(),
            forall|k: int| 0 <= k < it.index() ==> (#[trigger] todos@[k])@ == fresh(titles@[k]@),
    {
        todos.push(Todo::new(title));
    }
    assert(todos.deep_view() =~= fresh_items(titles.deep_view()));
    todos
}

/// Why [`add_command`] failed.
#[derive(Debug)]
pub enum AddCommandError {
    AddTodos(AddTodosError),
    CreateTable(CreateTableError),
}

impl AddCommandError {
    /// What the error says to the user, as text.
    pub open spec fn wording(&self) -> Seq<char> {
        match self {
            AddCommandError::AddTodos(error) => error.wording(),
            AddCommandError::CreateTable(error) => error.wording(),
        }
    }

    /// What the error says to the user.
    pub fn message(&self) -> (text: String)
        ensures
            text@ == self.wording(),
    {
        match self {
            AddCommandError::AddTodos(error) => error.message(),
            AddCommandError::CreateTable(error) => error.message(),
        }
    }
}

/// Adds one item for each title, not done, in the order of the titles. A
/// title may be any text, the empty one too. The items are stored in one
/// transaction, as [`add_todos`] says.
pub fn add_command(store: &mut Store, titles: Vec<String>) -> (outcome: Result<
    (),
    AddCommandError,
>)
    ensures
        titles@.len() == 0 ==> !(outcome matches Err(
            AddCommandError::AddTodos(AddTodosError::InsertTodo(_)),
        )),
        match outcome {
            Ok(()) => final(store).record() == old(store).record() + committed(
                inserts(fresh_items(titles.deep_view())),
            ),
            Err(AddCommandError::AddTodos(error)) => left_by_failure(
                old(store).record(),
                final(store).record(),
                inserts(fresh_items(titles.deep_view())),
                error.step(),
            ),
            Err(AddCommandError::CreateTable(_)) => false,
        },
{
    let todos = new_todos(titles);
    assert(todos.deep_view().len() == titles.deep_view().len());
    match add_todos(store, todos) {
        Ok(()) => Ok(()),
        Err(error) => Err(AddCommandError::AddTodos(error)),
    }
}

/// Why [`set_done_command`] failed.
#[derive(Debug)]
pub enum SetDoneCommandError {
    GetTodos(GetTodosError),
    UpdateTodos(UpdateTodosError),
}

impl SetDoneCommandError {
    /// What the error says to the user, as text.
    pub open spec fn wording(&self) -> Seq<char> {
        match self {
            SetDoneCommandError::GetTodos(error) => error.wording(),
            SetDoneCommandError::UpdateTodos(error) => error.wording(),
        }
    }

    /// What the error says to the user.
    pub fn message(&self) -> (text: String)
        ensures
            text@ == self.wording(),
    {
        match self {
            SetDoneCommandError::GetTodos(error) => error.message(),
            SetDoneCommandError::UpdateTodos(error) => error.message(),
        }
    }
}

/// Sets the done flag of the items at the positions in `ids` to `done`. The
/// list is read first; what [`with_done`] makes of the list that was read is
/// written back in one transaction, as [`update_todos`] says.
pub fn set_done_command(store: &mut Store, ids: Vec<usize>, done: bool) -> (outcome: Result<
    (),
    SetDoneCommandError,
>)
    ensures
        ids@.len() == 0 ==> !(outcome matches Err(
            SetDoneCommandError::UpdateTodos(UpdateTodosError::UpdateTodo(_)),
        )),
        match outcome {
            Ok(()) => exists|todos: Vec<Todo>| #[trigger]
                was_read(todos@) && final(store).record() == old(store).record().push(
                    read_of(todos@),
                ) + committed(updates(marked_at(todos.deep_view(), positions(ids@), done))),
            Err(SetDoneCommandError::GetTodos(_)) => final(store).record() == old(
                store,
            ).record(),
            Err(SetDoneCommandError::UpdateTodos(error)) => exists|todos: Vec<Todo>| #[trigger]
                was_read(todos@) && left_by_failure(
                    old(store).record().push(read_of(todos@)),
                    final(store).record(),
                    updates(marked_at(todos.deep_view(), positions(ids@), done)),
                    error.step(),
                ),
        },
{
    let todos = match get_todos(store) {
        Ok(todos) => todos,
        Err(error) => {
            return Err(SetDoneCommandError::GetTodos(error));
        },
    };
    let changed = with_done(todos, &ids, done);
    proof {
        if ids@.len() == 0 {
            lemma_nothing_chosen(todos.deep_view(), positions(ids@));
            assert(changed.deep_view().len() == 0);
        }
    }
    match update_todos(store, changed) {
        Ok(()) => Ok(()),
        Err(error) => Err(SetDoneCommandError::UpdateTodos(error)),
    }
}

/// Why [`remove_command`] failed.
#[derive(Debug)]
pub enum RemoveCommandError {
    GetTodos(GetTodosError),
    RemoveTodos(RemoveTodoError),
}

impl RemoveCommandError {
    /// What the error says to the user, as text.
    pub open spec fn wording(&self) -> Seq<char> {
        match self {
            RemoveCommandError::GetTodos(error) => error.wording(),
            RemoveCommandError::RemoveTodos(error) => error.wording(),
        }
    }

    /// What the error says to the user.
    pub fn message(&self) -> (text: String)
        ensures
            text@ == self.wording(),
    {
        match self {
            RemoveCommandError::GetTodos(error) => error.message(),
            RemoveCommandError::RemoveTodos(error) => error.message(),
        }
    }
}

/// The ids that were picked from a list that was read are ids that rows can
/// have: a delete is handed all of them, as they are.
pub proof fn lemma_picked_ids_are_deleted(todos: Vec<Todo>, chosen: Set<int>, ids: Seq<usize>)
    requires
        was_read(todos@),
        id_values(ids) == ids_at(todos.deep_view(), chosen),
    ensures
        deleted_ids(ids) == ids_at(todos.deep_view(), chosen),
{
    let picked = at_positions(todos.deep_view(), chosen);
    lemma_read_ids_are_row_ids(todos@);
    assert(id_values(ids).len() == ids.len());
    assert(ids_at(todos.deep_view(), chosen).len() == picked.len());
    assert forall|k: int| 0 <= k < ids.len() implies ids[k] <= i64::MAX by {
        assert(id_values(ids)[k] == picked[k].id);
        assert(picked.contains(picked[k]));
        lemma_picked_items(todos.deep_view(), chosen, picked[k]);
        let position = choose|position: int|
            0 <= position < todos.deep_view().len() && chosen.contains(position)
                && todos.deep_view()[position] == picked[k];
        assert(todos@[position].id <= i64::MAX);
    }
    lemma_row_ids_are_deleted(ids);
}

/// Removes the items at the positions in `indexes`. The list is read first;
/// the ids that [`chosen_ids`] finds in the list that was read are deleted.
pub fn remove_command(store: &mut Store, indexes: Vec<usize>) -> (outcome: Result<
    (),
    RemoveCommandError,
>)
    ensures
        match outcome {
            Ok(()) => exists|todos: Vec<Todo>| #[trigger]
                was_read(todos@) && final(store).record() == old(store).record().push(
                    read_of(todos@),
                ).push(delete_of(ids_at(todos.deep_view(), positions(indexes@)))),
            Err(RemoveCommandError::GetTodos(_)) => final(store).record() == old(
                store,
            ).record(),
            Err(RemoveCommandError::RemoveTodos(_)) => exists|todos: Vec<Todo>| #[trigger]
                was_read(todos@) && final(store).record() == old(store).record().push(
                    read_of(todos@),
                ),
        },
{
    let todos = match get_todos(store) {
        Ok(todos) => todos,
        Err(error) => {
            return Err(RemoveCommandError::GetTodos(error));
        },
    };
    let ids = chosen_ids(&todos, &indexes);
    proof {
        lemma_picked_ids_are_deleted(todos, positions(indexes@), ids@);
    }
    match remove_todos(store, ids) {
        Ok(()) => Ok(()),
        Err(error) => Err(RemoveCommandError::RemoveTodos(error)),
    }
}

/// Why [`clear_command`] failed.
#[derive(Debug)]
pub enum ClearCommandError {
    GetTodos(GetTodosError),
    RemoveTodos(RemoveTodoError),
}

impl ClearCommandError {
    /// What the error says to the user, as text.
    pub open spec fn wording(&self) -> Seq<char> {
        match self {
            ClearCommandError::GetTodos(error) => error.wording(),
            ClearCommandError::RemoveTodos(error) => error.wording(),
        }
    }

    /// What the error says to the user.
    pub fn message(&self) -> (text: String)
        ensures
            text@ == self.wording(),
    {
        match self {
            ClearCommandError::GetTodos(error) => error.message(),
            ClearCommandError::RemoveTodos(error) => error.message(),
        }
    }
}

/// Removes every item that is done. The list is read first; the ids that
/// [`done_ids`] finds in the list that was read are deleted.
pub fn clear_command(store: &mut Store) -> (outcome: Result<(), ClearCommandError>)
    ensures
        match outcome {
            Ok(()) => exists|todos: Vec<Todo>| #[trigger]
                was_read(todos@) && final(store).record() == old(store).record().push(
                    read_of(todos@),
                ).push(delete_of(ids_at(todos.deep_view(), done_positions(todos.deep_view())))),
            Err(ClearCommandError::GetTodos(_)) => final(store).record() == old(store).record(),
            Err(ClearCommandError::RemoveTodos(_)) => exists|todos: Vec<Todo>| #[trigger]
                was_read(todos@) && final(store).record() == old(store).record().push(
                    read_of(todos@),
                ),
        },
{
    let todos = match get_todos(store) {
        Ok(todos) => todos,
        Err(error) => {
            return Err(ClearCommandError::GetTodos(error));
        },
    };
    let ids = done_ids(&todos);
    proof {
        lemma_picked_ids_are_deleted(todos, done_positions(todos.deep_view()), ids@);
    }
    match remove_todos(store, ids) {
        Ok(()) => Ok(()),
        Err(error) => Err(ClearCommandError::RemoveTodos(error)),
    }
}

/// Why [`print_command`] failed.
#[derive(Debug)]
pub enum PrintCommandError {
    CreateTable(CreateTableError),
    GetTodos(GetTodosError),
}

impl PrintCommandError {
    /// What the error says to the user, as text.
    pub open spec fn wording(&self) -> Seq<char> {
        match self {
            PrintCommandError::CreateTable(error) => error.wording(),
            PrintCommandError::GetTodos(error) => error.wording(),
        }
    }

    /// What the error says to the user.
    pub fn message(&self) -> (text: String)
        ensures
            text@ == self.wording(),
    {
        match self {
            PrintCommandError::CreateTable(error) => error.message(),
            PrintCommandError::GetTodos(error) => error.message(),
        }
    }
}

/// Reads the list and renders its listing. The lines are handed back for the
/// caller to write out, one to a line: they are the listing of the list that
/// this call read. Nothing is written.
pub fn print_command(store: &mut Store) -> (outcome: Result<Vec<String>, PrintCommandError>)
    ensures
        match outcome {
            Ok(lines) => exists|shown: Vec<Todo>| #[trigger]
                was_read(shown@) && final(store).record() == old(store).record().push(
                    read_of(shown@),
                ) && lines.deep_view() == listing(shown.deep_view()),
            Err(error) => error is GetTodos && final(store).record() == old(store).record(),
        },
{
    match get_todos(store) {
        Ok(todos) => Ok(render(&todos)),
        Err(error) => Err(PrintCommandError::GetTodos(error)),
    }
}

} // verus!
