//! Picking items of the list by position.
//!
//! The listing numbers the items from 0, and a caller names items by those
//! numbers. The functions here pick the items that stand at the positions
//! named and make of them what is to be written: items with the done flag
//! set, or ids to delete. A position that the list does not have picks
//! nothing.

use crate::todo::{Todo, TodoView};
use vstd::prelude::*;

verus! {

/// The positions that a list of indexes names.
pub open spec fn positions(indexes: Seq<usize>) -> Set<int> {
    Set::new(|position: int| exists|k: int| 0 <= k < indexes.len() && indexes[k] == position)
}

/// The items that stand at one of the `chosen` positions, in the order of
/// `items`.
pub open spec fn at_positions<A>(items: Seq<A>, chosen: Set<int>) -> Seq<A>
    decreases items.len(),
{
    if items.len() == 0 {
        Seq::empty()
    } else if chosen.contains(items.len() - 1) {
        at_positions(items.drop_last(), chosen).push(items.last())
    } else {
        at_positions(items.drop_last(), chosen)
    }
}

/// Picking from one item more of a list adds that item if its position is
/// chosen, and nothing otherwise.
pub proof fn lemma_pick_next<A>(items: Seq<A>, chosen: Set<int>, position: int)
    requires
        0 <= position < items.len(),
    ensures
        at_positions(items.take(position + 1), chosen) == if chosen.contains(position) {
            at_positions(items.take(position), chosen).push(items[position])
        } else {
            at_positions(items.take(position), chosen)
        },
{
    assert(items.take(position + 1).drop_last() == items.take(position));
}

/// Whether `position` is among `indexes`.
pub fn names(indexes: &Vec<usize>, position: usize) -> (named: bool)
    ensures
        named == positions(indexes@).contains(position as int),
{
    let mut k: usize = 0;
    while k < indexes.len()
        invariant
            k <= indexes.len(),
            forall|j: int| 0 <= j < k ==> indexes@[j] != position,
        decreases indexes.len() - k,
    {
        if indexes[k] == position {
            return true;
        }
        k += 1;
    }
    false
}

/// An item with its done flag set to `done`.
pub open spec fn marked(todo: TodoView, done: bool) -> TodoView {
    TodoView { done, ..todo }
}

/// The items at the `chosen` positions of `todos`, each with its done flag
/// set to `done`.
pub open spec fn marked_at(todos: Seq<TodoView>, chosen: Set<int>, done: bool) -> Seq<TodoView> {
    at_positions(todos, chosen).map_values(|todo: TodoView| marked(todo, done))
}

/// Picks the items that stand at one of the positions in `indexes` and sets
/// the done flag of each to `done`; id and title stay. The result is what an
/// update has to write.
pub fn with_done(todos: Vec<Todo>, indexes: &Vec<usize>, done: bool) -> (changed: Vec<Todo>)
    ensures
        changed.deep_view() == marked_at(todos.deep_view(), positions(indexes@), done),
{
    let mut changed: Vec<Todo> = Vec::new();
    let mut position: usize = 0;
    for todo in it: todos
        invariant
            it.seq() == todos@,
            position == it.index(),
            changed.deep_view() == marked_at(
                todos.deep_view().take(it.index()),
                positions(indexes@),
                done,
            ),
    {
        assert(position < todos.len());
        let ghost earlier = changed.deep_view();
        proof {
            lemma_pick_next(todos.deep_view(), positions(indexes@), position as int);
        }
        if names(indexes, position) {
            changed.push(Todo { id: todo.id, title: todo.title, done });
            assert(changed.deep_view() == earlier.push(marked(todo@, done)));
        }
        position += 1;
    }
    assert(todos.deep_view().take(todos@.len() as int) == todos.deep_view());
    changed
}

/// The ids of the items at the `chosen` positions of `todos`, in the order
/// of the list.
pub open spec fn ids_at(todos: Seq<TodoView>, chosen: Set<int>) -> Seq<nat> {
    at_positions(todos, chosen).map_values(|todo: TodoView| todo.id)
}

/// The ids as plain numbers.
pub open spec fn id_values(ids: Seq<usize>) -> Seq<nat> {
    ids.map_values(|id: usize| id as nat)
}

/// Collects the ids of the items that stand at one of the positions in
/// `indexes`. The result is what a removal has to delete.
pub fn chosen_ids(todos: &Vec<Todo>, indexes: &Vec<usize>) -> (ids: Vec<usize>)
    ensures
        id_values(ids@) == ids_at(todos.deep_view(), positions(indexes@)),
{
    let mut ids: Vec<usize> = Vec::new();
    let mut position: usize = 0;
    while position < todos.len()
        invariant
            position <= todos.len(),
            id_values(ids@) == ids_at(
                todos.deep_view().take(position as int),
                positions(indexes@),
            ),
        decreases todos.len() - position,
    {
        let ghost earlier = id_values(ids@);
        proof {
            lemma_pick_next(todos.deep_view(), positions(indexes@), position as int);
        }
        if names(indexes, position) {
            ids.push(todos[position].id);
            assert(id_values(ids@) == earlier.push(todos@[position as int].id as nat));
        }
        position += 1;
    }
    assert(todos.deep_view().take(todos@.len() as int) == todos.deep_view());
    ids
}

/// The positions of `todos` at which a done item stands.
pub open spec fn done_positions(todos: Seq<TodoView>) -> Set<int> {
    Set::new(|position: int| 0 <= position < todos.len() && todos[position].done)
}

/// Collects the ids of the items that are done. The result is what clearing
/// the list has to delete.
pub fn done_ids(todos: &Vec<Todo>) -> (ids: Vec<usize>)
    ensures
        id_values(ids@) == ids_at(todos.deep_view(), done_positions(todos.deep_view())),
{
    let mut ids: Vec<usize> = Vec::new();
    let mut position: usize = 0;
    while position < todos.len()
        invariant
            position <= todos.len(),
            id_values(ids@) == ids_at(
                todos.deep_view().take(position as int),
                done_positions(todos.deep_view()),
            ),
        decreases todos.len() - position,
    {
        let ghost earlier = id_values(ids@);
        proof {
            lemma_pick_next(
                todos.deep_view(),
                done_positions(todos.deep_view()),
                position as int,
            );
        }
        if todos[position].done {
            ids.push(todos[position].id);
            assert(id_values(ids@) == earlier.push(todos@[position as int].id as nat));
        }
        position += 1;
    }
    assert(todos.deep_view().take(todos@.len() as int) == todos.deep_view());
    ids
}

/// Where no position of the list is chosen, no item is.
pub proof fn lemma_nothing_chosen<A>(items: Seq<A>, chosen: Set<int>)
    requires
        forall|position: int| 0 <= position < items.len() ==> !chosen.contains(position),
    ensures
        at_positions(items, chosen) == Seq::<A>::empty(),
    decreases items.len(),
{
    if items.len() > 0 {
        lemma_nothing_chosen(items.drop_last(), chosen);
    }
}

/// Where every position of the list is chosen, every item is.
pub proof fn lemma_everything_chosen<A>(items: Seq<A>, chosen: Set<int>)
    requires
        forall|position: int| 0 <= position < items.len() ==> chosen.contains(position),
    ensures
        at_positions(items, chosen) == items,
    decreases items.len(),
{
    if items.len() > 0 {
        lemma_everything_chosen(items.drop_last(), chosen);
        assert(items.drop_last().push(items.last()) == items);
    }
}

/// Positions that the list does not have are passed over: two choices that
/// agree on the positions of the list pick the same items.
pub proof fn lemma_positions_outside_ignored<A>(items: Seq<A>, chosen: Set<int>, other: Set<int>)
    requires
        forall|position: int|
            0 <= position < items.len() ==> chosen.contains(position) == other.contains(position),
    ensures
        at_positions(items, chosen) == at_positions(items, other),
    decreases items.len(),
{
    if items.len() > 0 {
        lemma_positions_outside_ignored(items.drop_last(), chosen, other);
    }
}

/// Indexes that all lie beyond the end of the list change nothing: no item
/// is handed on to be updated, and no id to be deleted.
pub proof fn lemma_indexes_beyond_list(todos: Seq<TodoView>, indexes: Seq<usize>, done: bool)
    requires
        forall|k: int| 0 <= k < indexes.len() ==> indexes[k] >= todos.len(),
    ensures
        marked_at(todos, positions(indexes), done) == Seq::<TodoView>::empty(),
        ids_at(todos, positions(indexes)) == Seq::<nat>::empty(),
{
    lemma_nothing_chosen(todos, positions(indexes));
}

/// The items picked are those that stand at a chosen position of the list,
/// and no others.
pub proof fn lemma_picked_items<A>(items: Seq<A>, chosen: Set<int>, item: A)
    ensures
        at_positions(items, chosen).contains(item) <==> exists|position: int|
            0 <= position < items.len() && chosen.contains(position) && items[position] == item,
    decreases items.len(),
{
    if items.len() > 0 {
        let rest = items.drop_last();
        let last = items.len() - 1;
        lemma_picked_items(rest, chosen, item);
        let picked = at_positions(items, chosen);
        if picked.contains(item) {
            if chosen.contains(last) && items.last() == item {
                assert(items[last] == item);
            } else {
                if chosen.contains(last) {
                    let k = choose|k: int| 0 <= k < picked.len() && picked[k] == item;
                    assert(at_positions(rest, chosen)[k] == item);
                }
                assert(at_positions(rest, chosen).contains(item));
                let position = choose|position: int|
                    0 <= position < rest.len() && chosen.contains(position) && rest[position]
                        == item;
                assert(items[position] == item);
            }
        }
        if exists|position: int|
            0 <= position < items.len() && chosen.contains(position) && items[position] == item {
            let position = choose|position: int|
                0 <= position < items.len() && chosen.contains(position) && items[position]
                    == item;
            if position == last {
                assert(picked[picked.len() - 1] == item);
            } else {
                assert(rest[position] == item);
                let k = choose|k: int|
                    0 <= k < at_positions(rest, chosen).len() && at_positions(rest, chosen)[k]
                        == item;
                assert(picked[k] == item);
            }
        }
    }
}

/// Marking changes the done flag and nothing else: the items handed on to
/// be updated are the items picked, one for one, each with its id and title.
pub proof fn lemma_marked_keeps_rest(todos: Seq<TodoView>, chosen: Set<int>, done: bool)
    ensures
        marked_at(todos, chosen, done).len() == at_positions(todos, chosen).len(),
        forall|k: int|
            0 <= k < at_positions(todos, chosen).len() ==> {
                let before = at_positions(todos, chosen)[k];
                let after = #[trigger] marked_at(todos, chosen, done)[k];
                after.id == before.id && after.title == before.title && after.done == done
            },
{
}

/// Clearing deletes the ids of the done items, wherever in the list they
/// stand, and no others.
pub proof fn lemma_done_ids(todos: Seq<TodoView>, id: nat)
    ensures
        ids_at(todos, done_positions(todos)).contains(id) <==> exists|position: int|
            0 <= position < todos.len() && todos[position].done && todos[position].id == id,
{
    let picked = at_positions(todos, done_positions(todos));
    let ids = ids_at(todos, done_positions(todos));
    if ids.contains(id) {
        let k = choose|k: int| 0 <= k < ids.len() && ids[k] == id;
        assert(picked.contains(picked[k]));
        lemma_picked_items(todos, done_positions(todos), picked[k]);
    }
    if exists|position: int|
        0 <= position < todos.len() && todos[position].done && todos[position].id == id {
        let position = choose|position: int|
            0 <= position < todos.len() && todos[position].done && todos[position].id == id;
        lemma_picked_items(todos, done_positions(todos), todos[position]);
        assert(done_positions(todos).contains(position));
        let k = choose|k: int| 0 <= k < picked.len() && picked[k] == todos[position];
        assert(ids[k] == id);
    }
}

} // verus!
