//! The table as a list of rows, and what the statements of the commands do
//! to it.
//!
//! The database keys each row by its id and hands the rows out in ascending
//! order of id. This module says, over plain lists, what an insert, an update
//! by id and a delete by id make of such a list, and proves that the commands,
//! which pick items by position and write by id, change the rows at those
//! positions and no others.
//!
//! The statements themselves are run by SQLite, whose code is not verified:
//! what is proved here holds of the table as this module describes it. The
//! writes are those that the commands plan and whose calls a store keeps on
//! record, so the laws say what the write of each command is to leave in the
//! table.

use crate::args::Commands;
use crate::commands::{fresh, fresh_items};
use crate::listing::{line, listing};
use crate::plan::{planned, WriteView};
use crate::select::{
    at_positions, done_positions, ids_at, lemma_everything_chosen, lemma_nothing_chosen,
    lemma_picked_items, marked, marked_at, positions,
};
use crate::todo::TodoView;
use vstd::prelude::*;

verus! {

/// Whether the rows stand in ascending order of id, no id twice: the order
/// in which the table is read.
pub open spec fn ascending(rows: Seq<TodoView>) -> bool {
    forall|i: int, j: int| 0 <= i < j < rows.len() ==> rows[i].id < rows[j].id
}

/// The rows after new items were stored behind them under the ids that the
/// database assigned.
pub open spec fn inserted(rows: Seq<TodoView>, items: Seq<TodoView>, ids: Seq<nat>) -> Seq<
    TodoView,
>
    recommends
        ids.len() == items.len(),
{
    rows + Seq::new(items.len(), |k: int| TodoView { id: ids[k], ..items[k] })
}

/// The rows after the row that has the id of `item` took its title and done
/// flag.
pub open spec fn updated(rows: Seq<TodoView>, item: TodoView) -> Seq<TodoView> {
    rows.map_values(
        |row: TodoView|
            if row.id == item.id {
                item
            } else {
                row
            },
    )
}

/// The rows after one update for each of `items`, in their order.
pub open spec fn updated_all(rows: Seq<TodoView>, items: Seq<TodoView>) -> Seq<TodoView>
    decreases items.len(),
{
    if items.len() == 0 {
        rows
    } else {
        updated(updated_all(rows, items.drop_last()), items.last())
    }
}

/// Whether a row stays when the rows with one of `ids` are deleted.
pub open spec fn kept(ids: Seq<nat>) -> spec_fn(TodoView) -> bool {
    |row: TodoView| !ids.contains(row.id)
}

/// The rows after those with one of `ids` were deleted.
pub open spec fn deleted(rows: Seq<TodoView>, ids: Seq<nat>) -> Seq<TodoView> {
    rows.filter(kept(ids))
}

/// The rows with the done flag set to `done` at the `chosen` positions.
pub open spec fn marked_rows(rows: Seq<TodoView>, chosen: Set<int>, done: bool) -> Seq<TodoView> {
    Seq::new(
        rows.len(),
        |i: int|
            if chosen.contains(i) {
                marked(rows[i], done)
            } else {
                rows[i]
            },
    )
}

/// Whether an item is not done.
pub open spec fn pending() -> spec_fn(TodoView) -> bool {
    |row: TodoView| !row.done
}

/// A filter by what an item is picks the same as a choice of positions, where
/// the two agree on every position of the list.
pub proof fn lemma_filter_is_a_choice<A>(items: Seq<A>, keep: spec_fn(A) -> bool, chosen: Set<int>)
    requires
        forall|i: int| 0 <= i < items.len() ==> keep(items[i]) == chosen.contains(i),
    ensures
        items.filter(keep) == at_positions(items, chosen),
    decreases items.len(),
{
    reveal(Seq::filter);
    if items.len() > 0 {
        lemma_filter_is_a_choice(items.drop_last(), keep, chosen);
    }
}

/// Updates leave the number of rows and their ids as they are.
pub proof fn lemma_updates_keep_ids(rows: Seq<TodoView>, items: Seq<TodoView>)
    ensures
        updated_all(rows, items).len() == rows.len(),
        forall|i: int|
            0 <= i < rows.len() ==> (#[trigger] updated_all(rows, items)[i]).id == rows[i].id,
    decreases items.len(),
{
    if items.len() > 0 {
        lemma_updates_keep_ids(rows, items.drop_last());
    }
}

/// Updating the items that were picked by position and marked changes the
/// done flag of the rows at those positions, and nothing else.
pub proof fn lemma_marking_by_id(rows: Seq<TodoView>, chosen: Set<int>, done: bool)
    requires
        ascending(rows),
    ensures
        updated_all(rows, marked_at(rows, chosen, done)) == marked_rows(rows, chosen, done),
{
    lemma_marking_prefix(rows, chosen, done, rows.len() as int);
    assert(rows.take(rows.len() as int) == rows);
    assert(marked_rows(rows, chosen.filter(|i: int| i < rows.len()), done) == marked_rows(
        rows,
        chosen,
        done,
    ));
}

proof fn lemma_marking_prefix(rows: Seq<TodoView>, chosen: Set<int>, done: bool, n: int)
    requires
        ascending(rows),
        0 <= n <= rows.len(),
    ensures
        updated_all(rows, marked_at(rows.take(n), chosen, done)) == marked_rows(
            rows,
            chosen.filter(|i: int| i < n),
            done,
        ),
    decreases n,
{
    let within = chosen.filter(|i: int| i < n);
    if n == 0 {
        assert(marked_at(rows.take(0), chosen, done) == Seq::<TodoView>::empty());
        assert(marked_rows(rows, within, done) == rows);
    } else {
        lemma_marking_prefix(rows, chosen, done, n - 1);
        let before = chosen.filter(|i: int| i < n - 1);
        let earlier = marked_at(rows.take(n - 1), chosen, done);
        assert(rows.take(n).drop_last() == rows.take(n - 1));
        if chosen.contains(n - 1) {
            let item = marked(rows[n - 1], done);
            assert(marked_at(rows.take(n), chosen, done) == earlier.push(item));
            assert(earlier.push(item).drop_last() == earlier);
            assert(updated_all(rows, earlier.push(item)) == updated(
                marked_rows(rows, before, done),
                item,
            ));
            assert(updated(marked_rows(rows, before, done), item) == marked_rows(
                rows,
                within,
                done,
            ));
        } else {
            assert(marked_at(rows.take(n), chosen, done) == earlier);
            assert(marked_rows(rows, before, done) == marked_rows(rows, within, done));
        }
    }
}

/// Among rows in ascending order of id, an id was picked exactly if the
/// position of its row was chosen.
pub proof fn lemma_picked_ids(rows: Seq<TodoView>, chosen: Set<int>, i: int)
    requires
        ascending(rows),
        0 <= i < rows.len(),
    ensures
        ids_at(rows, chosen).contains(rows[i].id) <==> chosen.contains(i),
{
    let picked = at_positions(rows, chosen);
    let ids = ids_at(rows, chosen);
    if ids.contains(rows[i].id) {
        let k = choose|k: int| 0 <= k < ids.len() && ids[k] == rows[i].id;
        assert(picked.contains(picked[k]));
        lemma_picked_items(rows, chosen, picked[k]);
        let position = choose|position: int|
            0 <= position < rows.len() && chosen.contains(position) && rows[position]
                == picked[k];
        assert(position == i);
    }
    if chosen.contains(i) {
        lemma_picked_items(rows, chosen, rows[i]);
        let k = choose|k: int| 0 <= k < picked.len() && picked[k] == rows[i];
        assert(ids[k] == rows[i].id);
    }
}

/// Deleting the ids that were picked by position leaves the rows at the
/// other positions, in their order.
pub proof fn lemma_removing_by_id(rows: Seq<TodoView>, chosen: Set<int>)
    requires
        ascending(rows),
    ensures
        deleted(rows, ids_at(rows, chosen)) == at_positions(rows, chosen.complement()),
{
    let ids = ids_at(rows, chosen);
    assert forall|i: int| 0 <= i < rows.len() implies kept(ids)(rows[i])
        == chosen.complement().contains(i) by {
        lemma_picked_ids(rows, chosen, i);
    }
    lemma_filter_is_a_choice(rows, kept(ids), chosen.complement());
}

/// Deleting the ids of the done items leaves the items that are not done, in
/// their order.
pub proof fn lemma_clearing_by_id(rows: Seq<TodoView>)
    requires
        ascending(rows),
    ensures
        deleted(rows, ids_at(rows, done_positions(rows))) == rows.filter(pending()),
{
    let chosen = done_positions(rows);
    lemma_removing_by_id(rows, chosen);
    assert forall|i: int| 0 <= i < rows.len() implies pending()(rows[i])
        == chosen.complement().contains(i) by {}
    lemma_filter_is_a_choice(rows, pending(), chosen.complement());
}

/// Positions that all lie beyond the end of the list change no row: neither
/// marking nor removing at them writes anything.
pub proof fn lemma_positions_beyond_change_nothing(
    rows: Seq<TodoView>,
    indexes: Seq<usize>,
    done: bool,
)
    requires
        forall|k: int| 0 <= k < indexes.len() ==> indexes[k] >= rows.len(),
    ensures
        updated_all(rows, marked_at(rows, positions(indexes), done)) == rows,
        deleted(rows, ids_at(rows, positions(indexes))) == rows,
{
    let chosen = positions(indexes);
    lemma_nothing_chosen(rows, chosen);
    assert(marked_at(rows, chosen, done) == Seq::<TodoView>::empty());
    assert(ids_at(rows, chosen) == Seq::<nat>::empty());
    lemma_filter_is_a_choice(rows, kept(Seq::<nat>::empty()), Set::<int>::full());
    lemma_everything_chosen(rows, Set::<int>::full());
}

/// Writing back the rows that were read, with titles and done flags changed
/// at will, stores exactly those titles and done flags.
pub proof fn lemma_update_round_trip(rows: Seq<TodoView>, items: Seq<TodoView>)
    requires
        ascending(rows),
        items.len() == rows.len(),
        forall|i: int| 0 <= i < rows.len() ==> items[i].id == rows[i].id,
    ensures
        updated_all(rows, items) == items,
{
    lemma_update_prefix(rows, items, items.len() as int);
    assert(items.take(items.len() as int) == items);
}

proof fn lemma_update_prefix(rows: Seq<TodoView>, items: Seq<TodoView>, n: int)
    requires
        ascending(rows),
        items.len() == rows.len(),
        forall|i: int| 0 <= i < rows.len() ==> items[i].id == rows[i].id,
        0 <= n <= rows.len(),
    ensures
        updated_all(rows, items.take(n)) == items.take(n) + rows.skip(n),
    decreases n,
{
    if n == 0 {
        assert(items.take(0) + rows.skip(0) == rows);
    } else {
        lemma_update_prefix(rows, items, n - 1);
        assert(items.take(n).drop_last() == items.take(n - 1));
        assert(updated(items.take(n - 1) + rows.skip(n - 1), items[n - 1]) == items.take(n)
            + rows.skip(n));
    }
}

/// Items that were added stand behind the rows that were there, in the order
/// in which they were given, and the rows stay in ascending order of id.
pub proof fn lemma_adding_appends(rows: Seq<TodoView>, titles: Seq<Seq<char>>, ids: Seq<nat>)
    requires
        ascending(rows),
        ids.len() == titles.len(),
        forall|i: int, j: int| 0 <= i < j < ids.len() ==> ids[i] < ids[j],
        forall|i: int, k: int| 0 <= i < rows.len() && 0 <= k < ids.len() ==> rows[i].id < ids[k],
    ensures
        ascending(inserted(rows, titles.map_values(|title: Seq<char>| fresh(title)), ids)),
        listing(inserted(rows, titles.map_values(|title: Seq<char>| fresh(title)), ids))
            == listing(rows) + Seq::new(
            titles.len(),
            |k: int| line((rows.len() + k) as nat, fresh(titles[k])),
        ),
{
}

/// What a write makes of the rows. `ids` are the ids that the database
/// assigns to the items of an insert.
pub open spec fn applied(rows: Seq<TodoView>, write: WriteView, ids: Seq<nat>) -> Seq<TodoView> {
    match write {
        WriteView::Insert(items) => inserted(rows, items, ids),
        WriteView::Update(items) => updated_all(rows, items),
        WriteView::Delete(gone) => deleted(rows, gone),
        WriteView::Nothing => rows,
    }
}

/// The rows that a command is to leave: adding puts one row that is not done
/// for each title behind the others; marking sets the done flag at the
/// positions named; removing leaves the rows at the other positions; clearing
/// leaves the rows that are not done; showing the list leaves it as it is.
pub open spec fn left_by(command: Option<Commands>, rows: Seq<TodoView>, ids: Seq<nat>) -> Seq<
    TodoView,
> {
    match command {
        Some(Commands::Add { titles }) => rows + Seq::new(
            titles.deep_view().len(),
            |k: int| TodoView { id: ids[k], title: titles.deep_view()[k], done: false },
        ),
        Some(Commands::Done { ids: at }) => marked_rows(rows, positions(at@), true),
        Some(Commands::Undone { ids: at }) => marked_rows(rows, positions(at@), false),
        Some(Commands::Remove { ids: at }) => at_positions(rows, positions(at@).complement()),
        Some(Commands::Clear) => rows.filter(pending()),
        Some(Commands::Print) => rows,
        None => rows,
    }
}

/// The write that a command makes of the rows leaves what the command is to
/// leave.
pub proof fn lemma_command_leaves(command: Option<Commands>, rows: Seq<TodoView>, ids: Seq<nat>)
    requires
        ascending(rows),
    ensures
        applied(rows, planned(command, rows), ids) == left_by(command, rows, ids),
{
    match command {
        Some(Commands::Add { titles }) => {
            assert(inserted(rows, fresh_items(titles.deep_view()), ids) == left_by(
                command,
                rows,
                ids,
            ));
        },
        Some(Commands::Done { ids: at }) => {
            lemma_marking_by_id(rows, positions(at@), true);
        },
        Some(Commands::Undone { ids: at }) => {
            lemma_marking_by_id(rows, positions(at@), false);
        },
        Some(Commands::Remove { ids: at }) => {
            lemma_removing_by_id(rows, positions(at@));
        },
        Some(Commands::Clear) => {
            lemma_clearing_by_id(rows);
        },
        Some(Commands::Print) => {},
        None => {},
    }
}

} // verus!
