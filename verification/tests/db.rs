use rusqlite::Connection;
use todo_cli::db::{
    add_todos, create_table, decoded, get_todos, insert_values, remove_todos, storable_ids,
    update_todos, CREATE_TABLE_QUERY, DELETE_QUERY, INSERT_QUERY, SELECT_QUERY,
    UPDATE_QUERY,
};
use todo_cli::sqlite::Store;
use todo_cli::todo::Todo;

fn insert(connection: &Store, title: &str, done: bool) {
    connection
        .connection()
        .execute("INSERT INTO todos (title, done) VALUES (?1, ?2)", (title, done))
        .unwrap();
}

fn insert_with_id(connection: &Store, id: i64, title: &str, done: bool) {
    connection
        .connection()
        .execute(
            "INSERT INTO todos (id, title, done) VALUES (?1, ?2, ?3)",
            (id, title, done),
        )
        .unwrap();
}

#[test]
fn test_create_table() {
    let mut connection = Store::new(Connection::open_in_memory().unwrap());
    create_table(&mut connection).unwrap();

    let table_info = connection
        .connection()
        .prepare("SELECT name FROM sqlite_master WHERE type='table' AND name='todos'")
        .unwrap()
        .query_map([], |row| row.get(0))
        .unwrap()
        .filter_map(Result::ok)
        .collect::<Vec<String>>();

    assert_eq!(table_info.len(), 1);
    assert_eq!(table_info[0], "todos");
}

#[test]
fn the_statements_are_those_of_the_table() {
    assert_eq!(
        CREATE_TABLE_QUERY,
        "CREATE TABLE IF NOT EXISTS todos (
    id INTEGER PRIMARY KEY,
    title TEXT NOT NULL,
    done BOOLEAN NOT NULL
)"
    );
    assert_eq!(SELECT_QUERY, "SELECT id, title, done FROM todos ORDER BY id");
    assert_eq!(INSERT_QUERY, "INSERT INTO todos (title, done) VALUES (?1, ?2)");
    assert_eq!(UPDATE_QUERY, "UPDATE todos SET title = ?1, done = ?2 WHERE id = ?3");
    assert_eq!(DELETE_QUERY, "DELETE FROM todos WHERE id in rarray(?1)");
}

#[test]
fn the_table_has_the_three_columns() {
    let mut connection = Store::new(Connection::open_in_memory().unwrap());
    create_table(&mut connection).unwrap();

    let columns = connection
        .connection()
        .prepare("SELECT name, type, \"notnull\", pk FROM pragma_table_info('todos') ORDER BY cid")
        .unwrap()
        .query_map([], |row| Ok((row.get(0)?, row.get(1)?, row.get(2)?, row.get(3)?)))
        .unwrap()
        .filter_map(Result::ok)
        .collect::<Vec<(String, String, bool, bool)>>();

    assert_eq!(
        columns,
        vec![
            ("id".to_string(), "INTEGER".to_string(), false, true),
            ("title".to_string(), "TEXT".to_string(), true, false),
            ("done".to_string(), "BOOLEAN".to_string(), true, false),
        ]
    );
}

#[test]
fn test_get_todos() {
    let mut connection = Store::new(Connection::open_in_memory().unwrap());
    create_table(&mut connection).unwrap();

    let todos = get_todos(&mut connection).unwrap();
    assert_eq!(todos.len(), 0);

    insert(&connection, "todo1", false);
    insert(&connection, "todo2", true);

    let todos = get_todos(&mut connection).unwrap();

    assert_eq!(todos.len(), 2);
    assert_eq!(todos[0].title, "todo1");
    assert_eq!(todos[0].done, false);
    assert_eq!(todos[1].title, "todo2");
    assert_eq!(todos[1].done, true);
}

#[test]
fn test_add_todos() {
    let mut connection = Store::new(Connection::open_in_memory().unwrap());
    create_table(&mut connection).unwrap();

    let expected_todos = vec![Todo::new("todo1".into()), Todo::new("todo2".into())];

    add_todos(&mut connection, expected_todos.clone()).unwrap();

    let received_todos = get_todos(&mut connection).unwrap();

    assert_eq!(received_todos.len(), expected_todos.len());

    for (received, expected) in received_todos.iter().zip(expected_todos.iter()) {
        assert_eq!(received.title, expected.title);
        assert_eq!(received.done, expected.done);
    }
}

#[test]
fn test_update_todos() {
    let mut connection = Store::new(Connection::open_in_memory().unwrap());
    create_table(&mut connection).unwrap();

    insert(&connection, "todo1", false);
    insert(&connection, "todo2", true);

    let mut todos = get_todos(&mut connection).unwrap();
    todos[0].title = "new todo1".into();
    todos[0].done = true;
    todos[1].title = "new todo2".into();
    todos[1].done = false;

    update_todos(&mut connection, todos).unwrap();

    let received_todos = get_todos(&mut connection).unwrap();

    assert_eq!(received_todos.len(), 2);
    assert_eq!(received_todos[0].title, "new todo1");
    assert_eq!(received_todos[0].done, true);
    assert_eq!(received_todos[1].title, "new todo2");
    assert_eq!(received_todos[1].done, false);
}

#[test]
fn test_remove_todos() {
    let mut connection = Store::new(Connection::open_in_memory().unwrap());
    create_table(&mut connection).unwrap();

    insert_with_id(&connection, 0, "todo1", false);
    insert_with_id(&connection, 1, "todo2", true);

    remove_todos(&mut connection, vec![0]).unwrap();

    let todos = get_todos(&mut connection).unwrap();

    assert_eq!(todos.len(), 1);
    assert_eq!(todos[0].title, "todo2");
    assert_eq!(todos[0].done, true);
}

#[test]
fn new_todo_is_not_done_and_has_no_id_yet() {
    let todo = Todo::new("water the plants".to_string());
    assert_eq!(todo.id, 0);
    assert_eq!(todo.title, "water the plants");
    assert_eq!(todo.done, false);
}

#[test]
fn create_table_twice_keeps_the_rows() {
    let mut connection = Store::new(Connection::open_in_memory().unwrap());
    create_table(&mut connection).unwrap();
    insert(&connection, "kept", true);

    create_table(&mut connection).unwrap();

    let todos = get_todos(&mut connection).unwrap();
    assert_eq!(todos.len(), 1);
    assert_eq!(todos[0].title, "kept");
    assert_eq!(todos[0].done, true);
}

#[test]
fn added_titles_come_back_in_order_and_not_done() {
    let mut connection = Store::new(Connection::open_in_memory().unwrap());
    create_table(&mut connection).unwrap();
    let titles = ["c", "", "a", "c"];

    let todos = titles.iter().map(|title| Todo::new(title.to_string())).collect();
    add_todos(&mut connection, todos).unwrap();

    let stored = get_todos(&mut connection).unwrap();
    assert_eq!(stored.len(), 4);
    for (todo, title) in stored.iter().zip(titles.iter()) {
        assert_eq!(todo.title, *title);
        assert_eq!(todo.done, false);
    }
    assert!(stored[0].id < stored[1].id);
    assert!(stored[1].id < stored[2].id);
    assert!(stored[2].id < stored[3].id);
}

#[test]
fn add_todos_stores_every_item_as_not_done() {
    let mut connection = Store::new(Connection::open_in_memory().unwrap());
    create_table(&mut connection).unwrap();

    let todo = Todo { id: 99, title: "finished".to_string(), done: true };
    add_todos(&mut connection, vec![todo, Todo::new("open".to_string())]).unwrap();

    let stored = get_todos(&mut connection).unwrap();
    assert_eq!(stored.len(), 2);
    assert_eq!(stored[0].id, 1);
    assert_eq!(stored[0].title, "finished");
    assert_eq!(stored[0].done, false);
    assert_eq!(stored[1].id, 2);
    assert_eq!(stored[1].title, "open");
    assert_eq!(stored[1].done, false);
}

#[test]
fn an_insert_is_handed_the_title_and_that_the_item_is_not_done() {
    let done = Todo { id: 7, title: "finished".to_string(), done: true };
    let open = Todo::new("".to_string());

    assert_eq!(insert_values(&done), (&"finished".to_string(), false));
    assert_eq!(insert_values(&open), (&"".to_string(), false));
}

#[test]
fn add_todos_of_nothing_stores_nothing() {
    let mut connection = Store::new(Connection::open_in_memory().unwrap());
    create_table(&mut connection).unwrap();

    add_todos(&mut connection, Vec::new()).unwrap();

    assert_eq!(get_todos(&mut connection).unwrap().len(), 0);
}

#[test]
fn get_todos_is_ordered_by_id() {
    let mut connection = Store::new(Connection::open_in_memory().unwrap());
    create_table(&mut connection).unwrap();
    insert_with_id(&connection, 5, "later", false);
    insert_with_id(&connection, 2, "sooner", false);

    let todos = get_todos(&mut connection).unwrap();

    assert_eq!(todos.len(), 2);
    assert_eq!(todos[0].id, 2);
    assert_eq!(todos[0].title, "sooner");
    assert_eq!(todos[1].id, 5);
    assert_eq!(todos[1].title, "later");
}

#[test]
fn get_todos_leaves_out_a_row_that_cannot_be_read() {
    let mut connection = Store::new(Connection::open_in_memory().unwrap());
    create_table(&mut connection).unwrap();
    insert_with_id(&connection, -4, "negative id", false);
    insert_with_id(&connection, 3, "plain", true);
    connection
        .connection()
        .execute(
            "INSERT INTO todos (id, title, done) VALUES (?1, ?2, ?3)",
            (8, "flag is text", "yes"),
        )
        .unwrap();

    let todos = get_todos(&mut connection).unwrap();

    assert_eq!(todos.len(), 1);
    assert_eq!(todos[0].id, 3);
    assert_eq!(todos[0].title, "plain");
    assert_eq!(todos[0].done, true);
}

#[test]
fn get_todos_reads_any_integer_but_zero_as_done() {
    let mut connection = Store::new(Connection::open_in_memory().unwrap());
    create_table(&mut connection).unwrap();
    connection
        .connection()
        .execute_batch(
            "INSERT INTO todos (id, title, done) VALUES (1, 'zero', 0);
             INSERT INTO todos (id, title, done) VALUES (2, 'one', 1);
             INSERT INTO todos (id, title, done) VALUES (3, 'seven', 7);
             INSERT INTO todos (id, title, done) VALUES (4, 'minus', -1);",
        )
        .unwrap();

    let todos = get_todos(&mut connection).unwrap();

    let read: Vec<(usize, String, bool)> =
        todos.iter().map(|todo| (todo.id, todo.title.clone(), todo.done)).collect();
    assert_eq!(
        read,
        vec![
            (1, "zero".to_string(), false),
            (2, "one".to_string(), true),
            (3, "seven".to_string(), true),
            (4, "minus".to_string(), true),
        ]
    );
}

#[test]
fn get_todos_leaves_out_a_row_whose_title_is_no_text() {
    let mut connection = Store::new(Connection::open_in_memory().unwrap());
    create_table(&mut connection).unwrap();
    connection
        .connection()
        .execute_batch(
            "INSERT INTO todos (id, title, done) VALUES (1, x'6162', 0);
             INSERT INTO todos (id, title, done) VALUES (2, CAST(x'ff' AS TEXT), 0);
             INSERT INTO todos (id, title, done) VALUES (3, 12, 0);
             INSERT INTO todos (id, title, done) VALUES (4, '', 0);",
        )
        .unwrap();

    let todos = get_todos(&mut connection).unwrap();

    let read: Vec<(usize, String)> =
        todos.iter().map(|todo| (todo.id, todo.title.clone())).collect();
    assert_eq!(read, vec![(3, "12".to_string()), (4, "".to_string())]);
}

#[test]
fn get_todos_leaves_out_a_row_whose_flag_is_no_integer() {
    let mut connection = Store::new(Connection::open_in_memory().unwrap());
    create_table(&mut connection).unwrap();
    connection
        .connection()
        .execute_batch(
            "INSERT INTO todos (id, title, done) VALUES (1, 'real', 1.5);
             INSERT INTO todos (id, title, done) VALUES (2, 'blob', x'01');
             INSERT INTO todos (id, title, done) VALUES (3, 'whole', 1.0);",
        )
        .unwrap();

    let todos = get_todos(&mut connection).unwrap();

    assert_eq!(todos.len(), 1);
    assert_eq!(todos[0].id, 3);
    assert_eq!(todos[0].title, "whole");
    assert_eq!(todos[0].done, true);
}

#[test]
fn get_todos_reads_the_largest_id() {
    let mut connection = Store::new(Connection::open_in_memory().unwrap());
    create_table(&mut connection).unwrap();
    insert_with_id(&connection, i64::MAX, "last", false);

    let todos = get_todos(&mut connection).unwrap();

    assert_eq!(todos.len(), 1);
    assert_eq!(todos[0].id, i64::MAX as usize);
    assert_eq!(todos[0].title, "last");
}

#[test]
fn decoded_keeps_the_order_and_drops_failures() {
    let rows = vec![
        Err(rusqlite::Error::InvalidQuery),
        Ok(Todo { id: 7, title: "first".to_string(), done: true }),
        Err(rusqlite::Error::QueryReturnedNoRows),
        Ok(Todo { id: 3, title: "second".to_string(), done: false }),
    ];

    let todos = decoded(rows);

    assert_eq!(todos.len(), 2);
    assert_eq!(todos[0].id, 7);
    assert_eq!(todos[0].title, "first");
    assert_eq!(todos[0].done, true);
    assert_eq!(todos[1].id, 3);
    assert_eq!(todos[1].title, "second");
    assert_eq!(todos[1].done, false);
}

#[test]
fn decoded_of_no_rows_is_empty() {
    assert_eq!(decoded(Vec::new()).len(), 0);
    assert_eq!(decoded(vec![Err(rusqlite::Error::InvalidQuery)]).len(), 0);
}

#[test]
fn storable_ids_keeps_what_fits_a_row_id() {
    let largest = i64::MAX as usize;
    let ids = vec![0, 4294967297, largest, largest + 1, usize::MAX, 12];

    assert_eq!(storable_ids(&ids), vec![0, 4294967297, i64::MAX, 12]);
    assert_eq!(storable_ids(&Vec::new()), Vec::<i64>::new());
}

#[test]
fn update_round_trips_title_and_done() {
    let mut connection = Store::new(Connection::open_in_memory().unwrap());
    create_table(&mut connection).unwrap();
    let todos = ["a", "b", "c"].iter().map(|title| Todo::new(title.to_string())).collect();
    add_todos(&mut connection, todos).unwrap();

    let mut todos = get_todos(&mut connection).unwrap();
    let ids: Vec<usize> = todos.iter().map(|todo| todo.id).collect();
    todos[0].done = true;
    todos[2].title = "see".to_string();
    let changed = vec![todos[2].clone(), todos[0].clone()];

    update_todos(&mut connection, changed).unwrap();

    let stored = get_todos(&mut connection).unwrap();
    assert_eq!(stored.len(), 3);
    assert_eq!(stored.iter().map(|todo| todo.id).collect::<Vec<usize>>(), ids);
    assert_eq!(stored[0].title, "a");
    assert_eq!(stored[0].done, true);
    assert_eq!(stored[1].title, "b");
    assert_eq!(stored[1].done, false);
    assert_eq!(stored[2].title, "see");
    assert_eq!(stored[2].done, false);
}

#[test]
fn update_of_an_id_that_is_not_stored_changes_nothing() {
    let mut connection = Store::new(Connection::open_in_memory().unwrap());
    create_table(&mut connection).unwrap();
    insert(&connection, "only", false);

    let stranger = Todo { id: 41, title: "stranger".to_string(), done: true };
    update_todos(&mut connection, vec![stranger]).unwrap();

    let stored = get_todos(&mut connection).unwrap();
    assert_eq!(stored.len(), 1);
    assert_eq!(stored[0].title, "only");
    assert_eq!(stored[0].done, false);
}

#[test]
fn remove_of_an_id_that_is_not_stored_is_no_error() {
    let mut connection = Store::new(Connection::open_in_memory().unwrap());
    create_table(&mut connection).unwrap();
    insert(&connection, "stays", false);

    remove_todos(&mut connection, vec![17, usize::MAX]).unwrap();
    remove_todos(&mut connection, Vec::new()).unwrap();

    let stored = get_todos(&mut connection).unwrap();
    assert_eq!(stored.len(), 1);
    assert_eq!(stored[0].title, "stays");
}

#[test]
fn remove_compares_whole_ids() {
    let mut connection = Store::new(Connection::open_in_memory().unwrap());
    create_table(&mut connection).unwrap();
    insert_with_id(&connection, 1, "small", false);
    insert_with_id(&connection, 4294967297, "large", false);

    remove_todos(&mut connection, vec![4294967297]).unwrap();

    let stored = get_todos(&mut connection).unwrap();
    assert_eq!(stored.len(), 1);
    assert_eq!(stored[0].id, 1);
    assert_eq!(stored[0].title, "small");
}

#[test]
fn remove_deletes_every_id_given() {
    let mut connection = Store::new(Connection::open_in_memory().unwrap());
    create_table(&mut connection).unwrap();
    insert(&connection, "a", false);
    insert(&connection, "b", false);
    insert(&connection, "c", false);

    remove_todos(&mut connection, vec![3, 1, 3]).unwrap();

    let stored = get_todos(&mut connection).unwrap();
    assert_eq!(stored.len(), 1);
    assert_eq!(stored[0].id, 2);
    assert_eq!(stored[0].title, "b");
}
