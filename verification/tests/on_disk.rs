use plannet::error::{RepoError, StoreError};
use plannet::status::Status;
use plannet::store::TaskStore;

fn reset(path: &str) {
    let conn = rusqlite::Connection::open(path).unwrap();
    conn.execute("DROP TABLE IF EXISTS tasks", []).unwrap();
}

fn count_tables(path: &str) -> i64 {
    let conn = rusqlite::Connection::open(path).unwrap();
    conn.query_row(
        "SELECT COUNT(*) FROM sqlite_master WHERE type = 'table' AND name = 'tasks'",
        [],
        |row| row.get(0),
    )
    .unwrap()
}

#[test]
fn tasks_outlive_the_handle() {
    let path = "/tmp/plannet_tasks_outlive_the_handle.sqlite";
    reset(path);
    {
        let mut store = TaskStore::create(path).unwrap();
        assert_eq!(store.init_schema(), Ok(()));
        assert_eq!(store.add("Write spec"), Ok(1));
    }
    {
        let mut store = TaskStore::open(path).unwrap();
        assert_eq!(store.advance(1), Ok(Status::InProgress));
    }
    {
        let mut store = TaskStore::open(path).unwrap();
        let task = store.find(1).unwrap();
        assert_eq!(task.name, "Write spec");
        assert_eq!(task.status, Status::InProgress);
        assert_eq!(store.advance(1), Ok(Status::Completed));
        assert_eq!(store.advance(1), Ok(Status::Completed));
    }
    reset(path);
}

#[test]
fn setting_up_twice_makes_one_table_and_loses_nothing() {
    let path = "/tmp/plannet_setting_up_twice.sqlite";
    reset(path);
    {
        let mut store = TaskStore::create(path).unwrap();
        assert_eq!(store.init_schema(), Ok(()));
        assert_eq!(store.add("kept"), Ok(1));
    }
    {
        let mut store = TaskStore::create(path).unwrap();
        assert_eq!(store.init_schema(), Ok(()));
        assert_eq!(store.find(1).unwrap().name, "kept");
        assert_eq!(store.add("second"), Ok(2));
    }
    assert_eq!(count_tables(path), 1);
    reset(path);
}

#[test]
fn the_table_has_the_four_columns() {
    let path = "/tmp/plannet_four_columns.sqlite";
    reset(path);
    {
        let mut store = TaskStore::create(path).unwrap();
        assert_eq!(store.init_schema(), Ok(()));
    }
    {
        let conn = rusqlite::Connection::open(path).unwrap();
        let mut statement = conn.prepare("SELECT name, type FROM pragma_table_info('tasks')").unwrap();
        let columns: Vec<(String, String)> = statement
            .query_map([], |row| Ok((row.get(0)?, row.get(1)?)))
            .unwrap()
            .map(|column| column.unwrap())
            .collect();
        assert_eq!(
            columns,
            vec![
                ("id".to_string(), "INTEGER".to_string()),
                ("name".to_string(), "TEXT".to_string()),
                ("status".to_string(), "TEXT".to_string()),
                ("description".to_string(), "BLOB".to_string()),
            ]
        );
    }
    reset(path);
}

#[test]
fn an_unknown_stored_status_is_invalid_state_and_stays() {
    let path = "/tmp/plannet_unknown_status.sqlite";
    reset(path);
    let mut store = TaskStore::create(path).unwrap();
    assert_eq!(store.init_schema(), Ok(()));
    let id = store.add("odd one").unwrap();
    {
        let conn = rusqlite::Connection::open(path).unwrap();
        conn.execute("UPDATE tasks SET status = 'paused' WHERE id = ?1", [id]).unwrap();
    }
    assert_eq!(store.advance(id), Err(RepoError::InvalidState));
    assert_eq!(store.find(id).err(), Some(RepoError::InvalidState));
    {
        let conn = rusqlite::Connection::open(path).unwrap();
        let status: String = conn
            .query_row("SELECT status FROM tasks WHERE id = ?1", [id], |row| row.get(0))
            .unwrap();
        assert_eq!(status, "paused");
    }
    assert_eq!(store.rename(id, "still odd"), Ok(()));
    drop(store);
    reset(path);
}

#[test]
fn a_status_that_is_not_text_is_invalid_state() {
    let path = "/tmp/plannet_status_not_text.sqlite";
    reset(path);
    let mut store = TaskStore::create(path).unwrap();
    assert_eq!(store.init_schema(), Ok(()));
    let id = store.add("number").unwrap();
    {
        let conn = rusqlite::Connection::open(path).unwrap();
        conn.execute("UPDATE tasks SET status = x'00ff' WHERE id = ?1", [id]).unwrap();
    }
    assert_eq!(store.advance(id), Err(RepoError::InvalidState));
    drop(store);
    reset(path);
}

#[test]
fn changes_from_outside_are_seen_by_the_next_call() {
    let path = "/tmp/plannet_changes_from_outside.sqlite";
    reset(path);
    let mut store = TaskStore::create(path).unwrap();
    assert_eq!(store.init_schema(), Ok(()));
    let id = store.add("shared").unwrap();
    {
        let conn = rusqlite::Connection::open(path).unwrap();
        conn.execute("UPDATE tasks SET status = 'in_progress' WHERE id = ?1", [id]).unwrap();
    }
    assert_eq!(store.advance(id), Ok(Status::Completed));
    drop(store);
    reset(path);
}

#[test]
fn a_description_is_read_as_bytes() {
    let path = "/tmp/plannet_description.sqlite";
    reset(path);
    let mut store = TaskStore::create(path).unwrap();
    assert_eq!(store.init_schema(), Ok(()));
    let blob = store.add("with blob").unwrap();
    let text = store.add("with text").unwrap();
    {
        let conn = rusqlite::Connection::open(path).unwrap();
        conn.execute("UPDATE tasks SET description = x'0001fe' WHERE id = ?1", [blob]).unwrap();
        conn.execute("UPDATE tasks SET description = 'note' WHERE id = ?1", [text]).unwrap();
    }
    assert_eq!(store.find(blob).unwrap().description, Some(vec![0, 1, 254]));
    assert_eq!(store.find(text).unwrap().description, Some(vec![110, 111, 116, 101]));
    assert_eq!(store.advance(blob), Ok(Status::InProgress));
    assert_eq!(store.find(blob).unwrap().description, Some(vec![0, 1, 254]));
    drop(store);
    reset(path);
}

#[test]
fn a_table_of_another_shape_is_a_schema_error_and_stays() {
    let path = "/tmp/plannet_other_shape.sqlite";
    reset(path);
    {
        let conn = rusqlite::Connection::open(path).unwrap();
        conn.execute("CREATE TABLE tasks (id INTEGER PRIMARY KEY, title TEXT)", []).unwrap();
        conn.execute("INSERT INTO tasks (title) VALUES ('kept')", []).unwrap();
    }
    let mut store = TaskStore::create(path).unwrap();
    assert_eq!(store.init_schema(), Err(StoreError::Schema));
    assert_eq!(store.add("no such column"), Err(RepoError::Schema));
    assert_eq!(store.advance(1), Err(RepoError::Schema));
    drop(store);
    {
        let conn = rusqlite::Connection::open(path).unwrap();
        let title: String =
            conn.query_row("SELECT title FROM tasks WHERE id = 1", [], |row| row.get(0)).unwrap();
        assert_eq!(title, "kept");
    }
    assert_eq!(count_tables(path), 1);
    reset(path);
}

#[test]
fn a_database_with_other_tables_gets_the_table_once() {
    let path = "/tmp/plannet_other_tables.sqlite";
    reset(path);
    {
        let conn = rusqlite::Connection::open(path).unwrap();
        conn.execute("CREATE TABLE filler (text TEXT)", []).unwrap();
        conn.execute("INSERT INTO filler VALUES ('some rows to fill the first page')", []).unwrap();
    }
    let mut store = TaskStore::create(path).unwrap();
    assert_eq!(store.init_schema(), Ok(()));
    assert_eq!(store.init_schema(), Ok(()));
    assert_eq!(count_tables(path), 1);
    drop(store);
    reset(path);
    let conn = rusqlite::Connection::open(path).unwrap();
    conn.execute("DROP TABLE IF EXISTS filler", []).unwrap();
}

#[test]
fn advancing_and_renaming_look_at_no_other_column() {
    let path = "/tmp/plannet_other_columns.sqlite";
    reset(path);
    let mut store = TaskStore::create(path).unwrap();
    assert_eq!(store.init_schema(), Ok(()));
    let id = store.add("odd columns").unwrap();
    {
        let conn = rusqlite::Connection::open(path).unwrap();
        conn.execute("UPDATE tasks SET description = 42, name = x'00ff' WHERE id = ?1", [id])
            .unwrap();
    }
    assert_eq!(store.advance(id), Ok(Status::InProgress));
    assert_eq!(store.find(id).err(), Some(RepoError::InvalidState));
    assert_eq!(store.rename(id, "plain again"), Ok(()));
    assert_eq!(store.advance(id), Ok(Status::Completed));
    assert_eq!(store.find(id).err(), Some(RepoError::InvalidState));
    {
        let conn = rusqlite::Connection::open(path).unwrap();
        conn.execute("UPDATE tasks SET description = NULL WHERE id = ?1", [id]).unwrap();
    }
    let task = store.find(id).unwrap();
    assert_eq!(task.name, "plain again");
    assert_eq!(task.status, Status::Completed);
    drop(store);
    reset(path);
}
