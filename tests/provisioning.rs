use diesel::connection::SimpleConnection;
use diesel::sqlite::SqliteConnection;
use diesel::{Connection, RunQueryDsl};
use table_provisioner::crud::{CrudService, Error, Step};
use table_provisioner::schema::{ColumnSchema, DataType, TableSchema};

enum Failure {
    Provision(Error),
    Engine(diesel::result::Error),
}

impl From<diesel::result::Error> for Failure {
    fn from(e: diesel::result::Error) -> Self {
        Failure::Engine(e)
    }
}

fn connect() -> SqliteConnection {
    SqliteConnection::establish(":memory:").expect("in-memory database")
}

fn execute(conn: &mut SqliteConnection, q: &str) -> Result<usize, String> {
    diesel::sql_query(q).execute(conn).map_err(|e| e.to_string())
}

/// Runs a creation; with `fail_trigger`, the trigger statement is reported as
/// failed without being run.
fn run_create(
    conn: &mut SqliteConnection,
    service: &CrudService,
    schema: TableSchema,
    fail_trigger: bool,
) -> Result<TableSchema, Error> {
    let mut run = service.create_table(schema)?;
    let outcome = conn.transaction::<(), Failure, _>(|conn| {
        let mut step = run.start();
        let mut executed = 0;
        loop {
            step = match step {
                Step::Execute(q) => {
                    executed += 1;
                    let r = if fail_trigger && executed == 2 {
                        Err("injected fault".to_string())
                    } else {
                        execute(conn, &q).map(|_| ())
                    };
                    run.resume(r)
                }
                Step::Commit => return Ok(()),
                Step::Rollback(e) => return Err(Failure::Provision(e)),
            }
        }
    });
    match outcome {
        Ok(()) => Ok(run.schema),
        Err(Failure::Provision(e)) => Err(e),
        Err(Failure::Engine(e)) => Err(Error::DieselError(e.to_string())),
    }
}

fn run_drop(conn: &mut SqliteConnection, service: &CrudService, name: &str) -> Result<(), Error> {
    let q = service.drop_table(name)?;
    execute(conn, &q).map(|_| ()).map_err(Error::DieselError)
}

fn column(name: &str, data_type: DataType, not_null: bool) -> ColumnSchema {
    ColumnSchema {
        name: name.to_string(),
        data_type,
        primary_key: Some(false),
        auto_increment: Some(false),
        unique: Some(false),
        not_null: Some(not_null),
        default: None,
    }
}

fn test_schema() -> TableSchema {
    TableSchema {
        name: "test_table".to_string(),
        columns: vec![column("name", DataType::Text, true), column("age", DataType::Integer, true)],
    }
}

fn table_exists(conn: &mut SqliteConnection, name: &str) -> bool {
    execute(conn, &format!("SELECT * FROM {}", name)).is_ok()
}

#[test]
fn test_create_table() {
    let mut conn = connect();
    let service = CrudService::new();
    let result = run_create(&mut conn, &service, test_schema(), false);
    assert!(result.is_ok());
}

#[test]
fn test_drop_table() {
    let mut conn = connect();
    let service = CrudService::new();
    assert!(run_create(&mut conn, &service, test_schema(), false).is_ok());
    let result = run_drop(&mut conn, &service, "test_table");
    assert!(result.is_ok());
    assert!(!table_exists(&mut conn, "test_table"));
}

#[test]
fn created_table_has_system_columns() {
    let mut conn = connect();
    let service = CrudService::new();
    let schema = run_create(&mut conn, &service, test_schema(), false).ok().unwrap();
    let names: Vec<&str> = schema.columns.iter().map(|c| c.name.as_str()).collect();
    assert_eq!(names, vec!["id", "name", "age", "created_at", "updated_at"]);
    assert_eq!(execute(&mut conn, "INSERT INTO test_table (name, age) VALUES ('a', 3)"), Ok(1));
    assert!(execute(&mut conn, "SELECT id, name, age, created_at, updated_at FROM test_table").is_ok());
}

#[test]
fn failed_trigger_leaves_no_table() {
    let mut conn = connect();
    let service = CrudService::new();
    let r = run_create(&mut conn, &service, test_schema(), true);
    assert!(matches!(r, Err(Error::DieselError(ref m)) if m == "injected fault"));
    assert!(!table_exists(&mut conn, "test_table"));
}

#[test]
fn trigger_refreshes_only_the_updated_row() {
    let mut conn = connect();
    let service = CrudService::new();
    let schema = TableSchema { name: "items".to_string(), columns: vec![column("label", DataType::Text, false)] };
    assert!(run_create(&mut conn, &service, schema, false).is_ok());
    conn.batch_execute(
        "INSERT INTO items (label, updated_at) VALUES ('a', '2000-01-01 00:00:00'); \
         INSERT INTO items (label, updated_at) VALUES ('b', '2000-01-01 00:00:00');",
    )
    .unwrap();
    assert_eq!(execute(&mut conn, "UPDATE items SET label = 'c' WHERE id = 1"), Ok(1));
    assert_eq!(
        execute(&mut conn, "DELETE FROM items WHERE id = 1 AND updated_at = '2000-01-01 00:00:00'"),
        Ok(0)
    );
    assert_eq!(
        execute(&mut conn, "DELETE FROM items WHERE id = 2 AND updated_at = '2000-01-01 00:00:00'"),
        Ok(1)
    );
}

#[test]
fn second_creation_fails_and_keeps_schema() {
    let mut conn = connect();
    let service = CrudService::new();
    assert!(run_create(&mut conn, &service, test_schema(), false).is_ok());
    let other = TableSchema { name: "test_table".to_string(), columns: vec![column("x", DataType::Float, false)] };
    let r = run_create(&mut conn, &service, other, false);
    assert!(matches!(r, Err(Error::DieselError(ref m)) if m.contains("already exists")));
    assert!(execute(&mut conn, "SELECT name, age FROM test_table").is_ok());
    assert!(execute(&mut conn, "SELECT x FROM test_table").is_err());
}

#[test]
fn name_reusable_after_drop() {
    let mut conn = connect();
    let service = CrudService::new();
    assert!(run_create(&mut conn, &service, test_schema(), false).is_ok());
    assert!(run_drop(&mut conn, &service, "test_table").is_ok());
    assert!(run_create(&mut conn, &service, test_schema(), false).is_ok());
    assert!(table_exists(&mut conn, "test_table"));
}

#[test]
fn dropping_a_missing_table_fails() {
    let mut conn = connect();
    let service = CrudService::new();
    let r = run_drop(&mut conn, &service, "nothing_here");
    assert!(matches!(r, Err(Error::DieselError(ref m)) if m.contains("no such table")));
}
