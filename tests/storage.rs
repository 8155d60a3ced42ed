use std::cell::RefCell;

use exbot::error::ExbotError;
use exbot::storage::cresedb::{create_tables, CREATE_KLINES_TABLE, KLINES_TABLE};
use exbot::storage::schema::{SchemaInit, TableSchema, TableStatus};
use exbot::storage::{init, init_schema, Config, DbType, Storage};

/// A backend that keeps table names in memory and logs every statement.
struct MemoryBackend {
    tables: RefCell<Vec<String>>,
    log: RefCell<Vec<String>>,
    schema: Vec<TableSchema>,
    fail_on: Option<String>,
}

impl MemoryBackend {
    fn new(existing: &[&str], schema: Vec<TableSchema>) -> Self {
        MemoryBackend {
            tables: RefCell::new(existing.iter().map(|s| s.to_string()).collect()),
            log: RefCell::new(vec![]),
            schema,
            fail_on: None,
        }
    }

    fn init(&self) -> Result<Vec<TableStatus>, ExbotError> {
        init_schema(self, self.schema.clone())
    }

    fn creations(&self) -> usize {
        self.log.borrow().iter().filter(|q| q.starts_with("CREATE")).count()
    }
}

fn table(name: &str) -> TableSchema {
    TableSchema { name: name.to_string(), create_sql: format!("CREATE TABLE {}", name) }
}

impl Storage for MemoryBackend {
    type QueryItem = usize;

    fn query(&self, metrics: Vec<String>, sql: String) -> Result<usize, ExbotError> {
        self.log.borrow_mut().push(sql.clone());
        if self.fail_on.as_deref() == Some(sql.as_str()) {
            return Err(ExbotError::Storage("backend refused".to_string()));
        }
        let name = metrics[0].clone();
        if sql == format!("show tables like {}", name) {
            Ok(self.tables.borrow().iter().filter(|t| **t == name).count())
        } else {
            self.tables.borrow_mut().push(name);
            Ok(0)
        }
    }

    fn row_count(item: &usize) -> usize {
        *item
    }
}

#[test]
fn init_twice_creates_once() {
    let backend = MemoryBackend::new(&[], vec![table("a"), table("b")]);
    let first = backend.init().unwrap();
    assert_eq!(first, vec![TableStatus::Created, TableStatus::Created]);
    assert_eq!(backend.creations(), 2);
    let second = backend.init().unwrap();
    assert_eq!(second, vec![TableStatus::AlreadyExists, TableStatus::AlreadyExists]);
    assert_eq!(backend.creations(), 2);
}

#[test]
fn init_over_existing_tables_creates_nothing() {
    let backend = MemoryBackend::new(&[KLINES_TABLE], create_tables());
    let report = backend.init().unwrap();
    assert_eq!(report, vec![TableStatus::AlreadyExists]);
    assert_eq!(backend.creations(), 0);
    assert_eq!(*backend.log.borrow(), vec!["show tables like exbot_klines".to_string()]);
}

#[test]
fn init_creates_only_missing_tables_and_duplicates_once() {
    let backend = MemoryBackend::new(&["b"], vec![table("a"), table("b"), table("a")]);
    let report = backend.init().unwrap();
    assert_eq!(
        report,
        vec![TableStatus::Created, TableStatus::AlreadyExists, TableStatus::AlreadyExists]
    );
    assert_eq!(backend.creations(), 1);
}

#[test]
fn init_stops_at_the_first_failure() {
    let mut backend = MemoryBackend::new(&[], vec![table("a"), table("b"), table("c")]);
    backend.fail_on = Some("CREATE TABLE b".to_string());
    let e = backend.init().unwrap_err();
    assert!(matches!(e, ExbotError::Storage(_)));
    assert_eq!(*backend.tables.borrow(), vec!["a".to_string()]);
}

#[test]
fn ceresdb_schema_creates_the_klines_table() {
    let backend = MemoryBackend::new(&[], create_tables());
    assert_eq!(backend.init().unwrap(), vec![TableStatus::Created]);
    assert_eq!(
        *backend.log.borrow(),
        vec!["show tables like exbot_klines".to_string(), CREATE_KLINES_TABLE.to_string()]
    );
}

#[test]
fn machine_asks_then_creates() {
    let mut m = SchemaInit::new(vec![table("t")]);
    let check = m.next_statement().unwrap();
    assert_eq!(check.metrics, vec!["t".to_string()]);
    assert_eq!(check.ql, "show tables like t");
    m.on_rows(0);
    let create = m.next_statement().unwrap();
    assert_eq!(create.ql, "CREATE TABLE t");
    m.on_rows(0);
    assert!(m.next_statement().is_none());
    assert_eq!(m.into_report(), vec![TableStatus::Created]);
}

#[test]
fn empty_schema_needs_no_statement() {
    let m = SchemaInit::new(vec![]);
    assert!(m.next_statement().is_none());
    assert!(m.into_report().is_empty());
}

#[test]
fn unsupported_backend_is_a_configuration_error() {
    let c = Config { db_type: DbType::Mysql, db_endpoint: "127.0.0.1:3306".to_string() };
    match init(c) {
        Err(ExbotError::Error(m)) => assert_eq!(m, "not support db type"),
        other => panic!("unexpected {:?}", other),
    }
}

#[test]
fn sqlite_backend_is_supported() {
    assert!(init(Config::default()).is_ok());
    assert_eq!(DbType::default(), DbType::Sqlite);
}
