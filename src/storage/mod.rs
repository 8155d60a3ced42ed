//! Pluggable storage backends: their configuration and idempotent schema
//! initialisation.
use vstd::prelude::*;

use crate::error::ExbotError;

pub mod cresedb;
pub mod schema;

use self::schema::{init_measure, replay, start, tables_view, SchemaInit, TableSchema, TableStatus};

verus! {

/// The kinds of storage backend a configuration can name.
#[derive(Debug, Clone, Copy, PartialEq, Eq, Structural)]
pub enum DbType {
    Sqlite,
    Mysql,
}

impl Default for DbType {
    fn default() -> (r: Self)
        ensures
            r == DbType::Sqlite,
    {
        DbType::Sqlite
    }
}

/// Which backend to use and where it listens.
#[derive(Debug, Clone)]
pub struct Config {
    pub db_type: DbType,
    pub db_endpoint: String,
}

impl Default for Config {
    fn default() -> (r: Self)
        ensures
            r.db_type == DbType::Sqlite,
            r.db_endpoint@ == Seq::<char>::empty(),
    {
        Config { db_type: DbType::Sqlite, db_endpoint: String::new() }
    }
}

/// Checks that the configured backend is supported; only SQLite is.
pub fn init(c: Config) -> (r: Result<(), ExbotError>)
    ensures
        r is Ok <==> c.db_type == DbType::Sqlite,
        r matches Err(e) ==> e matches ExbotError::Error(m) && m@ == "not support db type"@,
{
    match c.db_type {
        DbType::Sqlite => Ok(()),
        _ => Err(ExbotError::Error("not support db type".to_owned())),
    }
}

/// A storage backend: it runs backend-native statements.
pub trait Storage {
    type QueryItem;

    /// Runs one backend-native statement against the named tables.
    fn query(&self, metrics: Vec<String>, sql: String) -> Result<Self::QueryItem, ExbotError>;

    /// The number of rows that a query result holds.
    fn row_count(item: &Self::QueryItem) -> usize;
}

/// Initialises the schema `tables` on `storage`: for each table in turn it
/// asks whether the table exists and creates it only where the answer holds
/// no rows. It reports for each table whether it was created or already
/// there. The first failing statement ends the work with its error; tables
/// created before it stay.
pub fn init_schema<S: Storage>(storage: &S, tables: Vec<TableSchema>) -> (r: Result<
    Vec<TableStatus>,
    ExbotError,
>)
    ensures
        tables@.len() == 0 ==> (r matches Ok(report) && report@.len() == 0),
        r matches Ok(report) ==> report@.len() == tables@.len(),
        r matches Ok(report) ==> exists|answers: Seq<nat>|
            {
                &&& (#[trigger] replay(start(tables_view(tables@)), answers)).done()
                &&& replay(start(tables_view(tables@)), answers).report == report@
            },
{
    let ghost tv = tables_view(tables@);
    let ghost n = tables@.len();
    assert(tv.len() == n);
    let ghost mut answers: Seq<nat> = Seq::empty();
    let mut m = SchemaInit::new(tables);
    loop
        invariant
            m.wf(),
            m@ == replay(start(tv), answers),
            m@.tables == tv,
            tv.len() == n,
            n == tables@.len(),
            tv == tables_view(tables@),
        decreases init_measure(m@),
    {
        match m.next_statement() {
            None => {
                let report = m.into_report();
                return Ok(report);
            },
            Some(statement) => {
                let item = match storage.query(statement.metrics, statement.ql) {
                    Ok(item) => item,
                    Err(e) => return Err(e),
                };
                let rows = S::row_count(&item);
                let ghost before = answers;
                m.on_rows(rows);
                proof {
                    answers = before.push(rows as nat);
                    assert(answers.drop_last() =~= before);
                }
            },
        }
    }
}

} // verus!
