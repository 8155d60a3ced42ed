//! The process-wide configuration record and the rules around it.
use vstd::prelude::*;

use crate::error::ExbotError;
use crate::storage;

pub mod mockex;

verus! {

/// The persisted configuration.
#[derive(Debug, Clone)]
pub struct Config {
    pub storage: storage::Config,
}

impl Default for Config {
    fn default() -> (r: Self)
        ensures
            r.storage.db_type == storage::DbType::Sqlite,
            r.storage.db_endpoint@ == Seq::<char>::empty(),
    {
        Config { storage: storage::Config::default() }
    }
}

/// Runs `f` on the loaded configuration, which must be there.
pub fn with_config<T, F>(loaded: &Option<Config>, f: F) -> (r: T) where F: FnOnce(&Config) -> T
    requires
        loaded is Some,
        f.requires((&loaded->Some_0,)),
    ensures
        f.ensures((&loaded->Some_0,), r),
{
    f(loaded.as_ref().unwrap())
}

/// The message that refuses to initialise over an existing configuration.
pub open spec fn already_exists_message(filename: Seq<char>) -> Seq<char> {
    "exbot config file "@ + filename + " already exists!"@
}

impl Config {
    /// Decides whether initialisation may write the configuration file
    /// `filename`: it may not where that file exists already.
    pub fn init(&self, filename: &str, exists: bool) -> (r: Result<(), ExbotError>)
        ensures
            r is Ok <==> !exists,
            r matches Err(e) ==> e matches ExbotError::Error(m) && m@ == already_exists_message(
                filename@,
            ),
    {
        if exists {
            let mut m = "exbot config file ".to_owned();
            m.append(filename);
            m.append(" already exists!");
            Err(ExbotError::Error(m))
        } else {
            Ok(())
        }
    }
}

} // verus!
