use exbot::config::mockex::MockexConfig;
use exbot::config::{with_config, Config};
use exbot::error::ExbotError;
use exbot::storage::DbType;

#[test]
fn with_config_runs_on_the_loaded_record() {
    let loaded = Some(Config::default());
    let r = with_config(&loaded, |c| c.storage.db_type);
    assert_eq!(r, DbType::Sqlite);
    assert_eq!(with_config(&loaded, |c| c.storage.db_endpoint.clone()), "");
}

#[test]
fn init_refuses_an_existing_file() {
    let c = Config::default();
    assert!(c.init("exbot.toml", false).is_ok());
    match c.init("exbot.toml", true) {
        Err(ExbotError::Error(m)) => assert_eq!(m, "exbot config file exbot.toml already exists!"),
        other => panic!("unexpected {:?}", other),
    }
}

#[test]
fn defaults() {
    assert_eq!(MockexConfig::default().addr, "0.0.0.0:2023");
    let c = Config::default();
    assert_eq!(c.storage.db_type, DbType::Sqlite);
    assert_eq!(c.storage.db_endpoint, "");
}

#[test]
fn error_from_text() {
    let e: ExbotError = "boom".into();
    assert!(matches!(e, ExbotError::Error(m) if m == "boom"));
}
