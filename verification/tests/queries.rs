use fpl_tables::mode::Mode;
use fpl_tables::query::{classify, query_outcome, Binding, EngineFault, QueryError, Registry};

#[test]
fn a_new_registry_knows_no_table() {
    let registry = Registry::new();
    assert!(registry.bindings.is_empty());
    assert_eq!(registry.resolve("elements"), None);
}

#[test]
fn the_base_registry_knows_the_elements() {
    let registry = Registry::base();
    assert_eq!(
        registry.bindings,
        vec![Binding { table: "elements".to_string(), path: "./data/elements.csv".to_string() }]
    );
    assert_eq!(registry.resolve("elements"), Some(&"./data/elements.csv".to_string()));
    assert_eq!(registry.resolve("teams"), None);
    assert_eq!(registry.resolve("Elements"), None);
    assert_eq!(registry.resolve(""), None);
}

#[test]
fn more_tables_can_be_registered() {
    let mut registry = Registry::base();
    registry.register("teams", "./data/teams.csv");
    registry.register("events", "/tmp/events.csv");
    assert_eq!(registry.resolve("teams"), Some(&"./data/teams.csv".to_string()));
    assert_eq!(registry.resolve("events"), Some(&"/tmp/events.csv".to_string()));
    assert_eq!(registry.resolve("elements"), Some(&"./data/elements.csv".to_string()));
    assert_eq!(registry.resolve("phases"), None);
    assert_eq!(registry.bindings.len(), 3);
}

#[test]
fn a_later_binding_replaces_an_earlier_one() {
    let mut registry = Registry::base();
    registry.register("elements", "./data/other.csv");
    assert_eq!(registry.resolve("elements"), Some(&"./data/other.csv".to_string()));
}

#[test]
fn each_engine_fault_is_reported() {
    assert_eq!(classify(EngineFault::Sql), QueryError::Parse);
    assert_eq!(classify(EngineFault::Plan), QueryError::Unresolved);
    assert_eq!(classify(EngineFault::Arrow), QueryError::Execution);
    assert_eq!(classify(EngineFault::Parquet), QueryError::Execution);
    assert_eq!(classify(EngineFault::Io), QueryError::Execution);
    assert_eq!(classify(EngineFault::NotImplemented), QueryError::Execution);
    assert_eq!(classify(EngineFault::Internal), QueryError::Execution);
    assert_eq!(classify(EngineFault::Execution), QueryError::Execution);
}

#[test]
fn a_query_gives_its_rows_or_its_error() {
    assert_eq!(query_outcome(Ok("| id |".to_string())), Ok("| id |".to_string()));
    assert_eq!(query_outcome(Ok(String::new())), Ok(String::new()));
    assert_eq!(query_outcome(Err(EngineFault::Plan)), Err(QueryError::Unresolved));
    assert_eq!(query_outcome(Err(EngineFault::Sql)), Err(QueryError::Parse));
    assert_eq!(query_outcome(Err(EngineFault::Execution)), Err(QueryError::Execution));
}

#[test]
fn a_mode_is_read_from_its_name() {
    assert_eq!(Mode::parse("fetch"), Some(Mode::Fetch));
    assert_eq!(Mode::parse("query"), Some(Mode::Query));
    assert_eq!(Mode::parse("check"), Some(Mode::Check));
    assert_eq!(Mode::parse("Fetch"), None);
    assert_eq!(Mode::parse("fetch "), None);
    assert_eq!(Mode::parse(""), None);
    assert_eq!(Mode::parse("list"), None);
}

#[test]
fn only_a_query_needs_its_text() {
    assert!(Mode::Query.needs_query());
    assert!(!Mode::Fetch.needs_query());
    assert!(!Mode::Check.needs_query());
}
