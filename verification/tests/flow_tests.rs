use querycat::{
    DatabaseKind, FlowEvent, FlowState, MariaDb, QueryError, QuerySource, choose_source,
    database_kind_of_scheme, database_kind_of_url, flow_step,
};

#[test]
fn schemes_select_database_kinds() {
    assert!(matches!(
        database_kind_of_scheme("postgres"),
        Some(DatabaseKind::Postgres)
    ));
    assert!(matches!(
        database_kind_of_scheme("postgresql"),
        Some(DatabaseKind::Postgres)
    ));
    assert!(matches!(database_kind_of_scheme("mysql"), Some(DatabaseKind::MySql)));
    assert!(matches!(database_kind_of_scheme("mariadb"), Some(DatabaseKind::MySql)));
    assert!(matches!(database_kind_of_scheme("sqlite"), Some(DatabaseKind::Sqlite)));
    assert!(database_kind_of_scheme("mssql").is_none());
}

#[test]
fn urls_select_database_kinds() {
    assert!(matches!(
        database_kind_of_url("postgres://localhost/app"),
        Some(DatabaseKind::Postgres)
    ));
    assert!(matches!(
        database_kind_of_url("mariadb://user@host/app"),
        Some(DatabaseKind::MySql)
    ));
    assert!(database_kind_of_url("not a url at all").is_none());
    assert!(database_kind_of_url("ftp://host/file").is_none());
}

#[test]
fn mariadb_maps_to_the_mysql_kind() {
    assert!(matches!(MariaDb::kind(), DatabaseKind::MySql));
    assert_eq!(MariaDb::kind().name(), "mysql");
}

#[test]
fn source_selection_prefers_a_live_connection() {
    assert!(matches!(choose_source(true, true), Some(QuerySource::Live)));
    assert!(matches!(choose_source(true, false), Some(QuerySource::Live)));
    assert!(matches!(choose_source(false, true), Some(QuerySource::CachedFile)));
    assert!(choose_source(false, false).is_none());
}

#[test]
fn live_flow_reaches_verified_despite_persist_failure() {
    let mut state = FlowState::Start;
    state = flow_step(state, FlowEvent::LiveConnection);
    assert!(matches!(state, FlowState::Describing));
    state = flow_step(state, FlowEvent::Described);
    assert!(matches!(state, FlowState::Resolving));
    state = flow_step(state, FlowEvent::Resolved(true));
    assert!(matches!(state, FlowState::Persisting));
    state = flow_step(state, FlowEvent::PersistFailed("disk full".to_string()));
    assert!(matches!(state, FlowState::Verified));
}

#[test]
fn arity_failure_is_the_only_exit_from_verified() {
    let state = flow_step(FlowState::Verified, FlowEvent::ArityChecked);
    assert!(matches!(state, FlowState::Verified));
    let state = flow_step(FlowState::Verified, FlowEvent::ArityFailed(3, 2));
    match state {
        FlowState::Failed(QueryError::ArityMismatch(expected, actual)) => {
            assert_eq!(expected, 3);
            assert_eq!(actual, 2);
        }
        _ => panic!("expected an arity failure"),
    }
}

#[test]
fn cache_flow_fails_on_a_miss() {
    let mut state = FlowState::Start;
    state = flow_step(state, FlowEvent::NoConnection);
    assert!(matches!(state, FlowState::CacheLookup));
    state = flow_step(state, FlowEvent::CacheFailed(QueryError::CacheMiss));
    assert!(matches!(state, FlowState::Failed(QueryError::CacheMiss)));
}

#[test]
fn failed_is_terminal() {
    let mut state = FlowState::Failed(QueryError::CacheMiss);
    state = flow_step(state, FlowEvent::LiveConnection);
    assert!(matches!(state, FlowState::Failed(QueryError::CacheMiss)));
    state = flow_step(state, FlowEvent::CacheHit);
    assert!(matches!(state, FlowState::Failed(QueryError::CacheMiss)));
}

#[test]
fn resolve_failure_aborts_the_flow() {
    let state = flow_step(
        FlowState::Resolving,
        FlowEvent::ResolveFailed(QueryError::UnknownTypeOid(99999)),
    );
    assert!(matches!(
        state,
        FlowState::Failed(QueryError::UnknownTypeOid(99999))
    ));
}
