use vstd::prelude::*;

use crate::error::QueryError;
use crate::type_info::str_equal;

verus! {

/// The database engines a query description can come from.
pub enum DatabaseKind {
    Postgres,
    MySql,
    Sqlite,
}

/// The tag under which a database kind appears in cached query data.
pub open spec fn kind_name_spec(k: DatabaseKind) -> Seq<char> {
    match k {
        DatabaseKind::Postgres => "postgres"@,
        DatabaseKind::MySql => "mysql"@,
        DatabaseKind::Sqlite => "sqlite"@,
    }
}

impl DatabaseKind {
    /// The tag under which this kind appears in cached query data.
    pub fn name(&self) -> (r: String)
        ensures
            r@ == kind_name_spec(*self),
    {
        match self {
            DatabaseKind::Postgres => "postgres".to_owned(),
            DatabaseKind::MySql => "mysql".to_owned(),
            DatabaseKind::Sqlite => "sqlite".to_owned(),
        }
    }
}

/// Marker for the MariaDB backend. MariaDB speaks the MySQL protocol, so
/// it maps to the same database kind.
pub struct MariaDb;

impl MariaDb {
    /// The database kind this backend describes queries as.
    pub fn kind() -> (r: DatabaseKind)
        ensures
            r == DatabaseKind::MySql,
    {
        DatabaseKind::MySql
    }
}

/// The database kind a connection URL scheme selects, if any.
pub open spec fn kind_of_scheme(s: Seq<char>) -> Option<DatabaseKind> {
    if s == "postgres"@ || s == "postgresql"@ {
        Some(DatabaseKind::Postgres)
    } else if s == "mysql"@ || s == "mariadb"@ {
        Some(DatabaseKind::MySql)
    } else if s == "sqlite"@ {
        Some(DatabaseKind::Sqlite)
    } else {
        None
    }
}

/// The database kind a connection URL scheme selects, if any.
pub fn database_kind_of_scheme(scheme: &str) -> (r: Option<DatabaseKind>)
    ensures
        r == kind_of_scheme(scheme@),
{
    if str_equal(scheme, "postgres") || str_equal(scheme, "postgresql") {
        Some(DatabaseKind::Postgres)
    } else if str_equal(scheme, "mysql") || str_equal(scheme, "mariadb") {
        Some(DatabaseKind::MySql)
    } else if str_equal(scheme, "sqlite") {
        Some(DatabaseKind::Sqlite)
    } else {
        None
    }
}

/// The scheme of a database connection URL, if the string parses as a
/// URL. A function of the string alone; its value is only named here.
pub uninterp spec fn scheme_of_url(s: Seq<char>) -> Option<Seq<char>>;

/// Relies on `url::Url::parse` and `url::Url::scheme`: whether a string
/// parses as a URL, and which scheme the parsed URL reports, depend on
/// the string alone.
#[verifier::external_body]
fn parse_url_scheme(s: &str) -> (r: Option<String>)
    ensures
        match r {
            Some(scheme) => scheme_of_url(s@) == Some(scheme@),
            None => scheme_of_url(s@) is None,
        },
{
    match url::Url::parse(s) {
        Ok(u) => Some(u.scheme().to_owned()),
        Err(_) => None,
    }
}

/// The database kind a connection URL selects: none when the string is no
/// URL, none when its scheme names no supported engine.
pub fn database_kind_of_url(db_url: &str) -> (r: Option<DatabaseKind>)
    ensures
        r == match scheme_of_url(db_url@) {
            Some(scheme) => kind_of_scheme(scheme),
            None => None::<DatabaseKind>,
        },
{
    match parse_url_scheme(db_url) {
        Some(scheme) => database_kind_of_scheme(scheme.as_str()),
        None => None,
    }
}

/// Where a query's description is to come from: a live connection, or the
/// persisted cache file.
pub enum QuerySource {
    Live,
    CachedFile,
}

/// Picks the description source the way the expansion entry point does: a
/// configured database URL always selects the live path; without one the
/// cache file is used when it exists; with neither the caller gets
/// nothing and must report its configuration error.
pub fn choose_source(has_database_url: bool, data_file_exists: bool) -> (r: Option<QuerySource>)
    ensures
        has_database_url ==> r == Some(QuerySource::Live),
        !has_database_url && data_file_exists ==> r == Some(QuerySource::CachedFile),
        !has_database_url && !data_file_exists ==> r is None,
{
    if has_database_url {
        Some(QuerySource::Live)
    } else if data_file_exists {
        Some(QuerySource::CachedFile)
    } else {
        None
    }
}

/// The states of one description-and-verification flow.
pub enum FlowState {
    Start,
    Describing,
    Resolving,
    Persisting,
    CacheLookup,
    Verified,
    Failed(QueryError),
}

/// What the surrounding driver reports back into the flow.
pub enum FlowEvent {
    LiveConnection,
    NoConnection,
    Described,
    DescribeFailed(String),
    Resolved(bool),
    ResolveFailed(QueryError),
    Persisted,
    PersistFailed(String),
    CacheHit,
    CacheFailed(QueryError),
    ArityChecked,
    ArityFailed(usize, usize),
}

/// The flow's transition function.
///
/// From `Start` a live connection leads into describing, its absence into
/// the cache lookup. A failure in describing, resolving or the cache
/// lookup is terminal. `Resolved` carries whether the caller asked to
/// persist the fresh description. A persist failure is non-fatal: the
/// flow still completes with `Verified`. From `Verified` only a failed
/// arity check leads away, into `Failed`. An event that its state does
/// not expect changes nothing.
pub open spec fn flow_step_spec(state: FlowState, event: FlowEvent) -> FlowState {
    match (state, event) {
        (FlowState::Start, FlowEvent::LiveConnection) => FlowState::Describing,
        (FlowState::Start, FlowEvent::NoConnection) => FlowState::CacheLookup,
        (FlowState::Describing, FlowEvent::Described) => FlowState::Resolving,
        (FlowState::Describing, FlowEvent::DescribeFailed(reason)) => FlowState::Failed(
            QueryError::DescribeFailed(reason),
        ),
        (FlowState::Resolving, FlowEvent::Resolved(persist)) => if persist {
            FlowState::Persisting
        } else {
            FlowState::Verified
        },
        (FlowState::Resolving, FlowEvent::ResolveFailed(e)) => FlowState::Failed(e),
        (FlowState::Persisting, FlowEvent::Persisted) => FlowState::Verified,
        (FlowState::Persisting, FlowEvent::PersistFailed(_)) => FlowState::Verified,
        (FlowState::CacheLookup, FlowEvent::CacheHit) => FlowState::Verified,
        (FlowState::CacheLookup, FlowEvent::CacheFailed(e)) => FlowState::Failed(e),
        (FlowState::Verified, FlowEvent::ArityFailed(expected, actual)) => FlowState::Failed(
            QueryError::ArityMismatch(expected, actual),
        ),
        (s, _) => s,
    }
}

/// Advances the flow by one reported event; see [`flow_step_spec`].
pub fn flow_step(state: FlowState, event: FlowEvent) -> (r: FlowState)
    ensures
        r == flow_step_spec(state, event),
{
    match (state, event) {
        (FlowState::Start, FlowEvent::LiveConnection) => FlowState::Describing,
        (FlowState::Start, FlowEvent::NoConnection) => FlowState::CacheLookup,
        (FlowState::Describing, FlowEvent::Described) => FlowState::Resolving,
        (FlowState::Describing, FlowEvent::DescribeFailed(reason)) => FlowState::Failed(
            QueryError::DescribeFailed(reason),
        ),
        (FlowState::Resolving, FlowEvent::Resolved(persist)) => if persist {
            FlowState::Persisting
        } else {
            FlowState::Verified
        },
        (FlowState::Resolving, FlowEvent::ResolveFailed(e)) => FlowState::Failed(e),
        (FlowState::Persisting, FlowEvent::Persisted) => FlowState::Verified,
        (FlowState::Persisting, FlowEvent::PersistFailed(_)) => FlowState::Verified,
        (FlowState::CacheLookup, FlowEvent::CacheHit) => FlowState::Verified,
        (FlowState::CacheLookup, FlowEvent::CacheFailed(e)) => FlowState::Failed(e),
        (FlowState::Verified, FlowEvent::ArityFailed(expected, actual)) => FlowState::Failed(
            QueryError::ArityMismatch(expected, actual),
        ),
        (s, _) => s,
    }
}

/// A failed flow stays failed, whatever is reported: `Failed` is terminal.
pub proof fn lemma_failed_terminal(e: QueryError, event: FlowEvent)
    ensures
        flow_step_spec(FlowState::Failed(e), event) == FlowState::Failed(e),
{
}

/// From `Verified`, the only transition away is a failed arity check.
pub proof fn lemma_verified_near_terminal(event: FlowEvent)
    ensures
        flow_step_spec(FlowState::Verified, event) == match event {
            FlowEvent::ArityFailed(expected, actual) => FlowState::Failed(
                QueryError::ArityMismatch(expected, actual),
            ),
            _ => FlowState::Verified,
        },
{
}

/// A persist failure never aborts the flow: it completes with `Verified`.
pub proof fn lemma_persist_failure_nonfatal(reason: String)
    ensures
        flow_step_spec(FlowState::Persisting, FlowEvent::PersistFailed(reason))
            == FlowState::Verified,
{
}

} // verus!
