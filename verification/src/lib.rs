mod cache;
mod catalog;
mod describe;
mod error;
mod flow;
mod type_eq;
mod type_info;
mod type_laws;

pub use cache::{CacheEntry, CacheStore, cache_file_name, content_hash_of, describe_cached};
pub use cache::{has_key, hash_string, hex_digit, hex_of, is_first_key_match, sha256_of};
pub use catalog::{TypeCatalog, has_custom_name, has_custom_oid, is_first_name_match, is_first_oid_match};
pub use catalog::{lemma_register_idempotent, lemma_resolution_idempotent};
pub use catalog::{lemma_resolution_of_resolvable, lemma_resolved_kind_stable};
pub use catalog::{resolution_of, resolvable};
pub use describe::{ColumnDescriptor, DynQueryData, QueryData, QueryDescriptor};
pub use error::QueryError;
pub use flow::{DatabaseKind, FlowEvent, FlowState, MariaDb, QuerySource};
pub use flow::{choose_source, database_kind_of_scheme, database_kind_of_url, flow_step};
pub use flow::{flow_step_spec, kind_name_spec, kind_of_scheme, scheme_of_url};
pub use flow::{lemma_failed_terminal, lemma_persist_failure_nonfatal, lemma_verified_near_terminal};
pub use type_eq::{custom_eq, fields_eq, info_eq, kind_eq, labels_eq, type_eq};
pub use type_info::{PgCustomType, PgType, PgTypeInfo, PgTypeKind};
pub use type_info::{builtin_of_oid, feature_gate_spec, is_builtin, is_resolved_type};
pub use type_info::{kind_spec, name_spec, oid_spec, str_equal};
pub use type_info::builtin_of_name;
pub use type_laws::{lemma_builtin_name_injective, lemma_builtin_name_round_trip, lemma_name_to_builtin};
pub use type_laws::{lemma_builtin_oid_round_trip, lemma_oid_to_builtin};
