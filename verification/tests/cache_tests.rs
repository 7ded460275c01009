use querycat::{
    CacheEntry, CacheStore, PgTypeInfo, QueryDescriptor, QueryError, cache_file_name,
    describe_cached, hash_string,
};

fn descriptor_with_params(n: usize) -> QueryDescriptor {
    let mut params = Vec::new();
    for _ in 0..n {
        params.push(PgTypeInfo::try_from_oid(23).unwrap());
    }
    QueryDescriptor {
        param_types: params,
        columns: Vec::new(),
    }
}

fn store_with(entries: Vec<CacheEntry>) -> CacheStore {
    CacheStore {
        db_name: "postgres".to_string(),
        entries,
    }
}

#[test]
fn hash_string_is_sha256_hex() {
    assert_eq!(
        hash_string(""),
        "e3b0c44298fc1c149afbf4c8996fb92427ae41e4649b934ca495991b7852b855"
    );
    assert_eq!(
        hash_string("SELECT 1"),
        "e004ebd5b5532a4b85984a62f8ad48a81aa3460c1ca07701f386135d72cdecf5"
    );
    assert_ne!(hash_string("SELECT 1"), hash_string("SELECT 1 "));
}

#[test]
fn cache_file_name_is_derived_from_identity_hash() {
    let name = cache_file_name("src/main.rs:42");
    let expected = format!("query-{}.json", hash_string("src/main.rs:42"));
    assert_eq!(name, expected);
    assert_eq!(cache_file_name("src/main.rs:42"), name);
}

#[test]
fn cached_lookup_returns_the_stored_descriptor() {
    let entry = CacheEntry::from_query("SELECT 1".to_string(), descriptor_with_params(2));
    let store = store_with(vec![entry]);
    let data = describe_cached(store, "SELECT 1").unwrap();
    assert_eq!(data.db_name, "postgres");
    assert_eq!(data.query, "SELECT 1");
    assert_eq!(data.describe.param_types.len(), 2);
    assert_eq!(data.describe.param_types[0].oid(), 23);
}

#[test]
fn hash_collision_is_a_hard_error() {
    let entry = CacheEntry {
        key: hash_string("SELECT 1"),
        query: "SELECT 2".to_string(),
        describe: descriptor_with_params(0),
    };
    let store = store_with(vec![entry]);
    match describe_cached(store, "SELECT 1") {
        Err(QueryError::HashCollision(requested, stored)) => {
            assert_eq!(requested, "SELECT 1");
            assert_eq!(stored, "SELECT 2");
        }
        _ => panic!("expected HashCollision"),
    }
}

#[test]
fn trailing_space_changes_the_hash_and_misses() {
    let entry = CacheEntry::from_query("SELECT 1".to_string(), descriptor_with_params(0));
    let store = store_with(vec![entry]);
    match describe_cached(store, "SELECT 1 ") {
        Err(QueryError::CacheMiss) => {}
        _ => panic!("expected CacheMiss"),
    }
}

#[test]
fn empty_store_misses() {
    let store = store_with(Vec::new());
    match describe_cached(store, "SELECT 1") {
        Err(QueryError::CacheMiss) => {}
        _ => panic!("expected CacheMiss"),
    }
}

#[test]
fn scan_stops_at_the_first_key_match() {
    let first = CacheEntry::from_query("SELECT 1".to_string(), descriptor_with_params(1));
    let second = CacheEntry {
        key: hash_string("SELECT 1"),
        query: "SELECT something else".to_string(),
        describe: descriptor_with_params(7),
    };
    let store = store_with(vec![first, second]);
    let data = describe_cached(store, "SELECT 1").unwrap();
    assert_eq!(data.describe.param_types.len(), 1);
}

#[test]
fn entries_are_keyed_by_content_hash() {
    let entry = CacheEntry::from_query("SELECT 1".to_string(), descriptor_with_params(0));
    assert_eq!(entry.key, hash_string("SELECT 1"));
    assert_eq!(entry.query, "SELECT 1");
}
