use vstd::prelude::*;

use sha2::Digest;

use crate::describe::{DynQueryData, QueryDescriptor};
use crate::error::QueryError;
use crate::type_info::str_equal;
use vstd::string::{StrSliceExecFns, StringExecFns, StringSliceAdditionalSpecFns};
use vstd::utf8::encode_utf8;

verus! {

/// The SHA-256 digest of a byte sequence. The digest is a pure function
/// of its input, the same in every process and on every machine; its
/// value is not written out here, only named.
pub uninterp spec fn sha256_of(bytes: Seq<u8>) -> Seq<u8>;

/// The lowercase hexadecimal digit for a value below sixteen.
pub open spec fn hex_digit(n: u8) -> char {
    if n == 0 {
        '0'
    } else if n == 1 {
        '1'
    } else if n == 2 {
        '2'
    } else if n == 3 {
        '3'
    } else if n == 4 {
        '4'
    } else if n == 5 {
        '5'
    } else if n == 6 {
        '6'
    } else if n == 7 {
        '7'
    } else if n == 8 {
        '8'
    } else if n == 9 {
        '9'
    } else if n == 10 {
        'a'
    } else if n == 11 {
        'b'
    } else if n == 12 {
        'c'
    } else if n == 13 {
        'd'
    } else if n == 14 {
        'e'
    } else {
        'f'
    }
}

/// Lowercase hexadecimal encoding: two digits per byte, high nibble first.
pub open spec fn hex_of(bytes: Seq<u8>) -> Seq<char> {
    Seq::new(
        bytes.len() * 2,
        |i: int|
            if i % 2 == 0 {
                hex_digit((bytes[i / 2] >> 4) & 0xf)
            } else {
                hex_digit(bytes[i / 2] & 0xf)
            },
    )
}

/// The content hash of a piece of text: the lowercase hex form of the
/// SHA-256 digest of its UTF-8 bytes. Stable across platforms; two texts
/// that differ in as much as one byte are meant to hash apart.
pub open spec fn content_hash_of(text: Seq<char>) -> Seq<char> {
    hex_of(sha256_of(encode_utf8(text)))
}

/// Relies on `sha2::Sha256::digest`: the 32-byte SHA-256 digest of the
/// input, a function of the input bytes alone.
#[verifier::external_body]
fn sha256(bytes: &[u8]) -> (r: Vec<u8>)
    ensures
        r@ == sha256_of(bytes@),
        r@.len() == 32,
{
    sha2::Sha256::digest(bytes).to_vec()
}

/// Relies on `hex::encode`: two lowercase hexadecimal digits per input
/// byte, high nibble first.
#[verifier::external_body]
fn hex_encode(bytes: &[u8]) -> (r: String)
    ensures
        r@ == hex_of(bytes@),
{
    hex::encode(bytes)
}

/// The content hash under which a query's description is cached.
pub fn hash_string(query: &str) -> (r: String)
    ensures
        r@ == content_hash_of(query@),
{
    let digest = sha256(query.as_bytes());
    hex_encode(digest.as_slice())
}

/// One persisted cache record: the content hash it is stored under, the
/// exact query text it was produced from, and the query's descriptor.
pub struct CacheEntry {
    pub key: String,
    pub query: String,
    pub describe: QueryDescriptor,
}

impl CacheEntry {
    /// A record for this query, keyed by the query's content hash.
    pub fn from_query(query: String, describe: QueryDescriptor) -> (r: CacheEntry)
        ensures
            r.key@ == content_hash_of(query@),
            r.query == query,
            r.describe == describe,
    {
        let key = hash_string(query.as_str());
        CacheEntry { key, query, describe }
    }
}

/// An in-memory image of the persistent query cache for one database
/// kind: the database tag and the records, in storage order.
pub struct CacheStore {
    pub db_name: String,
    pub entries: Vec<CacheEntry>,
}

/// Some record is stored under this key.
pub open spec fn has_key(s: Seq<CacheEntry>, key: Seq<char>) -> bool {
    exists|i: int| 0 <= i < s.len() && s[i].key@ == key
}

/// `i` is the first position whose record is stored under this key.
pub open spec fn is_first_key_match(s: Seq<CacheEntry>, key: Seq<char>, i: int) -> bool {
    &&& 0 <= i < s.len()
    &&& s[i].key@ == key
    &&& forall|j: int| 0 <= j < i ==> s[j].key@ != key
}

/// Retrieves the previously persisted description of a query from the
/// cache, keyed by the query text's content hash.
///
/// The scan is a single pass that stops at the first record stored under
/// the hash. If no record carries the hash the lookup fails with
/// `CacheMiss`. If the first such record stores a query text that is not
/// character-for-character the requested text, the lookup fails with
/// `HashCollision`: a collision is data corruption and is never resolved
/// by picking either candidate.
pub fn describe_cached(store: CacheStore, query: &str) -> (r: Result<DynQueryData, QueryError>)
    ensures
        !has_key(store.entries@, content_hash_of(query@)) ==> r == Err::<
            DynQueryData,
            QueryError,
        >(QueryError::CacheMiss),
        forall|i: int|
            #[trigger] is_first_key_match(store.entries@, content_hash_of(query@), i)
                && store.entries@[i].query@ == query@ ==> (r matches Ok(d) && d.db_name
                == store.db_name && d.query == store.entries@[i].query && d.describe
                == store.entries@[i].describe),
        forall|i: int|
            #[trigger] is_first_key_match(store.entries@, content_hash_of(query@), i)
                && store.entries@[i].query@ != query@ ==> (r matches Err(e) && e matches
                QueryError::HashCollision(requested, stored) && requested@ == query@ && stored@
                == store.entries@[i].query@),
{
    let hash = hash_string(query);
    let CacheStore { db_name, mut entries } = store;
    let n = entries.len();
    let mut i: usize = 0;
    while i < n
        invariant
            hash@ == content_hash_of(query@),
            n == entries@.len(),
            entries@ == store.entries@,
            db_name == store.db_name,
            i <= n,
            forall|j: int| 0 <= j < i ==> (#[trigger] entries@[j]).key@ != hash@,
        decreases n - i,
    {
        if str_equal(entries[i].key.as_str(), hash.as_str()) {
            proof {
                assert(is_first_key_match(store.entries@, content_hash_of(query@), i as int));
            }
            let entry = entries.remove(i);
            if str_equal(entry.query.as_str(), query) {
                return Ok(
                    DynQueryData { db_name, query: entry.query, describe: entry.describe },
                );
            } else {
                return Err(QueryError::HashCollision(query.to_owned(), entry.query));
            }
        }
        i = i + 1;
    }
    Err(QueryError::CacheMiss)
}

/// The deterministic file name a cache record is persisted under: derived
/// from a per-call-site identity rather than from the query text, so that
/// repeated builds overwrite one file instead of accumulating records.
pub fn cache_file_name(input_identity: &str) -> (r: String)
    ensures
        r@ == "query-"@ + content_hash_of(input_identity@) + ".json"@,
{
    let mut name = "query-".to_owned();
    let hash = hash_string(input_identity);
    name.append(hash.as_str());
    name.append(".json");
    name
}

} // verus!
