use vstd::prelude::*;

verus! {

/// Every failure that the catalog, cache and verifier can report.
///
/// All variants except `PersistFailed` abort the current description or
/// verification flow; `PersistFailed` is a non-fatal side-channel report.
#[derive(Debug)]
pub enum QueryError {
    /// A type reference could not be resolved against the catalog: the
    /// referenced numeric id is unknown.
    UnknownTypeOid(u32),
    /// A type reference could not be resolved against the catalog: the
    /// referenced name is unknown.
    UnknownTypeName(String),
    /// `register_custom` found an entry with the same id but a different
    /// descriptor already in the catalog; the offending id is carried.
    DuplicateType(u32),
    /// The live description request failed; the reason is carried verbatim.
    DescribeFailed(String),
    /// No cache entry carries the content hash of the requested query.
    CacheMiss,
    /// A cache entry carries the content hash of the requested query, but
    /// stores a different query text: requested text, then stored text.
    HashCollision(String, String),
    /// The declared argument count disagrees with the descriptor:
    /// expected (from the descriptor), then actual (declared).
    ArityMismatch(usize, usize),
    /// Cache data was produced for another database kind:
    /// expected kind, then the kind found in the data.
    WrongDatabase(String, String),
    /// Writing a cache entry failed; the reason is carried. Non-fatal.
    PersistFailed(String),
}

} // verus!
