use vstd::prelude::*;

use crate::error::QueryError;
use crate::type_eq::{custom_eq, lemma_custom_eq_refl};
use crate::type_info::{PgCustomType, PgType, PgTypeInfo};
use crate::type_info::{builtin_of_name, builtin_of_oid, is_resolved_type, kind_spec, name_spec};
use crate::type_info::oid_spec;
use crate::type_laws::{lemma_name_to_builtin, lemma_oid_to_builtin};

verus! {

/// Some catalog entry carries this oid.
pub open spec fn has_custom_oid(s: Seq<PgCustomType>, oid: u32) -> bool {
    exists|i: int| 0 <= i < s.len() && s[i].oid == oid
}

/// `i` is the first position whose entry carries this oid.
pub open spec fn is_first_oid_match(s: Seq<PgCustomType>, oid: u32, i: int) -> bool {
    &&& 0 <= i < s.len()
    &&& s[i].oid == oid
    &&& forall|j: int| 0 <= j < i ==> s[j].oid != oid
}

/// Some catalog entry carries this name.
pub open spec fn has_custom_name(s: Seq<PgCustomType>, name: Seq<char>) -> bool {
    exists|i: int| 0 <= i < s.len() && s[i].name@ == name
}

/// `i` is the first position whose entry carries this name.
pub open spec fn is_first_name_match(s: Seq<PgCustomType>, name: Seq<char>, i: int) -> bool {
    &&& 0 <= i < s.len()
    &&& s[i].name@ == name
    &&& forall|j: int| 0 <= j < i ==> s[j].name@ != name
}

/// The catalog can resolve this reference: it is already resolved, or its
/// id or name is known to the built-in table or to the extension entries.
pub open spec fn resolvable(cat: Seq<PgCustomType>, a: PgTypeInfo) -> bool {
    match a.0 {
        PgType::DeclareWithOid(oid) => builtin_of_oid(oid) is Some || has_custom_oid(cat, oid),
        PgType::DeclareWithName(name) => builtin_of_name(name@) is Some || has_custom_name(
            cat,
            name@,
        ),
        _ => true,
    }
}

/// `b` is what resolving `a` against the extension entries `cat` leaves
/// behind: an already-resolved reference is untouched, a by-id or by-name
/// reference becomes the built-in type or a structural copy of the first
/// matching extension entry.
pub open spec fn resolution_of(cat: Seq<PgCustomType>, a: PgTypeInfo, b: PgTypeInfo) -> bool {
    &&& is_resolved_type(b.0)
    &&& (is_resolved_type(a.0) ==> b == a)
    &&& (a.0 matches PgType::DeclareWithOid(oid) ==> (match builtin_of_oid(oid) {
        Some(t) => b.0 == t,
        None => b.0 matches PgType::Custom(c) && (exists|i: int|
            is_first_oid_match(cat, oid, i) && custom_eq(*c, cat[i])),
    }))
    &&& (a.0 matches PgType::DeclareWithName(name) ==> (match builtin_of_name(name@) {
        Some(t) => b.0 == t,
        None => b.0 matches PgType::Custom(c) && (exists|i: int|
            is_first_name_match(cat, name@, i) && custom_eq(*c, cat[i])),
    }))
}

/// A reference that something resolves to was resolvable to begin with.
pub proof fn lemma_resolution_of_resolvable(cat: Seq<PgCustomType>, a: PgTypeInfo, b: PgTypeInfo)
    requires
        resolution_of(cat, a, b),
    ensures
        resolvable(cat, a),
{
    match a.0 {
        PgType::DeclareWithOid(oid) => {
            if builtin_of_oid(oid) is None {
                let i = choose|i: int| is_first_oid_match(cat, oid, i) && custom_eq(
                    *b.0->Custom_0,
                    cat[i],
                );
                assert(0 <= i < cat.len() && cat[i].oid == oid);
            }
        },
        PgType::DeclareWithName(name) => {
            if builtin_of_name(name@) is None {
                let i = choose|i: int| is_first_name_match(cat, name@, i) && custom_eq(
                    *b.0->Custom_0,
                    cat[i],
                );
                assert(0 <= i < cat.len() && cat[i].name@ == name@);
            }
        },
        _ => {},
    }
}

/// Resolution is idempotent: what one resolution pass leaves behind, a
/// second pass against the same catalog leaves exactly as it is.
pub proof fn lemma_resolution_idempotent(cat: Seq<PgCustomType>, a: PgTypeInfo, b: PgTypeInfo)
    requires
        resolution_of(cat, a, b),
    ensures
        resolution_of(cat, b, b),
{
}

/// Once a reference is resolved, further resolution passes leave its
/// structural kind untouched: a descriptor reports a consistent kind on
/// every read after the first.
pub proof fn lemma_resolved_kind_stable(cat: Seq<PgCustomType>, a: PgTypeInfo, b: PgTypeInfo)
    requires
        is_resolved_type(a.0),
        resolution_of(cat, a, b),
    ensures
        kind_spec(b.0) == kind_spec(a.0),
{
}

/// Registering a descriptor and then registering the structurally
/// identical descriptor again is idempotent: after the first insertion
/// the catalog holds an entry carrying the descriptor's oid that is
/// structurally equal to it, which is exactly the case in which
/// `register_custom` succeeds without changing the catalog.
pub proof fn lemma_register_idempotent(s: Seq<PgCustomType>, d: PgCustomType)
    ensures
        exists|i: int|
            0 <= i < s.push(d).len() && (#[trigger] s.push(d)[i]).oid == d.oid && custom_eq(
                s.push(d)[i],
                d,
            ),
{
    lemma_custom_eq_refl(d);
    assert(s.push(d)[s.len() as int] == d);
}

/// The two-tier type catalog: the immutable built-in table (shared by all
/// connections and kept in the `PgType` variants) and a mutable,
/// connection-scoped extension holding custom types discovered at runtime.
///
/// The extension grows monotonically: entries are never evicted, because a
/// custom type does not change identity during a connection's lifetime.
pub struct TypeCatalog {
    customs: Vec<PgCustomType>,
}

impl TypeCatalog {
    /// The custom entries, in registration order.
    pub closed spec fn contents(&self) -> Seq<PgCustomType> {
        self.customs@
    }

    /// Well-formed: no two custom entries share an oid.
    pub open spec fn wf(&self) -> bool {
        forall|i: int, j: int|
            0 <= i < j < self.contents().len() ==> (#[trigger] self.contents()[i]).oid != (
            #[trigger] self.contents()[j]).oid
    }

    /// An empty catalog: the built-in table only.
    pub fn new() -> (r: Self)
        ensures
            r.contents() == Seq::<PgCustomType>::empty(),
            r.wf(),
    {
        TypeCatalog { customs: Vec::new() }
    }

    /// Searches the built-in table first, then the connection extension.
    /// Returns nothing if the oid is unknown; never fetches from a server.
    pub fn lookup_by_id(&self, oid: u32) -> (r: Option<PgTypeInfo>)
        ensures
            builtin_of_oid(oid) matches Some(t) ==> r == Some(PgTypeInfo(t)),
            builtin_of_oid(oid) is None ==> match r {
                Some(info) => info.0 matches PgType::Custom(c) && (exists|i: int|
                    is_first_oid_match(self.contents(), oid, i) && custom_eq(
                        *c,
                        self.contents()[i],
                    )),
                None => !has_custom_oid(self.contents(), oid),
            },
            r matches Some(info) ==> is_resolved_type(info.0) && oid_spec(info.0) == oid,
    {
        match PgType::try_from_oid(oid) {
            Some(t) => {
                proof {
                    lemma_oid_to_builtin(oid);
                }
                Some(PgTypeInfo(t))
            },
            None => {
                let n = self.customs.len();
                let mut i: usize = 0;
                while i < n
                    invariant
                        builtin_of_oid(oid) is None,
                        n == self.contents().len(),
                        i <= n,
                        forall|j: int| 0 <= j < i ==> (#[trigger] self.contents()[j]).oid != oid,
                    decreases n - i,
                {
                    if self.customs[i].oid == oid {
                        let c = self.customs[i].duplicate();
                        proof {
                            assert(is_first_oid_match(self.contents(), oid, i as int));
                        }
                        return Some(PgTypeInfo(PgType::Custom(Box::new(c))));
                    }
                    i = i + 1;
                }
                None
            },
        }
    }

    /// Searches the built-in table first, then the connection extension,
    /// keyed by name.
    pub fn lookup_by_name(&self, name: &str) -> (r: Option<PgTypeInfo>)
        ensures
            builtin_of_name(name@) matches Some(t) ==> r == Some(PgTypeInfo(t)),
            builtin_of_name(name@) is None ==> match r {
                Some(info) => info.0 matches PgType::Custom(c) && (exists|i: int|
                    is_first_name_match(self.contents(), name@, i) && custom_eq(
                        *c,
                        self.contents()[i],
                    )),
                None => !has_custom_name(self.contents(), name@),
            },
            r matches Some(info) ==> is_resolved_type(info.0) && name_spec(info.0) == name@,
    {
        match PgType::try_from_name(name) {
            Some(t) => {
                proof {
                    lemma_name_to_builtin(name@);
                }
                Some(PgTypeInfo(t))
            },
            None => {
                let n = self.customs.len();
                let mut i: usize = 0;
                while i < n
                    invariant
                        builtin_of_name(name@) is None,
                        n == self.contents().len(),
                        i <= n,
                        forall|j: int|
                            0 <= j < i ==> (#[trigger] self.contents()[j]).name@ != name@,
                    decreases n - i,
                {
                    if crate::type_info::str_equal(self.customs[i].name.as_str(), name) {
                        let c = self.customs[i].duplicate();
                        proof {
                            assert(is_first_name_match(self.contents(), name@, i as int));
                        }
                        return Some(PgTypeInfo(PgType::Custom(Box::new(c))));
                    }
                    i = i + 1;
                }
                None
            },
        }
    }

    /// Inserts a custom type into the connection extension.
    ///
    /// Re-registering a structurally identical descriptor is idempotent
    /// and succeeds without changing the catalog; a descriptor whose oid
    /// is already taken by a different descriptor is rejected with
    /// `DuplicateType`, and the catalog is left unchanged.
    pub fn register_custom(&mut self, descriptor: PgCustomType) -> (r: Result<(), QueryError>)
        requires
            old(self).wf(),
        ensures
            final(self).wf(),
            !has_custom_oid(old(self).contents(), descriptor.oid) ==> r is Ok
                && final(self).contents() == old(self).contents().push(descriptor),
            (exists|i: int|
                0 <= i < old(self).contents().len() && (#[trigger] old(self).contents()[i]).oid
                    == descriptor.oid && custom_eq(old(self).contents()[i], descriptor)) ==> r is Ok
                && final(self).contents() == old(self).contents(),
            (exists|i: int|
                0 <= i < old(self).contents().len() && (#[trigger] old(self).contents()[i]).oid
                    == descriptor.oid && !custom_eq(old(self).contents()[i], descriptor)) ==> r
                == Err::<(), QueryError>(QueryError::DuplicateType(descriptor.oid))
                && final(self).contents() == old(self).contents(),
    {
        let n = self.customs.len();
        let mut i: usize = 0;
        while i < n
            invariant
                old(self) == self,
                old(self).wf(),
                n == self.contents().len(),
                i <= n,
                forall|j: int| 0 <= j < i ==> (#[trigger] self.contents()[j]).oid
                    != descriptor.oid,
            decreases n - i,
        {
            if self.customs[i].oid == descriptor.oid {
                if self.customs[i].equal_to(&descriptor) {
                    return Ok(());
                } else {
                    return Err(QueryError::DuplicateType(descriptor.oid));
                }
            }
            i = i + 1;
        }
        proof {
            let olds = self.contents();
            let news = self.contents().push(descriptor);
            assert forall|a: int, b: int| 0 <= a < b < news.len() implies (
            #[trigger] news[a]).oid != (#[trigger] news[b]).oid by {
                if b < olds.len() {
                    assert(news[a] == olds[a] && news[b] == olds[b]);
                } else {
                    assert(news[a] == olds[a] && news[b] == descriptor);
                }
            }
        }
        self.customs.push(descriptor);
        Ok(())
    }

    /// Resolves a deferred type reference in place against this catalog.
    ///
    /// An already-resolved reference is left untouched and the call
    /// succeeds: resolution is idempotent. A by-id or by-name reference is
    /// looked up; on a hit the reference transitions to the resolved type,
    /// on a miss the reference is left unchanged and the unresolved id or
    /// name is reported, so that the caller can fetch server metadata and
    /// retry.
    pub fn resolve(&self, info: &mut PgTypeInfo) -> (r: Result<(), QueryError>)
        ensures
            is_resolved_type(old(info).0) ==> r is Ok && *final(info) == *old(info),
            old(info).0 matches PgType::DeclareWithOid(oid) ==> {
                &&& builtin_of_oid(oid) matches Some(t) ==> r is Ok && final(info).0 == t
                &&& (builtin_of_oid(oid) is None && has_custom_oid(self.contents(), oid)) ==> r
                    is Ok && (final(info).0 matches PgType::Custom(c) && (exists|i: int|
                    is_first_oid_match(self.contents(), oid, i) && custom_eq(
                        *c,
                        self.contents()[i],
                    )))
                &&& (builtin_of_oid(oid) is None && !has_custom_oid(self.contents(), oid)) ==> r
                    == Err::<(), QueryError>(QueryError::UnknownTypeOid(oid)) && *final(info)
                    == *old(info)
            },
            old(info).0 matches PgType::DeclareWithName(name) ==> {
                &&& builtin_of_name(name@) matches Some(t) ==> r is Ok && final(info).0 == t
                &&& (builtin_of_name(name@) is None && has_custom_name(self.contents(), name@))
                    ==> r is Ok && (final(info).0 matches PgType::Custom(c) && (exists|i: int|
                    is_first_name_match(self.contents(), name@, i) && custom_eq(
                        *c,
                        self.contents()[i],
                    )))
                &&& (builtin_of_name(name@) is None && !has_custom_name(self.contents(), name@))
                    ==> (r matches Err(e) && e matches QueryError::UnknownTypeName(m) && m@
                    == name@) && *final(info) == *old(info)
            },
            r is Ok ==> is_resolved_type(final(info).0),
            oid_spec(final(info).0) == oid_spec(old(info).0) || old(info).0 is DeclareWithName,
            r is Ok <==> resolvable(self.contents(), *old(info)),
            r is Ok ==> resolution_of(self.contents(), *old(info), *final(info)),
            r is Err ==> *final(info) == *old(info),
    {
        let looked_up: Option<PgTypeInfo> = match &info.0 {
            PgType::DeclareWithOid(oid) => {
                let o = *oid;
                match self.lookup_by_id(o) {
                    Some(found) => Some(found),
                    None => {
                        return Err(QueryError::UnknownTypeOid(o));
                    },
                }
            },
            PgType::DeclareWithName(name) => {
                match self.lookup_by_name(name.as_str()) {
                    Some(found) => Some(found),
                    None => {
                        return Err(QueryError::UnknownTypeName(name.clone()));
                    },
                }
            },
            _ => None,
        };
        match looked_up {
            Some(found) => {
                *info = found;
            },
            None => {},
        }
        Ok(())
    }
}

} // verus!
