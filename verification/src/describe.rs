use vstd::prelude::*;

use crate::catalog::{TypeCatalog, lemma_resolution_of_resolvable, resolution_of, resolvable};
use crate::error::QueryError;
use crate::type_info::{PgType, PgTypeInfo, is_resolved_type, str_equal};
use vstd::pervasive::VecAdditionalExecFns;

verus! {

/// One result column of a query: its name, its type, and whether the
/// server reported it as nullable (absent when the server did not say).
pub struct ColumnDescriptor {
    pub name: String,
    pub type_info: PgTypeInfo,
    pub nullable: Option<bool>,
}

/// The type signature of one query, as a description request reports it:
/// the parameter types and the result columns, both in server order.
/// Immutable once produced, except for resolving its type references.
pub struct QueryDescriptor {
    pub param_types: Vec<PgTypeInfo>,
    pub columns: Vec<ColumnDescriptor>,
}

impl QueryDescriptor {
    /// Every type reference in this descriptor can be resolved against a
    /// catalog with extension entries `cat`.
    pub open spec fn all_resolvable(&self, cat: Seq<crate::type_info::PgCustomType>) -> bool {
        &&& forall|i: int|
            0 <= i < self.param_types@.len() ==> resolvable(cat, #[trigger] self.param_types@[i])
        &&& forall|i: int|
            0 <= i < self.columns@.len() ==> resolvable(
                cat,
                (#[trigger] self.columns@[i]).type_info,
            )
    }

    /// Every type reference in this descriptor is resolved.
    pub open spec fn all_resolved(&self) -> bool {
        &&& forall|i: int|
            0 <= i < self.param_types@.len() ==> is_resolved_type(
                (#[trigger] self.param_types@[i]).0,
            )
        &&& forall|i: int|
            0 <= i < self.columns@.len() ==> is_resolved_type(
                (#[trigger] self.columns@[i]).type_info.0,
            )
    }

    /// Validates a caller's declared argument count against this
    /// descriptor: succeeds exactly when the count equals the number of
    /// declared parameters (zero included), and otherwise reports both the
    /// expected and the actual count.
    pub fn verify(&self, declared_argument_count: usize) -> (r: Result<(), QueryError>)
        ensures
            r is Ok <==> declared_argument_count == self.param_types@.len(),
            declared_argument_count != self.param_types@.len() ==> (r matches Err(e) && e matches
                QueryError::ArityMismatch(expected, actual) && expected == self.param_types@.len()
                && actual == declared_argument_count),
    {
        let expected = self.param_types.len();
        if declared_argument_count == expected {
            Ok(())
        } else {
            Err(QueryError::ArityMismatch(expected, declared_argument_count))
        }
    }

    /// Resolves every type reference in this descriptor against the
    /// catalog, eagerly and in place.
    ///
    /// Succeeds exactly when every embedded reference is known to the
    /// catalog; the first unknown one aborts the pass with `UnknownType`,
    /// leaving it and everything after it unresolved (and retryable).
    /// Column names and nullability, and the order of parameters and
    /// columns, are never touched.
    pub fn resolve_all(&mut self, catalog: &TypeCatalog) -> (r: Result<(), QueryError>)
        ensures
            r is Ok <==> old(self).all_resolvable(catalog.contents()),
            final(self).param_types@.len() == old(self).param_types@.len(),
            final(self).columns@.len() == old(self).columns@.len(),
            forall|i: int|
                0 <= i < old(self).param_types@.len() ==> (resolution_of(
                    catalog.contents(),
                    old(self).param_types@[i],
                    #[trigger] final(self).param_types@[i],
                ) || final(self).param_types@[i] == old(self).param_types@[i]),
            r is Ok ==> forall|i: int|
                0 <= i < old(self).param_types@.len() ==> resolution_of(
                    catalog.contents(),
                    old(self).param_types@[i],
                    #[trigger] final(self).param_types@[i],
                ),
            forall|i: int|
                0 <= i < old(self).columns@.len() ==> ((#[trigger] final(self).columns@[i]).name
                    == old(self).columns@[i].name && final(self).columns@[i].nullable == old(
                    self,
                ).columns@[i].nullable && (resolution_of(
                    catalog.contents(),
                    old(self).columns@[i].type_info,
                    final(self).columns@[i].type_info,
                ) || final(self).columns@[i].type_info == old(self).columns@[i].type_info)),
            r is Ok ==> forall|i: int|
                0 <= i < old(self).columns@.len() ==> resolution_of(
                    catalog.contents(),
                    old(self).columns@[i].type_info,
                    (#[trigger] final(self).columns@[i]).type_info,
                ),
            r is Ok ==> final(self).all_resolved(),
            r matches Err(e) ==> (e is UnknownTypeOid || e is UnknownTypeName),
    {
        let ghost cat = catalog.contents();
        let np = self.param_types.len();
        let mut i: usize = 0;
        while i < np
            invariant
                cat == catalog.contents(),
                np == self.param_types@.len(),
                self.param_types@.len() == old(self).param_types@.len(),
                self.columns@ == old(self).columns@,
                i <= np,
                forall|j: int|
                    0 <= j < i ==> resolution_of(
                        cat,
                        old(self).param_types@[j],
                        #[trigger] self.param_types@[j],
                    ),
                forall|j: int|
                    i <= j < np ==> #[trigger] self.param_types@[j] == old(self).param_types@[j],
            decreases np - i,
        {
            let mut t = PgTypeInfo(PgType::DeclareWithOid(0));
            self.param_types.set_and_swap(i, &mut t);
            match catalog.resolve(&mut t) {
                Ok(()) => {
                    self.param_types.set(i, t);
                },
                Err(e) => {
                    self.param_types.set(i, t);
                    return Err(e);
                },
            }
            i = i + 1;
        }
        let nc = self.columns.len();
        let mut k: usize = 0;
        while k < nc
            invariant
                cat == catalog.contents(),
                nc == self.columns@.len(),
                self.columns@.len() == old(self).columns@.len(),
                self.param_types@.len() == old(self).param_types@.len(),
                forall|j: int|
                    0 <= j < self.param_types@.len() ==> resolution_of(
                        cat,
                        old(self).param_types@[j],
                        #[trigger] self.param_types@[j],
                    ),
                k <= nc,
                forall|j: int|
                    0 <= j < k ==> ((#[trigger] self.columns@[j]).name == old(
                        self,
                    ).columns@[j].name && self.columns@[j].nullable == old(
                        self,
                    ).columns@[j].nullable && resolution_of(
                        cat,
                        old(self).columns@[j].type_info,
                        self.columns@[j].type_info,
                    )),
                forall|j: int| k <= j < nc ==> #[trigger] self.columns@[j] == old(
                    self,
                ).columns@[j],
            decreases nc - k,
        {
            let mut col = ColumnDescriptor {
                name: String::new(),
                type_info: PgTypeInfo(PgType::DeclareWithOid(0)),
                nullable: None,
            };
            self.columns.set_and_swap(k, &mut col);
            match catalog.resolve(&mut col.type_info) {
                Ok(()) => {
                    self.columns.set(k, col);
                },
                Err(e) => {
                    self.columns.set(k, col);
                    return Err(e);
                },
            }
            k = k + 1;
        }
        proof {
            assert forall|j: int| 0 <= j < old(self).param_types@.len() implies resolvable(
                cat,
                #[trigger] old(self).param_types@[j],
            ) by {
                lemma_resolution_of_resolvable(
                    cat,
                    old(self).param_types@[j],
                    self.param_types@[j],
                );
            }
            assert forall|j: int| 0 <= j < old(self).columns@.len() implies resolvable(
                cat,
                (#[trigger] old(self).columns@[j]).type_info,
            ) by {
                lemma_resolution_of_resolvable(
                    cat,
                    old(self).columns@[j].type_info,
                    self.columns@[j].type_info,
                );
            }
        }
        Ok(())
    }
}

/// A query together with its live-obtained description, ready to verify
/// and to persist.
pub struct QueryData {
    pub query: String,
    pub describe: QueryDescriptor,
}

/// A query's description as read back from the persistent cache, tagged
/// with the database kind it was produced for.
pub struct DynQueryData {
    pub db_name: String,
    pub query: String,
    pub describe: QueryDescriptor,
}

impl QueryData {
    /// Pairs a query with the description a live connection reported for
    /// it.
    pub fn new(query: &str, describe: QueryDescriptor) -> (r: Self)
        ensures
            r.query@ == query@,
            r.describe == describe,
    {
        QueryData { query: query.to_owned(), describe }
    }

    /// Adopts cached query data, provided it was produced for the
    /// expected database kind; data for any other kind is rejected with
    /// `WrongDatabase` rather than silently reinterpreted.
    ///
    /// Cached data always names the database kind it came from, so an
    /// empty tag is a caller error and excluded.
    pub fn from_dyn_data(dyn_data: DynQueryData, expected_db: &str) -> (r: Result<
        QueryData,
        QueryError,
    >)
        requires
            dyn_data.db_name@.len() > 0,
        ensures
            dyn_data.db_name@ == expected_db@ ==> (r matches Ok(q) && q.query == dyn_data.query
                && q.describe == dyn_data.describe),
            dyn_data.db_name@ != expected_db@ ==> (r matches Err(e) && e matches
                QueryError::WrongDatabase(expected, got) && expected@ == expected_db@ && got@
                == dyn_data.db_name@),
    {
        if str_equal(dyn_data.db_name.as_str(), expected_db) {
            Ok(QueryData { query: dyn_data.query, describe: dyn_data.describe })
        } else {
            Err(QueryError::WrongDatabase(expected_db.to_owned(), dyn_data.db_name))
        }
    }
}

} // verus!
