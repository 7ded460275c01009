use vstd::prelude::*;

use crate::type_info::{PgCustomType, PgType, PgTypeInfo, PgTypeKind};
use crate::type_info::{is_builtin, str_equal};
use crate::type_laws::lemma_builtin_oid_round_trip;

verus! {

/// Structural equality of two type infos: identical built-in variants,
/// custom types with equal identity and equal structure, or declarations
/// of the same name or oid. Strings are compared by their characters.
pub open spec fn info_eq(a: PgTypeInfo, b: PgTypeInfo) -> bool
    decreases a,
{
    type_eq(a.0, b.0)
}

/// See [`info_eq`].
pub open spec fn type_eq(a: PgType, b: PgType) -> bool
    decreases a,
{
    match a {
        PgType::Custom(ca) => b matches PgType::Custom(cb) && custom_eq(*ca, *cb),
        PgType::DeclareWithName(na) => b matches PgType::DeclareWithName(nb) && na@ == nb@,
        PgType::DeclareWithOid(oa) => b matches PgType::DeclareWithOid(ob) && oa == ob,
        _ => a == b,
    }
}

/// Structural equality of two custom types: same oid, same name, and
/// structurally equal kinds.
pub open spec fn custom_eq(a: PgCustomType, b: PgCustomType) -> bool
    decreases a,
{
    a.oid == b.oid && a.name@ == b.name@ && kind_eq(a.kind, b.kind)
}

/// Structural equality of two kinds.
pub open spec fn kind_eq(a: PgTypeKind, b: PgTypeKind) -> bool
    decreases a,
{
    match a {
        PgTypeKind::Simple => b is Simple,
        PgTypeKind::Domain(ia) => b matches PgTypeKind::Domain(ib) && info_eq(ia, ib),
        PgTypeKind::Array(ia) => b matches PgTypeKind::Array(ib) && info_eq(ia, ib),
        PgTypeKind::Range(ia) => b matches PgTypeKind::Range(ib) && info_eq(ia, ib),
        PgTypeKind::Enum(la) => b matches PgTypeKind::Enum(lb) && labels_eq(la@, lb@),
        PgTypeKind::Composite(fa) => b matches PgTypeKind::Composite(fb) && fields_eq(fa@, fb@),
    }
}

/// Equality of two label lists, character for character.
pub open spec fn labels_eq(a: Seq<String>, b: Seq<String>) -> bool {
    a.len() == b.len() && forall|i: int| 0 <= i < a.len() ==> a[i]@ == b[i]@
}

/// Equality of two field lists: same length, and at each position the same
/// field name and structurally equal field types, in the same order.
pub open spec fn fields_eq(a: Seq<(String, PgTypeInfo)>, b: Seq<(String, PgTypeInfo)>) -> bool
    decreases a,
{
    a.len() == b.len() && forall|i: int|
        0 <= i < a.len() ==> (#[trigger] a[i]).0@ == b[i].0@ && info_eq(a[i].1, b[i].1)
}

pub proof fn lemma_info_eq_refl(a: PgTypeInfo)
    ensures
        info_eq(a, a),
    decreases a,
{
    lemma_type_eq_refl(a.0);
}

pub proof fn lemma_type_eq_refl(a: PgType)
    ensures
        type_eq(a, a),
    decreases a,
{
    match a {
        PgType::Custom(c) => lemma_custom_eq_refl(*c),
        _ => {},
    }
}

pub proof fn lemma_custom_eq_refl(a: PgCustomType)
    ensures
        custom_eq(a, a),
    decreases a,
{
    lemma_kind_eq_refl(a.kind);
}

pub proof fn lemma_kind_eq_refl(a: PgTypeKind)
    ensures
        kind_eq(a, a),
    decreases a,
{
    match a {
        PgTypeKind::Domain(i) => lemma_info_eq_refl(i),
        PgTypeKind::Array(i) => lemma_info_eq_refl(i),
        PgTypeKind::Range(i) => lemma_info_eq_refl(i),
        PgTypeKind::Composite(f) => {
            assert forall|i: int| 0 <= i < f@.len() implies (#[trigger] f@[i]).0@ == f@[i].0@
                && info_eq(f@[i].1, f@[i].1) by {
                lemma_info_eq_refl(f@[i].1);
            }
        },
        _ => {},
    }
}

impl PgTypeInfo {
    /// A structurally equal copy of this type info.
    pub fn duplicate(&self) -> (r: Self)
        ensures
            info_eq(r, *self),
        decreases *self,
    {
        PgTypeInfo(self.0.duplicate())
    }

    /// Structural equality test; see [`info_eq`].
    pub fn equal_to(&self, other: &Self) -> (r: bool)
        ensures
            r == info_eq(*self, *other),
        decreases *self,
    {
        self.0.equal_to(&other.0)
    }
}

impl PgType {
    /// A structurally equal copy of this type.
    pub fn duplicate(&self) -> (r: Self)
        ensures
            type_eq(r, *self),
        decreases *self,
    {
        match self {
            PgType::Custom(c) => PgType::Custom(Box::new(c.duplicate())),
            PgType::DeclareWithName(n) => PgType::DeclareWithName(n.clone()),
            PgType::DeclareWithOid(o) => PgType::DeclareWithOid(*o),
            _ => {
                let oid = self.oid();
                proof {
                    lemma_builtin_oid_round_trip(*self);
                }
                match PgType::try_from_oid(oid) {
                    Some(t) => {
                        proof {
                            lemma_type_eq_refl(*self);
                        }
                        t
                    },
                    None => unreached(),
                }
            },
        }
    }

    /// Structural equality test; see [`type_eq`]. Two built-in types are
    /// the same exactly when they report the same oid.
    pub fn equal_to(&self, other: &Self) -> (r: bool)
        ensures
            r == type_eq(*self, *other),
        decreases *self,
    {
        match (self, other) {
            (PgType::Custom(a), PgType::Custom(b)) => a.equal_to(b),
            (PgType::DeclareWithName(a), PgType::DeclareWithName(b)) => str_equal(
                a.as_str(),
                b.as_str(),
            ),
            (PgType::DeclareWithOid(a), PgType::DeclareWithOid(b)) => *a == *b,
            _ => {
                if self.is_builtin() && other.is_builtin() {
                    let r = self.oid() == other.oid();
                    proof {
                        lemma_builtin_oid_round_trip(*self);
                        lemma_builtin_oid_round_trip(*other);
                        if r {
                            assert(*self == *other);
                            lemma_type_eq_refl(*self);
                        }
                    }
                    r
                } else {
                    false
                }
            },
        }
    }
}

impl PartialEq for PgCustomType {
    /// Identity comparison: two custom types are the same type exactly
    /// when their oids agree. A server may rename a type without changing
    /// its id, so name and kind are metadata, not identity.
    fn eq(&self, other: &PgCustomType) -> (r: bool) {
        self.oid == other.oid
    }
}

impl vstd::std_specs::cmp::PartialEqSpecImpl for PgCustomType {
    open spec fn obeys_eq_spec() -> bool {
        true
    }

    open spec fn eq_spec(&self, other: &PgCustomType) -> bool {
        self.oid == other.oid
    }
}

impl PgCustomType {
    /// A structurally equal copy of this custom type.
    pub fn duplicate(&self) -> (r: Self)
        ensures
            custom_eq(r, *self),
        decreases *self,
    {
        PgCustomType { oid: self.oid, name: self.name.clone(), kind: self.kind.duplicate() }
    }

    /// Structural equality test; see [`custom_eq`]. This is deeper than
    /// `==`, which goes by oid alone.
    pub fn equal_to(&self, other: &Self) -> (r: bool)
        ensures
            r == custom_eq(*self, *other),
        decreases *self,
    {
        self.oid == other.oid && str_equal(self.name.as_str(), other.name.as_str())
            && self.kind.equal_to(&other.kind)
    }
}

impl PgTypeKind {
    /// A structurally equal copy of this kind.
    pub fn duplicate(&self) -> (r: Self)
        ensures
            kind_eq(r, *self),
        decreases *self,
    {
        match self {
            PgTypeKind::Simple => PgTypeKind::Simple,
            PgTypeKind::Domain(i) => PgTypeKind::Domain(i.duplicate()),
            PgTypeKind::Array(i) => PgTypeKind::Array(i.duplicate()),
            PgTypeKind::Range(i) => PgTypeKind::Range(i.duplicate()),
            PgTypeKind::Enum(labels) => PgTypeKind::Enum(duplicate_labels(labels)),
            PgTypeKind::Composite(fields) => PgTypeKind::Composite(duplicate_fields(fields)),
        }
    }

    /// Structural equality test; see [`kind_eq`].
    pub fn equal_to(&self, other: &Self) -> (r: bool)
        ensures
            r == kind_eq(*self, *other),
        decreases *self,
    {
        match (self, other) {
            (PgTypeKind::Simple, PgTypeKind::Simple) => true,
            (PgTypeKind::Domain(a), PgTypeKind::Domain(b)) => a.equal_to(b),
            (PgTypeKind::Array(a), PgTypeKind::Array(b)) => a.equal_to(b),
            (PgTypeKind::Range(a), PgTypeKind::Range(b)) => a.equal_to(b),
            (PgTypeKind::Enum(a), PgTypeKind::Enum(b)) => equal_labels(a, b),
            (PgTypeKind::Composite(a), PgTypeKind::Composite(b)) => equal_fields(a, b),
            _ => false,
        }
    }
}

fn duplicate_labels(v: &Vec<String>) -> (r: Vec<String>)
    ensures
        labels_eq(r@, v@),
        labels_eq(v@, r@),
{
    let mut r: Vec<String> = Vec::new();
    let mut i: usize = 0;
    while i < v.len()
        invariant
            i <= v.len(),
            r@.len() == i,
            forall|j: int| 0 <= j < i ==> r@[j]@ == v@[j]@,
        decreases v.len() - i,
    {
        r.push(v[i].clone());
        i = i + 1;
    }
    r
}

fn equal_labels(a: &Vec<String>, b: &Vec<String>) -> (r: bool)
    ensures
        r == labels_eq(a@, b@),
{
    if a.len() != b.len() {
        return false;
    }
    let mut i: usize = 0;
    while i < a.len()
        invariant
            i <= a.len(),
            a@.len() == b@.len(),
            forall|j: int| 0 <= j < i ==> a@[j]@ == b@[j]@,
        decreases a.len() - i,
    {
        if !str_equal(a[i].as_str(), b[i].as_str()) {
            return false;
        }
        i = i + 1;
    }
    true
}

fn duplicate_fields(v: &Vec<(String, PgTypeInfo)>) -> (r: Vec<(String, PgTypeInfo)>)
    ensures
        fields_eq(r@, v@),
    decreases *v,
{
    let mut r: Vec<(String, PgTypeInfo)> = Vec::new();
    let mut i: usize = 0;
    while i < v.len()
        invariant
            i <= v.len(),
            r@.len() == i,
            forall|j: int| 0 <= j < i ==> (#[trigger] r@[j]).0@ == v@[j].0@ && info_eq(
                r@[j].1,
                v@[j].1,
            ),
        decreases v.len() - i,
    {
        let name = v[i].0.clone();
        let info = v[i].1.duplicate();
        r.push((name, info));
        i = i + 1;
    }
    r
}

fn equal_fields(a: &Vec<(String, PgTypeInfo)>, b: &Vec<(String, PgTypeInfo)>) -> (r: bool)
    ensures
        r == fields_eq(a@, b@),
    decreases *a,
{
    if a.len() != b.len() {
        return false;
    }
    let mut i: usize = 0;
    while i < a.len()
        invariant
            i <= a.len(),
            a@.len() == b@.len(),
            forall|j: int| 0 <= j < i ==> (#[trigger] a@[j]).0@ == b@[j].0@ && info_eq(
                a@[j].1,
                b@[j].1,
            ),
        decreases a.len() - i,
    {
        if !str_equal(a[i].0.as_str(), b[i].0.as_str()) {
            return false;
        }
        if !a[i].1.equal_to(&b[i].1) {
            return false;
        }
        i = i + 1;
    }
    true
}

} // verus!
