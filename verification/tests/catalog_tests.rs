use querycat::{PgCustomType, PgType, PgTypeInfo, PgTypeKind, QueryError, TypeCatalog};

fn int4() -> PgTypeInfo {
    PgTypeInfo::try_from_oid(23).unwrap()
}

#[test]
fn builtin_int4_by_id_and_name() {
    let catalog = TypeCatalog::new();
    let by_id = catalog.lookup_by_id(23).unwrap();
    assert_eq!(by_id.name(), "int4");
    assert_eq!(by_id.oid(), 23);
    assert!(matches!(by_id.__kind(), PgTypeKind::Simple));
    let by_name = catalog.lookup_by_name("int4").unwrap();
    assert_eq!(by_name.oid(), 23);
    assert!(by_name.equal_to(&by_id));
}

#[test]
fn builtin_round_trips() {
    let catalog = TypeCatalog::new();
    for oid in [
        16u32, 17, 18, 19, 20, 21, 23, 25, 26, 114, 199, 600, 705, 1000, 1007, 1042, 1043, 1082,
        1114, 1184, 1560, 1700, 2249, 2950, 3802, 3904, 3926, 4072, 4073,
    ] {
        let info = catalog.lookup_by_id(oid).unwrap();
        assert_eq!(info.oid(), oid);
        let name = info.name();
        let again = catalog.lookup_by_name(name.as_str()).unwrap();
        assert_eq!(again.oid(), oid);
        assert!(again.equal_to(&info));
    }
}

#[test]
fn unknown_ids_and_names_miss() {
    let catalog = TypeCatalog::new();
    assert!(catalog.lookup_by_id(99999).is_none());
    assert!(catalog.lookup_by_name("no_such_type").is_none());
    assert!(PgType::try_from_oid(5).is_none());
    assert!(PgType::try_from_name("no_such_type").is_none());
}

#[test]
fn array_kind_is_consistent_across_reads() {
    let info = PgTypeInfo::try_from_oid(1007).unwrap();
    assert_eq!(info.name(), "_int4");
    let first = info.__kind();
    let second = info.__kind();
    match (first, second) {
        (PgTypeKind::Array(a), PgTypeKind::Array(b)) => {
            assert_eq!(a.name(), "int4");
            assert_eq!(b.name(), "int4");
            assert!(a.equal_to(&b));
        }
        _ => panic!("expected array kinds"),
    }
}

#[test]
fn register_custom_is_idempotent() {
    let mut catalog = TypeCatalog::new();
    let rarity = PgCustomType {
        oid: 16384,
        name: "CARD_RARITY".to_string(),
        kind: PgTypeKind::Enum(vec!["common".to_string(), "rare".to_string()]),
    };
    assert!(catalog.register_custom(rarity.duplicate()).is_ok());
    assert!(catalog.register_custom(rarity.duplicate()).is_ok());
    let found = catalog.lookup_by_id(16384).unwrap();
    assert_eq!(found.name(), "CARD_RARITY");
}

#[test]
fn register_custom_rejects_same_id_different_kind() {
    let mut catalog = TypeCatalog::new();
    let rarity = PgCustomType {
        oid: 16384,
        name: "CARD_RARITY".to_string(),
        kind: PgTypeKind::Enum(vec!["common".to_string(), "rare".to_string()]),
    };
    assert!(catalog.register_custom(rarity).is_ok());
    let clash = PgCustomType {
        oid: 16384,
        name: "CARD_RARITY".to_string(),
        kind: PgTypeKind::Simple,
    };
    match catalog.register_custom(clash) {
        Err(QueryError::DuplicateType(oid)) => assert_eq!(oid, 16384),
        _ => panic!("expected DuplicateType"),
    }
    let found = catalog.lookup_by_id(16384).unwrap();
    assert!(matches!(found.__kind(), PgTypeKind::Enum(_)));
}

#[test]
fn composite_custom_type_resolves_with_field_order() {
    let mut catalog = TypeCatalog::new();
    let rarity = PgCustomType {
        oid: 16384,
        name: "CARD_RARITY".to_string(),
        kind: PgTypeKind::Enum(vec!["common".to_string(), "rare".to_string()]),
    };
    assert!(catalog.register_custom(rarity).is_ok());
    let card = PgCustomType {
        oid: 16385,
        name: "card".to_string(),
        kind: PgTypeKind::Composite(vec![
            ("rarity".to_string(), PgTypeInfo::with_name("CARD_RARITY")),
            ("id".to_string(), int4()),
        ]),
    };
    assert!(catalog.register_custom(card).is_ok());

    let mut type_ref = PgTypeInfo::with_name("card");
    assert!(!type_ref.is_resolved());
    assert!(catalog.resolve(&mut type_ref).is_ok());
    assert!(type_ref.is_resolved());
    assert_eq!(type_ref.oid(), 16385);
    assert_eq!(type_ref.name(), "card");
    match type_ref.__kind() {
        PgTypeKind::Composite(fields) => {
            assert_eq!(fields.len(), 2);
            assert_eq!(fields[0].0, "rarity");
            assert_eq!(fields[1].0, "id");
            assert_eq!(fields[1].1.oid(), 23);
        }
        _ => panic!("expected composite kind"),
    }
}

#[test]
fn resolve_is_idempotent() {
    let mut catalog = TypeCatalog::new();
    let rarity = PgCustomType {
        oid: 16384,
        name: "CARD_RARITY".to_string(),
        kind: PgTypeKind::Enum(vec!["common".to_string()]),
    };
    assert!(catalog.register_custom(rarity).is_ok());

    let mut by_oid = PgTypeInfo::with_oid(23);
    assert!(catalog.resolve(&mut by_oid).is_ok());
    let once = by_oid.duplicate();
    assert!(catalog.resolve(&mut by_oid).is_ok());
    assert!(by_oid.equal_to(&once));

    let mut by_name = PgTypeInfo::with_name("CARD_RARITY");
    assert!(catalog.resolve(&mut by_name).is_ok());
    let once = by_name.duplicate();
    assert!(catalog.resolve(&mut by_name).is_ok());
    assert!(by_name.equal_to(&once));
}

#[test]
fn resolve_misses_report_the_reference() {
    let catalog = TypeCatalog::new();
    let mut by_oid = PgTypeInfo::with_oid(99999);
    match catalog.resolve(&mut by_oid) {
        Err(QueryError::UnknownTypeOid(oid)) => assert_eq!(oid, 99999),
        _ => panic!("expected UnknownTypeOid"),
    }
    assert!(!by_oid.is_resolved());
    let mut by_name = PgTypeInfo::with_name("mystery");
    match catalog.resolve(&mut by_name) {
        Err(QueryError::UnknownTypeName(name)) => assert_eq!(name, "mystery"),
        _ => panic!("expected UnknownTypeName"),
    }
    assert!(!by_name.is_resolved());
}

#[test]
fn declared_names_are_visible_until_resolved() {
    let declared = PgTypeInfo::with_name("NODE_TYPE");
    assert_eq!(declared.get_custom_type(), Some("NODE_TYPE".to_string()));
    assert!(int4().get_custom_type().is_none());
    assert_eq!(declared.name(), "NODE_TYPE");
}

#[test]
fn feature_gates_follow_the_type() {
    assert_eq!(
        PgTypeInfo::try_from_oid(2950).unwrap().__type_feature_gate(),
        Some("uuid")
    );
    assert_eq!(
        PgTypeInfo::try_from_oid(1082).unwrap().__type_feature_gate(),
        Some("time")
    );
    assert_eq!(
        PgTypeInfo::try_from_oid(3802).unwrap().__type_feature_gate(),
        Some("json")
    );
    assert_eq!(
        PgTypeInfo::try_from_oid(869).unwrap().__type_feature_gate(),
        Some("ipnetwork")
    );
    assert_eq!(
        PgTypeInfo::try_from_oid(1700).unwrap().__type_feature_gate(),
        Some("bigdecimal")
    );
    assert_eq!(PgTypeInfo::try_from_oid(23).unwrap().__type_feature_gate(), None);
}

#[test]
fn custom_equality_goes_by_oid() {
    let a = PgCustomType {
        oid: 16384,
        name: "one_name".to_string(),
        kind: PgTypeKind::Simple,
    };
    let b = PgCustomType {
        oid: 16384,
        name: "another_name".to_string(),
        kind: PgTypeKind::Simple,
    };
    let c = PgCustomType {
        oid: 16385,
        name: "one_name".to_string(),
        kind: PgTypeKind::Simple,
    };
    assert!(a == b);
    assert!(a != c);
    assert!(!a.equal_to(&b));
}
