use querycat::{
    ColumnDescriptor, DynQueryData, PgCustomType, PgTypeInfo, PgTypeKind, QueryData,
    QueryDescriptor, QueryError, TypeCatalog,
};

fn int4() -> PgTypeInfo {
    PgTypeInfo::try_from_oid(23).unwrap()
}

#[test]
fn verify_rejects_mismatched_arity() {
    let descriptor = QueryDescriptor {
        param_types: vec![int4(), int4(), int4()],
        columns: Vec::new(),
    };
    match descriptor.verify(2) {
        Err(QueryError::ArityMismatch(expected, actual)) => {
            assert_eq!(expected, 3);
            assert_eq!(actual, 2);
        }
        _ => panic!("expected ArityMismatch"),
    }
    assert!(descriptor.verify(3).is_ok());
}

#[test]
fn verify_accepts_zero_when_counts_match() {
    let descriptor = QueryDescriptor {
        param_types: Vec::new(),
        columns: Vec::new(),
    };
    assert!(descriptor.verify(0).is_ok());
    match descriptor.verify(1) {
        Err(QueryError::ArityMismatch(expected, actual)) => {
            assert_eq!(expected, 0);
            assert_eq!(actual, 1);
        }
        _ => panic!("expected ArityMismatch"),
    }
}

#[test]
fn resolve_all_resolves_every_reference() {
    let mut catalog = TypeCatalog::new();
    let rarity = PgCustomType {
        oid: 16384,
        name: "CARD_RARITY".to_string(),
        kind: PgTypeKind::Enum(vec!["common".to_string()]),
    };
    assert!(catalog.register_custom(rarity).is_ok());

    let mut descriptor = QueryDescriptor {
        param_types: vec![PgTypeInfo::with_oid(23), PgTypeInfo::with_name("CARD_RARITY")],
        columns: vec![ColumnDescriptor {
            name: "rarity".to_string(),
            type_info: PgTypeInfo::with_name("CARD_RARITY"),
            nullable: Some(false),
        }],
    };
    assert!(descriptor.resolve_all(&catalog).is_ok());
    assert!(descriptor.param_types[0].is_resolved());
    assert_eq!(descriptor.param_types[0].oid(), 23);
    assert!(descriptor.param_types[1].is_resolved());
    assert_eq!(descriptor.param_types[1].oid(), 16384);
    assert_eq!(descriptor.columns[0].name, "rarity");
    assert_eq!(descriptor.columns[0].nullable, Some(false));
    assert!(descriptor.columns[0].type_info.is_resolved());
}

#[test]
fn resolve_all_reports_the_first_unknown_type() {
    let catalog = TypeCatalog::new();
    let mut descriptor = QueryDescriptor {
        param_types: vec![PgTypeInfo::with_oid(23), PgTypeInfo::with_oid(99999)],
        columns: Vec::new(),
    };
    match descriptor.resolve_all(&catalog) {
        Err(QueryError::UnknownTypeOid(oid)) => assert_eq!(oid, 99999),
        _ => panic!("expected UnknownTypeOid"),
    }
    assert!(!descriptor.param_types[1].is_resolved());
}

#[test]
fn query_data_pairs_query_and_description() {
    let data = QueryData::new(
        "SELECT 1",
        QueryDescriptor {
            param_types: vec![int4()],
            columns: Vec::new(),
        },
    );
    assert_eq!(data.query, "SELECT 1");
    assert_eq!(data.describe.param_types.len(), 1);
}

#[test]
fn from_dyn_data_checks_the_database_kind() {
    let dyn_data = DynQueryData {
        db_name: "postgres".to_string(),
        query: "SELECT 1".to_string(),
        describe: QueryDescriptor {
            param_types: Vec::new(),
            columns: Vec::new(),
        },
    };
    let data = QueryData::from_dyn_data(dyn_data, "postgres").unwrap();
    assert_eq!(data.query, "SELECT 1");

    let dyn_data = DynQueryData {
        db_name: "mysql".to_string(),
        query: "SELECT 1".to_string(),
        describe: QueryDescriptor {
            param_types: Vec::new(),
            columns: Vec::new(),
        },
    };
    match QueryData::from_dyn_data(dyn_data, "postgres") {
        Err(QueryError::WrongDatabase(expected, got)) => {
            assert_eq!(expected, "postgres");
            assert_eq!(got, "mysql");
        }
        _ => panic!("expected WrongDatabase"),
    }
}
