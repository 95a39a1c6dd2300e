use query_planner::catalog::{
    clone_column_catalogs, clone_column_descs, clone_column_ids, ColumnCatalog, ColumnDesc,
    ColumnRefId, TableRefId,
};
use query_planner::types::{clone_types, DataType, DataTypeKind, DataValue};

#[test]
fn ids_name_tables_and_columns() {
    let table = TableRefId::new(1, 2, 3);
    assert_eq!(table, TableRefId { database_id: 1, schema_id: 2, table_id: 3 });
    assert_eq!(ColumnRefId::from_table(table, 4), ColumnRefId::new(1, 2, 3, 4));
    assert_eq!(
        ColumnRefId::new(1, 2, 3, 4),
        ColumnRefId { database_id: 1, schema_id: 2, table_id: 3, column_id: 4 }
    );
}

#[test]
fn types_and_descriptors() {
    let nullable = DataTypeKind::Varchar(Some(8)).nullable();
    assert_eq!(nullable, DataType::new(DataTypeKind::Varchar(Some(8)), true));
    assert!(nullable.is_nullable());
    assert_eq!(nullable.kind(), DataTypeKind::Varchar(Some(8)));
    let not_null = DataTypeKind::Int(None).not_null();
    assert!(!not_null.is_nullable());

    let plain = not_null.to_column("a".to_string());
    assert_eq!(plain, ColumnDesc::new(not_null, "a".to_string(), false));
    assert_eq!(plain.name(), "a");
    assert_eq!(plain.datatype(), not_null);
    assert!(!plain.is_primary());
    let key = not_null.to_column_primary_key("a".to_string());
    assert!(key.is_primary());
    assert!(!plain.equals(&key));
    assert!(plain.equals(&plain.clone()));
    assert!(!plain.equals(&not_null.to_column("b".to_string())));
    assert!(!plain.equals(&nullable.to_column("a".to_string())));

    let column = ColumnCatalog::new(7, key.clone());
    assert_eq!(column.id(), 7);
    assert_eq!(column.datatype(), not_null);
    assert_eq!(column.clone(), column);
}

#[test]
fn copies_have_the_same_value() {
    let descs = vec![
        DataTypeKind::Int(None).not_null().to_column("a".to_string()),
        DataTypeKind::Double.nullable().to_column("b".to_string()),
    ];
    assert_eq!(clone_column_descs(&descs), descs);
    let columns: Vec<ColumnCatalog> =
        descs.iter().enumerate().map(|(i, d)| ColumnCatalog::new(i as u32, d.clone())).collect();
    assert_eq!(clone_column_catalogs(&columns), columns);
    assert_eq!(clone_column_ids(&vec![3, 1, 2]), vec![3, 1, 2]);
    let types = vec![DataTypeKind::Date.not_null(), DataTypeKind::Boolean.nullable()];
    assert_eq!(clone_types(&types), types);
}

#[test]
fn literals_have_types_and_values() {
    assert_eq!(DataValue::Null.data_type(), None);
    assert_eq!(DataValue::Bool(true).data_type(), Some(DataTypeKind::Boolean.not_null()));
    assert_eq!(DataValue::Int32(1).data_type(), Some(DataTypeKind::Int(None).not_null()));
    assert_eq!(
        DataValue::Float64(1.5f64.to_bits()).data_type(),
        Some(DataTypeKind::Double.not_null())
    );
    assert_eq!(
        DataValue::String("x".to_string()).data_type(),
        Some(DataTypeKind::Varchar(None).not_null())
    );
    let values = [
        DataValue::Null,
        DataValue::Bool(false),
        DataValue::Int32(-3),
        DataValue::Int64(1 << 40),
        DataValue::Float64(2.5f64.to_bits()),
        DataValue::String("x".to_string()),
    ];
    for (i, a) in values.iter().enumerate() {
        assert_eq!(&a.clone(), a);
        for (j, b) in values.iter().enumerate() {
            assert_eq!(a.equals(b), i == j);
        }
    }
    assert!(!DataValue::String("x".to_string()).equals(&DataValue::String("y".to_string())));
}
