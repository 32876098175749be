use query_core::columns::{ColumnMap, ColumnSet};
use query_core::error::{
    ErrorCategory, ErrorCode, Span, BAD_ARGUMENTS, EMPTY_DATA, INTERNAL, SEMANTIC_ERROR,
    STORAGE_INSECURE, STORAGE_OTHER, SYNTAX_EXCEPTION, UNIMPLEMENTED,
};
use query_core::metadata::{ColumnEntry, Metadata};
use query_core::types::{common_super_type, DataType, NumberKind};

fn set(v: Vec<usize>) -> ColumnSet {
    ColumnSet::from_slice(&v)
}

#[test]
fn column_set_keeps_members_in_increasing_order() {
    let mut s = ColumnSet::new();
    assert!(s.is_empty());
    assert!(s.insert(5));
    assert!(s.insert(1));
    assert!(s.insert(3));
    assert!(!s.insert(5));
    assert_eq!(s.as_vec(), &vec![1, 3, 5]);
    assert_eq!(s.len(), 3);
    assert!(s.contains(3));
    assert!(!s.contains(2));
    assert_eq!(s, set(vec![5, 3, 1, 3]));
}

#[test]
fn column_set_operations() {
    let a = set(vec![1, 2, 3]);
    let b = set(vec![3, 4]);
    assert_eq!(a.union(&b), set(vec![1, 2, 3, 4]));
    assert_eq!(a.intersection(&b), set(vec![3]));
    assert_eq!(a.difference(&b), set(vec![1, 2]));
    assert!(a.intersects(&b));
    assert!(!a.intersects(&set(vec![7])));
    assert!(set(vec![1, 3]).is_subset(&a));
    assert!(!b.is_subset(&a));
    assert!(ColumnSet::new().is_subset(&a));
    assert!(a.same(&set(vec![3, 2, 1])));
    assert!(!a.same(&b));
    assert_eq!(a.clone(), a);
}

#[test]
fn column_map_overwrites_and_lists_by_key() {
    let mut m = ColumnMap::new();
    assert!(m.is_empty());
    m.insert(7, 70);
    m.insert(2, 20);
    m.insert(7, 71);
    assert_eq!(m.get(7), Some(71));
    assert_eq!(m.get(2), Some(20));
    assert_eq!(m.get(3), None);
    let (keys, values) = m.entries();
    assert_eq!(keys, &vec![2, 7]);
    assert_eq!(values, &vec![20, 71]);
    let copy = m.clone();
    m.clear();
    assert!(m.is_empty());
    assert_eq!(copy.get(2), Some(20));
}

fn number(k: NumberKind) -> DataType {
    DataType::Number(k)
}

fn nullable(t: DataType) -> DataType {
    DataType::Nullable(Box::new(t))
}

#[test]
fn numbers_are_promoted_to_a_type_that_holds_both() {
    assert_eq!(NumberKind::Int32.super_type(&NumberKind::Int64), NumberKind::Int64);
    assert_eq!(NumberKind::Int64.super_type(&NumberKind::Int32), NumberKind::Int64);
    assert_eq!(NumberKind::UInt8.super_type(&NumberKind::UInt16), NumberKind::UInt16);
    assert_eq!(NumberKind::UInt8.super_type(&NumberKind::Int8), NumberKind::Int16);
    assert_eq!(NumberKind::UInt32.super_type(&NumberKind::Int8), NumberKind::Int64);
    assert_eq!(NumberKind::UInt16.super_type(&NumberKind::Int64), NumberKind::Int64);
    assert_eq!(NumberKind::UInt64.super_type(&NumberKind::Int8), NumberKind::Int64);
    assert_eq!(NumberKind::Int32.super_type(&NumberKind::Float32), NumberKind::Float64);
    assert_eq!(NumberKind::Float32.super_type(&NumberKind::Float32), NumberKind::Float32);
    assert_eq!(NumberKind::Float32.super_type(&NumberKind::Float64), NumberKind::Float64);
    assert_eq!(NumberKind::Int16.super_type(&NumberKind::Int16), NumberKind::Int16);
}

#[test]
fn common_super_type_of_data_types() {
    assert_eq!(common_super_type(&number(NumberKind::Int32), &number(NumberKind::Int64)), Some(number(NumberKind::Int64)));
    assert_eq!(common_super_type(&DataType::String, &DataType::String), Some(DataType::String));
    assert_eq!(
        common_super_type(&DataType::Null, &DataType::Boolean),
        Some(nullable(DataType::Boolean))
    );
    assert_eq!(
        common_super_type(&nullable(number(NumberKind::Int8)), &number(NumberKind::Int16)),
        Some(nullable(number(NumberKind::Int16)))
    );
    assert_eq!(
        common_super_type(&DataType::Date, &DataType::Timestamp),
        Some(DataType::Timestamp)
    );
    assert_eq!(common_super_type(&DataType::Boolean, &DataType::String), None);
    assert_eq!(common_super_type(&nullable(DataType::Boolean), &number(NumberKind::Int8)), None);
    // The order of the two types does not matter.
    assert_eq!(
        common_super_type(&number(NumberKind::Int64), &number(NumberKind::UInt8)),
        common_super_type(&number(NumberKind::UInt8), &number(NumberKind::Int64))
    );
}

#[test]
fn data_type_names_and_nullability() {
    assert_eq!(number(NumberKind::UInt32).name(), "UInt32");
    assert_eq!(nullable(DataType::Boolean).name(), "Boolean NULL");
    assert_eq!(DataType::Null.name(), "NULL");
    assert_eq!(DataType::Boolean.wrap_nullable(), nullable(DataType::Boolean));
    assert_eq!(nullable(DataType::Boolean).wrap_nullable(), nullable(DataType::Boolean));
    assert_eq!(DataType::Null.wrap_nullable(), DataType::Null);
    assert_eq!(nullable(DataType::Date).remove_nullable(), DataType::Date);
    assert!(DataType::Date.same(&DataType::Date));
    assert!(!DataType::Date.same(&nullable(DataType::Date)));
}

#[test]
fn error_codes_and_categories() {
    assert_eq!(INTERNAL, 1001);
    assert_eq!(SYNTAX_EXCEPTION, 1005);
    assert_eq!(SEMANTIC_ERROR, 1065);
    assert_eq!(STORAGE_INSECURE, 3903);
    let e = ErrorCode::internal("bug");
    assert_eq!(e.code(), 1001);
    assert_eq!(e.message(), "bug");
    assert_eq!(e.category(), ErrorCategory::InternalInvariant);
    assert!(!e.is_user_error());
    assert_eq!(ErrorCode::syntax_exception("x").category(), ErrorCategory::SyntaxUnsupported);
    assert_eq!(ErrorCode::create(UNIMPLEMENTED, "x").category(), ErrorCategory::SyntaxUnsupported);
    assert_eq!(ErrorCode::semantic_error("x").category(), ErrorCategory::SemanticError);
    assert_eq!(ErrorCode::create(BAD_ARGUMENTS, "x").category(), ErrorCategory::SemanticError);
    assert_eq!(ErrorCode::create(EMPTY_DATA, "x").category(), ErrorCategory::SemanticError);
    assert_eq!(ErrorCode::storage_insecure("x").category(), ErrorCategory::StorageInsecure);
    assert_eq!(ErrorCode::create(STORAGE_OTHER, "x").category(), ErrorCategory::IoFailure);
    assert!(ErrorCode::semantic_error("x").is_user_error());
    let span = Some(Span { start: 3, end: 9 });
    assert_eq!(ErrorCode::semantic_error("x").set_span(span).span, span);
}

#[test]
fn metadata_is_an_append_only_arena() {
    let mut m = Metadata::new();
    let t = m.add_table("default".to_string(), "db".to_string(), "t".to_string());
    assert_eq!(t, 0);
    assert_eq!(m.add_base_table_column("a".to_string(), DataType::Boolean, t), 0);
    assert_eq!(m.add_derived_column("d".to_string(), DataType::String), 1);
    assert_eq!(m.add_internal_column("_row_id".to_string(), DataType::String, t), 2);
    assert_eq!(m.column_count(), 3);
    assert_eq!(
        m.column(1),
        Some(&ColumnEntry::DerivedColumn { alias: "d".to_string(), data_type: DataType::String })
    );
    assert_eq!(m.column(3), None);
    assert_eq!(m.column(0).unwrap().name(), "a");
    assert_eq!(m.column(2).unwrap().data_type(), DataType::String);
    assert_eq!(m.table(0).unwrap().name, "t");
    assert!(m.table(1).is_none());
    // The table that owns a set of columns is that of its first table column.
    assert_eq!(m.table_index_by_column_indexes(&set(vec![1, 0])), Some(0));
    assert_eq!(m.table_index_by_column_indexes(&set(vec![1, 2])), None);
    assert_eq!(m.table_index_by_column_indexes(&set(vec![9])), None);
}
