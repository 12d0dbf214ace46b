use sea_query::Value;
use todo_api::models::{Todo, TodoSchema};
use todo_api::query_params::IndexQueryParams;
use todo_api::routes::{RowsAffected, TodoInput};

#[test]
fn basic_index_sql() {
    let query_params = IndexQueryParams::default();
    let (sql, _values) = Todo::index_sql(&query_params);
    assert_eq!(
        sql,
        String::from(
            r#"SELECT "id", "title", "description", "completed" FROM "todo" LIMIT $1 OFFSET $2"#
        )
    );
}

#[test]
fn index_sql_binds_limit_then_offset() {
    let query_params = IndexQueryParams::default();
    let (_, values) = Todo::index_sql(&query_params);
    assert_eq!(values.0 .0, vec![Value::BigUnsigned(Some(20)), Value::BigUnsigned(Some(0))]);

    let query_params = IndexQueryParams { sorting: vec![], filters: vec![], limit: 50, offset: 100 };
    let (sql, values) = Todo::index_sql(&query_params);
    assert_eq!(
        sql,
        r#"SELECT "id", "title", "description", "completed" FROM "todo" LIMIT $1 OFFSET $2"#
    );
    assert_eq!(values.0 .0, vec![Value::BigUnsigned(Some(50)), Value::BigUnsigned(Some(100))]);
}

#[test]
fn index_params_default() {
    let p = IndexQueryParams::default();
    assert!(p.sorting.is_empty());
    assert!(p.filters.is_empty());
    assert_eq!(p.limit, 20);
    assert_eq!(p.offset, 0);
}

#[test]
fn schema_names() {
    assert_eq!(TodoSchema::Table.name(), "todo");
    assert_eq!(TodoSchema::Id.name(), "id");
    assert_eq!(TodoSchema::Title.name(), "title");
    assert_eq!(TodoSchema::Description.name(), "description");
    assert_eq!(TodoSchema::Completed.name(), "completed");
}

#[test]
fn todo_input_completed_defaults_to_false() {
    let mut input = TodoInput { title: "t".to_string(), description: "d".to_string(), completed: None };
    assert!(!input.completed_or_default());
    input.completed = Some(true);
    assert!(input.completed_or_default());
    input.completed = Some(false);
    assert!(!input.completed_or_default());
}

#[test]
fn rows_affected_holds_count() {
    let r = RowsAffected { rows_affected: 3 };
    assert_eq!(r.rows_affected, 3);
}
