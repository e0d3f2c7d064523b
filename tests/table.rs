use pgsql_studio::catalog::{graph_keys_sql, graph_tables_sql, GRAPH_KEYS_FILTER, GRAPH_TABLES_FILTER};
use pgsql_studio::schema::{get_table_schema, schema_list, table_list, ColumnRow};
use pgsql_studio::table::{edit_statement, table_data_query, EditError, GetTableDataRequest, TableUpdate};

fn page(limit: Option<i64>, offset: Option<i64>) -> GetTableDataRequest {
    GetTableDataRequest {
        connection_id: "c".to_string(),
        schema: "public".to_string(),
        table: "users".to_string(),
        limit,
        offset,
    }
}

fn update(kind: &str, where_clause: Option<&str>) -> TableUpdate {
    TableUpdate { kind: kind.to_string(), data: serde_json::Value::Null, where_clause: where_clause.map(|s| s.to_string()) }
}

#[test]
fn page_query_defaults_to_first_hundred_rows() {
    assert_eq!(table_data_query(&page(None, None)), "SELECT * FROM public.users LIMIT 100 OFFSET 0");
    assert_eq!(table_data_query(&page(Some(25), Some(50))), "SELECT * FROM public.users LIMIT 25 OFFSET 50");
    assert_eq!(table_data_query(&page(Some(-1), None)), "SELECT * FROM public.users LIMIT -1 OFFSET 0");
}

#[test]
fn edit_statements_by_kind() {
    let s = "public".to_string();
    let t = "users".to_string();
    assert_eq!(edit_statement(&s, &t, &update("INSERT", None)).ok().as_deref(), Some("INSERT INTO public.users DEFAULT VALUES"));
    assert_eq!(edit_statement(&s, &t, &update("DELETE", Some("id = 3"))).ok().as_deref(), Some("DELETE FROM public.users WHERE id = 3"));
    assert_eq!(edit_statement(&s, &t, &update("DELETE", None)).ok().as_deref(), Some("DELETE FROM public.users WHERE 1=0"));
    assert!(matches!(edit_statement(&s, &t, &update("UPDATE", Some("id = 3"))), Err(EditError::UpdateUnsupported)));
    assert!(matches!(edit_statement(&s, &t, &update("insert", None)), Err(EditError::InvalidKind)));
    assert!(matches!(edit_statement(&s, &t, &update("", None)), Err(EditError::InvalidKind)));
}

#[test]
fn table_schema_keeps_column_order_and_reads_nullability() {
    let rows = vec![
        ColumnRow { name: "id".to_string(), data_type: "integer".to_string(), is_nullable: "NO".to_string(), default_value: Some("nextval('s')".to_string()) },
        ColumnRow { name: "note".to_string(), data_type: "text".to_string(), is_nullable: "YES".to_string(), default_value: None },
    ];
    let ts = get_table_schema(&"public".to_string(), &"users".to_string(), &rows);
    assert_eq!(ts.name, "public.users");
    assert_eq!(ts.columns.len(), 2);
    assert_eq!(ts.columns[0].name, "id");
    assert_eq!(ts.columns[0].data_type, "integer");
    assert!(!ts.columns[0].is_nullable);
    assert_eq!(ts.columns[0].default_value.as_deref(), Some("nextval('s')"));
    assert_eq!(ts.columns[1].name, "note");
    assert!(ts.columns[1].is_nullable);
    assert!(ts.columns[1].default_value.is_none());
}

#[test]
fn schema_and_table_lists_follow_the_names() {
    let s = schema_list(&vec!["app".to_string(), "public".to_string()]);
    assert_eq!(s.len(), 2);
    assert_eq!(s[0].name, "app");
    assert_eq!(s[1].name, "public");
    let t = table_list(&"public".to_string(), &vec!["orders".to_string()]);
    assert_eq!(t.len(), 1);
    assert_eq!(t[0].name, "orders");
    assert_eq!(t[0].schema, "public");
}

#[test]
fn page_query_writes_extreme_bounds() {
    assert_eq!(
        table_data_query(&page(Some(i64::MIN), Some(i64::MAX))),
        "SELECT * FROM public.users LIMIT -9223372036854775808 OFFSET 9223372036854775807"
    );
}

#[test]
fn graph_queries_filter_only_when_asked() {
    let plain = graph_tables_sql(false);
    let filtered = graph_tables_sql(true);
    assert!(!plain.contains("$1"));
    assert!(filtered.contains(GRAPH_TABLES_FILTER));
    assert_eq!(filtered.len(), plain.len() + GRAPH_TABLES_FILTER.len());
    assert!(filtered.ends_with(" ORDER BY table_schema, table_name"));
    let keys = graph_keys_sql(true);
    assert!(keys.contains(GRAPH_KEYS_FILTER));
    assert!(!graph_keys_sql(false).contains("$1"));
}
