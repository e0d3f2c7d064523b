use pgsql_studio::query::{
    build_query_result, explain_statement, join_plan_lines, resolve_cell, CellProbe, CellValue,
};

fn probe() -> CellProbe {
    CellProbe { text: None, int4: None, int8: None, float: None, boolean: None }
}

#[test]
fn zero_rows_give_an_empty_result() {
    let columns = vec!["id".to_string(), "name".to_string()];
    let r = build_query_result(&columns, &vec![]);
    assert!(r.columns.is_empty());
    assert!(r.rows.is_empty());
    assert_eq!(r.row_count, 0);
}

#[test]
fn probing_order_first_success_wins() {
    let mut p = probe();
    p.text = Some("abc".to_string());
    p.int4 = Some(5);
    assert!(matches!(resolve_cell(&p), CellValue::Text(ref t) if t == "abc"));

    let mut p = probe();
    p.int4 = Some(-5);
    p.int8 = Some(99);
    assert!(matches!(resolve_cell(&p), CellValue::Integer(-5)));

    let mut p = probe();
    p.int8 = Some(1 << 40);
    p.boolean = Some(true);
    assert!(matches!(resolve_cell(&p), CellValue::Integer(v) if v == 1 << 40));

    let mut p = probe();
    p.float = serde_json::Number::from_f64(1.5);
    p.boolean = Some(false);
    assert!(matches!(resolve_cell(&p), CellValue::Float(ref n) if n.as_f64() == Some(1.5)));

    let mut p = probe();
    p.boolean = Some(true);
    assert!(matches!(resolve_cell(&p), CellValue::Boolean(true)));

    assert!(matches!(resolve_cell(&probe()), CellValue::Null));
}

#[test]
fn every_row_has_one_value_per_column() {
    let columns = vec!["a".to_string(), "b".to_string(), "c".to_string()];
    let mut first = probe();
    first.text = Some("x".to_string());
    let mut second = probe();
    second.int8 = Some(7);
    let rows = vec![vec![first, second], vec![probe(), probe(), probe(), probe()]];
    let r = build_query_result(&columns, &rows);
    assert_eq!(r.columns, columns);
    assert_eq!(r.row_count, 2);
    assert_eq!(r.rows.len(), 2);
    for row in &r.rows {
        assert_eq!(row.len(), 3);
    }
    assert!(matches!(r.rows[0][0], CellValue::Text(ref t) if t == "x"));
    assert!(matches!(r.rows[0][1], CellValue::Integer(7)));
    assert!(matches!(r.rows[0][2], CellValue::Null));
    assert!(matches!(r.rows[1][0], CellValue::Null));
}

#[test]
fn explain_wraps_the_statement() {
    assert_eq!(explain_statement(&"SELECT 1".to_string()), "EXPLAIN ANALYZE SELECT 1");
}

#[test]
fn plan_lines_are_joined_with_newlines() {
    assert_eq!(join_plan_lines(&vec![]), "");
    assert_eq!(join_plan_lines(&vec!["Seq Scan".to_string()]), "Seq Scan");
    let lines = vec!["Seq Scan on t".to_string(), "Planning Time: 0.1 ms".to_string(), "".to_string()];
    assert_eq!(join_plan_lines(&lines), "Seq Scan on t\nPlanning Time: 0.1 ms\n");
}
