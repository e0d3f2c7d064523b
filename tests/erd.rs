use pgsql_studio::erd::{build_graph, node_id, ForeignKeyRow, TableRef};

fn table(schema: &str, table: &str) -> TableRef {
    TableRef { schema: schema.to_string(), table: table.to_string() }
}

fn fk(from: (&str, &str, &str), to: (&str, &str, &str)) -> ForeignKeyRow {
    ForeignKeyRow {
        from_schema: from.0.to_string(),
        from_table: from.1.to_string(),
        from_column: from.2.to_string(),
        to_schema: to.0.to_string(),
        to_table: to.1.to_string(),
        to_column: to.2.to_string(),
    }
}

#[test]
fn nodes_are_schema_qualified() {
    assert_eq!(node_id(&"public".to_string(), &"users".to_string()), "public.users");
    let g = build_graph(&vec![table("public", "users"), table("public", "orders")], &vec![]);
    assert_eq!(g.nodes.len(), 2);
    assert_eq!(g.nodes[0].id, "public.users");
    assert_eq!(g.nodes[0].label, "users");
    assert_eq!(g.nodes[0].schema, "public");
    assert_eq!(g.nodes[0].table, "users");
    assert_eq!(g.nodes[1].id, "public.orders");
    assert!(g.edges.is_empty());
}

#[test]
fn edges_to_tables_outside_the_graph_are_dropped() {
    let tables = vec![table("public", "users"), table("public", "orders")];
    let fks = vec![
        fk(("public", "orders", "user_id"), ("public", "users", "id")),
        fk(("public", "orders", "region_id"), ("geo", "regions", "id")),
        fk(("audit", "log", "user_id"), ("public", "users", "id")),
    ];
    let g = build_graph(&tables, &fks);
    assert_eq!(g.edges.len(), 1);
    let e = &g.edges[0];
    assert_eq!(e.from, "public.orders");
    assert_eq!(e.to, "public.users");
    assert_eq!(e.label, "user_id -> id");
    assert_eq!(e.from_column, "user_id");
    assert_eq!(e.to_column, "id");
    for e in &g.edges {
        assert!(g.nodes.iter().any(|n| n.id == e.from));
        assert!(g.nodes.iter().any(|n| n.id == e.to));
    }
}

#[test]
fn no_tables_means_no_edges() {
    let g = build_graph(&vec![], &vec![fk(("public", "a", "x"), ("public", "b", "y"))]);
    assert!(g.nodes.is_empty());
    assert!(g.edges.is_empty());
}
