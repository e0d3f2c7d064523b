use vstd::prelude::*;
use vstd::string::*;

verus! {

/// Asks for the relationship graph of a connection, optionally of one schema.
pub struct GetERDDataRequest {
    pub connection_id: String,
    pub schema: Option<String>,
}

/// A base table found by the catalog query.
pub struct TableRef {
    pub schema: String,
    pub table: String,
}

/// One foreign-key column pair found by the catalog query.
pub struct ForeignKeyRow {
    pub from_schema: String,
    pub from_table: String,
    pub from_column: String,
    pub to_schema: String,
    pub to_table: String,
    pub to_column: String,
}

/// A table in the graph; `id` is `schema.table`.
pub struct ERDNode {
    pub id: String,
    pub label: String,
    pub schema: String,
    pub table: String,
}

/// A foreign key between two tables of the graph, by node id.
pub struct ERDEdge {
    pub from: String,
    pub to: String,
    pub label: String,
    pub from_column: String,
    pub to_column: String,
}

/// Tables and the foreign keys between them.
pub struct ERDData {
    pub nodes: Vec<ERDNode>,
    pub edges: Vec<ERDEdge>,
}

/// `schema.table`.
pub open spec fn qualified(schema: Seq<char>, table: Seq<char>) -> Seq<char> {
    schema + seq!['.'] + table
}

/// `from -> to`.
pub open spec fn arrow_label(from: Seq<char>, to: Seq<char>) -> Seq<char> {
    from + seq![' ', '-', '>', ' '] + to
}

/// The node ids of `tables`, in order.
pub open spec fn node_ids(tables: Seq<TableRef>) -> Seq<Seq<char>> {
    tables.map_values(|t: TableRef| qualified(t.schema@, t.table@))
}

/// Both tables of `fk` are among `ids`.
pub open spec fn endpoints_known(ids: Seq<Seq<char>>, fk: ForeignKeyRow) -> bool {
    &&& ids.contains(qualified(fk.from_schema@, fk.from_table@))
    &&& ids.contains(qualified(fk.to_schema@, fk.to_table@))
}

/// The foreign keys of `fks` whose two tables are among `ids`, in order.
pub open spec fn kept_keys(ids: Seq<Seq<char>>, fks: Seq<ForeignKeyRow>) -> Seq<ForeignKeyRow>
    decreases fks.len(),
{
    if fks.len() == 0 {
        Seq::empty()
    } else {
        let earlier = kept_keys(ids, fks.drop_last());
        if endpoints_known(ids, fks.last()) {
            earlier.push(fks.last())
        } else {
            earlier
        }
    }
}

/// `n` is the node of table `t`.
pub open spec fn node_for(n: ERDNode, t: TableRef) -> bool {
    &&& n.id@ == qualified(t.schema@, t.table@)
    &&& n.label@ == t.table@
    &&& n.schema@ == t.schema@
    &&& n.table@ == t.table@
}

/// `e` is the edge of foreign key `fk`.
pub open spec fn edge_for(e: ERDEdge, fk: ForeignKeyRow) -> bool {
    &&& e.from@ == qualified(fk.from_schema@, fk.from_table@)
    &&& e.to@ == qualified(fk.to_schema@, fk.to_table@)
    &&& e.label@ == arrow_label(fk.from_column@, fk.to_column@)
    &&& e.from_column@ == fk.from_column@
    &&& e.to_column@ == fk.to_column@
}

/// Some node of `nodes` has the id `id`.
pub open spec fn has_node(nodes: Seq<ERDNode>, id: Seq<char>) -> bool {
    exists|i: int| 0 <= i < nodes.len() && (#[trigger] nodes[i]).id@ == id
}

/// The node id `schema.table`.
pub fn node_id(schema: &String, table: &String) -> (r: String)
    ensures
        r@ == qualified(schema@, table@),
{
    let mut id = schema.clone();
    id.append(".");
    id.append(table.as_str());
    proof {
        reveal_strlit(".");
    }
    id
}

fn edge_label(from: &String, to: &String) -> (r: String)
    ensures
        r@ == arrow_label(from@, to@),
{
    let mut label = from.clone();
    label.append(" -> ");
    label.append(to.as_str());
    proof {
        reveal_strlit(" -> ");
    }
    label
}

fn find_node(nodes: &Vec<ERDNode>, id: &String) -> (r: bool)
    ensures
        r == has_node(nodes@, id@),
{
    let mut i: usize = 0;
    while i < nodes.len()
        invariant
            i <= nodes@.len(),
            forall|k: int| 0 <= k < i ==> (#[trigger] nodes@[k]).id@ != id@,
        decreases nodes@.len() - i,
    {
        if nodes[i].id.eq(id) {
            return true;
        }
        i = i + 1;
    }
    false
}

/// Assembles the relationship graph: one node per table, in order, and one
/// edge per foreign key whose two tables are both nodes. A key that reaches a
/// table outside the node set is dropped, never kept as a partial edge.
pub fn build_graph(tables: &Vec<TableRef>, fks: &Vec<ForeignKeyRow>) -> (r: ERDData)
    ensures
        r.nodes@.len() == tables@.len(),
        forall|i: int| 0 <= i < tables@.len() ==> node_for(#[trigger] r.nodes@[i], tables@[i]),
        r.edges@.len() == kept_keys(node_ids(tables@), fks@).len(),
        forall|k: int| 0 <= k < r.edges@.len()
            ==> edge_for(#[trigger] r.edges@[k], kept_keys(node_ids(tables@), fks@)[k]),
        forall|k: int| 0 <= k < r.edges@.len()
            ==> has_node(r.nodes@, (#[trigger] r.edges@[k]).from@) && has_node(r.nodes@, r.edges@[k].to@),
{
    let mut nodes: Vec<ERDNode> = Vec::new();
    let mut i: usize = 0;
    while i < tables.len()
        invariant
            i <= tables@.len(),
            nodes@.len() == i,
            forall|a: int| 0 <= a < i ==> node_for(#[trigger] nodes@[a], tables@[a]),
        decreases tables@.len() - i,
    {
        let t = &tables[i];
        let node = ERDNode {
            id: node_id(&t.schema, &t.table),
            label: t.table.clone(),
            schema: t.schema.clone(),
            table: t.table.clone(),
        };
        nodes.push(node);
        i = i + 1;
    }
    let ghost ids = node_ids(tables@);
    proof {
        assert forall|x: Seq<char>| has_node(nodes@, x) <==> ids.contains(x) by {
            if has_node(nodes@, x) {
                let a = choose|a: int| 0 <= a < nodes@.len() && (#[trigger] nodes@[a]).id@ == x;
                assert(ids[a] == x);
            }
            if ids.contains(x) {
                let a = choose|a: int| 0 <= a < ids.len() && ids[a] == x;
                assert(nodes@[a].id@ == x);
            }
        }
    }
    let mut edges: Vec<ERDEdge> = Vec::new();
    let mut j: usize = 0;
    while j < fks.len()
        invariant
            j <= fks@.len(),
            ids == node_ids(tables@),
            forall|x: Seq<char>| has_node(nodes@, x) <==> ids.contains(x),
            edges@.len() == kept_keys(ids, fks@.subrange(0, j as int)).len(),
            forall|k: int| 0 <= k < edges@.len()
                ==> edge_for(#[trigger] edges@[k], kept_keys(ids, fks@.subrange(0, j as int))[k]),
            forall|k: int| 0 <= k < edges@.len()
                ==> endpoints_known(ids, #[trigger] kept_keys(ids, fks@.subrange(0, j as int))[k]),
        decreases fks@.len() - j,
    {
        let fk = &fks[j];
        proof {
            assert(fks@.subrange(0, j + 1).drop_last() =~= fks@.subrange(0, j as int));
            assert(fks@.subrange(0, j + 1).last() == fks@[j as int]);
        }
        let from = node_id(&fk.from_schema, &fk.from_table);
        let to = node_id(&fk.to_schema, &fk.to_table);
        if find_node(&nodes, &from) && find_node(&nodes, &to) {
            let edge = ERDEdge {
                from,
                to,
                label: edge_label(&fk.from_column, &fk.to_column),
                from_column: fk.from_column.clone(),
                to_column: fk.to_column.clone(),
            };
            edges.push(edge);
        }
        j = j + 1;
    }
    proof {
        assert(fks@.subrange(0, fks@.len() as int) =~= fks@);
        assert forall|k: int| 0 <= k < edges@.len() implies has_node(nodes@, (#[trigger] edges@[k]).from@)
            && has_node(nodes@, edges@[k].to@) by {
            assert(endpoints_known(ids, kept_keys(ids, fks@)[k]));
        }
    }
    ERDData { nodes, edges }
}

} // verus!
