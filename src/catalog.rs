use vstd::prelude::*;
use vstd::string::*;

verus! {

/// User schemas, without the system ones, unique and in lexical order.
pub const SCHEMAS_SQL: &'static str = "SELECT DISTINCT schema_name FROM information_schema.schemata WHERE schema_name NOT IN ('information_schema', 'pg_catalog', 'pg_toast') ORDER BY schema_name";

/// Base tables (views excluded) of the schema bound to `$1`, in lexical order.
pub const TABLES_SQL: &'static str = "SELECT table_name FROM information_schema.tables WHERE table_schema = $1 AND table_type = 'BASE TABLE' ORDER BY table_name";

/// Columns of table `$1.$2` in physical order: name, declared type,
/// nullability and default expression.
pub const COLUMNS_SQL: &'static str = "SELECT column_name, data_type, is_nullable, column_default FROM information_schema.columns WHERE table_schema = $1 AND table_name = $2 ORDER BY ordinal_position";

/// Start of the query for the graph's tables.
pub const GRAPH_TABLES_HEAD: &'static str = "SELECT DISTINCT table_schema, table_name FROM information_schema.tables WHERE table_type = 'BASE TABLE'";

/// Restriction of the graph's tables to the schema bound to `$1`.
pub const GRAPH_TABLES_FILTER: &'static str = " AND table_schema = $1";

/// End of the query for the graph's tables.
pub const GRAPH_TABLES_TAIL: &'static str = " ORDER BY table_schema, table_name";

/// Start of the query for the graph's foreign keys: constraint, referencing
/// column and referenced column joined.
pub const GRAPH_KEYS_HEAD: &'static str = "SELECT tc.table_schema AS from_schema, tc.table_name AS from_table, kcu.column_name AS from_column, ccu.table_schema AS to_schema, ccu.table_name AS to_table, ccu.column_name AS to_column, tc.constraint_name FROM information_schema.table_constraints AS tc JOIN information_schema.key_column_usage AS kcu ON tc.constraint_name = kcu.constraint_name AND tc.table_schema = kcu.table_schema JOIN information_schema.constraint_column_usage AS ccu ON ccu.constraint_name = tc.constraint_name AND ccu.table_schema = tc.table_schema WHERE tc.constraint_type = 'FOREIGN KEY'";

/// Restriction of the foreign keys to those declared in the schema bound to `$1`.
pub const GRAPH_KEYS_FILTER: &'static str = " AND tc.table_schema = $1";

/// End of the query for the graph's foreign keys.
pub const GRAPH_KEYS_TAIL: &'static str = " ORDER BY tc.table_schema, tc.table_name";

/// A query made of a head, an optional filter and a tail.
pub open spec fn assembled(head: Seq<char>, filter: Seq<char>, tail: Seq<char>, filtered: bool) -> Seq<char> {
    if filtered {
        head + filter + tail
    } else {
        head + tail
    }
}

fn assemble(head: &str, filter: &str, tail: &str, filtered: bool) -> (r: String)
    ensures
        r@ == assembled(head@, filter@, tail@, filtered),
{
    let mut sql = String::from_str(head);
    if filtered {
        sql.append(filter);
    }
    sql.append(tail);
    sql
}

/// The query for the graph's base tables; with `filtered`, of the schema bound
/// to `$1` only.
pub fn graph_tables_sql(filtered: bool) -> (r: String)
    ensures
        r@ == assembled(GRAPH_TABLES_HEAD@, GRAPH_TABLES_FILTER@, GRAPH_TABLES_TAIL@, filtered),
{
    assemble(GRAPH_TABLES_HEAD, GRAPH_TABLES_FILTER, GRAPH_TABLES_TAIL, filtered)
}

/// The query for the graph's foreign keys; with `filtered`, of those declared
/// in the schema bound to `$1` only.
pub fn graph_keys_sql(filtered: bool) -> (r: String)
    ensures
        r@ == assembled(GRAPH_KEYS_HEAD@, GRAPH_KEYS_FILTER@, GRAPH_KEYS_TAIL@, filtered),
{
    assemble(GRAPH_KEYS_HEAD, GRAPH_KEYS_FILTER, GRAPH_KEYS_TAIL, filtered)
}

} // verus!
