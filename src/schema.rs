use vstd::prelude::*;
use vstd::string::*;
use crate::erd::{node_id, qualified};

verus! {

/// Asks for the column layout of one table.
pub struct GetTableSchemaRequest {
    pub connection_id: String,
    pub schema: String,
    pub table: String,
}

/// Asks for the schemas of a connection.
pub struct GetSchemasRequest {
    pub connection_id: String,
}

/// Asks for the base tables of one schema.
pub struct GetTablesRequest {
    pub connection_id: String,
    pub schema: String,
}

/// A schema name.
pub struct SchemaInfo {
    pub name: String,
}

/// A base table and its schema.
pub struct TableInfo {
    pub name: String,
    pub schema: String,
}

/// One column as the catalog reports it; `is_nullable` is the catalog's
/// `YES` / `NO` text.
pub struct ColumnRow {
    pub name: String,
    pub data_type: String,
    pub is_nullable: String,
    pub default_value: Option<String>,
}

/// One column descriptor.
pub struct ColumnInfo {
    pub name: String,
    pub data_type: String,
    pub is_nullable: bool,
    pub default_value: Option<String>,
}

/// A table's qualified name and its columns in physical order.
pub struct TableSchema {
    pub name: String,
    pub columns: Vec<ColumnInfo>,
}

/// The descriptor of catalog row `row`: nullable exactly when the catalog says `YES`.
pub open spec fn column_for(c: ColumnInfo, row: ColumnRow) -> bool {
    &&& c.name == row.name
    &&& c.data_type == row.data_type
    &&& c.is_nullable == (row.is_nullable@ == seq!['Y', 'E', 'S'])
    &&& c.default_value == row.default_value
}

fn column_info(row: &ColumnRow) -> (r: ColumnInfo)
    ensures
        column_for(r, *row),
{
    let yes = String::from_str("YES");
    proof {
        reveal_strlit("YES");
        assert(yes@ =~= seq!['Y', 'E', 'S']);
    }
    let default_value = match &row.default_value {
        Some(d) => Some(d.clone()),
        None => None,
    };
    ColumnInfo {
        name: row.name.clone(),
        data_type: row.data_type.clone(),
        is_nullable: row.is_nullable.eq(&yes),
        default_value,
    }
}

/// The schema of table `schema.table` from its catalog rows, kept in the order given.
pub fn get_table_schema(schema: &String, table: &String, rows: &Vec<ColumnRow>) -> (r: TableSchema)
    ensures
        r.name@ == qualified(schema@, table@),
        r.columns@.len() == rows@.len(),
        forall|i: int| 0 <= i < rows@.len() ==> column_for(#[trigger] r.columns@[i], rows@[i]),
{
    let mut columns: Vec<ColumnInfo> = Vec::new();
    let mut i: usize = 0;
    while i < rows.len()
        invariant
            i <= rows@.len(),
            columns@.len() == i,
            forall|a: int| 0 <= a < i ==> column_for(#[trigger] columns@[a], rows@[a]),
        decreases rows@.len() - i,
    {
        columns.push(column_info(&rows[i]));
        i = i + 1;
    }
    TableSchema { name: node_id(schema, table), columns }
}

/// One `SchemaInfo` per name, in the order given.
pub fn schema_list(names: &Vec<String>) -> (r: Vec<SchemaInfo>)
    ensures
        r@.len() == names@.len(),
        forall|i: int| 0 <= i < names@.len() ==> (#[trigger] r@[i]).name == names@[i],
{
    let mut out: Vec<SchemaInfo> = Vec::new();
    let mut i: usize = 0;
    while i < names.len()
        invariant
            i <= names@.len(),
            out@.len() == i,
            forall|a: int| 0 <= a < i ==> (#[trigger] out@[a]).name == names@[a],
        decreases names@.len() - i,
    {
        out.push(SchemaInfo { name: names[i].clone() });
        i = i + 1;
    }
    out
}

/// One `TableInfo` per table name of `schema`, in the order given.
pub fn table_list(schema: &String, names: &Vec<String>) -> (r: Vec<TableInfo>)
    ensures
        r@.len() == names@.len(),
        forall|i: int|
            0 <= i < names@.len() ==> (#[trigger] r@[i]).name == names@[i] && r@[i].schema == *schema,
{
    let mut out: Vec<TableInfo> = Vec::new();
    let mut i: usize = 0;
    while i < names.len()
        invariant
            i <= names@.len(),
            out@.len() == i,
            forall|a: int| 0 <= a < i ==> (#[trigger] out@[a]).name == names@[a] && out@[a].schema == *schema,
        decreases names@.len() - i,
    {
        out.push(TableInfo { name: names[i].clone(), schema: schema.clone() });
        i = i + 1;
    }
    out
}

} // verus!
