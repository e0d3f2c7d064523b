use vstd::prelude::*;
use vstd::string::*;
use crate::erd::{node_id, qualified};
use crate::text::{decimal, decimal_text};

verus! {

/// serde_json::Value, the column values of an edit; carried through unread.
#[verifier::external_type_specification]
#[verifier::external_body]
pub struct ExJsonValue(serde_json::Value);

/// Asks for one page of a table's rows.
pub struct GetTableDataRequest {
    pub connection_id: String,
    pub schema: String,
    pub table: String,
    pub limit: Option<i64>,
    pub offset: Option<i64>,
}

/// One requested edit: `kind` is `INSERT`, `UPDATE` or `DELETE`.
pub struct TableUpdate {
    pub kind: String,
    pub data: serde_json::Value,
    pub where_clause: Option<String>,
}

/// A batch of edits to one table, applied in order.
pub struct UpdateTableDataRequest {
    pub connection_id: String,
    pub schema: String,
    pub table: String,
    pub updates: Vec<TableUpdate>,
}

/// Why an edit has no statement.
pub enum EditError {
    /// The kind is none of `INSERT`, `UPDATE`, `DELETE`.
    InvalidKind,
    /// Updates need column values bound as parameters, which no statement
    /// built here carries yet.
    UpdateUnsupported,
}

/// The page size used when a request gives none.
pub const DEFAULT_PAGE_LIMIT: i64 = 100;

/// The statement that reads one page of `schema.table`.
pub open spec fn page_sql(schema: Seq<char>, table: Seq<char>, limit: int, offset: int) -> Seq<char> {
    "SELECT * FROM "@ + qualified(schema, table) + " LIMIT "@ + decimal(limit) + " OFFSET "@
        + decimal(offset)
}

/// The page bounds a request asks for, with the defaults filled in.
pub open spec fn page_bounds(request: GetTableDataRequest) -> (int, int) {
    (
        match request.limit {
            Some(l) => l as int,
            None => DEFAULT_PAGE_LIMIT as int,
        },
        match request.offset {
            Some(o) => o as int,
            None => 0,
        },
    )
}

/// The `SELECT *` statement for the page that `request` asks for (100 rows
/// from the start unless it says otherwise).
pub fn table_data_query(request: &GetTableDataRequest) -> (r: String)
    ensures
        r@ == page_sql(request.schema@, request.table@, page_bounds(*request).0, page_bounds(*request).1),
{
    let limit = match request.limit {
        Some(l) => l,
        None => DEFAULT_PAGE_LIMIT,
    };
    let offset = match request.offset {
        Some(o) => o,
        None => 0,
    };
    let mut sql = String::from_str("SELECT * FROM ");
    let target = node_id(&request.schema, &request.table);
    sql.append(target.as_str());
    sql.append(" LIMIT ");
    let l = decimal_text(limit);
    sql.append(l.as_str());
    sql.append(" OFFSET ");
    let o = decimal_text(offset);
    sql.append(o.as_str());
    sql
}

/// The condition of a delete: the given clause, or one that matches no row.
pub open spec fn delete_condition(where_clause: Option<String>) -> Seq<char> {
    match where_clause {
        Some(w) => w@,
        None => "1=0"@,
    }
}

/// The statement for one edit of `schema.table`.
pub open spec fn edit_sql(schema: Seq<char>, table: Seq<char>, update: TableUpdate) -> Result<Seq<char>, EditError> {
    if update.kind@ == "INSERT"@ {
        Ok("INSERT INTO "@ + qualified(schema, table) + " DEFAULT VALUES"@)
    } else if update.kind@ == "DELETE"@ {
        Ok("DELETE FROM "@ + qualified(schema, table) + " WHERE "@ + delete_condition(update.where_clause))
    } else if update.kind@ == "UPDATE"@ {
        Err(EditError::UpdateUnsupported)
    } else {
        Err(EditError::InvalidKind)
    }
}

/// Builds the statement for one edit: an insert of a row of defaults, or a
/// delete under the given condition (none given: no row).
pub fn edit_statement(schema: &String, table: &String, update: &TableUpdate) -> (r: Result<String, EditError>)
    ensures
        match edit_sql(schema@, table@, *update) {
            Ok(s) => r matches Ok(t) && t@ == s,
            Err(e) => r == Err::<String, EditError>(e),
        },
{
    let insert = String::from_str("INSERT");
    let delete = String::from_str("DELETE");
    let update_kind = String::from_str("UPDATE");
    proof {
        reveal_strlit("INSERT");
        reveal_strlit("DELETE");
        reveal_strlit("UPDATE");
    }
    let target = node_id(schema, table);
    if update.kind.eq(&insert) {
        let mut sql = String::from_str("INSERT INTO ");
        sql.append(target.as_str());
        sql.append(" DEFAULT VALUES");
        Ok(sql)
    } else if update.kind.eq(&delete) {
        let mut sql = String::from_str("DELETE FROM ");
        sql.append(target.as_str());
        sql.append(" WHERE ");
        match &update.where_clause {
            Some(w) => sql.append(w.as_str()),
            None => sql.append("1=0"),
        }
        Ok(sql)
    } else if update.kind.eq(&update_kind) {
        Err(EditError::UpdateUnsupported)
    } else {
        Err(EditError::InvalidKind)
    }
}

} // verus!
