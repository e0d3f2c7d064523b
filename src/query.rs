use vstd::prelude::*;
use vstd::string::*;

verus! {

/// serde_json::Number, the payload of a floating-point cell; opaque here.
#[verifier::external_type_specification]
#[verifier::external_body]
pub struct ExJsonNumber(serde_json::Number);

/// serde_json::Number derives `Clone`: the copy equals the original.
pub assume_specification[ <serde_json::Number as Clone>::clone ](n: &serde_json::Number) -> (r:
    serde_json::Number)
    ensures
        r == *n,
;

/// A statement to run, or to explain, on a stored connection.
pub struct ExecuteQueryRequest {
    pub connection_id: String,
    pub query: String,
}

/// One materialized result cell. Cell types are inferred per value, not taken
/// from a schema.
pub enum CellValue {
    Null,
    Text(String),
    Integer(i64),
    Float(serde_json::Number),
    Boolean(bool),
}

/// The outcome of decoding one cell as each candidate type, in probing order:
/// text, 32-bit integer, 64-bit integer, floating point, boolean. `None` marks
/// a decode that failed.
pub struct CellProbe {
    pub text: Option<String>,
    pub int4: Option<i32>,
    pub int8: Option<i64>,
    pub float: Option<serde_json::Number>,
    pub boolean: Option<bool>,
}

/// The value of a probed cell: the first decode that succeeded wins, and a
/// cell that no decode accepts is null. This is a heuristic, lossy reading.
pub open spec fn cell_of(p: CellProbe) -> CellValue {
    if p.text is Some {
        CellValue::Text(p.text->0)
    } else if p.int4 is Some {
        CellValue::Integer(p.int4->0 as i64)
    } else if p.int8 is Some {
        CellValue::Integer(p.int8->0)
    } else if p.float is Some {
        CellValue::Float(p.float->0)
    } else if p.boolean is Some {
        CellValue::Boolean(p.boolean->0)
    } else {
        CellValue::Null
    }
}

/// The `width` cells of a row whose probes are `probes`, in column order; a
/// column the row has no probe for is null.
pub open spec fn row_of(width: nat, probes: Seq<CellProbe>) -> Seq<CellValue> {
    Seq::new(width, |j: int| if j < probes.len() { cell_of(probes[j]) } else { CellValue::Null })
}

/// Column names, rows of cells, and the number of rows.
pub struct QueryResult {
    pub columns: Vec<String>,
    pub rows: Vec<Vec<CellValue>>,
    pub row_count: usize,
}

impl QueryResult {
    /// Every row has exactly one value per column, and `row_count` counts the rows.
    pub open spec fn well_shaped(&self) -> bool {
        &&& self.row_count == self.rows@.len()
        &&& forall|i: int| 0 <= i < self.rows@.len() ==> (#[trigger] self.rows@[i])@.len() == self.columns@.len()
    }
}

/// Materializes one probed cell.
pub fn resolve_cell(p: &CellProbe) -> (r: CellValue)
    ensures
        r == cell_of(*p),
{
    if let Some(t) = &p.text {
        CellValue::Text(t.clone())
    } else if let Some(v) = p.int4 {
        CellValue::Integer(v as i64)
    } else if let Some(v) = p.int8 {
        CellValue::Integer(v)
    } else if let Some(v) = &p.float {
        CellValue::Float(v.clone())
    } else if let Some(v) = p.boolean {
        CellValue::Boolean(v)
    } else {
        CellValue::Null
    }
}

fn resolve_row(width: usize, probes: &Vec<CellProbe>) -> (r: Vec<CellValue>)
    ensures
        r@ == row_of(width as nat, probes@),
{
    let mut out: Vec<CellValue> = Vec::new();
    let mut j: usize = 0;
    while j < width
        invariant
            j <= width,
            out@ =~= row_of(width as nat, probes@).subrange(0, j as int),
        decreases width - j,
    {
        if j < probes.len() {
            out.push(resolve_cell(&probes[j]));
        } else {
            out.push(CellValue::Null);
        }
        j = j + 1;
        proof {
            assert(out@ =~= row_of(width as nat, probes@).subrange(0, j as int));
        }
    }
    proof {
        assert(out@ =~= row_of(width as nat, probes@));
    }
    out
}

/// Builds the result of a statement from its rows' probed cells. `columns`
/// are the column names of the first row. With no rows the result is empty,
/// column names included; otherwise each row has one value per column.
pub fn build_query_result(columns: &Vec<String>, rows: &Vec<Vec<CellProbe>>) -> (r: QueryResult)
    ensures
        r.well_shaped(),
        rows@.len() == 0 ==> r.columns@.len() == 0 && r.rows@.len() == 0 && r.row_count == 0,
        rows@.len() > 0 ==> r.columns@ == columns@,
        r.rows@.len() == rows@.len(),
        forall|i: int| 0 <= i < rows@.len() ==> (#[trigger] r.rows@[i])@ == row_of(columns@.len(), rows@[i]@),
{
    if rows.len() == 0 {
        return QueryResult { columns: Vec::new(), rows: Vec::new(), row_count: 0 };
    }
    let mut names: Vec<String> = Vec::new();
    let mut k: usize = 0;
    while k < columns.len()
        invariant
            k <= columns@.len(),
            names@ == columns@.subrange(0, k as int),
        decreases columns@.len() - k,
    {
        names.push(columns[k].clone());
        k = k + 1;
        proof {
            assert(names@ =~= columns@.subrange(0, k as int));
        }
    }
    proof {
        assert(names@ =~= columns@);
    }
    let width = columns.len();
    let mut out: Vec<Vec<CellValue>> = Vec::new();
    let mut i: usize = 0;
    while i < rows.len()
        invariant
            i <= rows@.len(),
            width == columns@.len(),
            out@.len() == i,
            forall|a: int| 0 <= a < i ==> (#[trigger] out@[a])@ == row_of(width as nat, rows@[a]@),
        decreases rows@.len() - i,
    {
        out.push(resolve_row(width, &rows[i]));
        i = i + 1;
    }
    let row_count = out.len();
    QueryResult { columns: names, rows: out, row_count }
}

/// The statement that profiles `sql`: it runs it and reports the plan.
pub fn explain_statement(sql: &String) -> (r: String)
    ensures
        r@ == "EXPLAIN ANALYZE "@ + sql@,
{
    let mut s = String::from_str("EXPLAIN ANALYZE ");
    s.append(sql.as_str());
    s
}

/// `lines` joined with a newline between each two.
pub open spec fn joined_lines(lines: Seq<Seq<char>>) -> Seq<char>
    decreases lines.len(),
{
    if lines.len() == 0 {
        Seq::empty()
    } else if lines.len() == 1 {
        lines[0]
    } else {
        joined_lines(lines.drop_last()) + seq!['\n'] + lines.last()
    }
}

/// The plan text: the plan lines joined with newlines.
pub fn join_plan_lines(lines: &Vec<String>) -> (r: String)
    ensures
        r@ == joined_lines(lines@.map_values(|l: String| l@)),
{
    let ghost views = lines@.map_values(|l: String| l@);
    let mut out = String::new();
    let mut i: usize = 0;
    while i < lines.len()
        invariant
            i <= lines@.len(),
            views == lines@.map_values(|l: String| l@),
            out@ == joined_lines(views.subrange(0, i as int)),
        decreases lines@.len() - i,
    {
        proof {
            assert(views.subrange(0, i + 1).drop_last() =~= views.subrange(0, i as int));
        }
        if i > 0 {
            out.append("\n");
            proof {
                reveal_strlit("\n");
            }
        }
        out.append(lines[i].as_str());
        i = i + 1;
    }
    proof {
        assert(views.subrange(0, lines@.len() as int) =~= views);
    }
    out
}

} // verus!
