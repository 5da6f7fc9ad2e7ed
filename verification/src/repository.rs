use crate::error::AppError;
use crate::result_set::ResultSet;
use crate::text::{join_strings, joined, views_of};
use vstd::prelude::*;

verus! {

/// The schema/query backend capability: executes SQL text verbatim
/// against the table store and describes a named table's columns. The
/// database driver implements it outside the library; tests drive the
/// pipeline through stand-ins.
pub trait Repository {
    /// Runs `query` against the store, with no parameterization. The
    /// rows of a successful result are aligned to its column list: the
    /// design invariant every backend upholds and the formatter relies
    /// on.
    fn execute_query(&self, query: &str) -> (r: Result<ResultSet, AppError>)
        ensures
            r matches Ok(rs) ==> rs.wf(),
    ;

    /// Renders the named table's columns, in their declared ordinal
    /// order, as one comma-joined string of "name (type)" pairs.
    fn get_table_schema(&self, table_name: &str) -> Result<String, AppError>;
}

/// The catalog statement that lists a table's columns with their types,
/// in declared ordinal order.
pub fn schema_query(table_name: &str) -> (r: String)
    ensures
        r@ == "SELECT column_name, data_type FROM information_schema.columns WHERE table_name = '"@
            + table_name@ + "' ORDER BY ordinal_position"@,
{
    let mut out = String::new();
    out.append(
        "SELECT column_name, data_type FROM information_schema.columns WHERE table_name = '",
    );
    out.append(table_name);
    out.append("' ORDER BY ordinal_position");
    out
}

/// One "name (type)" schema entry.
pub open spec fn schema_entry_spec(name: Seq<char>, data_type: Seq<char>) -> Seq<char> {
    name + " ("@ + data_type + ")"@
}

/// The rendered schema of a column list: its entries comma-joined.
pub open spec fn schema_string_spec(cols: Seq<(String, String)>) -> Seq<char> {
    joined(cols.map_values(|p: (String, String)| schema_entry_spec(p.0@, p.1@)), ", "@)
}

/// Renders catalog columns, as (name, type) pairs in ordinal order,
/// into the schema string the prompts carry.
pub fn render_schema(cols: &Vec<(String, String)>) -> (r: String)
    ensures
        r@ == schema_string_spec(cols@),
{
    let mut entries: Vec<String> = Vec::new();
    let mut i: usize = 0;
    while i < cols.len()
        invariant
            i <= cols@.len(),
            entries@.len() == i,
            forall|k: int|
                0 <= k < i ==> (#[trigger] entries@[k])@ == schema_entry_spec(
                    cols@[k].0@,
                    cols@[k].1@,
                ),
        decreases cols@.len() - i,
    {
        let pair = &cols[i];
        let entry = pair.0.as_str().to_owned().concat(" (").concat(pair.1.as_str()).concat(")");
        proof {
            assert(entry@ =~= schema_entry_spec(cols@[i as int].0@, cols@[i as int].1@));
        }
        entries.push(entry);
        i = i + 1;
    }
    let r = join_strings(&entries, ", ");
    proof {
        assert(views_of(entries@) =~= cols@.map_values(
            |p: (String, String)| schema_entry_spec(p.0@, p.1@),
        ));
    }
    r
}

} // verus!
