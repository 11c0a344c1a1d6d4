//! The SQL text of the experiment cache: which statements are run and how the stored
//! arguments of a run are looked up again.

use vstd::prelude::*;
use crate::data_types::{Algorithm, TeebenchArgs};
use crate::text::{decimal, u64_to_string};

verus! {

/// The statement that sets `column` of `table` to `NULL` where it holds the empty string,
/// as CSV imports leave empty cells.
pub open spec fn null_if_empty_sql(table: Seq<char>, column: Seq<char>) -> Seq<char> {
    "\n        UPDATE "@ + table + "\n            SET "@ + column + " = NULL\n            WHERE "@ + column
        + " = \"\";\n    "@
}

/// The statement that sets `column` of `table` to `NULL` where it holds the empty string.
pub fn set_to_null_if_equals_empty_string(table: &str, column: &str) -> (r: String)
    ensures
        r@ == null_if_empty_sql(table@, column@),
{
    let r = String::from_str("\n        UPDATE ").concat(table).concat("\n            SET ").concat(column).concat(
        " = NULL\n            WHERE ",
    ).concat(column).concat(" = \"\";\n    ");
    r
}

/// The condition that column `name` matches parameter `idx` where there is a value, or is `NULL`.
pub open spec fn match_or_null_sql(has_value: bool, name: Seq<char>, idx: nat) -> Seq<char> {
    if has_value {
        name + "=?"@ + decimal(idx)
    } else {
        name + " IS NULL"@
    }
}

/// The condition that column `name` matches parameter `idx` where `val` holds a value, or is `NULL`.
pub fn query_none<T>(val: &Option<T>, name: &str, idx: usize) -> (r: String)
    ensures
        r@ == match_or_null_sql(val is Some, name@, idx as nat),
{
    match val {
        Some(_) => {
            let n = u64_to_string(idx as u64);
            String::from_str(name).concat("=?").concat(n.as_str())
        },
        None => String::from_str(name).concat(" IS NULL"),
    }
}

/// The query for the identifier of the stored run with the arguments `args`: parameters
/// 1 to 16 stand for the fields in their order, the optional ones compared with `NULL`
/// where they are not set.
pub open spec fn search_sql(args: TeebenchArgs) -> Seq<char> {
    "SELECT id FROM teebenchargs WHERE app_name=?1 AND dataset=?2 AND algorithm=?3 AND threads=?4 AND selectivity=?5 AND data_skew=?6 AND seal_chunk_size=?7 AND r_tuples=?8 AND s_tuples=?9 AND "@
        + match_or_null_sql(args.r_path is Some, "r_path"@, 10) + " AND "@
        + match_or_null_sql(args.s_path is Some, "s_path"@, 11) + " AND "@
        + match_or_null_sql(args.r_size is Some, "r_size"@, 12) + " AND "@
        + match_or_null_sql(args.s_size is Some, "s_size"@, 13)
        + " AND seal=?14 AND sort_r=?15 AND sort_s=?16"@
}

/// The query for the identifier of the stored run with the arguments `args`.
pub fn search_query(args: &TeebenchArgs) -> (r: String)
    ensures
        r@ == search_sql(*args),
{
    let q10 = query_none(&args.r_path, "r_path", 10);
    let q11 = query_none(&args.s_path, "s_path", 11);
    let q12 = query_none(&args.r_size, "r_size", 12);
    let q13 = query_none(&args.s_size, "s_size", 13);
    let r = String::from_str(
        "SELECT id FROM teebenchargs WHERE app_name=?1 AND dataset=?2 AND algorithm=?3 AND threads=?4 AND selectivity=?5 AND data_skew=?6 AND seal_chunk_size=?7 AND r_tuples=?8 AND s_tuples=?9 AND ",
    ).concat(q10.as_str()).concat(" AND ").concat(q11.as_str()).concat(" AND ").concat(q12.as_str()).concat(
        " AND ",
    ).concat(q13.as_str()).concat(" AND seal=?14 AND sort_r=?15 AND sort_s=?16");
    r
}

impl Algorithm {
    /// The algorithm's variant name, with the commit's identifier for a commit; in the
    /// pretty form, the identifier stands indented on a line of its own.
    pub open spec fn debug_name(self, pretty: bool) -> Seq<char> {
        match self {
            Algorithm::Rho => "Rho"@,
            Algorithm::Pht => "Pht"@,
            Algorithm::Psm => "Psm"@,
            Algorithm::Mway => "Mway"@,
            Algorithm::Rht => "Rht"@,
            Algorithm::Cht => "Cht"@,
            Algorithm::Rsm => "Rsm"@,
            Algorithm::Inl => "Inl"@,
            Algorithm::Crkj => "Crkj"@,
            Algorithm::Nlj => "Nlj"@,
            Algorithm::Commit(id) => if pretty {
                "Commit(\n    "@ + decimal(id as nat) + ",\n)"@
            } else {
                "Commit("@ + decimal(id as nat) + ")"@
            },
        }
    }

    /// The algorithm's variant name as the cache stores it (`pretty` is set for the form
    /// the cache is searched with).
    pub fn to_debug_string(&self, pretty: bool) -> (s: String)
        ensures
            s@ == self.debug_name(pretty),
    {
        match self {
            Algorithm::Rho => String::from_str("Rho"),
            Algorithm::Pht => String::from_str("Pht"),
            Algorithm::Psm => String::from_str("Psm"),
            Algorithm::Mway => String::from_str("Mway"),
            Algorithm::Rht => String::from_str("Rht"),
            Algorithm::Cht => String::from_str("Cht"),
            Algorithm::Rsm => String::from_str("Rsm"),
            Algorithm::Inl => String::from_str("Inl"),
            Algorithm::Crkj => String::from_str("Crkj"),
            Algorithm::Nlj => String::from_str("Nlj"),
            Algorithm::Commit(id) => {
                let n = u64_to_string(*id as u64);
                if pretty {
                    String::from_str("Commit(\n    ").concat(n.as_str()).concat(",\n)")
                } else {
                    String::from_str("Commit(").concat(n.as_str()).concat(")")
                }
            },
        }
    }
}

} // verus!
