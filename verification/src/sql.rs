//! The SQL that the engine is asked to run: view definitions, the row count
//! and the ordered, paginated selection.

use crate::ident::{escape_table_name, quoted};
use crate::text::{nat_text, u128_to_string};
use vstd::prelude::*;
use vstd::string::*;

verus! {

/// The direction in which a column is ordered.
#[derive(Debug, Clone, Copy, PartialEq, Eq, Structural)]
pub enum Direction {
    Asc,
    Desc,
}

/// A column and the direction in which the rows are ordered by it.
#[derive(Debug, PartialEq)]
pub struct OrderBy {
    pub column: String,
    pub direction: Direction,
}

/// The SQL keyword of a direction.
pub open spec fn direction_sql(direction: Direction) -> Seq<char> {
    match direction {
        Direction::Asc => "ASC"@,
        Direction::Desc => "DESC"@,
    }
}

/// One term of an `ORDER BY` clause: the quoted column, then the direction.
pub open spec fn order_term(column: Seq<char>, direction: Direction) -> Seq<char> {
    quoted(column) + " "@ + direction_sql(direction)
}

/// The terms of an `ORDER BY` clause, separated by a comma and a space.
pub open spec fn order_terms(order_by: Seq<OrderBy>) -> Seq<char>
    decreases order_by.len(),
{
    if order_by.len() == 0 {
        Seq::empty()
    } else if order_by.len() == 1 {
        order_by[0].sql_text()
    } else {
        order_terms(order_by.drop_last()) + ", "@ + order_by.last().sql_text()
    }
}

/// The `ORDER BY` clause: empty where no ordering is asked for.
pub open spec fn order_clause(order_by: Seq<OrderBy>) -> Seq<char> {
    if order_by.len() > 0 {
        "ORDER BY "@ + order_terms(order_by)
    } else {
        Seq::empty()
    }
}

/// The number of rows that precede page `page`, pages being counted from
/// one.
pub open spec fn page_offset(page: int, per_page: int) -> int {
    (page - 1) * per_page
}

/// The statement that selects one page of a view.
pub open spec fn select_sql(name: Seq<char>, order_by: Seq<OrderBy>, page: int, per_page: int) -> Seq<
    char,
> {
    "SELECT * FROM "@ + quoted(name) + " "@ + order_clause(order_by) + " LIMIT "@ + nat_text(
        per_page as nat,
    ) + " OFFSET "@ + nat_text(page_offset(page, per_page) as nat) + ";"@
}

/// The statement that counts all rows of a view.
pub open spec fn count_sql(name: Seq<char>) -> Seq<char> {
    "SELECT COUNT(*) FROM "@ + quoted(name) + ";"@
}

/// The statement that defines the view of a query by the query's SQL.
pub open spec fn query_view_sql(name: Seq<char>, sql: Seq<char>) -> Seq<char> {
    "CREATE OR REPLACE VIEW "@ + quoted(name) + " AS "@ + sql
}

/// The statement that defines the view of a source as a lenient scan of
/// its JSON file.
pub open spec fn source_view_sql(name: Seq<char>, path: Seq<char>) -> Seq<char> {
    "CREATE OR REPLACE VIEW "@ + quoted(name) + " AS SELECT * FROM read_json('"@ + path
        + "', ignore_errors = true, format = 'unstructured');"@
}

impl OrderBy {
    /// The term of this ordering in an `ORDER BY` clause.
    pub open spec fn sql_text(self) -> Seq<char> {
        order_term(self.column@, self.direction)
    }

    /// Writes the term of this ordering.
    pub fn to_sql(&self) -> (sql: String)
        ensures
            sql@ == self.sql_text(),
    {
        let mut sql = escape_table_name(self.column.as_str());
        sql.append(" ");
        match self.direction {
            Direction::Asc => sql.append("ASC"),
            Direction::Desc => sql.append("DESC"),
        }
        sql
    }
}

/// Writes the `ORDER BY` clause.
pub fn build_order_clause(order_by: &Vec<OrderBy>) -> (sql: String)
    ensures
        sql@ == order_clause(order_by@),
{
    if order_by.len() == 0 {
        return String::new();
    }
    let mut sql = String::from_str("ORDER BY ");
    let first = order_by[0].to_sql();
    sql.append(first.as_str());
    assert(order_by@.take(1) =~= seq![order_by@[0]]);
    let mut i: usize = 1;
    while i < order_by.len()
        invariant
            1 <= i <= order_by.len(),
            sql@ == "ORDER BY "@ + order_terms(order_by@.take(i as int)),
        decreases order_by.len() - i,
    {
        let term = order_by[i].to_sql();
        sql.append(", ");
        sql.append(term.as_str());
        proof {
            let next = order_by@.take(i + 1);
            assert(next.drop_last() =~= order_by@.take(i as int));
            assert(next.last() == order_by@[i as int]);
            assert(sql@ =~= "ORDER BY "@ + order_terms(next));
        }
        i += 1;
    }
    assert(order_by@.take(i as int) =~= order_by@);
    sql
}

/// Writes the statement that selects one page of a view.
pub fn build_select_sql(name: &str, order_by: &Vec<OrderBy>, page: u32, per_page: u32) -> (sql:
    String)
    requires
        page >= 1,
    ensures
        sql@ == select_sql(name@, order_by@, page as int, per_page as int),
{
    assert((page - 1) * per_page <= 0xffff_ffff * 0xffff_ffff) by (nonlinear_arith)
        requires
            1 <= page <= 0xffff_ffff,
            0 <= per_page <= 0xffff_ffff,
    ;
    let offset: u64 = ((page - 1) as u64) * (per_page as u64);
    let mut sql = String::from_str("SELECT * FROM ");
    sql.append(escape_table_name(name).as_str());
    sql.append(" ");
    sql.append(build_order_clause(order_by).as_str());
    sql.append(" LIMIT ");
    sql.append(u128_to_string(per_page as u128).as_str());
    sql.append(" OFFSET ");
    sql.append(u128_to_string(offset as u128).as_str());
    sql.append(";");
    sql
}

/// Writes the statement that counts all rows of a view.
pub fn build_count_sql(name: &str) -> (sql: String)
    ensures
        sql@ == count_sql(name@),
{
    let mut sql = String::from_str("SELECT COUNT(*) FROM ");
    sql.append(escape_table_name(name).as_str());
    sql.append(";");
    sql
}

/// Writes the statement that defines the view of a query.
pub fn build_query_view_sql(name: &str, query: &str) -> (sql: String)
    ensures
        sql@ == query_view_sql(name@, query@),
{
    let mut sql = String::from_str("CREATE OR REPLACE VIEW ");
    sql.append(escape_table_name(name).as_str());
    sql.append(" AS ");
    sql.append(query);
    sql
}

/// Writes the statement that defines the view of a source.
pub fn build_source_view_sql(name: &str, path: &str) -> (sql: String)
    ensures
        sql@ == source_view_sql(name@, path@),
{
    let mut sql = String::from_str("CREATE OR REPLACE VIEW ");
    sql.append(escape_table_name(name).as_str());
    sql.append(" AS SELECT * FROM read_json('");
    sql.append(path);
    sql.append("', ignore_errors = true, format = 'unstructured');");
    sql
}

} // verus!
