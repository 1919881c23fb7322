//! The decisions of the serving engine: which query a request means, which
//! sources it depends on, and which statements the embedded engine is asked
//! to run for it.

use crate::config::{Data, Query, RootConfig};
use crate::error::ServeError;
use crate::ident::{is_name, is_valid_name};
use crate::json::{
    collect, duckdb_row_to_json, json_views, lemma_collect_prefix_failure, lemma_collect_step,
    row_json, JsonModel, JsonValue, MappingError, Value,
};
use crate::sql::{
    build_count_sql, build_query_view_sql, build_select_sql, build_source_view_sql, count_sql,
    query_view_sql, select_sql, source_view_sql, OrderBy,
};
use crate::text::{contains, is_substring};
use vstd::prelude::*;
use vstd::string::*;

verus! {

/// The serving engine's own state: the configuration it serves.
#[derive(Debug, PartialEq)]
pub struct DB {
    pub config: RootConfig,
}

/// The statements that serve one page of a query, in the order in which
/// they are run.
#[derive(Debug, PartialEq)]
pub struct QueryPlan {
    /// Defines the query's view by its current SQL.
    pub create_view: String,
    /// Counts all rows of the view.
    pub count: String,
    /// Selects the requested page of the view.
    pub select: String,
}

/// The statements that define the views of the sources at startup, and the
/// failure that ends them, if one does.
#[derive(Debug, PartialEq)]
pub struct InitPlan {
    pub statements: Vec<String>,
    pub failure: Option<ServeError>,
}

/// One column of a result: its name and the engine's name for its type.
#[derive(Debug, PartialEq)]
pub struct SchemaField {
    pub name: String,
    pub data_type: String,
}

/// What one execution of a query gave.
#[derive(Debug, PartialEq)]
pub struct ExecQueryResult {
    /// The number of rows of the query's view, all pages together.
    pub total_count: u32,
    /// The rows of the requested page, each value as JSON.
    pub data: Vec<Vec<JsonValue>>,
    /// The columns of the result, in order.
    pub schema: Vec<SchemaField>,
}

/// The JSON forms of rows, each with its own outcome.
pub open spec fn row_results(rows: Seq<Vec<Value>>) -> Seq<
    Result<Seq<JsonModel>, (int, MappingError)>,
> {
    Seq::new(rows.len(), |r: int| row_json(rows[r]@))
}

/// The values that rows of JSON values stand for.
pub open spec fn data_views(data: Seq<Vec<JsonValue>>) -> Seq<Seq<JsonModel>> {
    Seq::new(data.len(), |r: int| json_views(data[r]@))
}

/// The result holds the count and the schema as given, and the JSON forms
/// of the rows in order; where a value has no JSON form, the failure names
/// the column of the first such value in the first such row.
pub open spec fn is_exec_result(
    result: Result<ExecQueryResult, ServeError>,
    total_count: u32,
    rows: Seq<Vec<Value>>,
    schema: Vec<SchemaField>,
) -> bool {
    match result {
        Ok(found) => {
            &&& found.total_count == total_count
            &&& found.schema == schema
            &&& found.data@.len() == rows.len()
            &&& collect(row_results(rows)) == Ok::<Seq<Seq<JsonModel>>, (int, MappingError)>(
                data_views(found.data@),
            )
        },
        Err(ServeError::Mapping { column, error }) => collect(row_results(rows)) == Err::<
            Seq<Seq<JsonModel>>,
            (int, MappingError),
        >((column as int, error)),
        Err(_) => false,
    }
}

impl ExecQueryResult {
    /// Puts the result of an execution together: the count of all rows, the
    /// rows of the page as the engine handed them out, and the columns.
    pub fn from_rows(total_count: u32, rows: &Vec<Vec<Value>>, schema: Vec<SchemaField>) -> (result:
        Result<ExecQueryResult, ServeError>)
        ensures
            is_exec_result(result, total_count, rows@, schema),
    {
        let ghost results = row_results(rows@);
        let mut data: Vec<Vec<JsonValue>> = Vec::new();
        let mut r: usize = 0;
        assert(results.take(0) =~= Seq::empty());
        assert(data_views(data@) =~= Seq::empty());
        while r < rows.len()
            invariant
                r <= rows.len(),
                data@.len() == r,
                results == row_results(rows@),
                collect(results.take(r as int)) == Ok::<Seq<Seq<JsonModel>>, (int, MappingError)>(
                    data_views(data@),
                ),
            decreases rows.len() - r,
        {
            proof {
                lemma_collect_step(results, r as int);
            }
            match duckdb_row_to_json(&rows[r]) {
                Ok(jsons) => {
                    let ghost before = data_views(data@);
                    data.push(jsons);
                    assert(data_views(data@) =~= before.push(json_views(jsons@)));
                },
                Err(e) => {
                    proof {
                        lemma_collect_prefix_failure(results, r + 1);
                    }
                    return Err(ServeError::Mapping { column: e.column, error: e.error });
                },
            }
            r += 1;
        }
        assert(results.take(r as int) =~= results);
        Ok(ExecQueryResult { total_count, data, schema })
    }
}

/// `k` is the place of the first query named `name`.
pub open spec fn is_first_query(queries: Seq<Query>, name: Seq<char>, k: int) -> bool {
    &&& 0 <= k < queries.len()
    &&& queries[k].name@ == name
    &&& forall|j: int| 0 <= j < k ==> (#[trigger] queries[j]).name@ != name
}

/// No query is named `name`.
pub open spec fn no_query(queries: Seq<Query>, name: Seq<char>) -> bool {
    forall|j: int| 0 <= j < queries.len() ==> (#[trigger] queries[j]).name@ != name
}

/// The sources whose name occurs in the SQL text, in their own order.
pub open spec fn dependent_sources(sources: Seq<Data>, sql: Seq<char>) -> Seq<Data>
    decreases sources.len(),
{
    if sources.len() == 0 {
        Seq::empty()
    } else {
        let before = dependent_sources(sources.drop_last(), sql);
        if is_substring(sources.last().name@, sql) {
            before.push(sources.last())
        } else {
            before
        }
    }
}

/// The SQL of the first query named `name`, `file_text` being what its
/// file holds now if its SQL is kept in a file.
pub open spec fn current_sql(queries: Seq<Query>, name: Seq<char>, file_text: Seq<char>) -> Seq<
    char,
> {
    let k = choose|k: int| is_first_query(queries, name, k);
    queries[k].source.sql_text(file_text)
}

/// The sources that a refresh of `target` runs through: all of them for
/// `all`, and otherwise those that the SQL of the query `target` names.
pub open spec fn refresh_targets(config: RootConfig, target: Seq<char>, file_text: Seq<char>) -> Seq<
    Data,
> {
    if target == "all"@ {
        config.sources@
    } else {
        dependent_sources(config.sources@, current_sql(config.queries@, target, file_text))
    }
}

/// Only one place is the place of the first query of a name.
pub proof fn lemma_first_query_is_one(queries: Seq<Query>, name: Seq<char>, k: int)
    requires
        is_first_query(queries, name, k),
    ensures
        (choose|j: int| is_first_query(queries, name, j)) == k,
{
    let j = choose|j: int| is_first_query(queries, name, j);
    if j < k {
        assert(queries[j].name@ != name);
    }
    if k < j {
        assert(queries[k].name@ != name);
    }
}

/// The plan holds the three statements for one page of the view `name`.
pub open spec fn is_query_plan(
    plan: QueryPlan,
    name: Seq<char>,
    sql: Seq<char>,
    order_by: Seq<OrderBy>,
    page: int,
    per_page: int,
) -> bool {
    &&& plan.create_view@ == query_view_sql(name, sql)
    &&& plan.count@ == count_sql(name)
    &&& plan.select@ == select_sql(name, order_by, page, per_page)
}

/// The plan defines a view for each source up to the first whose name is
/// not valid, and fails with that name; it defines all of them and does not
/// fail where every name is valid.
pub open spec fn is_init_plan(plan: InitPlan, sources: Seq<Data>, scratch: Seq<char>) -> bool {
    let k = plan.statements@.len() as int;
    &&& k <= sources.len()
    &&& forall|j: int|
        0 <= j < k ==> is_valid_name((#[trigger] sources[j]).name@) && plan.statements@[j]@
            == source_view_sql(sources[j].name@, sources[j].path_of(scratch))
    &&& k == sources.len() ==> plan.failure is None
    &&& k < sources.len() ==> !is_valid_name(sources[k].name@) && (plan.failure matches Some(
        ServeError::InvalidIdentifier { name },
    ) && name@ == sources[k].name@)
}

/// Copies a list of sources.
fn clone_sources(sources: &Vec<Data>) -> (copy: Vec<Data>)
    ensures
        copy@ == sources@,
{
    let mut copy: Vec<Data> = Vec::new();
    let mut i: usize = 0;
    while i < sources.len()
        invariant
            i <= sources.len(),
            copy@ == sources@.take(i as int),
        decreases sources.len() - i,
    {
        copy.push(sources[i].clone());
        assert(copy@ =~= sources@.take(i + 1));
        i += 1;
    }
    assert(sources@.take(i as int) =~= sources@);
    copy
}

/// Copies a list of queries.
fn clone_queries(queries: &Vec<Query>) -> (copy: Vec<Query>)
    ensures
        copy@ == queries@,
{
    let mut copy: Vec<Query> = Vec::new();
    let mut i: usize = 0;
    while i < queries.len()
        invariant
            i <= queries.len(),
            copy@ == queries@.take(i as int),
        decreases queries.len() - i,
    {
        copy.push(queries[i].clone());
        assert(copy@ =~= queries@.take(i + 1));
        i += 1;
    }
    assert(queries@.take(i as int) =~= queries@);
    copy
}

/// The statement that defines the view of a source as a scan of its JSON
/// file, `scratch` being the directory that keeps the output of commands.
/// Fails where the source's name is not valid.
pub fn ensure_source_view(source: &Data, scratch: &str) -> (result: Result<String, ServeError>)
    ensures
        match result {
            Ok(statement) => is_valid_name(source.name@) && statement@ == source_view_sql(
                source.name@,
                source.path_of(scratch@),
            ),
            Err(e) => !is_valid_name(source.name@) && (e matches ServeError::InvalidIdentifier {
                name,
            } && name@ == source.name@),
        },
{
    if !is_name(source.name.as_str()) {
        return Err(ServeError::InvalidIdentifier { name: source.name.clone() });
    }
    let path = source.path(scratch);
    Ok(build_source_view_sql(source.name.as_str(), path.as_str()))
}

/// The statement that defines the view of the query `name` by `sql`, the
/// query's current SQL text, verbatim. Fails where the name is not valid.
pub fn ensure_query_view(name: &str, sql: &str) -> (result: Result<String, ServeError>)
    ensures
        match result {
            Ok(statement) => is_valid_name(name@) && statement@ == query_view_sql(name@, sql@),
            Err(e) => !is_valid_name(name@) && (e matches ServeError::InvalidIdentifier {
                name: n,
            } && n@ == name@),
        },
{
    if !is_name(name) {
        return Err(ServeError::InvalidIdentifier { name: String::from_str(name) });
    }
    Ok(build_query_view_sql(name, sql))
}

impl DB {
    /// The place of the first query named `name`, if there is one.
    pub fn find_query(&self, name: &str) -> (found: Option<usize>)
        ensures
            match found {
                Some(k) => is_first_query(self.config.queries@, name@, k as int),
                None => no_query(self.config.queries@, name@),
            },
    {
        let wanted = String::from_str(name);
        let mut i: usize = 0;
        while i < self.config.queries.len()
            invariant
                i <= self.config.queries.len(),
                wanted@ == name@,
                forall|j: int| 0 <= j < i ==> (#[trigger] self.config.queries@[j]).name@ != name@,
            decreases self.config.queries.len() - i,
        {
            if self.config.queries[i].name == wanted {
                return Some(i);
            }
            i += 1;
        }
        None
    }

    /// The sources on which the query `query_name` depends: those whose
    /// name occurs in the query's SQL text, `file_text` being what the
    /// query's file holds now. Fails where no query has that name.
    pub fn find_dependent_sources(&self, query_name: &str, file_text: &str) -> (result: Result<
        Vec<Data>,
        ServeError,
    >)
        ensures
            match result {
                Ok(sources) => !no_query(self.config.queries@, query_name@) && sources@
                    == dependent_sources(
                    self.config.sources@,
                    current_sql(self.config.queries@, query_name@, file_text@),
                ),
                Err(e) => no_query(self.config.queries@, query_name@) && e
                    == ServeError::QueryNotFound,
            },
    {
        let at = match self.find_query(query_name) {
            Some(at) => at,
            None => {
                return Err(ServeError::QueryNotFound);
            },
        };
        proof {
            lemma_first_query_is_one(self.config.queries@, query_name@, at as int);
        }
        let sql_source = self.config.queries[at].source.sql(file_text);
        let mut dependent: Vec<Data> = Vec::new();
        let mut i: usize = 0;
        assert(self.config.sources@.take(0) =~= Seq::empty());
        while i < self.config.sources.len()
            invariant
                i <= self.config.sources.len(),
                dependent@ == dependent_sources(self.config.sources@.take(i as int), sql_source@),
            decreases self.config.sources.len() - i,
        {
            proof {
                let next = self.config.sources@.take(i + 1);
                assert(next.drop_last() =~= self.config.sources@.take(i as int));
                assert(next.last() == self.config.sources@[i as int]);
            }
            if contains(sql_source.as_str(), self.config.sources[i].name.as_str()) {
                dependent.push(self.config.sources[i].clone());
            }
            i += 1;
        }
        assert(self.config.sources@.take(i as int) =~= self.config.sources@);
        Ok(dependent)
    }

    /// The sources that a refresh of `target` runs through, in order: every
    /// source for `all`, and otherwise the sources on which the query
    /// `target` depends, `file_text` being what that query's file holds
    /// now.
    pub fn refresh_sources(&self, target: &str, file_text: &str) -> (result: Result<
        Vec<Data>,
        ServeError,
    >)
        ensures
            match result {
                Ok(sources) => sources@ == refresh_targets(self.config, target@, file_text@) && (
                target@ == "all"@ || !no_query(self.config.queries@, target@)),
                Err(e) => target@ != "all"@ && no_query(self.config.queries@, target@) && e
                    == ServeError::QueryNotFound,
            },
    {
        let all = String::from_str("all");
        if String::from_str(target) == all {
            Ok(clone_sources(&self.config.sources))
        } else {
            self.find_dependent_sources(target, file_text)
        }
    }

    /// The statements that serve page `page` of the query `name`, pages
    /// being counted from one, `file_text` being what the query's file
    /// holds now. Fails where no query has that name, and where the name is
    /// not valid.
    pub fn exec_query(
        &self,
        name: &str,
        page: u32,
        per_page: u32,
        order_by: &Vec<OrderBy>,
        file_text: &str,
    ) -> (result: Result<QueryPlan, ServeError>)
        requires
            page >= 1,
        ensures
            match result {
                Ok(plan) => !no_query(self.config.queries@, name@) && is_valid_name(name@)
                    && is_query_plan(
                    plan,
                    name@,
                    current_sql(self.config.queries@, name@, file_text@),
                    order_by@,
                    page as int,
                    per_page as int,
                ),
                Err(ServeError::QueryNotFound) => no_query(self.config.queries@, name@),
                Err(ServeError::InvalidIdentifier { name: n }) => !no_query(
                    self.config.queries@,
                    name@,
                ) && !is_valid_name(name@) && n@ == name@,
                Err(_) => false,
            },
    {
        let at = match self.find_query(name) {
            Some(at) => at,
            None => {
                return Err(ServeError::QueryNotFound);
            },
        };
        proof {
            lemma_first_query_is_one(self.config.queries@, name@, at as int);
        }
        let sql = self.config.queries[at].source.sql(file_text);
        let create_view = match ensure_query_view(name, sql.as_str()) {
            Ok(statement) => statement,
            Err(e) => {
                return Err(e);
            },
        };
        Ok(
            QueryPlan {
                create_view,
                count: build_count_sql(name),
                select: build_select_sql(name, order_by, page, per_page),
            },
        )
    }

    /// The statements that define the views of the sources at startup,
    /// `scratch` being the directory that keeps the output of commands.
    pub fn init(&self, scratch: &str) -> (plan: InitPlan)
        ensures
            is_init_plan(plan, self.config.sources@, scratch@),
    {
        let mut statements: Vec<String> = Vec::new();
        let mut i: usize = 0;
        while i < self.config.sources.len()
            invariant
                i <= self.config.sources.len(),
                statements@.len() == i,
                forall|j: int|
                    0 <= j < i ==> is_valid_name((#[trigger] self.config.sources@[j]).name@)
                        && statements@[j]@ == source_view_sql(
                        self.config.sources@[j].name@,
                        self.config.sources@[j].path_of(scratch@),
                    ),
            decreases self.config.sources.len() - i,
        {
            match ensure_source_view(&self.config.sources[i], scratch) {
                Ok(statement) => statements.push(statement),
                Err(e) => {
                    return InitPlan { statements, failure: Some(e) };
                },
            }
            i += 1;
        }
        InitPlan { statements, failure: None }
    }

    /// The queries that are served.
    pub fn list_queries(&self) -> (queries: Vec<Query>)
        ensures
            queries@ == self.config.queries@,
    {
        clone_queries(&self.config.queries)
    }
}

/// A source is among the dependent ones exactly when it is configured
/// and its name occurs in the SQL text.
pub proof fn lemma_dependent_sources(sources: Seq<Data>, sql: Seq<char>, source: Data)
    ensures
        dependent_sources(sources, sql).contains(source) <==> sources.contains(source)
            && is_substring(source.name@, sql),
    decreases sources.len(),
{
    if sources.len() > 0 {
        let before = dependent_sources(sources.drop_last(), sql);
        lemma_dependent_sources(sources.drop_last(), sql, source);
        if sources.contains(source) {
            let i = choose|i: int| 0 <= i < sources.len() && sources[i] == source;
            if i < sources.len() - 1 {
                assert(sources.drop_last()[i] == source);
            }
        }
        if sources.drop_last().contains(source) {
            let i = choose|i: int|
                0 <= i < sources.drop_last().len() && sources.drop_last()[i] == source;
            assert(sources[i] == source);
        }
        if is_substring(sources.last().name@, sql) {
            assert(before.push(sources.last()).last() == sources.last());
            assert forall|x: Data| before.push(sources.last()).contains(x) <==> before.contains(x)
                || x == sources.last() by {
                if before.contains(x) {
                    let i = choose|i: int| 0 <= i < before.len() && before[i] == x;
                    assert(before.push(sources.last())[i] == x);
                }
                if x == sources.last() {
                    assert(before.push(sources.last())[before.len() as int] == x);
                }
            }
        }
        assert(sources[sources.len() - 1] == sources.last());
    }
}

/// A refresh of `all` runs through every configured source, whatever SQL
/// any query holds; so the command of every command source is run.
pub proof fn law_refresh_all(config: RootConfig, file_text: Seq<char>, source: Data)
    requires
        config.sources@.contains(source),
    ensures
        refresh_targets(config, "all"@, file_text).contains(source),
{
}

/// A refresh for a query runs through exactly the sources whose name
/// occurs in the query's SQL text, and through no others.
pub proof fn law_refresh_query(
    config: RootConfig,
    target: Seq<char>,
    file_text: Seq<char>,
    source: Data,
)
    requires
        target != "all"@,
    ensures
        refresh_targets(config, target, file_text).contains(source) <==> config.sources@.contains(
            source,
        ) && is_substring(source.name@, current_sql(config.queries@, target, file_text)),
{
    lemma_dependent_sources(
        config.sources@,
        current_sql(config.queries@, target, file_text),
        source,
    );
}

/// Every source has a valid name.
pub open spec fn source_names_valid(sources: Seq<Data>) -> bool {
    forall|j: int| 0 <= j < sources.len() ==> is_valid_name((#[trigger] sources[j]).name@)
}

/// Where every source has a valid name, startup defines a view for each
/// source and does not fail.
pub proof fn law_init_of_valid_names(plan: InitPlan, sources: Seq<Data>, scratch: Seq<char>)
    requires
        is_init_plan(plan, sources, scratch),
        source_names_valid(sources),
    ensures
        plan.failure is None,
        plan.statements@.len() == sources.len(),
{
}

/// No two queries have the same name.
pub open spec fn query_names_unique(queries: Seq<Query>) -> bool {
    forall|i: int, j: int|
        0 <= i < queries.len() && 0 <= j < queries.len() && i != j ==> (
        #[trigger] queries[i]).name@ != (#[trigger] queries[j]).name@
}

/// Where no two queries have the same name, a name means the one query
/// that has it: that query is the first of its name.
pub proof fn law_unique_name_means_one_query(queries: Seq<Query>, name: Seq<char>, k: int)
    requires
        query_names_unique(queries),
        0 <= k < queries.len(),
        queries[k].name@ == name,
    ensures
        is_first_query(queries, name, k),
        forall|j: int| is_first_query(queries, name, j) ==> j == k,
{
}

/// Where the engine hands back no more rows than the page holds, as the
/// limit of the select statement asks of it, the result holds no more rows
/// than the page; and its count is the count that the engine gave for the
/// whole view.
pub proof fn law_result_fits_the_page(
    found: ExecQueryResult,
    total_count: u32,
    rows: Seq<Vec<Value>>,
    schema: Vec<SchemaField>,
    per_page: u32,
)
    requires
        is_exec_result(Ok(found), total_count, rows, schema),
        rows.len() <= per_page,
    ensures
        found.data@.len() <= per_page,
        found.total_count == total_count,
{
}

} // verus!
