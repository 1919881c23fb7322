use frogtable::sql::{
    build_count_sql, build_order_clause, build_query_view_sql, build_select_sql,
    build_source_view_sql, Direction, OrderBy,
};

fn order(column: &str, direction: Direction) -> OrderBy {
    OrderBy { column: column.to_string(), direction }
}

#[test]
fn ordering_term_quotes_the_column() {
    assert_eq!(order("x", Direction::Asc).to_sql(), "\"x\" ASC");
    assert_eq!(order("my-col", Direction::Desc).to_sql(), "\"my-col\" DESC");
}

#[test]
fn no_ordering_gives_no_clause() {
    assert_eq!(build_order_clause(&vec![]), "");
}

#[test]
fn orderings_are_joined_by_comma_and_space() {
    assert_eq!(build_order_clause(&vec![order("x", Direction::Desc)]), "ORDER BY \"x\" DESC");
    assert_eq!(
        build_order_clause(&vec![
            order("a", Direction::Asc),
            order("b", Direction::Desc),
            order("c", Direction::Asc)
        ]),
        "ORDER BY \"a\" ASC, \"b\" DESC, \"c\" ASC"
    );
}

#[test]
fn select_of_first_page_starts_at_zero() {
    assert_eq!(
        build_select_sql("q1", &vec![], 1, 100),
        "SELECT * FROM \"q1\"  LIMIT 100 OFFSET 0;"
    );
}

#[test]
fn select_offset_is_pages_before_times_page_size() {
    assert_eq!(
        build_select_sql("q1", &vec![order("x", Direction::Desc)], 3, 25),
        "SELECT * FROM \"q1\" ORDER BY \"x\" DESC LIMIT 25 OFFSET 50;"
    );
}

#[test]
fn select_offset_does_not_wrap() {
    assert_eq!(
        build_select_sql("q", &vec![], u32::MAX, u32::MAX),
        "SELECT * FROM \"q\"  LIMIT 4294967295 OFFSET 18446744060824649730;"
    );
}

#[test]
fn select_with_empty_page() {
    assert_eq!(build_select_sql("q", &vec![], 2, 0), "SELECT * FROM \"q\"  LIMIT 0 OFFSET 0;");
}

#[test]
fn count_is_over_the_whole_view() {
    assert_eq!(build_count_sql("q1"), "SELECT COUNT(*) FROM \"q1\";");
}

#[test]
fn query_view_takes_the_sql_verbatim() {
    assert_eq!(
        build_query_view_sql("q1", "SELECT * FROM events"),
        "CREATE OR REPLACE VIEW \"q1\" AS SELECT * FROM events"
    );
}

#[test]
fn source_view_scans_the_json_leniently() {
    assert_eq!(
        build_source_view_sql("events", "/tmp/events.json"),
        "CREATE OR REPLACE VIEW \"events\" AS SELECT * FROM read_json('/tmp/events.json', ignore_errors = true, format = 'unstructured');"
    );
}
