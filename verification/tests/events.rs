use frogtable::config::{Query, QuerySource, RootConfig};
use frogtable::events::{
    greeting_event, handle_file_watch_event, keepalive_event, queries_to_watch, DbBroadcastEvent,
    FileEvent, WatchedQuery, BROADCAST_CAPACITY, KEEPALIVE_SECS,
};

fn watched(name: &str, path: Option<&str>) -> WatchedQuery {
    WatchedQuery { name: name.to_string(), path: path.map(|p| p.to_string()) }
}

fn modified(paths: &[Option<&str>]) -> FileEvent {
    FileEvent { data_modified: true, paths: paths.iter().map(|p| p.map(|s| s.to_string())).collect() }
}

fn updated(name: &str) -> DbBroadcastEvent {
    DbBroadcastEvent::QueryUpdated { name: name.to_string() }
}

fn two() -> Vec<WatchedQuery> {
    vec![watched("a", Some("/q/a.sql")), watched("b", Some("/q/b.sql"))]
}

#[test]
fn keepalive_and_greeting_are_pings() {
    assert_eq!(keepalive_event(), DbBroadcastEvent::Ping { data: "keepalive".to_string() });
    assert_eq!(
        greeting_event(),
        DbBroadcastEvent::Ping { data: "Hello from the server!".to_string() }
    );
    assert_eq!(KEEPALIVE_SECS, 5);
    assert_eq!(BROADCAST_CAPACITY, 16);
}

#[test]
fn modification_of_a_query_file_announces_that_query_once() {
    assert_eq!(handle_file_watch_event(&modified(&[Some("/q/b.sql")]), &two()), vec![updated("b")]);
    assert_eq!(handle_file_watch_event(&modified(&[Some("/q/a.sql")]), &two()), vec![updated("a")]);
}

#[test]
fn unrelated_modification_announces_nothing() {
    assert_eq!(handle_file_watch_event(&modified(&[Some("/q/c.sql")]), &two()), vec![]);
    assert_eq!(handle_file_watch_event(&modified(&[]), &two()), vec![]);
    assert_eq!(handle_file_watch_event(&modified(&[Some("/q/a.sql")]), &vec![]), vec![]);
}

#[test]
fn other_kinds_of_event_announce_nothing() {
    let event = FileEvent { data_modified: false, paths: vec![Some("/q/a.sql".to_string())] };
    assert_eq!(handle_file_watch_event(&event, &two()), vec![]);
}

#[test]
fn each_changed_path_is_compared_in_order() {
    assert_eq!(
        handle_file_watch_event(&modified(&[Some("/q/b.sql"), Some("/x"), Some("/q/a.sql")]), &two()),
        vec![updated("b"), updated("a")]
    );
}

#[test]
fn two_queries_on_one_file_are_both_announced() {
    let both = vec![watched("a", Some("/q/s.sql")), watched("b", Some("/q/s.sql"))];
    assert_eq!(
        handle_file_watch_event(&modified(&[Some("/q/s.sql")]), &both),
        vec![updated("a"), updated("b")]
    );
}

#[test]
fn an_unresolved_path_matches_nothing() {
    let queries = vec![
        watched("a", Some("/q/a.sql")),
        watched("gone", None),
        watched("c", Some("/q/a.sql")),
    ];
    assert_eq!(
        handle_file_watch_event(&modified(&[Some("/q/a.sql")]), &queries),
        vec![updated("a"), updated("c")]
    );
    assert_eq!(
        handle_file_watch_event(&modified(&[None, Some("/q/a.sql")]), &two()),
        vec![updated("a")]
    );
    assert_eq!(
        handle_file_watch_event(&modified(&[Some("/q/a.sql"), None, Some("/q/b.sql")]), &two()),
        vec![updated("a"), updated("b")]
    );
    assert_eq!(handle_file_watch_event(&modified(&[None]), &queries), vec![]);
}

#[test]
fn a_query_whose_file_is_gone_does_not_hide_a_later_one() {
    let queries = vec![watched("gone", None), watched("b", Some("/q/b.sql"))];
    assert_eq!(
        handle_file_watch_event(&modified(&[Some("/q/b.sql")]), &queries),
        vec![updated("b")]
    );
}

#[test]
fn only_file_backed_queries_are_watched() {
    let mut config = RootConfig::new();
    config.queries = vec![
        Query { name: "a".to_string(), source: QuerySource::SqlFile("a.sql".to_string()) },
        Query { name: "b".to_string(), source: QuerySource::SqlString("SELECT 1".to_string()) },
        Query { name: "c".to_string(), source: QuerySource::SqlFile("c.sql".to_string()) },
    ];
    assert_eq!(
        queries_to_watch(&config),
        vec![
            Query { name: "a".to_string(), source: QuerySource::SqlFile("a.sql".to_string()) },
            Query { name: "c".to_string(), source: QuerySource::SqlFile("c.sql".to_string()) },
        ]
    );
    assert_eq!(queries_to_watch(&RootConfig::new()), vec![]);
}
