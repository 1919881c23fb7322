//! Live-update events, and which of them a change in the file system
//! calls for.

use crate::config::{Query, QuerySource, RootConfig};
use crate::text::opt_text;
use vstd::prelude::*;
use vstd::string::*;

verus! {

/// A message to the subscribers of live updates.
#[derive(Debug, PartialEq)]
pub enum DbBroadcastEvent {
    /// Keeps a connection alive, or greets a new subscriber.
    Ping { data: String },
    /// The SQL of the named query has changed.
    QueryUpdated { name: String },
}

/// Seconds between two keepalive pings.
pub const KEEPALIVE_SECS: u64 = 5;

/// The number of events that a slow subscriber may have waiting before the
/// oldest is dropped.
pub const BROADCAST_CAPACITY: usize = 16;

/// The ping that is sent at a fixed interval.
pub fn keepalive_event() -> (event: DbBroadcastEvent)
    ensures
        event matches DbBroadcastEvent::Ping { data } && data@ == "keepalive"@,
{
    DbBroadcastEvent::Ping { data: String::from_str("keepalive") }
}

/// The ping that greets a new subscriber.
pub fn greeting_event() -> (event: DbBroadcastEvent)
    ensures
        event matches DbBroadcastEvent::Ping { data } && data@ == "Hello from the server!"@,
{
    DbBroadcastEvent::Ping { data: String::from_str("Hello from the server!") }
}

/// A change that the file system reported: whether it modified the data of
/// a file, and the paths it concerns in their canonical form, a path that
/// cannot be resolved being absent.
#[derive(Debug, PartialEq)]
pub struct FileEvent {
    pub data_modified: bool,
    pub paths: Vec<Option<String>>,
}

/// A query whose SQL is read from a file, with the canonical form of that
/// file's path, absent where the path cannot be resolved.
#[derive(Debug, PartialEq)]
pub struct WatchedQuery {
    pub name: String,
    pub path: Option<String>,
}

/// The file of the watched query is the changed path: both paths are
/// resolved, and they are the same path.
pub open spec fn is_changed(query: WatchedQuery, path: Option<Seq<char>>) -> bool {
    query.path is Some && path is Some && query.path->0@ == path->0
}

/// Compares one changed path with the watched queries in order: after
/// `names` come the names of the queries whose file is the changed path. A
/// path that cannot be resolved is no query's file.
pub open spec fn scan_queries(
    names: Seq<Seq<char>>,
    path: Option<Seq<char>>,
    watched: Seq<WatchedQuery>,
) -> Seq<Seq<char>>
    decreases watched.len(),
{
    if watched.len() == 0 {
        names
    } else {
        let before = scan_queries(names, path, watched.drop_last());
        if is_changed(watched.last(), path) {
            before.push(watched.last().name@)
        } else {
            before
        }
    }
}

/// Compares each changed path in order with the watched queries in order.
pub open spec fn scan_paths(paths: Seq<Option<String>>, watched: Seq<WatchedQuery>) -> Seq<
    Seq<char>,
>
    decreases paths.len(),
{
    if paths.len() == 0 {
        Seq::empty()
    } else {
        scan_queries(scan_paths(paths.drop_last(), watched), opt_text(paths.last()), watched)
    }
}

/// The names of the queries that a file-system event reports as updated,
/// in the order in which they are announced: none unless the event modified
/// the data of a file.
pub open spec fn updated_names(event: FileEvent, watched: Seq<WatchedQuery>) -> Seq<Seq<char>> {
    if event.data_modified {
        scan_paths(event.paths@, watched)
    } else {
        Seq::empty()
    }
}

/// The names that a sequence of update events announces.
pub open spec fn announced(events: Seq<DbBroadcastEvent>) -> Seq<Seq<char>> {
    Seq::new(
        events.len(),
        |i: int|
            match events[i] {
                DbBroadcastEvent::QueryUpdated { name } => name@,
                DbBroadcastEvent::Ping { data } => data@,
            },
    )
}

/// Every event of the sequence announces an updated query.
pub open spec fn all_updates(events: Seq<DbBroadcastEvent>) -> bool {
    forall|i: int| 0 <= i < events.len() ==> (#[trigger] events[i]) is QueryUpdated
}

/// The file-backed queries of a configuration, in their own order.
pub open spec fn file_queries(queries: Seq<Query>) -> Seq<Query>
    decreases queries.len(),
{
    if queries.len() == 0 {
        Seq::empty()
    } else {
        let before = file_queries(queries.drop_last());
        if queries.last().source is SqlFile {
            before.push(queries.last())
        } else {
            before
        }
    }
}

/// The queries whose SQL is read from a file: those that are watched.
pub fn queries_to_watch(config: &RootConfig) -> (watched: Vec<Query>)
    ensures
        watched@ == file_queries(config.queries@),
{
    let mut watched: Vec<Query> = Vec::new();
    let mut i: usize = 0;
    assert(config.queries@.take(0) =~= Seq::empty());
    while i < config.queries.len()
        invariant
            i <= config.queries.len(),
            watched@ == file_queries(config.queries@.take(i as int)),
        decreases config.queries.len() - i,
    {
        proof {
            let next = config.queries@.take(i + 1);
            assert(next.drop_last() =~= config.queries@.take(i as int));
            assert(next.last() == config.queries@[i as int]);
        }
        match &config.queries[i].source {
            QuerySource::SqlFile(_) => {
                watched.push(config.queries[i].clone());
            },
            QuerySource::SqlString(_) => {},
        }
        i += 1;
    }
    assert(config.queries@.take(i as int) =~= config.queries@);
    watched
}

/// The events that a change in the file system calls for: one update for
/// each watched query whose file is among the changed paths, for each time
/// it is among them.
pub fn handle_file_watch_event(event: &FileEvent, watched: &Vec<WatchedQuery>) -> (events: Vec<
    DbBroadcastEvent,
>)
    ensures
        all_updates(events@),
        announced(events@) == updated_names(*event, watched@),
{
    let mut events: Vec<DbBroadcastEvent> = Vec::new();
    if !event.data_modified {
        assert(announced(events@) =~= Seq::empty());
        return events;
    }
    let mut i: usize = 0;
    assert(event.paths@.take(0) =~= Seq::empty());
    assert(announced(events@) =~= Seq::empty());
    while i < event.paths.len()
        invariant
            i <= event.paths.len(),
            all_updates(events@),
            announced(events@) == scan_paths(event.paths@.take(i as int), watched@),
        decreases event.paths.len() - i,
    {
        let ghost before = scan_paths(event.paths@.take(i as int), watched@);
        let ghost path = opt_text(event.paths@[i as int]);
        proof {
            let next = event.paths@.take(i + 1);
            assert(next.drop_last() =~= event.paths@.take(i as int));
            assert(next.last() == event.paths@[i as int]);
            assert(watched@.take(0) =~= Seq::empty());
        }
        let mut j: usize = 0;
        while j < watched.len()
            invariant
                j <= watched.len(),
                i < event.paths.len(),
                all_updates(events@),
                path == opt_text(event.paths@[i as int]),
                announced(events@) == scan_queries(before, path, watched@.take(j as int)),
            decreases watched.len() - j,
        {
            proof {
                let next = watched@.take(j + 1);
                assert(next.drop_last() =~= watched@.take(j as int));
                assert(next.last() == watched@[j as int]);
            }
            let ghost old_names = announced(events@);
            match (&watched[j].path, &event.paths[i]) {
                (Some(own), Some(changed)) => {
                    if *own == *changed {
                        let update = DbBroadcastEvent::QueryUpdated {
                            name: watched[j].name.clone(),
                        };
                        events.push(update);
                        assert(announced(events@) =~= old_names.push(watched@[j as int].name@));
                    }
                },
                _ => {},
            }
            j += 1;
        }
        assert(watched@.take(j as int) =~= watched@);
        i += 1;
    }
    assert(event.paths@.take(i as int) =~= event.paths@);
    events
}

/// Among watched queries of which only the one at `k` has the changed path
/// as its file (none of them where `k` is `-1`), the first `n` add the name
/// of that query once it is among them, and nothing else.
pub proof fn lemma_scan_matches(
    names: Seq<Seq<char>>,
    path: Option<Seq<char>>,
    watched: Seq<WatchedQuery>,
    k: int,
    n: int,
)
    requires
        0 <= n <= watched.len(),
        -1 <= k < watched.len(),
        forall|j: int| 0 <= j < watched.len() ==> (is_changed(#[trigger] watched[j], path) <==> j == k),
    ensures
        scan_queries(names, path, watched.take(n)) == if 0 <= k < n {
            names.push(watched[k].name@)
        } else {
            names
        },
    decreases n,
{
    if n > 0 {
        lemma_scan_matches(names, path, watched, k, n - 1);
        assert(watched.take(n).drop_last() =~= watched.take(n - 1));
        assert(watched.take(n).last() == watched[n - 1]);
    } else {
        assert(watched.take(0) =~= Seq::empty());
    }
}

/// An event that does not modify the data of a file announces nothing.
pub proof fn law_other_events_announce_nothing(event: FileEvent, watched: Seq<WatchedQuery>)
    requires
        !event.data_modified,
    ensures
        updated_names(event, watched) == Seq::<Seq<char>>::empty(),
{
}

/// A modification of the file of exactly one watched query announces that
/// query exactly once, whatever becomes of the files of the other queries.
pub proof fn law_one_update_per_change(event: FileEvent, watched: Seq<WatchedQuery>, k: int)
    requires
        event.data_modified,
        event.paths@.len() == 1,
        0 <= k < watched.len(),
        forall|j: int|
            0 <= j < watched.len() ==> (is_changed(
                #[trigger] watched[j],
                opt_text(event.paths@[0]),
            ) <==> j == k),
    ensures
        updated_names(event, watched) == seq![watched[k].name@],
{
    let start = Seq::<Seq<char>>::empty();
    assert(event.paths@.drop_last().len() == 0);
    assert(scan_paths(event.paths@.drop_last(), watched) == start);
    assert(event.paths@.last() == event.paths@[0]);
    lemma_scan_matches(start, opt_text(event.paths@[0]), watched, k, watched.len() as int);
    assert(watched.take(watched.len() as int) =~= watched);
    assert(start.push(watched[k].name@) =~= seq![watched[k].name@]);
}

/// A modification of files that belong to no watched query announces
/// nothing.
pub proof fn law_unrelated_change_announces_nothing(event: FileEvent, watched: Seq<WatchedQuery>)
    requires
        event.data_modified,
        forall|i: int, j: int|
            0 <= i < event.paths@.len() && 0 <= j < watched.len() ==> !is_changed(
                #[trigger] watched[j],
                opt_text(#[trigger] event.paths@[i]),
            ),
    ensures
        updated_names(event, watched) == Seq::<Seq<char>>::empty(),
{
    lemma_unrelated_paths(event.paths@, watched, event.paths@.len() as int);
    assert(event.paths@.take(event.paths@.len() as int) =~= event.paths@);
}

/// The first `m` of the changed paths, none of which belongs to a watched
/// query, announce nothing.
pub proof fn lemma_unrelated_paths(paths: Seq<Option<String>>, watched: Seq<WatchedQuery>, m: int)
    requires
        0 <= m <= paths.len(),
        forall|i: int, j: int|
            0 <= i < paths.len() && 0 <= j < watched.len() ==> !is_changed(
                #[trigger] watched[j],
                opt_text(#[trigger] paths[i]),
            ),
    ensures
        scan_paths(paths.take(m), watched) == Seq::<Seq<char>>::empty(),
    decreases m,
{
    if m > 0 {
        lemma_unrelated_paths(paths, watched, m - 1);
        assert(paths.take(m).drop_last() =~= paths.take(m - 1));
        assert(paths.take(m).last() == paths[m - 1]);
        lemma_scan_matches(
            Seq::<Seq<char>>::empty(),
            opt_text(paths[m - 1]),
            watched,
            -1,
            watched.len() as int,
        );
        assert(watched.take(watched.len() as int) =~= watched);
    } else {
        assert(paths.take(0) =~= Seq::empty());
    }
}

} // verus!
