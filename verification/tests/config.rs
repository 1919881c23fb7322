use frogtable::config::{
    scratch_dir, scratch_in, CommandOutput, Data, DataSource, Initializer, Query, QuerySource, RootConfig,
};
use frogtable::error::ServeError;

fn command_source(name: &str, command: &str) -> Data {
    Data { name: name.to_string(), source: DataSource::JsonCmd(command.to_string()) }
}

fn file_source(name: &str, path: &str) -> Data {
    Data { name: name.to_string(), source: DataSource::JsonFile(path.to_string()) }
}

fn output(success: bool, status: &str, stdout: &[u8], stderr: &str) -> CommandOutput {
    CommandOutput {
        success,
        status: status.to_string(),
        stdout: stdout.to_vec(),
        stderr: stderr.to_string(),
    }
}

#[test]
fn new_config_serves_nothing() {
    let config = RootConfig::new();
    assert!(config.initializers.is_empty());
    assert!(config.sources.is_empty());
    assert!(config.queries.is_empty());
    assert!(!config.open);
}

#[test]
fn file_source_is_read_from_its_own_file() {
    assert_eq!(file_source("events", "/data/events.json").path("/scratch"), "/data/events.json");
}

#[test]
fn command_source_is_read_from_the_scratch_directory() {
    let source = command_source("events", "echo '[]'");
    assert_eq!(source.out_path("/scratch"), "/scratch/sources/events.json");
    assert_eq!(source.path("/scratch"), "/scratch/sources/events.json");
}

#[test]
fn out_path_is_keyed_by_the_source_name() {
    assert_eq!(command_source("a", "x").out_path("/s"), "/s/sources/a.json");
    assert_eq!(command_source("b-2", "x").out_path("/s"), "/s/sources/b-2.json");
    assert_eq!(command_source("a.b", "x").out_path("/s"), "/s/sources/a.json");
}

#[test]
fn out_path_extension_is_json() {
    assert_eq!(command_source("a", "x").out_path_extension(), "json");
    assert_eq!(file_source("a", "x.csv").out_path_extension(), "json");
}

#[test]
fn scratch_directory_of_a_given_cache_directory() {
    assert_eq!(
        scratch_in(Some("/home/u/.cache".to_string())),
        Some("/home/u/.cache/frogtable/debug".to_string())
    );
    assert_eq!(scratch_in(Some("cache".to_string())), Some("cache/frogtable/debug".to_string()));
    assert_eq!(scratch_in(None), None);
}

#[test]
fn scratch_directory_lies_below_the_cache_directory() {
    if let Some(dir) = scratch_dir() {
        assert!(dir.ends_with("frogtable/debug"), "{dir}");
    }
}

#[test]
fn only_command_sources_have_a_refresh_command() {
    assert_eq!(
        command_source("events", "echo '[{\"id\":1}]'").refresh_command(),
        Some("echo '[{\"id\":1}]'".to_string())
    );
    assert_eq!(file_source("events", "/data/events.json").refresh_command(), None);
}

#[test]
fn refresh_of_a_file_source_writes_nothing() {
    let source = file_source("events", "/data/events.json");
    assert_eq!(source.refresh(output(true, "exit status: 0", b"[]", "")), Ok(None));
    assert_eq!(source.refresh(output(false, "exit status: 1", b"", "boom")), Ok(None));
}

#[test]
fn refresh_after_success_writes_what_was_printed() {
    let source = command_source("events", "echo '[{\"id\":1}]'");
    assert_eq!(
        source.refresh(output(true, "exit status: 0", b"[{\"id\":1}]\n", "")),
        Ok(Some(b"[{\"id\":1}]\n".to_vec()))
    );
}

#[test]
fn refresh_after_failure_carries_the_errors_and_writes_nothing() {
    let source = command_source("events", "exit 3");
    let result = source.refresh(output(false, "exit status: 3", b"partial", "it broke\n"));
    assert_eq!(
        result,
        Err(ServeError::RefreshFailed {
            name: "events".to_string(),
            status: "exit status: 3".to_string(),
            command: "exit 3".to_string(),
            stderr: "it broke\n".to_string(),
        })
    );
    assert_eq!(
        result.unwrap_err().message(),
        "Error refreshing source `events` (exit status: 3).\n\n$ exit 3\nit broke\n"
    );
}

#[test]
fn query_source_path_and_sql() {
    let file = QuerySource::SqlFile("/q/a.sql".to_string());
    assert_eq!(file.path(), Some("/q/a.sql".to_string()));
    assert_eq!(file.sql("SELECT 2"), "SELECT 2");
    let text = QuerySource::SqlString("SELECT 1".to_string());
    assert_eq!(text.path(), None);
    assert_eq!(text.sql("SELECT 2"), "SELECT 1");
}

#[test]
fn clones_are_equal() {
    let source = command_source("a", "x");
    assert_eq!(source.clone(), source);
    let query = Query { name: "q".to_string(), source: QuerySource::SqlFile("f".to_string()) };
    assert_eq!(query.clone(), query);
    let init = Initializer { source: QuerySource::SqlString("s".to_string()) };
    assert_eq!(init.clone(), init);
}

#[test]
fn query_not_found_message() {
    assert_eq!(ServeError::QueryNotFound.message(), "Query not found");
}
