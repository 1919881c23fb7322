//! The configuration of a run: setup statements, sources and queries.

use crate::error::ServeError;
use crate::paths::{cache_dir, joined, path_join, path_with_extension, with_extension};
use vstd::prelude::*;
use vstd::string::*;

verus! {

/// Everything that a run was asked to serve.
#[derive(Debug, PartialEq)]
pub struct RootConfig {
    pub initializers: Vec<Initializer>,
    pub sources: Vec<Data>,
    pub queries: Vec<Query>,
    pub open: bool,
}

/// SQL that is run once, at startup.
#[derive(Debug, PartialEq)]
pub struct Initializer {
    pub source: QuerySource,
}

/// A named table that is fed from JSON.
#[derive(Debug, PartialEq)]
pub struct Data {
    pub name: String,
    pub source: DataSource,
}

/// Where the JSON of a source comes from.
#[derive(Debug, PartialEq)]
pub enum DataSource {
    /// A file that holds the JSON.
    JsonFile(String),
    /// A shell command that prints the JSON.
    JsonCmd(String),
}

/// A named SQL query.
#[derive(Debug, PartialEq)]
pub struct Query {
    pub name: String,
    pub source: QuerySource,
}

/// Where the SQL of a query comes from.
#[derive(Debug, PartialEq)]
pub enum QuerySource {
    /// A file that holds the SQL.
    SqlFile(String),
    /// The SQL itself.
    SqlString(String),
}

impl Clone for DataSource {
    fn clone(&self) -> (copy: Self)
        ensures
            copy == *self,
    {
        match self {
            DataSource::JsonFile(path) => DataSource::JsonFile(path.clone()),
            DataSource::JsonCmd(command) => DataSource::JsonCmd(command.clone()),
        }
    }
}

impl Clone for Data {
    fn clone(&self) -> (copy: Self)
        ensures
            copy == *self,
    {
        Data { name: self.name.clone(), source: self.source.clone() }
    }
}

impl Clone for QuerySource {
    fn clone(&self) -> (copy: Self)
        ensures
            copy == *self,
    {
        match self {
            QuerySource::SqlFile(path) => QuerySource::SqlFile(path.clone()),
            QuerySource::SqlString(sql) => QuerySource::SqlString(sql.clone()),
        }
    }
}

impl Clone for Query {
    fn clone(&self) -> (copy: Self)
        ensures
            copy == *self,
    {
        Query { name: self.name.clone(), source: self.source.clone() }
    }
}

impl Clone for Initializer {
    fn clone(&self) -> (copy: Self)
        ensures
            copy == *self,
    {
        Initializer { source: self.source.clone() }
    }
}

impl RootConfig {
    /// A configuration that serves nothing.
    pub fn new() -> (config: Self)
        ensures
            config.initializers@ == Seq::<Initializer>::empty(),
            config.sources@ == Seq::<Data>::empty(),
            config.queries@ == Seq::<Query>::empty(),
            !config.open,
    {
        RootConfig {
            initializers: Vec::new(),
            sources: Vec::new(),
            queries: Vec::new(),
            open: false,
        }
    }
}

/// The directory below which a scratch directory lies, given the user's
/// cache directory.
pub open spec fn scratch_below(cache: Seq<char>) -> Seq<char> {
    joined(joined(cache, "frogtable"@), "debug"@)
}

/// The directory in which the output of source commands is kept, where
/// the user has a cache directory.
pub fn scratch_dir() -> (dir: Option<String>)
    ensures
        dir matches Some(d) ==> exists|cache: Seq<char>| d@ == scratch_below(cache),
{
    let cache = cache_dir();
    let dir = scratch_in(cache);
    proof {
        if dir is Some {
            assert(dir->0@ == scratch_below(cache->0@));
        }
    }
    dir
}

/// The scratch directory of a user whose cache directory is `cache`: it
/// lies below that directory, and there is none where the user has no
/// cache directory.
pub fn scratch_in(cache: Option<String>) -> (dir: Option<String>)
    ensures
        match cache {
            Some(c) => dir matches Some(d) && d@ == scratch_below(c@),
            None => dir is None,
        },
{
    match cache {
        Some(cache) => {
            let below = path_join(cache.as_str(), "frogtable");
            Some(path_join(below.as_str(), "debug"))
        },
        None => None,
    }
}

/// The file in which the output of the command of the source `name` is
/// kept.
pub open spec fn out_path_of(scratch: Seq<char>, name: Seq<char>) -> Seq<char> {
    with_extension(joined(joined(scratch, "sources"@), name), "json"@)
}

impl Data {
    /// The JSON file that the source is read from: its own file, or the
    /// file that keeps the output of its command.
    pub open spec fn path_of(self, scratch: Seq<char>) -> Seq<char> {
        match self.source {
            DataSource::JsonFile(path) => path@,
            DataSource::JsonCmd(_) => out_path_of(scratch, self.name@),
        }
    }

    /// The extension of the file that keeps the source's JSON.
    pub fn out_path_extension(&self) -> (extension: String)
        ensures
            extension@ == "json"@,
    {
        match &self.source {
            DataSource::JsonFile(_) => String::from_str("json"),
            DataSource::JsonCmd(_) => String::from_str("json"),
        }
    }

    /// The file that keeps the output of the source's command, below the
    /// scratch directory.
    pub fn out_path(&self, scratch: &str) -> (path: String)
        ensures
            path@ == out_path_of(scratch@, self.name@),
    {
        let sources = path_join(scratch, "sources");
        let file = path_join(sources.as_str(), self.name.as_str());
        let extension = self.out_path_extension();
        proof {
            reveal_strlit("json");
        }
        path_with_extension(file.as_str(), extension.as_str())
    }

    /// The JSON file that the source is read from.
    pub fn path(&self, scratch: &str) -> (path: String)
        ensures
            path@ == self.path_of(scratch@),
    {
        match &self.source {
            DataSource::JsonFile(path) => path.clone(),
            DataSource::JsonCmd(_) => self.out_path(scratch),
        }
    }

    /// The shell command that refreshes the source; none for a source that
    /// is a file.
    pub fn refresh_command(&self) -> (command: Option<String>)
        ensures
            match self.source {
                DataSource::JsonFile(_) => command is None,
                DataSource::JsonCmd(text) => command == Some(text),
            },
    {
        match &self.source {
            DataSource::JsonFile(_) => None,
            DataSource::JsonCmd(text) => Some(text.clone()),
        }
    }
}

/// What running the command of a source gave.
#[derive(Debug, PartialEq)]
pub struct CommandOutput {
    /// Whether the command ended with a success status.
    pub success: bool,
    /// The exit status in words.
    pub status: String,
    /// What the command printed.
    pub stdout: Vec<u8>,
    /// What the command printed as errors.
    pub stderr: String,
}

impl Data {
    /// What a refresh writes to the file that keeps the source's JSON,
    /// given the output of the source's command: nothing for a source that
    /// is a file; the printed output where the command succeeded; and a
    /// failure that carries the command, its status and its errors, with
    /// nothing to write, where it did not.
    pub fn refresh(&self, output: CommandOutput) -> (result: Result<Option<Vec<u8>>, ServeError>)
        ensures
            match self.source {
                DataSource::JsonFile(_) => result == Ok::<Option<Vec<u8>>, ServeError>(None),
                DataSource::JsonCmd(text) => if output.success {
                    result == Ok::<Option<Vec<u8>>, ServeError>(Some(output.stdout))
                } else {
                    result == Err::<Option<Vec<u8>>, ServeError>(
                        ServeError::RefreshFailed {
                            name: self.name,
                            status: output.status,
                            command: text,
                            stderr: output.stderr,
                        },
                    )
                },
            },
    {
        match &self.source {
            DataSource::JsonFile(_) => Ok(None),
            DataSource::JsonCmd(text) => {
                if output.success {
                    Ok(Some(output.stdout))
                } else {
                    Err(
                        ServeError::RefreshFailed {
                            name: self.name.clone(),
                            status: output.status,
                            command: text.clone(),
                            stderr: output.stderr,
                        },
                    )
                }
            },
        }
    }
}

impl QuerySource {
    /// The file that holds the SQL, if a file does.
    pub fn path(&self) -> (path: Option<String>)
        ensures
            match *self {
                QuerySource::SqlFile(file) => path == Some(file),
                QuerySource::SqlString(_) => path is None,
            },
    {
        match self {
            QuerySource::SqlFile(path) => Some(path.clone()),
            QuerySource::SqlString(_) => None,
        }
    }

    /// The SQL of the query: its own text, or else the text of its file.
    pub open spec fn sql_text(self, file_text: Seq<char>) -> Seq<char> {
        match self {
            QuerySource::SqlFile(_) => file_text,
            QuerySource::SqlString(text) => text@,
        }
    }

    /// The SQL of the query, `file_text` being what the file at `path`
    /// holds now; it is not looked at where the query holds its SQL itself.
    pub fn sql(&self, file_text: &str) -> (sql: String)
        ensures
            sql@ == self.sql_text(file_text@),
    {
        match self {
            QuerySource::SqlFile(_) => String::from_str(file_text),
            QuerySource::SqlString(sql) => sql.clone(),
        }
    }
}

} // verus!
