//! One group of command-line arguments, and what it adds to the
//! configuration.

use crate::config::{Data, DataSource, Initializer, Query, QuerySource, RootConfig};
use crate::paths::{file_stem, path_file_stem};
use crate::text::opt_text;
use vstd::prelude::*;
use vstd::string::*;

verus! {

/// One group of arguments: what to serve, under which name, and whether to
/// open a browser.
#[derive(Debug, PartialEq)]
pub struct CliConfig {
    pub source: CliSource,
    pub name: Option<String>,
    pub open: bool,
}

/// What a group of arguments serves. Exactly one field is meant to be set.
#[derive(Debug, PartialEq)]
pub struct CliSource {
    pub json_file: Option<String>,
    pub json_cmd: Option<String>,
    pub sql_file: Option<String>,
    pub sql: Option<String>,
    pub setup_sql: Option<String>,
}

/// The name that a path gives to what is read from it: the stem of its file
/// name.
pub fn name_from_path(path: &str) -> (name: Option<String>)
    ensures
        opt_text(name) == file_stem(path@),
{
    path_file_stem(path)
}

impl CliSource {
    /// Only a JSON file is given.
    pub open spec fn only_json_file(self) -> bool {
        self.json_file is Some && self.json_cmd is None && self.sql_file is None && self.sql is None
            && self.setup_sql is None
    }

    /// Only a JSON command is given.
    pub open spec fn only_json_cmd(self) -> bool {
        self.json_file is None && self.json_cmd is Some && self.sql_file is None && self.sql is None
            && self.setup_sql is None
    }

    /// Only an SQL file is given.
    pub open spec fn only_sql_file(self) -> bool {
        self.json_file is None && self.json_cmd is None && self.sql_file is Some && self.sql is None
            && self.setup_sql is None
    }

    /// Only SQL text is given.
    pub open spec fn only_sql(self) -> bool {
        self.json_file is None && self.json_cmd is None && self.sql_file is None && self.sql is Some
            && self.setup_sql is None
    }

    /// Only setup SQL is given.
    pub open spec fn only_setup_sql(self) -> bool {
        self.json_file is None && self.json_cmd is None && self.sql_file is None && self.sql is None
            && self.setup_sql is Some
    }
}

/// `after` is `before` with one more source at the end.
pub open spec fn source_added(
    before: RootConfig,
    after: RootConfig,
    name: Seq<char>,
    source: DataSource,
) -> bool {
    &&& after.sources@.len() == before.sources@.len() + 1
    &&& after.sources@.drop_last() == before.sources@
    &&& after.sources@.last().name@ == name
    &&& after.sources@.last().source == source
    &&& after.queries@ == before.queries@
    &&& after.initializers@ == before.initializers@
}

/// `after` is `before` with one more query at the end.
pub open spec fn query_added(
    before: RootConfig,
    after: RootConfig,
    name: Seq<char>,
    source: QuerySource,
) -> bool {
    &&& after.queries@.len() == before.queries@.len() + 1
    &&& after.queries@.drop_last() == before.queries@
    &&& after.queries@.last().name@ == name
    &&& after.queries@.last().source == source
    &&& after.sources@ == before.sources@
    &&& after.initializers@ == before.initializers@
}

/// `after` is `before` with one more setup statement at the end.
pub open spec fn initializer_added(before: RootConfig, after: RootConfig, sql: String) -> bool {
    &&& after.initializers@ == before.initializers@.push(
        Initializer { source: QuerySource::SqlString(sql) },
    )
    &&& after.sources@ == before.sources@
    &&& after.queries@ == before.queries@
}

impl CliConfig {
    /// The name of what is read from `path`: the given name, or else the
    /// stem of the path's file name.
    pub open spec fn entry_name(self, path: Seq<char>) -> Option<Seq<char>> {
        match self.name {
            Some(name) => Some(name@),
            None => file_stem(path),
        }
    }

    /// The group gives exactly one thing to serve, and that thing has a
    /// name where it needs one.
    pub open spec fn is_complete(self) -> bool {
        ||| self.source.only_json_file() && self.entry_name(self.source.json_file->0@) is Some
        ||| self.source.only_json_cmd() && self.name is Some
        ||| self.source.only_sql_file() && self.entry_name(self.source.sql_file->0@) is Some
        ||| self.source.only_sql() && self.name is Some
        ||| self.source.only_setup_sql()
    }

    /// `after` is `before` with what this group serves added at the end.
    pub open spec fn appended(self, before: RootConfig, after: RootConfig) -> bool {
        &&& after.open == (before.open || self.open)
        &&& self.source.only_json_file() ==> source_added(
            before,
            after,
            self.entry_name(self.source.json_file->0@)->0,
            DataSource::JsonFile(self.source.json_file->0),
        )
        &&& self.source.only_json_cmd() ==> source_added(
            before,
            after,
            self.name->0@,
            DataSource::JsonCmd(self.source.json_cmd->0),
        )
        &&& self.source.only_sql_file() ==> query_added(
            before,
            after,
            self.entry_name(self.source.sql_file->0@)->0,
            QuerySource::SqlFile(self.source.sql_file->0),
        )
        &&& self.source.only_sql() ==> query_added(
            before,
            after,
            self.name->0@,
            QuerySource::SqlString(self.source.sql->0),
        )
        &&& self.source.only_setup_sql() ==> initializer_added(
            before,
            after,
            self.source.setup_sql->0,
        )
    }

    /// The name of what is read from `path`.
    fn name_for(&self, path: &str) -> (name: Option<String>)
        ensures
            opt_text(name) == self.entry_name(path@),
    {
        match &self.name {
            Some(name) => Some(name.clone()),
            None => name_from_path(path),
        }
    }

    /// Decides whether the group is complete.
    pub fn complete(&self) -> (ok: bool)
        ensures
            ok == self.is_complete(),
    {
        match (
            &self.source.json_file,
            &self.source.json_cmd,
            &self.source.sql_file,
            &self.source.sql,
            &self.source.setup_sql,
        ) {
            (Some(path), None, None, None, None) => self.name_for(path.as_str()).is_some(),
            (None, Some(_), None, None, None) => self.name.is_some(),
            (None, None, Some(path), None, None) => self.name_for(path.as_str()).is_some(),
            (None, None, None, Some(_), None) => self.name.is_some(),
            (None, None, None, None, Some(_)) => true,
            _ => false,
        }
    }

    /// Adds what a complete group serves to the configuration.
    pub fn append_to_root_config(&self, root_config: &mut RootConfig)
        requires
            self.is_complete(),
        ensures
            self.appended(*old(root_config), *final(root_config)),
    {
        if self.open {
            root_config.open = true;
        }
        match (
            &self.source.json_file,
            &self.source.json_cmd,
            &self.source.sql_file,
            &self.source.sql,
            &self.source.setup_sql,
        ) {
            (Some(path), None, None, None, None) => {
                let name = self.name_for(path.as_str());
                root_config.sources.push(
                    Data { name: name.unwrap(), source: DataSource::JsonFile(path.clone()) },
                );
                assert(root_config.sources@.drop_last() =~= old(root_config).sources@);
            },
            (None, Some(command), None, None, None) => {
                let name = self.name.as_ref().unwrap().clone();
                root_config.sources.push(
                    Data { name, source: DataSource::JsonCmd(command.clone()) },
                );
                assert(root_config.sources@.drop_last() =~= old(root_config).sources@);
            },
            (None, None, Some(path), None, None) => {
                let name = self.name_for(path.as_str());
                root_config.queries.push(
                    Query { name: name.unwrap(), source: QuerySource::SqlFile(path.clone()) },
                );
                assert(root_config.queries@.drop_last() =~= old(root_config).queries@);
            },
            (None, None, None, Some(sql), None) => {
                let name = self.name.as_ref().unwrap().clone();
                root_config.queries.push(
                    Query { name, source: QuerySource::SqlString(sql.clone()) },
                );
                assert(root_config.queries@.drop_last() =~= old(root_config).queries@);
            },
            (None, None, None, None, Some(sql)) => {
                root_config.initializers.push(
                    Initializer { source: QuerySource::SqlString(sql.clone()) },
                );
            },
            _ => {},
        }
    }

    /// Adds what the group serves to the configuration if the group is
    /// complete, and leaves the configuration as it is otherwise.
    pub fn try_append_to_root_config(&self, root_config: &mut RootConfig) -> (ok: bool)
        ensures
            ok == self.is_complete(),
            ok ==> self.appended(*old(root_config), *final(root_config)),
            !ok ==> *final(root_config) == *old(root_config),
    {
        if self.complete() {
            self.append_to_root_config(root_config);
            true
        } else {
            false
        }
    }
}

/// The texts of a sequence of strings.
pub open spec fn texts(strings: Seq<String>) -> Seq<Seq<char>> {
    Seq::new(strings.len(), |i: int| strings[i]@)
}

/// The texts of a sequence of groups of strings.
pub open spec fn group_texts(groups: Seq<Vec<String>>) -> Seq<Seq<Seq<char>>> {
    Seq::new(groups.len(), |i: int| texts(groups[i]@))
}

/// The groups into which `--` divides the arguments, each group with the
/// program's name before it. There is one group more than there are
/// dividers, so no arguments at all still make one group.
pub open spec fn arg_groups(prog_name: Seq<char>, args: Seq<Seq<char>>) -> Seq<Seq<Seq<char>>>
    decreases args.len(),
{
    if args.len() == 0 {
        seq![seq![prog_name]]
    } else {
        let before = arg_groups(prog_name, args.drop_last());
        if args.last() == "--"@ {
            before.push(seq![prog_name])
        } else {
            before.update(before.len() - 1, before.last().push(args.last()))
        }
    }
}

/// Divides the arguments that follow the program's name into groups at
/// each `--`, and puts the program's name before each group.
pub fn split_arg_groups(prog_name: &str, args: &Vec<String>) -> (groups: Vec<Vec<String>>)
    ensures
        group_texts(groups@) == arg_groups(prog_name@, texts(args@)),
{
    let divider = String::from_str("--");
    let mut groups: Vec<Vec<String>> = Vec::new();
    let mut current: Vec<String> = Vec::new();
    current.push(String::from_str(prog_name));
    let mut i: usize = 0;
    proof {
        assert(texts(args@).take(0) =~= Seq::empty());
        assert(texts(current@) =~= seq![prog_name@]);
        assert(group_texts(groups@).push(texts(current@)) =~= seq![seq![prog_name@]]);
    }
    while i < args.len()
        invariant
            i <= args.len(),
            divider@ == "--"@,
            arg_groups(prog_name@, texts(args@).take(i as int)) == group_texts(groups@).push(
                texts(current@),
            ),
        decreases args.len() - i,
    {
        let ghost done = group_texts(groups@);
        let ghost open = texts(current@);
        proof {
            let next = texts(args@).take(i + 1);
            assert(next.drop_last() =~= texts(args@).take(i as int));
            assert(next.last() == args@[i as int]@);
        }
        if args[i] == divider {
            groups.push(current);
            current = Vec::new();
            current.push(String::from_str(prog_name));
            proof {
                assert(texts(current@) =~= seq![prog_name@]);
                assert(group_texts(groups@) =~= done.push(open));
            }
        } else {
            current.push(args[i].clone());
            proof {
                assert(texts(current@) =~= open.push(args@[i as int]@));
                assert(done.push(open).update(done.len() as int, open.push(args@[i as int]@))
                    =~= done.push(texts(current@)));
            }
        }
        i += 1;
    }
    assert(texts(args@).take(i as int) =~= texts(args@));
    let ghost done = group_texts(groups@);
    let ghost last = texts(current@);
    groups.push(current);
    assert(group_texts(groups@) =~= done.push(last));
    groups
}

} // verus!
