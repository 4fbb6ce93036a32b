//! The tables that a query may name, and how a failed query is reported.
//!
//! The query engine itself is not part of this library. The caller hands
//! each binding of the registry to the engine, runs the query there, and
//! passes what came back through [`query_outcome`].

use crate::json::same_text;
use vstd::prelude::*;
use vstd::string::StringExecFns;

verus! {

/// A table name bound to the file that holds the table.
#[derive(Debug, Clone, PartialEq)]
pub struct Binding {
    pub table: String,
    pub path: String,
}

/// The file to which `bindings` bind each table name. A later binding of a
/// name replaces an earlier one.
pub open spec fn bound(bindings: Seq<Binding>) -> Map<Seq<char>, Seq<char>>
    decreases bindings.len(),
{
    if bindings.len() == 0 {
        Map::empty()
    } else {
        bound(bindings.drop_last()).insert(bindings.last().table@, bindings.last().path@)
    }
}

/// The registry of tables, in the order in which they were registered.
#[derive(Debug, Clone, PartialEq)]
pub struct Registry {
    pub bindings: Vec<Binding>,
}

impl View for Registry {
    type V = Map<Seq<char>, Seq<char>>;

    open spec fn view(&self) -> Map<Seq<char>, Seq<char>> {
        bound(self.bindings@)
    }
}

impl Registry {
    /// A registry without tables.
    pub fn new() -> (registry: Registry)
        ensures
            registry@ == Map::<Seq<char>, Seq<char>>::empty(),
    {
        Registry { bindings: Vec::new() }
    }

    /// The registry that a query runs against unless more is registered: the
    /// table of players alone, under the name `elements`.
    pub fn base() -> (registry: Registry)
        ensures
            registry@ == Map::<Seq<char>, Seq<char>>::empty().insert(
                "elements"@,
                "./data/elements.csv"@,
            ),
    {
        let mut registry = Registry::new();
        registry.register("elements", "./data/elements.csv");
        registry
    }

    /// Binds `table_name` to `file_path`, in place of what it was bound to.
    pub fn register(&mut self, table_name: &str, file_path: &str)
        ensures
            final(self)@ == old(self)@.insert(table_name@, file_path@),
    {
        let binding = Binding {
            table: String::from_str(table_name),
            path: String::from_str(file_path),
        };
        self.bindings.push(binding);
        proof {
            assert(self.bindings@.drop_last() =~= old(self).bindings@);
        }
    }

    /// The file that `table_name` is bound to, if it is registered.
    pub fn resolve(&self, table_name: &str) -> (found: Option<&String>)
        ensures
            match found {
                Some(path) => self@.contains_key(table_name@) && self@[table_name@] == path@,
                None => !self@.contains_key(table_name@),
            },
    {
        let mut i: usize = self.bindings.len();
        proof {
            assert(self.bindings@.subrange(0, i as int) =~= self.bindings@);
        }
        while i > 0
            invariant
                i <= self.bindings@.len(),
                self@.contains_key(table_name@) == bound(
                    self.bindings@.subrange(0, i as int),
                ).contains_key(table_name@),
                self@.contains_key(table_name@) ==> self@[table_name@] == bound(
                    self.bindings@.subrange(0, i as int),
                )[table_name@],
            decreases i,
        {
            i -= 1;
            let ghost upto = self.bindings@.subrange(0, i + 1);
            proof {
                assert(upto.last() == self.bindings@[i as int]);
                assert(upto.drop_last() =~= self.bindings@.subrange(0, i as int));
            }
            if same_text(self.bindings[i].table.as_str(), table_name) {
                return Some(&self.bindings[i].path);
            }
        }
        proof {
            assert(self.bindings@.subrange(0, 0).len() == 0);
        }
        None
    }
}

/// Why a query gave no rows.
#[derive(Clone, Copy, Debug, PartialEq, Eq, Structural)]
pub enum QueryError {
    /// The query is no valid SQL.
    Parse,
    /// The query names a table or a column that is not there.
    Unresolved,
    /// The query failed while it ran.
    Execution,
}

/// The kinds of failure that the query engine reports.
#[derive(Clone, Copy, Debug, PartialEq, Eq, Structural)]
pub enum EngineFault {
    /// The SQL text does not parse.
    Sql,
    /// No valid plan: a name that does not resolve, an impossible cast.
    Plan,
    /// The columnar store failed.
    Arrow,
    /// A Parquet file could not be read.
    Parquet,
    /// Input or output failed.
    Io,
    /// The query asks for what the engine does not implement.
    NotImplemented,
    /// The engine broke one of its own rules.
    Internal,
    /// The query failed while it ran.
    Execution,
}

/// How each kind of engine failure is reported.
pub open spec fn reported_as(fault: EngineFault) -> QueryError {
    match fault {
        EngineFault::Sql => QueryError::Parse,
        EngineFault::Plan => QueryError::Unresolved,
        _ => QueryError::Execution,
    }
}

/// Reports an engine failure as a query error.
pub fn classify(fault: EngineFault) -> (error: QueryError)
    ensures
        error == reported_as(fault),
{
    match fault {
        EngineFault::Sql => QueryError::Parse,
        EngineFault::Plan => QueryError::Unresolved,
        EngineFault::Arrow => QueryError::Execution,
        EngineFault::Parquet => QueryError::Execution,
        EngineFault::Io => QueryError::Execution,
        EngineFault::NotImplemented => QueryError::Execution,
        EngineFault::Internal => QueryError::Execution,
        EngineFault::Execution => QueryError::Execution,
    }
}

/// What a query comes to: the rendered rows as the engine gave them, or the
/// error and nothing to print.
pub fn query_outcome(result: Result<String, EngineFault>) -> (outcome: Result<String, QueryError>)
    ensures
        match result {
            Ok(rows) => outcome == Ok::<String, QueryError>(rows),
            Err(fault) => outcome == Err::<String, QueryError>(reported_as(fault)),
        },
{
    match result {
        Ok(rows) => Ok(rows),
        Err(fault) => Err(classify(fault)),
    }
}

} // verus!
