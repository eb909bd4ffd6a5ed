//! A lookup, and the command that is to answer it.

use vstd::prelude::*;
use vstd::string::*;

use crate::command::{Invocation, InvocationView};
use crate::config::{Configuration, ConfigurationView, content_view, loaded_from, LoadError};
use crate::json::{JsonValue, read_as_json, ReadingView};
use crate::number::{decimal, decimal_of, decimal_u32, decimal_u32_reads_back};
use crate::resolve::{resolution, resolve};
use crate::status::Failure;
use crate::template::{substitute, substituted};

verus! {

/// The three kinds of record.
#[derive(Clone, Copy, Debug, PartialEq, Eq, Structural)]
pub enum Database {
    Group,
    Passwd,
    Shadow,
}

/// What a record is looked up by.
#[derive(Clone, Debug, PartialEq, Eq)]
pub enum Key {
    /// Every record of the database.
    All,
    /// The record with this user id.
    Uid(u32),
    /// The record with this group id.
    Gid(u32),
    /// The record with this name.
    Name(String),
}

/// The content of a [`Key`].
pub enum KeyView {
    All,
    Uid(u32),
    Gid(u32),
    Name(Seq<char>),
}

/// A lookup: the database, and what the record is looked up by.
#[derive(Clone, Debug, PartialEq, Eq)]
pub struct Query {
    pub database: Database,
    pub key: Key,
}

/// The content of a [`Query`].
pub struct QueryView {
    pub database: Database,
    pub key: KeyView,
}

impl View for Key {
    type V = KeyView;

    open spec fn view(&self) -> KeyView {
        match self {
            Key::All => KeyView::All,
            Key::Uid(uid) => KeyView::Uid(*uid),
            Key::Gid(gid) => KeyView::Gid(*gid),
            Key::Name(name) => KeyView::Name(name@),
        }
    }
}

impl View for Query {
    type V = QueryView;

    open spec fn view(&self) -> QueryView {
        QueryView { database: self.database, key: self.key@ }
    }
}

impl Database {
    /// The name that the configuration knows the database by.
    pub open spec fn name_of(self) -> Seq<char> {
        match self {
            Database::Group => "group"@,
            Database::Passwd => "passwd"@,
            Database::Shadow => "shadow"@,
        }
    }

    /// The name that the configuration knows the database by.
    pub fn name(&self) -> (name: &'static str)
        ensures
            name@ == self.name_of(),
    {
        match self {
            Database::Group => "group",
            Database::Passwd => "passwd",
            Database::Shadow => "shadow",
        }
    }
}

impl KeyView {
    /// The name that the configuration knows the function by.
    pub open spec fn function_of(self) -> Seq<char> {
        match self {
            KeyView::All => "get_all_entries"@,
            KeyView::Uid(_) => "get_entry_by_uid"@,
            KeyView::Gid(_) => "get_entry_by_gid"@,
            KeyView::Name(_) => "get_entry_by_name"@,
        }
    }

    /// The placeholder that stands for the key in a command: none where all
    /// records are asked for.
    pub open spec fn placeholder_of(self) -> Seq<char> {
        match self {
            KeyView::All => ""@,
            KeyView::Uid(_) => "<$uid>"@,
            KeyView::Gid(_) => "<$gid>"@,
            KeyView::Name(_) => "<$name>"@,
        }
    }

    /// What is put in the placeholder's place: an id in base ten, a name as
    /// it is.
    pub open spec fn value_of(self) -> Seq<char> {
        match self {
            KeyView::All => ""@,
            KeyView::Uid(uid) => decimal_of(uid as nat),
            KeyView::Gid(gid) => decimal_of(gid as nat),
            KeyView::Name(name) => name,
        }
    }
}

impl Key {
    /// The name that the configuration knows the function by.
    pub fn function(&self) -> (name: &'static str)
        ensures
            name@ == self@.function_of(),
    {
        match self {
            Key::All => "get_all_entries",
            Key::Uid(_) => "get_entry_by_uid",
            Key::Gid(_) => "get_entry_by_gid",
            Key::Name(_) => "get_entry_by_name",
        }
    }

    /// The placeholder that stands for the key in a command.
    pub fn placeholder(&self) -> (placeholder: &'static str)
        ensures
            placeholder@ == self@.placeholder_of(),
    {
        match self {
            Key::All => "",
            Key::Uid(_) => "<$uid>",
            Key::Gid(_) => "<$gid>",
            Key::Name(_) => "<$name>",
        }
    }

    /// What is put in the placeholder's place.
    pub fn value(&self) -> (value: String)
        ensures
            value@ == self@.value_of(),
    {
        match self {
            Key::All => String::from_str(""),
            Key::Uid(uid) => decimal(*uid),
            Key::Gid(gid) => decimal(*gid),
            Key::Name(name) => name.clone(),
        }
    }
}

/// The content of a [`Plan`].
pub struct PlanView {
    pub invocation: InvocationView,
    pub debug: bool,
}

/// What is to be done for a lookup: the command to run, and whether
/// diagnostics are wanted.
#[derive(Debug, PartialEq, Eq)]
pub struct Plan {
    pub invocation: Invocation,
    pub debug: bool,
}

impl View for Plan {
    type V = PlanView;

    open spec fn view(&self) -> PlanView {
        PlanView { invocation: self.invocation@, debug: self.debug }
    }
}

/// The command for a lookup under a configuration: the one that the
/// configuration names for the database and the function, with the key in
/// the placeholder's place.
pub open spec fn command_for(root: Seq<(Seq<char>, JsonValue)>, query: QueryView) -> Result<
    InvocationView,
    Failure,
> {
    match resolution(root, query.database.name_of(), query.key.function_of()) {
        Ok(invocation) => Ok(
            substituted(invocation, query.key.placeholder_of(), query.key.value_of()),
        ),
        Err(failure) => Err(failure),
    }
}

/// What is to be done for a lookup where loading the configuration gave
/// `configuration`.
pub open spec fn planned_with(
    configuration: Result<ConfigurationView, LoadError>,
    query: QueryView,
) -> Result<PlanView, Failure> {
    match configuration {
        Err(error) => Err(error.failure_of()),
        Ok(view) => match command_for(view.root, query) {
            Ok(invocation) => Ok(PlanView { invocation, debug: view.debug }),
            Err(failure) => Err(failure),
        },
    }
}

/// What is to be done for a lookup, by the text of the configuration file,
/// `None` standing for a file that is missing or cannot be read.
pub open spec fn planned(content: Option<Seq<char>>, query: QueryView) -> Result<
    PlanView,
    Failure,
> {
    planned_with(loaded_from(content), query)
}

/// Finds the command for a lookup under a configuration.
pub fn command(configuration: &Configuration, query: &Query) -> (result: Result<
    Invocation,
    Failure,
>)
    ensures
        match result {
            Ok(invocation) => {
                &&& command_for(configuration@.root, query@) == Ok::<InvocationView, Failure>(
                    invocation@,
                )
                &&& invocation.runnable()
            },
            Err(failure) => command_for(configuration@.root, query@) == Err::<
                InvocationView,
                Failure,
            >(failure),
        },
{
    match resolve(configuration, query.database.name(), query.key.function()) {
        Ok(invocation) => {
            let value = query.key.value();
            let result = substitute(invocation, query.key.placeholder(), value.as_str());
            assert(result@.argv.len() == invocation@.argv.len());
            Ok(result)
        },
        Err(failure) => Err(failure),
    }
}

/// Says what is to be done for a lookup, from the text of the configuration
/// file, `None` standing for a file that is missing or cannot be read.
pub fn plan(content: Option<&str>, query: &Query) -> (result: Result<Plan, Failure>)
    ensures
        match result {
            Ok(plan) => {
                &&& planned(content_view(content), query@) == Ok::<PlanView, Failure>(plan@)
                &&& plan.invocation.runnable()
            },
            Err(failure) => planned(content_view(content), query@) == Err::<PlanView, Failure>(
                failure,
            ),
        },
{
    match Configuration::load(content) {
        Err(error) => Err(error.failure()),
        Ok(configuration) => match command(&configuration, query) {
            Ok(invocation) => Ok(Plan { invocation, debug: configuration.debug() }),
            Err(failure) => Err(failure),
        },
    }
}

/// The id that is put into a command reads back as the id that was asked
/// for: a command that hands its argument on as the record's id passes the
/// guard on the answer.
pub proof fn substituted_id_reads_back(id: u32)
    ensures
        decimal_u32(KeyView::Uid(id).value_of()) == Some(id),
        decimal_u32(KeyView::Gid(id).value_of()) == Some(id),
{
    decimal_u32_reads_back(id);
}

/// A configuration that is an empty object makes every lookup unavailable.
pub proof fn empty_configuration_is_unavailable(content: Seq<char>, query: QueryView)
    requires
        read_as_json(content) == ReadingView::Document(JsonValue::Object(Seq::empty())),
    ensures
        planned(Some(content), query) == Err::<PlanView, Failure>(Failure::Unavailable),
{
}

/// A configuration that was not accepted makes every lookup fail in the same
/// way, whatever is looked up: with the failure that stands for the error.
pub proof fn rejected_configuration_fails_every_lookup(error: LoadError, query: QueryView)
    ensures
        planned_with(Err(error), query) == Err::<PlanView, Failure>(error.failure_of()),
        error.failure_of() != Failure::NotFound,
{
}

/// What is to be done depends on nothing but the configuration file's text
/// and the lookup: asked again with both unchanged, the answer is the same
/// command, environment and directory, or the same failure.
pub proof fn plan_is_repeatable(
    first: Option<Seq<char>>,
    second: Option<Seq<char>>,
    query: QueryView,
    again: QueryView,
)
    requires
        first == second,
        query == again,
    ensures
        planned(first, query) == planned(second, again),
{
}

} // verus!
