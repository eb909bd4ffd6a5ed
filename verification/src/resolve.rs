//! From a database and a function to the command that the configuration
//! names for them.

use vstd::prelude::*;

use crate::command::{Invocation, InvocationView, pairs_of};
use crate::config::{Configuration, ConfigurationView};
use crate::json::{get, Json, JsonValue, member, members_view};
use crate::status::Failure;
use crate::text::texts_of;

verus! {

/// The members of a JSON object.
pub type Members = Seq<(Seq<char>, JsonValue)>;

/// The words that `shlex::split` makes of a command, or `None` where it
/// reports an error: a quotation left open, or a backslash at the end.
pub uninterp spec fn shell_words(command: Seq<char>) -> Option<Seq<Seq<char>>>;

/// `shlex::split`: the words of `command` by the rules of the POSIX shell,
/// which depend on `command` alone.
#[verifier::external_body]
fn split_words(command: &str) -> (words: Option<Vec<String>>)
    ensures
        match words {
            Some(list) => shell_words(command@) == Some(texts_of(list@)),
            None => shell_words(command@) is None,
        },
{
    shlex::split(command)
}

/// The object that the member `key` holds. `absent` is the failure where no
/// such member is there; one that holds no object is never usable.
pub open spec fn object_at(members: Members, key: Seq<char>, absent: Failure) -> Result<
    Members,
    Failure,
> {
    match member(members, key) {
        None => Err(absent),
        Some(value) => match value.object() {
            Some(inner) => Ok(inner),
            None => Err(Failure::Unavailable),
        },
    }
}

/// The members of the database named `database`. A database that is not
/// configured is simply not found.
pub open spec fn database_at(root: Members, database: Seq<char>) -> Result<Members, Failure> {
    match object_at(root, "databases"@, Failure::NotFound) {
        Err(failure) => Err(failure),
        Ok(databases) => object_at(databases, database, Failure::NotFound),
    }
}

/// The members of the function named `function` in a database. A database
/// that is there without it is not usable.
pub open spec fn function_at(database: Members, function: Seq<char>) -> Result<Members, Failure> {
    match object_at(database, "functions"@, Failure::Unavailable) {
        Err(failure) => Err(failure),
        Ok(functions) => object_at(functions, function, Failure::Unavailable),
    }
}

/// The value of `key` at the first of the three levels that has it: the
/// function, then the database, then the root.
pub open spec fn first_present(
    key: Seq<char>,
    function: Members,
    database: Members,
    root: Members,
) -> Option<JsonValue> {
    match member(function, key) {
        Some(value) => Some(value),
        None => match member(database, key) {
            Some(value) => Some(value),
            None => member(root, key),
        },
    }
}

/// Whether every member holds a string.
pub open spec fn all_strings(members: Members) -> bool {
    forall|i: int| 0 <= i < members.len() ==> (#[trigger] members[i]).1 is String
}

/// The variables that an `env` value sets: it has to be an object whose
/// members all hold strings.
pub open spec fn env_of(value: JsonValue) -> Option<Seq<(Seq<char>, Seq<char>)>> {
    match value {
        JsonValue::Object(members) => if all_strings(members) {
            Some(Seq::new(members.len(), |i: int| (members[i].0, members[i].1->String_0)))
        } else {
            None
        },
        _ => None,
    }
}

/// The environment for a function: that of the first level that has `env`,
/// whole, and none where no level has it.
pub open spec fn chosen_env(function: Members, database: Members, root: Members) -> Result<
    Seq<(Seq<char>, Seq<char>)>,
    Failure,
> {
    match first_present("env"@, function, database, root) {
        None => Ok(Seq::empty()),
        Some(value) => match env_of(value) {
            Some(env) => Ok(env),
            None => Err(Failure::Unavailable),
        },
    }
}

/// The working directory for a function: that of the first level that has
/// `workdir`, and the empty text where no level has it.
pub open spec fn chosen_workdir(function: Members, database: Members, root: Members) -> Result<
    Seq<char>,
    Failure,
> {
    match first_present("workdir"@, function, database, root) {
        None => Ok(Seq::empty()),
        Some(value) => match value.string() {
            Some(directory) => Ok(directory),
            None => Err(Failure::Unavailable),
        },
    }
}

/// The invocation made of a command's words: there must be words, and one
/// at least.
pub open spec fn assembled(
    words: Option<Seq<Seq<char>>>,
    env: Seq<(Seq<char>, Seq<char>)>,
    workdir: Seq<char>,
) -> Result<InvocationView, Failure> {
    match words {
        Some(argv) => if argv.len() > 0 {
            Ok(InvocationView { argv, env, workdir })
        } else {
            Err(Failure::Unavailable)
        },
        None => Err(Failure::Unavailable),
    }
}

/// The invocation that a function's members describe.
pub open spec fn function_resolution(function: Members, database: Members, root: Members) -> Result<
    InvocationView,
    Failure,
> {
    match member(function, "command"@) {
        None => Err(Failure::Unavailable),
        Some(command) => match chosen_env(function, database, root) {
            Err(failure) => Err(failure),
            Ok(env) => match chosen_workdir(function, database, root) {
                Err(failure) => Err(failure),
                Ok(workdir) => match command.string() {
                    None => Err(Failure::Unavailable),
                    Some(text) => assembled(shell_words(text), env, workdir),
                },
            },
        },
    }
}

/// The invocation that the configuration names for `function` of
/// `database`.
pub open spec fn resolution(root: Members, database: Seq<char>, function: Seq<char>) -> Result<
    InvocationView,
    Failure,
> {
    match database_at(root, database) {
        Err(failure) => Err(failure),
        Ok(database_members) => match function_at(database_members, function) {
            Err(failure) => Err(failure),
            Ok(function_members) => function_resolution(function_members, database_members, root),
        },
    }
}

/// The object that the member `key` holds.
fn object_member<'a>(members: &'a Vec<(String, Json)>, key: &str, absent: Failure) -> (result:
    Result<&'a Vec<(String, Json)>, Failure>)
    ensures
        match result {
            Ok(inner) => object_at(members_view(members@), key@, absent) == Ok::<Members, Failure>(
                members_view(inner@),
            ),
            Err(failure) => object_at(members_view(members@), key@, absent) == Err::<
                Members,
                Failure,
            >(failure),
        },
{
    match get(members, key) {
        None => Err(absent),
        Some(value) => match value.as_object() {
            Some(inner) => Ok(inner),
            None => Err(Failure::Unavailable),
        },
    }
}

/// The value of `key` at the first of the three levels that has it.
fn first_level<'a>(
    key: &str,
    function: &'a Vec<(String, Json)>,
    database: &'a Vec<(String, Json)>,
    root: &'a Vec<(String, Json)>,
) -> (value: Option<&'a Json>)
    ensures
        match value {
            Some(json) => first_present(
                key@,
                members_view(function@),
                members_view(database@),
                members_view(root@),
            ) == Some(json@),
            None => first_present(
                key@,
                members_view(function@),
                members_view(database@),
                members_view(root@),
            ) is None,
        },
{
    match get(function, key) {
        Some(value) => Some(value),
        None => match get(database, key) {
            Some(value) => Some(value),
            None => get(root, key),
        },
    }
}

/// The variables that an `env` value sets.
pub fn read_env(value: &Json) -> (env: Option<Vec<(String, String)>>)
    ensures
        match env {
            Some(variables) => env_of(value@) == Some(pairs_of(variables@)),
            None => env_of(value@) is None,
        },
{
    let members = match value.as_object() {
        Some(members) => members,
        None => {
            return None;
        },
    };
    let ghost content = members_view(members@);
    let mut variables: Vec<(String, String)> = Vec::new();
    let mut i: usize = 0;
    while i < members.len()
        invariant
            i <= members@.len(),
            content == members_view(members@),
            value@.object() == Some(content),
            variables@.len() == i,
            forall|k: int| 0 <= k < i ==> (#[trigger] content[k]).1 is String,
            forall|k: int|
                0 <= k < i ==> ((#[trigger] variables@[k]).0@, variables@[k].1@) == (
                    content[k].0,
                    content[k].1->String_0,
                ),
        decreases members@.len() - i,
    {
        match members[i].1.as_str() {
            Some(text) => {
                variables.push((members[i].0.clone(), text.clone()));
            },
            None => {
                assert(!(content[i as int].1 is String));
                return None;
            },
        }
        i += 1;
    }
    assert(pairs_of(variables@) =~= env_of(value@)->Some_0);
    Some(variables)
}

/// Makes the invocation of a command's words, as the word splitter gave
/// them: `None` where it reported an error.
pub fn assemble(words: Option<Vec<String>>, env: Vec<(String, String)>, workdir: String) -> (result:
    Result<Invocation, Failure>)
    ensures
        match result {
            Ok(invocation) => assembled(words_view(words), pairs_of(env@), workdir@) == Ok::<
                InvocationView,
                Failure,
            >(invocation@),
            Err(failure) => assembled(words_view(words), pairs_of(env@), workdir@) == Err::<
                InvocationView,
                Failure,
            >(failure),
        },
{
    match words {
        Some(argv) => if argv.len() > 0 {
            Ok(Invocation { argv, env, workdir })
        } else {
            Err(Failure::Unavailable)
        },
        None => Err(Failure::Unavailable),
    }
}

/// The texts of the words that may have been split.
pub open spec fn words_view(words: Option<Vec<String>>) -> Option<Seq<Seq<char>>> {
    match words {
        Some(list) => Some(texts_of(list@)),
        None => None,
    }
}

/// Resolves `function` of `database` to the command to run, with the
/// environment and the working directory chosen for it.
pub fn resolve(configuration: &Configuration, database: &str, function: &str) -> (result: Result<
    Invocation,
    Failure,
>)
    ensures
        match result {
            Ok(invocation) => {
                &&& resolution(configuration@.root, database@, function@) == Ok::<
                    InvocationView,
                    Failure,
                >(invocation@)
                &&& invocation.runnable()
            },
            Err(failure) => resolution(configuration@.root, database@, function@) == Err::<
                InvocationView,
                Failure,
            >(failure),
        },
{
    let root = configuration.root();
    let databases = match object_member(root, "databases", Failure::NotFound) {
        Ok(members) => members,
        Err(failure) => {
            return Err(failure);
        },
    };
    let database_members = match object_member(databases, database, Failure::NotFound) {
        Ok(members) => members,
        Err(failure) => {
            return Err(failure);
        },
    };
    let functions = match object_member(database_members, "functions", Failure::Unavailable) {
        Ok(members) => members,
        Err(failure) => {
            return Err(failure);
        },
    };
    let function_members = match object_member(functions, function, Failure::Unavailable) {
        Ok(members) => members,
        Err(failure) => {
            return Err(failure);
        },
    };
    let command = match get(function_members, "command") {
        Some(value) => value,
        None => {
            return Err(Failure::Unavailable);
        },
    };
    let env = match first_level("env", function_members, database_members, root) {
        None => Vec::new(),
        Some(value) => match read_env(value) {
            Some(variables) => variables,
            None => {
                return Err(Failure::Unavailable);
            },
        },
    };
    let workdir = match first_level("workdir", function_members, database_members, root) {
        None => String::new(),
        Some(value) => match value.as_str() {
            Some(directory) => directory.clone(),
            None => {
                return Err(Failure::Unavailable);
            },
        },
    };
    let text = match command.as_str() {
        Some(text) => text,
        None => {
            return Err(Failure::Unavailable);
        },
    };
    proof {
        assert(pairs_of(env@) =~= chosen_env(
            members_view(function_members@),
            members_view(database_members@),
            members_view(root@),
        )->Ok_0);
    }
    assemble(split_words(text.as_str()), env, workdir)
}

/// Resolution reads nothing but the configuration's content and the two
/// names: the same content and names give the same command, environment and
/// directory, or the same failure.
pub proof fn resolution_is_determined(
    first: ConfigurationView,
    second: ConfigurationView,
    database: Seq<char>,
    function: Seq<char>,
)
    requires
        first.root == second.root,
    ensures
        resolution(first.root, database, function) == resolution(second.root, database, function),
{
}

/// Where the function itself sets `env`, the environment is what it sets and
/// nothing else: what the database and the root set is not looked at, and
/// nothing is merged.
pub proof fn function_env_takes_precedence(
    root: Members,
    database: Seq<char>,
    function: Seq<char>,
    value: JsonValue,
)
    requires
        database_at(root, database) matches Ok(database_members) && function_at(
            database_members,
            function,
        ) matches Ok(function_members) && member(function_members, "env"@) == Some(value),
    ensures
        resolution(root, database, function) matches Ok(invocation) ==> env_of(value) == Some(
            invocation.env,
        ),
        env_of(value) is None ==> resolution(root, database, function) is Err,
{
}

/// Where the function sets no `env` and the database does, the environment
/// is what the database sets, whatever the root sets.
pub proof fn database_env_comes_next(
    root: Members,
    database: Seq<char>,
    function: Seq<char>,
    value: JsonValue,
)
    requires
        database_at(root, database) matches Ok(database_members) && function_at(
            database_members,
            function,
        ) matches Ok(function_members) && member(function_members, "env"@) is None && member(
            database_members,
            "env"@,
        ) == Some(value),
    ensures
        resolution(root, database, function) matches Ok(invocation) ==> env_of(value) == Some(
            invocation.env,
        ),
{
}

/// The working directory is chosen like the environment and apart from it:
/// where the function itself sets `workdir`, that is the directory.
pub proof fn function_workdir_takes_precedence(
    root: Members,
    database: Seq<char>,
    function: Seq<char>,
    value: JsonValue,
)
    requires
        database_at(root, database) matches Ok(database_members) && function_at(
            database_members,
            function,
        ) matches Ok(function_members) && member(function_members, "workdir"@) == Some(value),
    ensures
        resolution(root, database, function) matches Ok(invocation) ==> value.string() == Some(
            invocation.workdir,
        ),
{
}

/// A command that resolves has a program to run.
pub proof fn resolved_commands_are_runnable(
    root: Members,
    database: Seq<char>,
    function: Seq<char>,
)
    ensures
        resolution(root, database, function) matches Ok(invocation) ==> invocation.argv.len() > 0,
{
}

} // verus!
