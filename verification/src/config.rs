//! The configuration document: what is accepted as one.

use vstd::prelude::*;

use crate::json::{
    get, Json, JsonValue, member, members_view, read, read_as_json, Reading, ReadingView,
};
use crate::status::Failure;

verus! {

/// Why a configuration was not accepted.
#[derive(Clone, Copy, Debug, PartialEq, Eq, Structural)]
pub enum LoadError {
    /// There is no document, it is not JSON, it is no object, the object is
    /// empty, or it has no `databases`.
    Unavailable,
    /// `debug` is there and is not a truth value.
    NotFoundMalformed,
}

impl LoadError {
    /// The failure that a lookup reports for this error.
    pub open spec fn failure_of(self) -> Failure {
        match self {
            LoadError::Unavailable => Failure::Unavailable,
            LoadError::NotFoundMalformed => Failure::TryAgain,
        }
    }

    /// The failure that a lookup reports for this error.
    pub fn failure(&self) -> (failure: Failure)
        ensures
            failure == self.failure_of(),
    {
        match self {
            LoadError::Unavailable => Failure::Unavailable,
            LoadError::NotFoundMalformed => Failure::TryAgain,
        }
    }
}

/// The content of a [`Configuration`]: the members of the document's root
/// and the debug flag read from them.
pub struct ConfigurationView {
    pub root: Seq<(Seq<char>, JsonValue)>,
    pub debug: bool,
}

/// An accepted configuration document.
#[derive(Debug)]
pub struct Configuration {
    pub(crate) root: Vec<(String, Json)>,
    pub(crate) debug: bool,
}

/// The debug flag that the root's members set: `false` where they set none.
pub open spec fn debug_flag(root: Seq<(Seq<char>, JsonValue)>) -> Result<bool, LoadError> {
    match member(root, "debug"@) {
        None => Ok(false),
        Some(value) => match value.boolean() {
            Some(flag) => Ok(flag),
            None => Err(LoadError::NotFoundMalformed),
        },
    }
}

/// Whether `view` is the content of a document that is accepted.
pub open spec fn acceptable(view: ConfigurationView) -> bool {
    &&& view.root.len() > 0
    &&& member(view.root, "databases"@) is Some
    &&& debug_flag(view.root) == Ok::<bool, LoadError>(view.debug)
}

/// What loading makes of what was read: nothing is mended and nothing is
/// filled in.
pub open spec fn loaded(reading: ReadingView) -> Result<ConfigurationView, LoadError> {
    match reading {
        ReadingView::Document(JsonValue::Object(root)) => if root.len() == 0 {
            Err(LoadError::Unavailable)
        } else {
            match debug_flag(root) {
                Err(error) => Err(error),
                Ok(debug) => if member(root, "databases"@) is None {
                    Err(LoadError::Unavailable)
                } else {
                    Ok(ConfigurationView { root, debug })
                },
            }
        },
        _ => Err(LoadError::Unavailable),
    }
}

/// What loading makes of the configuration file's text, `None` standing for
/// a file that is missing or cannot be read.
pub open spec fn loaded_from(content: Option<Seq<char>>) -> Result<ConfigurationView, LoadError> {
    match content {
        None => Err(LoadError::Unavailable),
        Some(text) => loaded(read_as_json(text)),
    }
}

/// Whatever was loaded is acceptable.
pub proof fn loaded_is_acceptable(reading: ReadingView)
    ensures
        loaded(reading) matches Ok(view) ==> acceptable(view),
{
}

/// An empty object is no configuration.
pub proof fn empty_object_is_unavailable()
    ensures
        loaded(ReadingView::Document(JsonValue::Object(Seq::empty()))) == Err::<
            ConfigurationView,
            LoadError,
        >(LoadError::Unavailable),
{
}

impl View for Configuration {
    type V = ConfigurationView;

    closed spec fn view(&self) -> ConfigurationView {
        ConfigurationView { root: members_view(self.root@), debug: self.debug }
    }
}

impl Configuration {
    #[verifier::type_invariant]
    spec fn valid(self) -> bool {
        acceptable(self@)
    }

    /// Accepts what was read as a configuration, or says why not.
    pub fn from_reading(reading: Reading) -> (result: Result<Configuration, LoadError>)
        ensures
            match result {
                Ok(configuration) => loaded(reading@) == Ok::<ConfigurationView, LoadError>(
                    configuration@,
                ),
                Err(error) => loaded(reading@) == Err::<ConfigurationView, LoadError>(error),
            },
    {
        let root = match reading {
            Reading::Document(Json::Object(members)) => {
                proof {
                    Json::object_view(members);
                }
                members
            },
            _ => {
                return Err(LoadError::Unavailable);
            },
        };
        if root.len() == 0 {
            return Err(LoadError::Unavailable);
        }
        let debug = match get(&root, "debug") {
            None => false,
            Some(value) => match value.as_bool() {
                Some(flag) => flag,
                None => {
                    return Err(LoadError::NotFoundMalformed);
                },
            },
        };
        if get(&root, "databases").is_none() {
            return Err(LoadError::Unavailable);
        }
        Ok(Configuration { root, debug })
    }

    /// Loads the configuration from the text of its file, `None` standing
    /// for a file that is missing or cannot be read.
    pub fn load(content: Option<&str>) -> (result: Result<Configuration, LoadError>)
        ensures
            match result {
                Ok(configuration) => loaded_from(content_view(content)) == Ok::<
                    ConfigurationView,
                    LoadError,
                >(configuration@),
                Err(error) => loaded_from(content_view(content)) == Err::<
                    ConfigurationView,
                    LoadError,
                >(error),
            },
    {
        match content {
            None => Err(LoadError::Unavailable),
            Some(text) => Configuration::from_reading(read(text)),
        }
    }

    /// Whether diagnostics are wanted.
    pub fn debug(&self) -> (flag: bool)
        ensures
            flag == self@.debug,
    {
        self.debug
    }

    /// The members of the document's root.
    pub fn root(&self) -> (members: &Vec<(String, Json)>)
        ensures
            members_view(members@) == self@.root,
            acceptable(self@),
    {
        proof {
            use_type_invariant(self);
        }
        &self.root
    }
}

/// The text of a file that may have been read.
pub open spec fn content_view(content: Option<&str>) -> Option<Seq<char>> {
    match content {
        Some(text) => Some(text@),
        None => None,
    }
}

} // verus!
