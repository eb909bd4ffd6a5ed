//! The command line that answers a lookup.

use vstd::prelude::*;

use crate::text::texts_of;

verus! {

/// The content of an [`Invocation`].
pub struct InvocationView {
    pub argv: Seq<Seq<char>>,
    pub env: Seq<(Seq<char>, Seq<char>)>,
    pub workdir: Seq<char>,
}

/// A command to run: the program and its arguments, the environment
/// variables to add to those already set, and the directory to run it in
/// (empty for the current one).
#[derive(Debug, PartialEq, Eq)]
pub struct Invocation {
    pub argv: Vec<String>,
    pub env: Vec<(String, String)>,
    pub workdir: String,
}

/// The names and values that a vector of variables holds, in order.
pub open spec fn pairs_of(variables: Seq<(String, String)>) -> Seq<(Seq<char>, Seq<char>)> {
    Seq::new(variables.len(), |i: int| (variables[i].0@, variables[i].1@))
}

impl View for Invocation {
    type V = InvocationView;

    open spec fn view(&self) -> InvocationView {
        InvocationView {
            argv: texts_of(self.argv@),
            env: pairs_of(self.env@),
            workdir: self.workdir@,
        }
    }
}

impl Invocation {
    /// Whether there is a program to run.
    pub open spec fn runnable(self) -> bool {
        self.argv@.len() > 0
    }

    /// The program to run, where there is one.
    pub fn program(&self) -> (program: Option<&String>)
        ensures
            match program {
                Some(name) => self.runnable() && name@ == self@.argv[0],
                None => !self.runnable(),
            },
    {
        if self.argv.len() > 0 {
            Some(&self.argv[0])
        } else {
            None
        }
    }
}

} // verus!
