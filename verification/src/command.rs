//! Commands that are run from outside: a program and its arguments.

use crate::layout::{Location, LocationSpec};
use vstd::prelude::*;

verus! {

/// An argument of a command: a text, or the path of a place.
#[derive(Debug, PartialEq, Eq)]
pub enum CommandArg {
    Text(String),
    Place(Location),
}

/// An argument of a command, in mathematical terms.
#[verifier::ext_equal]
pub enum CommandArgSpec {
    Text(Seq<char>),
    Place(LocationSpec),
}

impl View for CommandArg {
    type V = CommandArgSpec;

    open spec fn view(&self) -> CommandArgSpec {
        match self {
            CommandArg::Text(text) => CommandArgSpec::Text(text@),
            CommandArg::Place(place) => CommandArgSpec::Place(place@),
        }
    }
}

/// A program to run, and its arguments.
#[derive(Debug, PartialEq, Eq)]
pub struct CommandLine {
    pub program: &'static str,
    pub args: Vec<CommandArg>,
}

impl CommandLine {
    /// The arguments of the command.
    pub open spec fn arguments(self) -> Seq<CommandArgSpec> {
        Seq::new(self.args@.len(), |i: int| self.args@[i]@)
    }
}

} // verus!
