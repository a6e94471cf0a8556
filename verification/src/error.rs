//! The error reported when hosting the browser control fails.

use vstd::prelude::*;

verus! {

/// A failure of one step of hosting the browser control, described in words.
#[derive(Debug)]
pub struct RuntimeError {
    description: String,
}

impl View for RuntimeError {
    type V = Seq<char>;

    closed spec fn view(&self) -> Seq<char> {
        self.description@
    }
}

impl RuntimeError {
    /// An error that carries `description` unchanged.
    pub fn new(description: &str) -> (error: RuntimeError)
        ensures
            error@ == description@,
    {
        RuntimeError { description: description.to_owned() }
    }

    /// The text that the error was made with.
    pub fn description(&self) -> (text: &str)
        ensures
            text@ == self@,
    {
        self.description.as_str()
    }

    /// The error as a text of its own: its description.
    pub fn to_string(&self) -> (text: String)
        ensures
            text@ == self@,
    {
        self.description.clone()
    }
}

} // verus!
