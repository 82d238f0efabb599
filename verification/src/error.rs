//! The error type shared by every fallible operation of the library.

use vstd::prelude::*;
use vstd::string::*;

verus! {

/// An error carrying a human-readable message.
#[derive(Clone, Debug)]
pub struct GoesArchError(String);

impl View for GoesArchError {
    type V = Seq<char>;

    closed spec fn view(&self) -> Seq<char> {
        self.0@
    }
}

impl GoesArchError {
    /// Builds an error whose message is `message`.
    pub fn new(message: &str) -> (err: GoesArchError)
        ensures
            err@ == message@,
    {
        GoesArchError(String::from_str(message))
    }

    /// The message this error was built with.
    pub fn message(&self) -> (text: String)
        ensures
            text@ == self@,
    {
        self.0.clone()
    }
}

} // verus!
