//! The two records that cross the host boundary, and their mathematical views.

use vstd::prelude::*;

verus! {

/// The payload of one invocation: the text the caller sent.
///
/// Any text is a valid command. It may be empty, and it may hold any Unicode
/// scalar values, control characters included.
#[derive(Debug)]
pub struct Request {
    pub command: String,
}

/// The payload handed back to the host for one invocation.
#[derive(Debug)]
pub struct Response {
    pub message: String,
}

impl View for Request {
    type V = Seq<char>;

    /// A request is modelled by the characters of its command.
    open spec fn view(&self) -> Seq<char> {
        self.command@
    }
}

impl View for Response {
    type V = Seq<char>;

    /// A response is modelled by the characters of its message.
    open spec fn view(&self) -> Seq<char> {
        self.message@
    }
}

} // verus!
