//! What an event carries.

use vstd::prelude::*;

verus! {

/// A payload of plain text.
#[derive(Debug)]
pub struct TextPayload {
    pub content: String,
}

impl View for TextPayload {
    type V = Seq<char>;

    open spec fn view(&self) -> Seq<char> {
        self.content@
    }
}

impl Clone for TextPayload {
    fn clone(&self) -> (copy: Self)
        ensures
            copy@ == self@,
    {
        TextPayload { content: self.content.clone() }
    }
}

impl TextPayload {
    /// A payload that carries `content`.
    pub fn new(content: &str) -> (payload: Self)
        ensures
            payload@ == content@,
    {
        TextPayload { content: content.to_owned() }
    }
}

impl vstd::std_specs::convert::FromSpecImpl<String> for TextPayload {
    open spec fn obeys_from_spec() -> bool {
        true
    }

    open spec fn from_spec(content: String) -> Self {
        TextPayload { content }
    }
}

impl From<String> for TextPayload {
    fn from(content: String) -> (payload: Self)
        ensures
            payload@ == content@,
    {
        TextPayload { content }
    }
}

impl<'a> vstd::std_specs::convert::FromSpecImpl<&'a str> for TextPayload {
    open spec fn obeys_from_spec() -> bool {
        false
    }

    open spec fn from_spec(content: &'a str) -> Self {
        arbitrary()
    }
}

impl<'a> From<&'a str> for TextPayload {
    fn from(content: &'a str) -> (payload: Self)
        ensures
            payload@ == content@,
    {
        TextPayload::new(content)
    }
}

/// The payload of an event that carries nothing.
#[derive(Clone, Copy, Debug, PartialEq, Eq, Structural)]
pub struct EmptyPayload;

impl Default for EmptyPayload {
    fn default() -> (payload: Self)
        ensures
            payload == EmptyPayload,
    {
        EmptyPayload
    }
}

} // verus!
