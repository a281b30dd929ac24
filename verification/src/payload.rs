//! What a panic carries, and the message that can be read from it.

use vstd::prelude::*;

verus! {

/// The payload of a panic, by the shapes that carry text.
#[derive(Debug, PartialEq, Eq)]
pub enum Payload {
    /// An owned string, as `panic!` with format arguments produces.
    Owned(String),
    /// A string literal, as `panic!("...")` produces.
    Literal(&'static str),
    /// Any other value: it holds no message.
    Other,
}

/// The mathematical value of a [`Payload`].
pub enum PayloadView {
    Owned(Seq<char>),
    Literal(Seq<char>),
    Other,
}

impl View for Payload {
    type V = PayloadView;

    open spec fn view(&self) -> PayloadView {
        match self {
            Payload::Owned(s) => PayloadView::Owned(s@),
            Payload::Literal(s) => PayloadView::Literal(s@),
            Payload::Other => PayloadView::Other,
        }
    }
}

impl PayloadView {
    /// The text of the payload: that of an owned string, else that of a
    /// literal, else none.
    pub open spec fn message(self) -> Option<Seq<char>> {
        match self {
            PayloadView::Owned(s) => Some(s),
            PayloadView::Literal(s) => Some(s),
            PayloadView::Other => None,
        }
    }
}

impl Payload {
    /// The message of the panic, if its payload is text.
    pub fn message(&self) -> (msg: Option<&str>)
        ensures
            msg.is_some() == self@.message().is_some(),
            msg matches Some(s) ==> self@.message() == Some(s@),
    {
        match self {
            Payload::Owned(s) => Some(s.as_str()),
            Payload::Literal(s) => Some(*s),
            Payload::Other => None,
        }
    }
}

} // verus!
