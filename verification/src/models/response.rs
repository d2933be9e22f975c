//! The answer to a request that changes the store.

use vstd::prelude::*;

verus! {

/// Whether a write went through, and a message saying so.
#[derive(Debug, PartialEq, Eq)]
pub struct Response {
    pub message: String,
    pub error: bool,
}

/// The mathematical value of a [`Response`].
pub ghost struct ResponseView {
    pub message: Seq<char>,
    pub error: bool,
}

impl View for Response {
    type V = ResponseView;

    open spec fn view(&self) -> ResponseView {
        ResponseView { message: self.message@, error: self.error }
    }
}

/// A response with the given message.
pub fn response(message: &str, error: bool) -> (res: Response)
    ensures
        res@ == (ResponseView { message: message@, error }),
{
    Response { message: message.to_owned(), error }
}

} // verus!
