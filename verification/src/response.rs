//! Outgoing responses, reduced to what a handler decides.

use vstd::prelude::*;

verus! {

/// Status code of a successful response.
pub const STATUS_OK: u16 = 200;

/// An outgoing HTTP response: the status code and the bytes of the body.
#[derive(Debug, Clone, PartialEq, Eq)]
pub struct Response {
    pub status: u16,
    pub body: Vec<u8>,
}

/// Mathematical model of a [`Response`].
pub struct ResponseView {
    pub status: int,
    pub body: Seq<u8>,
}

impl View for Response {
    type V = ResponseView;

    open spec fn view(&self) -> ResponseView {
        ResponseView { status: self.status as int, body: self.body@ }
    }
}

impl ResponseView {
    /// The success response without content: status 200 and no body bytes.
    pub open spec fn ok_empty() -> ResponseView {
        ResponseView { status: 200, body: Seq::empty() }
    }
}

} // verus!
