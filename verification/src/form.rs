//! The form submission that the subscription endpoint accepts.

use vstd::prelude::*;

verus! {

/// A decoded form submission. Both fields are required by the decoding step; neither is
/// validated.
#[derive(Debug, Clone, PartialEq, Eq)]
pub struct FormData {
    pub email: String,
    pub name: String,
}

/// Mathematical model of a [`FormData`]: its two text fields as character sequences.
pub struct FormDataView {
    pub email: Seq<char>,
    pub name: Seq<char>,
}

impl View for FormData {
    type V = FormDataView;

    open spec fn view(&self) -> FormDataView {
        FormDataView { email: self.email@, name: self.name@ }
    }
}

} // verus!
