//! The subscription form and the answer to it.

use vstd::prelude::*;

verus! {

/// A subscription form as it was submitted: two text fields, taken as they are.
pub struct FormData {
    pub email: String,
    pub name: String,
}

/// The answer to a form: an HTTP status code and a body.
pub struct FormResponse {
    pub status: u16,
    pub body: String,
}

/// Answers a subscription form: status 200 and an empty body, whatever the
/// fields hold.
pub fn subscribe(_form: FormData) -> (response: FormResponse)
    ensures
        response.status == 200,
        response.body@ == Seq::<char>::empty(),
{
    FormResponse { status: 200, body: String::new() }
}

} // verus!
