//! The handler of the subscription endpoint.

use actix_web::body::MessageBody;
use actix_web::HttpResponse;
use vstd::prelude::*;

use crate::form::{FormData, FormDataView};
use crate::response::{Response, ResponseView, STATUS_OK};

verus! {

/// What the endpoint answers to a submission: an empty `200 OK`, whatever the form holds.
pub open spec fn response_to(form: FormDataView) -> ResponseView {
    ResponseView::ok_empty()
}

/// Builds the framework's empty success response with `actix_web::HttpResponse::Ok()` and
/// `HttpResponseBuilder::finish()`, then reads it back as plain values: the status code
/// through `HttpResponse::status()` and `StatusCode::as_u16()`, the body through
/// `HttpResponse::into_body()` and `MessageBody::try_into_bytes()`.
///
/// Trusted, not proved: the status code of that response is 200 and its body holds no
/// bytes. The builder starts from `StatusCode::OK`, and `finish()` sets the unit body,
/// which the framework keeps in memory as an empty byte string; a body that could not be
/// read from memory would come back as no bytes as well.
#[verifier::external_body]
fn ok_finish() -> (r: Response)
    ensures
        r.status == 200,
        r.body@.len() == 0,
{
    let built = HttpResponse::Ok().finish();
    let status = built.status().as_u16();
    let body = match built.into_body().try_into_bytes() {
        Ok(bytes) => bytes.to_vec(),
        Err(_) => Vec::new(),
    };
    Response { status, body }
}

/// Handles one form submission: answers with status 200 and an empty body, without
/// looking at the fields of the form.
pub fn subscribe(form: FormData) -> (r: Response)
    ensures
        r@ == response_to(form@),
        r.status == STATUS_OK,
        r.body@.len() == 0,
{
    let r = ok_finish();
    assert(r.body@ =~= Seq::<u8>::empty());
    r
}

/// The response does not depend on the content of the form: any two submissions are
/// answered alike.
pub proof fn lemma_response_ignores_form(a: FormData, b: FormData)
    ensures
        response_to(a@) == response_to(b@),
{
}

/// Repeating a request changes nothing: however often the same submission is handled,
/// all the responses it gets are the same.
pub proof fn lemma_repeated_requests_agree(form: FormData, responses: Seq<Response>)
    requires
        forall|i: int| 0 <= i < responses.len() ==> (#[trigger] responses[i])@ == response_to(form@),
    ensures
        forall|i: int, j: int|
            0 <= i < responses.len() && 0 <= j < responses.len() ==> (#[trigger] responses[i])@
                == (#[trigger] responses[j])@,
{
}

} // verus!
