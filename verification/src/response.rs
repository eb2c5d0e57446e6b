//! Telling success from failure, and lifting a response to a result.

use vstd::prelude::*;

use crate::error::{error_from_body, failure_of, Error, ErrorView};
use crate::http::Answer;
use crate::json::{member, Json, JsonValue};

verus! {

/// The result of an endpoint that answers with no content.
#[derive(Clone, Copy, Debug, PartialEq, Eq)]
pub struct Nil;

/// What came back for a request: the status, and the body where it parsed as
/// JSON. A body that is empty or is no JSON is `None`.
#[derive(Debug, PartialEq, Eq)]
pub struct Response {
    pub status: u16,
    pub body: Option<Json>,
}

/// The statuses that mean success: 200 to 299.
pub open spec fn is_success(status: u16) -> bool {
    200 <= status <= 299
}

/// What a response gives where a document is expected.
pub open spec fn payload_of(status: u16, body: Option<JsonValue>) -> Result<JsonValue, ErrorView> {
    if is_success(status) {
        match body {
            Some(document) => Ok(document),
            None => Err(ErrorView::MalformedResponse),
        }
    } else {
        Err(failure_of(body))
    }
}

/// What a response gives where no content is expected: success needs no body.
pub open spec fn unit_of(status: u16, body: Option<JsonValue>) -> Result<Nil, ErrorView> {
    if is_success(status) {
        Ok(Nil)
    } else {
        Err(failure_of(body))
    }
}

/// What a response gives for an endpoint that answers with `answer`: the
/// document where one is expected, the named member where the document wraps
/// the result, nothing where none is expected. A wrapping document that lacks
/// the member is malformed.
pub open spec fn lifted(status: u16, body: Option<JsonValue>, answer: Answer) -> Result<
    Option<JsonValue>,
    ErrorView,
> {
    match answer {
        Answer::Document => match payload_of(status, body) {
            Ok(document) => Ok(Some(document)),
            Err(error) => Err(error),
        },
        Answer::Member(listing) => match payload_of(status, body) {
            Ok(document) => match member(document, listing.name()) {
                Some(listed) => Ok(Some(listed)),
                None => Err(ErrorView::MalformedResponse),
            },
            Err(error) => Err(error),
        },
        Answer::Nothing => match unit_of(status, body) {
            Ok(_) => Ok(None),
            Err(error) => Err(error),
        },
    }
}

/// The view of an optional document that is owned.
pub open spec fn owned_document_view(body: Option<Json>) -> Option<JsonValue> {
    match body {
        Some(document) => Some(document@),
        None => None,
    }
}

/// Whether `status` means success.
pub fn status_is_success(status: u16) -> (r: bool)
    ensures
        r == is_success(status),
{
    200 <= status && status <= 299
}

impl Response {
    /// The view of the body.
    pub open spec fn body_view(&self) -> Option<JsonValue> {
        match self.body {
            Some(document) => Some(document@),
            None => None,
        }
    }

    /// The document of a successful response, for the caller to decode; the
    /// lifted error of any other.
    pub fn payload(self) -> (r: Result<Json, Error>)
        ensures
            match r {
                Ok(document) => payload_of(self.status, self.body_view()) == Ok::<
                    JsonValue,
                    ErrorView,
                >(document@),
                Err(error) => payload_of(self.status, self.body_view()) == Err::<
                    JsonValue,
                    ErrorView,
                >(error@),
            },
    {
        if status_is_success(self.status) {
            match self.body {
                Some(document) => Ok(document),
                None => Err(Error::MalformedResponse),
            }
        } else {
            Err(error_from_body(self.body.as_ref()))
        }
    }

    /// Lifts the response for an endpoint that answers with `answer`: the
    /// document of a success where one is expected, the member that holds the
    /// result where the document wraps it, nothing where none is expected,
    /// and the lifted error of a failure.
    pub fn lift(self, answer: Answer) -> (r: Result<Option<Json>, Error>)
        ensures
            match r {
                Ok(document) => lifted(self.status, self.body_view(), answer) == Ok::<
                    Option<JsonValue>,
                    ErrorView,
                >(owned_document_view(document)),
                Err(error) => lifted(self.status, self.body_view(), answer) == Err::<
                    Option<JsonValue>,
                    ErrorView,
                >(error@),
            },
    {
        match answer {
            Answer::Document => match self.payload() {
                Ok(document) => Ok(Some(document)),
                Err(error) => Err(error),
            },
            Answer::Member(listing) => match self.payload() {
                Ok(document) => match document.take(listing.as_str()) {
                    Some(listed) => Ok(Some(listed)),
                    None => Err(Error::MalformedResponse),
                },
                Err(error) => Err(error),
            },
            Answer::Nothing => match self.unit() {
                Ok(_) => Ok(None),
                Err(error) => Err(error),
            },
        }
    }

    /// The unit result of a successful response, whatever its body, an empty
    /// one included; the lifted error of any other.
    pub fn unit(self) -> (r: Result<Nil, Error>)
        ensures
            match r {
                Ok(nil) => unit_of(self.status, self.body_view()) == Ok::<Nil, ErrorView>(nil),
                Err(error) => unit_of(self.status, self.body_view()) == Err::<Nil, ErrorView>(
                    error@,
                ),
            },
    {
        if status_is_success(self.status) {
            Ok(Nil)
        } else {
            Err(error_from_body(self.body.as_ref()))
        }
    }
}

/// A failure status never gives a result, and a conforming envelope is
/// handed on as it stands.
pub proof fn lemma_failure_is_lifted(status: u16, body: Option<JsonValue>)
    requires
        !is_success(status),
    ensures
        payload_of(status, body) is Err,
        unit_of(status, body) is Err,
        payload_of(status, body)->Err_0 == failure_of(body),
        unit_of(status, body)->Err_0 == failure_of(body),
{
}

/// A success without content is the unit result: status 204 with no body.
pub proof fn lemma_no_content_is_unit()
    ensures
        unit_of(204, None) == Ok::<Nil, ErrorView>(Nil),
{
}

} // verus!
