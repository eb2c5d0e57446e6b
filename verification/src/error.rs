//! The closed set of failures, and the reading of the upstream error envelope.

use vstd::prelude::*;

use crate::json::{member, Json, JsonValue};

verus! {

/// Why an operation of the client failed.
#[derive(Clone, Debug, PartialEq, Eq)]
pub enum Error {
    /// The network failed or the HTTP exchange could not be read.
    Transport(String),
    /// Upstream answered with its error envelope.
    Api { status: u16, message: String, reason: Option<String> },
    /// A body that could not be decoded: on success, as the expected result;
    /// on failure, as the error envelope.
    MalformedResponse,
    /// The token endpoint refused an exchange; the text is its detail.
    OAuth(String),
    /// The state received with the authorization code is not the one that was
    /// handed out.
    InvalidStateParameter,
    /// The access token has expired and the client does not refresh on its own.
    ExpiredToken,
    /// A refresh was asked for, but no refresh token is held.
    RefreshUnavailable,
}

/// The mathematical value of an [`Error`].
pub enum ErrorView {
    Transport(Seq<char>),
    Api { status: u16, message: Seq<char>, reason: Option<Seq<char>> },
    MalformedResponse,
    OAuth(Seq<char>),
    InvalidStateParameter,
    ExpiredToken,
    RefreshUnavailable,
}

impl View for Error {
    type V = ErrorView;

    open spec fn view(&self) -> ErrorView {
        match self {
            Error::Transport(detail) => ErrorView::Transport(detail@),
            Error::Api { status, message, reason } => ErrorView::Api {
                status: *status,
                message: message@,
                reason: match reason {
                    Some(r) => Some(r@),
                    None => None,
                },
            },
            Error::MalformedResponse => ErrorView::MalformedResponse,
            Error::OAuth(detail) => ErrorView::OAuth(detail@),
            Error::InvalidStateParameter => ErrorView::InvalidStateParameter,
            Error::ExpiredToken => ErrorView::ExpiredToken,
            Error::RefreshUnavailable => ErrorView::RefreshUnavailable,
        }
    }
}

/// An optional text member: absent and `null` both mean "none"; any value
/// that is no text does not conform.
pub open spec fn optional_text(value: Option<JsonValue>) -> Option<Option<Seq<char>>> {
    match value {
        None => Some(None),
        Some(JsonValue::Null) => Some(None),
        Some(JsonValue::Text(t)) => Some(Some(t)),
        Some(_) => None,
    }
}

/// The error that a body of the shape
/// `{ "error": { "status": int, "message": string, "reason"?: string } }`
/// carries; nothing for a body of any other shape. The status must fit in 16
/// bits without a sign. Members that the shape does not name are ignored.
pub open spec fn envelope(body: JsonValue) -> Option<ErrorView> {
    match member(body, "error"@) {
        Some(details) => match (
            member(details, "status"@),
            member(details, "message"@),
            optional_text(member(details, "reason"@)),
        ) {
            (Some(JsonValue::Integer(status)), Some(JsonValue::Text(message)), Some(reason)) => {
                if 0 <= status <= u16::MAX {
                    Some(ErrorView::Api { status: status as u16, message, reason })
                } else {
                    None
                }
            },
            _ => None,
        },
        None => None,
    }
}

/// What a response with a failure status is lifted to: the envelope's error
/// where the body conforms, `MalformedResponse` where it does not or where no
/// JSON body came.
pub open spec fn failure_of(body: Option<JsonValue>) -> ErrorView {
    match body {
        Some(document) => match envelope(document) {
            Some(error) => error,
            None => ErrorView::MalformedResponse,
        },
        None => ErrorView::MalformedResponse,
    }
}

/// The view of an optional document.
pub open spec fn document_view(body: Option<&Json>) -> Option<JsonValue> {
    match body {
        Some(document) => Some(document@),
        None => None,
    }
}

fn read_optional_text(value: Option<&Json>) -> (r: Option<Option<String>>)
    ensures
        match r {
            Some(Some(t)) => optional_text(document_view(value)) == Some(Some(t@)),
            Some(None) => optional_text(document_view(value)) == Some(None::<Seq<char>>),
            None => optional_text(document_view(value)) is None,
        },
{
    match value {
        None => Some(None),
        Some(Json::Null) => Some(None),
        Some(Json::Text(t)) => Some(Some(t.clone())),
        Some(_) => None,
    }
}

/// Reads the error envelope out of a parsed body.
pub fn read_envelope(body: &Json) -> (r: Option<Error>)
    ensures
        match r {
            Some(error) => envelope(body@) == Some(error@),
            None => envelope(body@) is None,
        },
{
    let details = match body.get("error") {
        Some(details) => details,
        None => {
            return None;
        },
    };
    let status = details.get("status");
    let message = details.get("message");
    let reason = read_optional_text(details.get("reason"));
    match (status, message, reason) {
        (Some(Json::Integer(status)), Some(Json::Text(message)), Some(reason)) => {
            if 0 <= *status && *status <= 65535 {
                Some(Error::Api { status: *status as u16, message: message.clone(), reason })
            } else {
                None
            }
        },
        _ => None,
    }
}

/// Lifts the body of a response with a failure status to the error it stands
/// for. `None` is a body that is absent or is no JSON.
pub fn error_from_body(body: Option<&Json>) -> (error: Error)
    ensures
        error@ == failure_of(document_view(body)),
{
    match body {
        Some(document) => match read_envelope(document) {
            Some(error) => error,
            None => Error::MalformedResponse,
        },
        None => Error::MalformedResponse,
    }
}

} // verus!
