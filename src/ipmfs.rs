//! Error parsing for the IPFS mutable file system backend.
//!
//! Status 500 means that IPFS understood the request but could not carry it
//! out. The reason is in the JSON body of the response.

use vstd::prelude::*;
use vstd::string::StringExecFns;

use crate::error::{
    ContextView, ErrorContext, ErrorKind, ErrorView, ObjectError, ObjectErrorView, StorageError,
};
use crate::http_util::{ErrorResponse, ErrorResponseView};
use crate::ops::Operation;

verus! {

/// The error body that IPFS sends with status 500. A field that the JSON
/// leaves out keeps its default: empty, or zero.
#[derive(Clone, Debug)]
pub struct IpfsError {
    pub message: String,
    pub code: usize,
    pub ty: String,
}

/// The message with which IPFS reports a missing file.
pub const FILE_NOT_EXIST: &'static str = "file does not exist";

/// What the cause of a body that could not be decoded starts with.
pub const DESERIALIZE_PREFIX: &'static str = "deserialize error content: ";

/// The kind that a status code gives where it needs no body to decide.
pub open spec fn status_kind(status: u16) -> ErrorKind {
    if status == 502 || status == 503 || status == 504 {
        ErrorKind::Interrupted
    } else {
        ErrorKind::Other
    }
}

/// The kind that the message of a decoded status 500 body gives.
pub open spec fn message_kind(message: Seq<char>) -> ErrorKind {
    if message == "file does not exist"@ {
        ErrorKind::NotFound
    } else {
        ErrorKind::Other
    }
}

/// The error that `parse_error` returns for a response whose body decoded to
/// `body` (`Err` holds the decoder's account of why it failed).
pub open spec fn parse_error_view(
    op: Operation,
    path: Seq<char>,
    er: ErrorResponseView,
    body: Result<IpfsError, String>,
) -> ErrorView {
    let wrap = |kind: ErrorKind, cause: Seq<char>|
        ErrorView {
            kind,
            context: ContextView::Object(ObjectErrorView { op, path, source_text: cause }),
        };
    if er.status == 500 {
        match body {
            Ok(ie) => wrap(message_kind(ie.message@), er.text()),
            Err(detail) => wrap(ErrorKind::Other, "deserialize error content: "@ + detail@),
        }
    } else {
        wrap(status_kind(er.status), er.text())
    }
}

/// Turns a failed IPFS response into an error of the right kind.
///
/// `body` is the response body decoded as an [`IpfsError`]; it is read only
/// for status 500. The statuses 502, 503 and 504 give
/// [`ErrorKind::Interrupted`] whatever the body; status 500 gives
/// [`ErrorKind::NotFound`] where the body's message says that the file does
/// not exist; everything else gives [`ErrorKind::Other`].
pub fn parse_error(
    op: Operation,
    path: &str,
    er: ErrorResponse,
    body: Result<IpfsError, String>,
) -> (r: StorageError)
    ensures
        r@ == parse_error_view(op, path@, er@, body),
        er@.status == 502 || er@.status == 503 || er@.status == 504 ==> r@.kind
            == ErrorKind::Interrupted,
        er@.status != 500 && er@.status != 502 && er@.status != 503 && er@.status != 504
            ==> r@.kind == ErrorKind::Other,
        er@.status == 500 && body is Err ==> r@.kind == ErrorKind::Other,
        er@.status == 500 && body is Err ==> (r@.context matches ContextView::Object(v)
            && "deserialize error content: "@.is_prefix_of(v.source_text)),
{
    proof {
        reveal_strlit("file does not exist");
        reveal_strlit("deserialize error content: ");
    }
    let status = er.status_code();
    let kind = if status == 500 {
        match body {
            Ok(ie) => {
                let not_found = String::from_str(FILE_NOT_EXIST);
                if ie.message == not_found {
                    ErrorKind::NotFound
                } else {
                    ErrorKind::Other
                }
            },
            Err(detail) => {
                let mut cause = String::from_str(DESERIALIZE_PREFIX);
                cause.append(detail.as_str());
                let e = ObjectError::from_message(op, path, cause.as_str());
                return StorageError::new(ErrorKind::Other, ErrorContext::Object(e));
            },
        }
    } else if status == 502 || status == 503 || status == 504 {
        ErrorKind::Interrupted
    } else {
        ErrorKind::Other
    };
    let cause = er.to_string();
    let e = ObjectError::from_message(op, path, cause.as_str());
    StorageError::new(kind, ErrorContext::Object(e))
}

/// The parser is a function of its inputs: on the same operation, path,
/// response and decoded body it gives the same kind and the same message.
pub proof fn lemma_parse_error_deterministic(
    op: Operation,
    path: Seq<char>,
    er: ErrorResponseView,
    body: Result<IpfsError, String>,
    first: ErrorView,
    second: ErrorView,
)
    requires
        first == parse_error_view(op, path, er, body),
        second == parse_error_view(op, path, er, body),
    ensures
        first.kind == second.kind,
        first.message() == second.message(),
{
}

} // verus!
