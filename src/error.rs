//! Context carriers and the error envelope that is handed to callers.
//!
//! A backend never returns its raw failure: the failure becomes the cause of
//! a context carrier, and the carrier the cause of a [`StorageError`] with one of
//! the canonical [`ErrorKind`]s.

use std::collections::HashMap;

use vstd::prelude::*;
use vstd::string::StringExecFns;

use crate::ops::Operation;

verus! {

#[verifier::external_type_specification]
#[verifier::external_body]
pub struct ExAnyhowError(anyhow::Error);

/// Relies on `anyhow::Error::msg`: an error whose cause is the given message.
#[verifier::external_body]
fn error_from_message(message: &str) -> anyhow::Error {
    anyhow::Error::msg(message.to_string())
}

/// Relies on the `Display` impl of `anyhow::Error`: the text of the outermost
/// cause. It depends on the wrapped error, so nothing is stated of it.
#[verifier::external_body]
fn display_error(e: &anyhow::Error) -> String {
    e.to_string()
}

/// Relies on the `Debug` impl of `HashMap`: its entries come in the order
/// in which the map is walked, so nothing is stated of the text.
#[verifier::external_body]
fn debug_context(context: &HashMap<String, String>) -> String {
    format!("{:?}", context)
}

/// The canonical classification that callers branch on.
#[derive(Clone, Copy, Debug, PartialEq, Eq, Structural)]
pub enum ErrorKind {
    /// The target does not exist.
    NotFound,
    /// The backend cannot perform the operation at all.
    Unsupported,
    /// A transient condition: the call may be retried.
    Interrupted,
    /// Anything else.
    Other,
}

/// What an [`ObjectError`] holds: the operation, the path, and the text of
/// its cause.
pub struct ObjectErrorView {
    pub op: Operation,
    pub path: Seq<char>,
    pub source_text: Seq<char>,
}

impl ObjectErrorView {
    pub open spec fn text(self) -> Seq<char> {
        "object error: (op: "@ + self.op.spec_name() + ", path: "@ + self.path + ", source: "@
            + self.source_text + ")"@
    }
}

/// Carries the context of a failed call on one object.
///
/// It is never handed to users by itself, only as the cause of a [`StorageError`].
pub struct ObjectError {
    op: Operation,
    path: String,
    source: anyhow::Error,
    source_text: String,
}

impl View for ObjectError {
    type V = ObjectErrorView;

    closed spec fn view(&self) -> ObjectErrorView {
        ObjectErrorView { op: self.op, path: self.path@, source_text: self.source_text@ }
    }
}

impl ObjectError {
    /// The underlying cause.
    pub closed spec fn spec_source(&self) -> anyhow::Error {
        self.source
    }

    /// Wraps `source`; its text is taken from its `Display` form.
    pub fn new(op: Operation, path: &str, source: anyhow::Error) -> (r: Self)
        ensures
            r@.op == op,
            r@.path == path@,
            r.spec_source() == source,
    {
        let source_text = display_error(&source);
        ObjectError { op, path: path.to_owned(), source, source_text }
    }

    /// Wraps a cause that is a plain message.
    pub fn from_message(op: Operation, path: &str, message: &str) -> (r: Self)
        ensures
            r@ == (ObjectErrorView { op, path: path@, source_text: message@ }),
    {
        ObjectError {
            op,
            path: path.to_owned(),
            source: error_from_message(message),
            source_text: message.to_owned(),
        }
    }

    pub fn op(&self) -> (r: Operation)
        ensures
            r == self@.op,
    {
        self.op
    }

    pub fn path(&self) -> (r: &str)
        ensures
            r@ == self@.path,
    {
        self.path.as_str()
    }

    pub fn source(&self) -> (r: &anyhow::Error)
        ensures
            *r == self.spec_source(),
    {
        &self.source
    }

    /// Gives up the carrier for its operation, path and cause.
    pub fn into_parts(self) -> (r: (Operation, String, anyhow::Error))
        ensures
            r.0 == self@.op,
            r.1@ == self@.path,
            r.2 == self.spec_source(),
    {
        (self.op, self.path, self.source)
    }

    /// `object error: (op: <op>, path: <path>, source: <cause>)`.
    pub fn to_string(&self) -> (r: String)
        ensures
            r@ == self@.text(),
    {
        let mut s = String::from_str("object error: (op: ");
        s.append(self.op.name());
        s.append(", path: ");
        s.append(self.path.as_str());
        s.append(", source: ");
        s.append(self.source_text.as_str());
        s.append(")");
        s
    }
}

/// What a [`BackendError`] holds: its context map, and the texts of the map
/// and of its cause.
pub struct BackendErrorView {
    pub context: Map<String, String>,
    pub context_text: Seq<char>,
    pub source_text: Seq<char>,
}

impl BackendErrorView {
    pub open spec fn text(self) -> Seq<char> {
        "backend error: (context: "@ + self.context_text + ", source: "@ + self.source_text + ")"@
    }
}

/// Carries backend-level context: diagnostic fields and a cause.
///
/// It is never handed to users by itself, only as the cause of a [`StorageError`].
pub struct BackendError {
    context: HashMap<String, String>,
    source: anyhow::Error,
    context_text: String,
    source_text: String,
}

impl View for BackendError {
    type V = BackendErrorView;

    closed spec fn view(&self) -> BackendErrorView {
        BackendErrorView {
            context: self.context@,
            context_text: self.context_text@,
            source_text: self.source_text@,
        }
    }
}

impl BackendError {
    /// The underlying cause.
    pub closed spec fn spec_source(&self) -> anyhow::Error {
        self.source
    }

    /// Wraps `source` with the diagnostic fields in `context`.
    pub fn new(context: HashMap<String, String>, source: anyhow::Error) -> (r: Self)
        ensures
            r@.context == context@,
            r.spec_source() == source,
    {
        let context_text = debug_context(&context);
        let source_text = display_error(&source);
        BackendError { context, source, context_text, source_text }
    }

    pub fn context(&self) -> (r: &HashMap<String, String>)
        ensures
            r@ == self@.context,
    {
        &self.context
    }

    pub fn source(&self) -> (r: &anyhow::Error)
        ensures
            *r == self.spec_source(),
    {
        &self.source
    }

    /// Gives up the carrier for its context map and cause.
    pub fn into_parts(self) -> (r: (HashMap<String, String>, anyhow::Error))
        ensures
            r.0@ == self@.context,
            r.1 == self.spec_source(),
    {
        (self.context, self.source)
    }

    /// `backend error: (context: <fields>, source: <cause>)`.
    pub fn to_string(&self) -> (r: String)
        ensures
            r@ == self@.text(),
    {
        let mut s = String::from_str("backend error: (context: ");
        s.append(self.context_text.as_str());
        s.append(", source: ");
        s.append(self.source_text.as_str());
        s.append(")");
        s
    }
}

/// The context carrier under a [`StorageError`].
pub enum ErrorContext {
    Object(ObjectError),
    Backend(BackendError),
}

/// What an [`ErrorContext`] holds.
pub enum ContextView {
    Object(ObjectErrorView),
    Backend(BackendErrorView),
}

impl ContextView {
    pub open spec fn text(self) -> Seq<char> {
        match self {
            ContextView::Object(v) => v.text(),
            ContextView::Backend(v) => v.text(),
        }
    }
}

impl View for ErrorContext {
    type V = ContextView;

    open spec fn view(&self) -> ContextView {
        match self {
            ErrorContext::Object(e) => ContextView::Object(e@),
            ErrorContext::Backend(e) => ContextView::Backend(e@),
        }
    }
}

impl ErrorContext {
    /// The cause at the end of the chain.
    pub open spec fn spec_source(&self) -> anyhow::Error {
        match self {
            ErrorContext::Object(e) => e.spec_source(),
            ErrorContext::Backend(e) => e.spec_source(),
        }
    }

    pub fn source(&self) -> (r: &anyhow::Error)
        ensures
            *r == self.spec_source(),
    {
        match self {
            ErrorContext::Object(e) => e.source(),
            ErrorContext::Backend(e) => e.source(),
        }
    }

    pub fn to_string(&self) -> (r: String)
        ensures
            r@ == self@.text(),
    {
        match self {
            ErrorContext::Object(e) => e.to_string(),
            ErrorContext::Backend(e) => e.to_string(),
        }
    }
}

/// What a [`StorageError`] holds: its kind and its context carrier.
pub struct ErrorView {
    pub kind: ErrorKind,
    pub context: ContextView,
}

impl ErrorView {
    /// The message shown to users: the text of the context carrier.
    pub open spec fn message(self) -> Seq<char> {
        self.context.text()
    }
}

/// The error handed to callers: a canonical kind, with a context carrier as
/// its cause.
pub struct StorageError {
    kind: ErrorKind,
    context: ErrorContext,
}

impl View for StorageError {
    type V = ErrorView;

    closed spec fn view(&self) -> ErrorView {
        ErrorView { kind: self.kind, context: self.context@ }
    }
}

impl StorageError {
    /// The cause at the end of the chain.
    pub closed spec fn spec_source(&self) -> anyhow::Error {
        self.context.spec_source()
    }

    pub fn new(kind: ErrorKind, context: ErrorContext) -> (r: Self)
        ensures
            r@ == (ErrorView { kind, context: context@ }),
            r.spec_source() == context.spec_source(),
    {
        StorageError { kind, context }
    }

    pub fn kind(&self) -> (r: ErrorKind)
        ensures
            r == self@.kind,
    {
        self.kind
    }

    pub fn context(&self) -> (r: &ErrorContext)
        ensures
            r@ == self@.context,
            r.spec_source() == self.spec_source(),
    {
        &self.context
    }

    pub fn into_context(self) -> (r: ErrorContext)
        ensures
            r@ == self@.context,
            r.spec_source() == self.spec_source(),
    {
        self.context
    }

    /// The cause at the end of the chain.
    pub fn source(&self) -> (r: &anyhow::Error)
        ensures
            *r == self.spec_source(),
    {
        self.context.source()
    }

    /// The message shown to users.
    pub fn to_string(&self) -> (r: String)
        ensures
            r@ == self@.message(),
    {
        self.context.to_string()
    }
}

/// The cause of every [`ErrorKind::Unsupported`] error.
pub const UNSUPPORTED_MESSAGE: &'static str = "operation is not supported by underlying services";

pub open spec fn unsupported_message() -> Seq<char> {
    "operation is not supported by underlying services"@
}

/// An error for an operation that the backend cannot perform. Its kind and
/// its cause are the same whatever the operation and the path.
pub fn new_unsupported_object_error(op: Operation, path: &str) -> (r: StorageError)
    ensures
        r@.kind == ErrorKind::Unsupported,
        r@.context == ContextView::Object(
            ObjectErrorView { op, path: path@, source_text: unsupported_message() },
        ),
{
    let e = ObjectError::from_message(op, path, UNSUPPORTED_MESSAGE);
    proof {
        reveal_strlit("operation is not supported by underlying services");
    }
    StorageError::new(ErrorKind::Unsupported, ErrorContext::Object(e))
}

/// An error of kind [`ErrorKind::Other`] caused by `source` on one object.
pub fn new_other_object_error(op: Operation, path: &str, source: anyhow::Error) -> (r: StorageError)
    ensures
        r@.kind == ErrorKind::Other,
        r@.context matches ContextView::Object(v) && v.op == op && v.path == path@,
        r.spec_source() == source,
{
    StorageError::new(ErrorKind::Other, ErrorContext::Object(ObjectError::new(op, path, source)))
}

/// An error of kind [`ErrorKind::Other`] caused by `source`, with backend-level
/// diagnostic fields.
pub fn new_other_backend_error(context: HashMap<String, String>, source: anyhow::Error) -> (r:
    StorageError)
    ensures
        r@.kind == ErrorKind::Other,
        r@.context matches ContextView::Backend(v) && v.context == context@,
        r.spec_source() == source,
{
    StorageError::new(ErrorKind::Other, ErrorContext::Backend(BackendError::new(context, source)))
}

} // verus!
