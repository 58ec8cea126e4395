//! The one error type of the library.

use vstd::prelude::*;
use vstd::string::*;

verus! {

/// The three ways in which a step of the flow can fail.
#[derive(Debug, Clone, Copy, PartialEq, Eq, Structural)]
pub enum ErrorKind {
    /// A text could not be read: an address, a response body, a scope name, or a
    /// callback that carries no code.
    ParsingFailed,
    /// The request did not reach the provider.
    RequestFailed,
    /// A callback address lacks a parameter that it must carry.
    InvalidCallbackURL,
}

impl ErrorKind {
    /// The kind in words.
    pub open spec fn name(self) -> Seq<char> {
        match self {
            ErrorKind::ParsingFailed => "parsing failed"@,
            ErrorKind::RequestFailed => "request failed"@,
            ErrorKind::InvalidCallbackURL => "invalid callback URL"@,
        }
    }

    /// The kind in words.
    pub fn as_str(&self) -> (name: &'static str)
        ensures
            name@ == self.name(),
    {
        match self {
            ErrorKind::ParsingFailed => "parsing failed",
            ErrorKind::RequestFailed => "request failed",
            ErrorKind::InvalidCallbackURL => "invalid callback URL",
        }
    }
}

/// The error underneath a [`SpotifyError`].
#[derive(Debug)]
pub enum ErrorCause {
    /// The error with which `url` refused an address.
    Url(url::ParseError),
    /// The error with which `serde_json` refused a document.
    Json(serde_json::Error),
    /// The message of an error that arose outside the library, such as a failed
    /// transport.
    Other(String),
}

/// An [`ErrorCause`] without the value of the outside error.
pub enum CauseView {
    Url,
    Json,
    Other(Seq<char>),
}

impl View for ErrorCause {
    type V = CauseView;

    open spec fn view(&self) -> CauseView {
        match *self {
            ErrorCause::Url(_) => CauseView::Url,
            ErrorCause::Json(_) => CauseView::Json,
            ErrorCause::Other(message) => CauseView::Other(message@),
        }
    }
}

/// A failure: its kind, a sentence for people, and the error that led to it.
#[derive(Debug)]
pub struct SpotifyError {
    kind: ErrorKind,
    context: Option<String>,
    cause: Option<ErrorCause>,
}

/// What a [`SpotifyError`] holds, as mathematical values.
pub struct ErrorView {
    pub kind: ErrorKind,
    pub context: Option<Seq<char>>,
    pub cause: Option<CauseView>,
}

impl ErrorView {
    /// An error of the given kind with a context and no cause.
    pub open spec fn plain(kind: ErrorKind, context: Seq<char>) -> ErrorView {
        ErrorView { kind, context: Some(context), cause: None }
    }

    /// An error of the given kind with a context and a cause.
    pub open spec fn caused(kind: ErrorKind, context: Seq<char>, cause: CauseView) -> ErrorView {
        ErrorView { kind, context: Some(context), cause: Some(cause) }
    }

    /// The error in one line: the kind in words and, behind a colon, the context
    /// where there is one.
    pub open spec fn message(self) -> Seq<char> {
        match self.context {
            Some(context) => self.kind.name() + ": "@ + context,
            None => self.kind.name(),
        }
    }
}

impl View for SpotifyError {
    type V = ErrorView;

    closed spec fn view(&self) -> ErrorView {
        ErrorView {
            kind: self.kind,
            context: match self.context {
                Some(text) => Some(text@),
                None => None,
            },
            cause: match self.cause {
                Some(cause) => Some(cause@),
                None => None,
            },
        }
    }
}

/// Whether `got` is the outcome that `named` describes: the value with that view,
/// or the error with that view.
pub open spec fn outcome_is<T: View>(
    got: Result<T, SpotifyError>,
    named: Result<T::V, ErrorView>,
) -> bool {
    match got {
        Ok(value) => named == Ok::<T::V, ErrorView>(value@),
        Err(error) => named == Err::<T::V, ErrorView>(error@),
    }
}

impl SpotifyError {
    /// An error of the given kind, with neither context nor cause.
    pub fn new(kind: ErrorKind) -> (error: Self)
        ensures
            error@ == (ErrorView { kind, context: None, cause: None }),
    {
        SpotifyError { kind, context: None, cause: None }
    }

    /// An error of the given kind with a context and no cause.
    pub fn plain(kind: ErrorKind, context: &str) -> (error: Self)
        ensures
            error@ == ErrorView::plain(kind, context@),
    {
        SpotifyError { kind, context: Some(context.to_owned()), cause: None }
    }

    /// An error of the given kind with a context and a cause.
    pub fn caused(kind: ErrorKind, context: &str, cause: ErrorCause) -> (error: Self)
        ensures
            error@ == ErrorView::caused(kind, context@, cause@),
    {
        SpotifyError { kind, context: Some(context.to_owned()), cause: Some(cause) }
    }

    /// The same error with `context` as its sentence for people.
    pub fn set_context(self, context: &str) -> (error: Self)
        ensures
            error@ == (ErrorView { context: Some(context@), ..self@ }),
    {
        SpotifyError { kind: self.kind, context: Some(context.to_owned()), cause: self.cause }
    }

    /// The same error with `cause` as the error that led to it.
    pub fn set_cause(self, cause: ErrorCause) -> (error: Self)
        ensures
            error@ == (ErrorView { cause: Some(cause@), ..self@ }),
    {
        SpotifyError { kind: self.kind, context: self.context, cause: Some(cause) }
    }

    /// The kind of failure.
    pub fn kind(&self) -> (kind: ErrorKind)
        ensures
            kind == self@.kind,
    {
        self.kind
    }

    /// The sentence for people, where one was set.
    pub fn context(&self) -> (context: Option<&str>)
        ensures
            match context {
                Some(text) => self@.context == Some(text@),
                None => self@.context is None,
            },
    {
        match &self.context {
            Some(text) => Some(text.as_str()),
            None => None,
        }
    }

    /// The error in one line, for people.
    pub fn to_string(&self) -> (text: String)
        ensures
            text@ == self@.message(),
    {
        let mut text = self.kind.as_str().to_owned();
        match &self.context {
            Some(context) => {
                text.append(": ");
                text.append(context.as_str());
            },
            None => {},
        }
        text
    }

    /// The error that led to this one, where one was set.
    pub fn cause(&self) -> (cause: Option<&ErrorCause>)
        ensures
            match cause {
                Some(inner) => self@.cause == Some(inner@),
                None => self@.cause is None,
            },
    {
        match &self.cause {
            Some(inner) => Some(inner),
            None => None,
        }
    }
}

} // verus!
