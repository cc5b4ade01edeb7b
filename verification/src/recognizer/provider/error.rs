use vstd::prelude::*;
use vstd::string::StringExecFns;

use crate::song::{copy_opt_string, opt_string_eq, opt_view};

verus! {

/// The kinds of failure a recognition can end in.
#[derive(Debug, Clone, Copy, PartialEq, Eq, Structural)]
pub enum RecognizeErrorKind {
    NoMatches,
    Fingerprint,
    InvalidToken,
    TokenLimitReached,
    Connection,
    OtherPermanent,
}

/// Whether a failure of this kind is permanent, that is unlikely to be
/// resolved by retrying.
pub open spec fn kind_is_permanent(kind: RecognizeErrorKind) -> bool {
    match kind {
        RecognizeErrorKind::NoMatches
        | RecognizeErrorKind::Fingerprint
        | RecognizeErrorKind::OtherPermanent => true,
        RecognizeErrorKind::Connection
        | RecognizeErrorKind::TokenLimitReached
        | RecognizeErrorKind::InvalidToken => false,
    }
}

/// A failed recognition: its kind and an optional detail message.
#[derive(Debug, Clone, PartialEq, Eq)]
pub struct RecognizeError {
    kind: RecognizeErrorKind,
    message: Option<String>,
}

impl View for RecognizeError {
    type V = (RecognizeErrorKind, Option<Seq<char>>);

    closed spec fn view(&self) -> (RecognizeErrorKind, Option<Seq<char>>) {
        (self.kind, opt_view(self.message))
    }
}

/// The untranslated title shown for an error of this kind.
pub fn title_msgid(kind: RecognizeErrorKind) -> (r: &'static str)
    ensures
        r@ == spec_title_msgid(kind),
{
    match kind {
        RecognizeErrorKind::NoMatches => "No Matches Found",
        RecognizeErrorKind::Fingerprint => "Cannot Create Fingerprint From Audio",
        RecognizeErrorKind::InvalidToken => "Invalid Token Given",
        RecognizeErrorKind::TokenLimitReached => "Token Limit Reached",
        RecognizeErrorKind::Connection => "Cannot Connect to the Server",
        RecognizeErrorKind::OtherPermanent => "Received Other Permanent Error",
    }
}

/// The untranslated title of each kind of error.
pub open spec fn spec_title_msgid(kind: RecognizeErrorKind) -> Seq<char> {
    match kind {
        RecognizeErrorKind::NoMatches => "No Matches Found"@,
        RecognizeErrorKind::Fingerprint => "Cannot Create Fingerprint From Audio"@,
        RecognizeErrorKind::InvalidToken => "Invalid Token Given"@,
        RecognizeErrorKind::TokenLimitReached => "Token Limit Reached"@,
        RecognizeErrorKind::Connection => "Cannot Connect to the Server"@,
        RecognizeErrorKind::OtherPermanent => "Received Other Permanent Error"@,
    }
}

/// How an error is shown: its title, followed by its message if it has one.
pub open spec fn display_text(title: Seq<char>, message: Option<Seq<char>>) -> Seq<char> {
    match message {
        Some(m) => title + ": "@ + m,
        None => title,
    }
}

impl RecognizeError {
    pub fn new(kind: RecognizeErrorKind, message: Option<String>) -> (r: Self)
        ensures
            r@ == (kind, opt_view(message)),
    {
        Self { kind, message }
    }

    /// An error of `kind` with the detail `message`.
    pub fn with_message(kind: RecognizeErrorKind, message: &str) -> (r: Self)
        ensures
            r@ == (kind, Some(message@)),
    {
        Self { kind, message: Some(String::from_str(message)) }
    }

    pub fn kind(&self) -> (r: RecognizeErrorKind)
        ensures
            r == self@.0,
    {
        self.kind
    }

    /// The title of this error's kind, untranslated: the message id that
    /// the application looks up in its catalog.
    pub fn title(&self) -> (r: &'static str)
        ensures
            r@ == spec_title_msgid(self@.0),
    {
        title_msgid(self.kind)
    }

    pub fn message(&self) -> (r: Option<&str>)
        ensures
            match r {
                Some(m) => self@.1 == Some(m@),
                None => self@.1 is None,
            },
    {
        match &self.message {
            Some(m) => Some(m.as_str()),
            None => None,
        }
    }

    /// The error for a request that could not be sent or answered: a
    /// connection failure when the server's name could not be resolved,
    /// any other failure being permanent.
    pub fn from_send_failure(is_resolver_failure: bool, message: String) -> (r: Self)
        ensures
            r@ == (if is_resolver_failure {
                RecognizeErrorKind::Connection
            } else {
                RecognizeErrorKind::OtherPermanent
            }, Some(message@)),
    {
        if is_resolver_failure {
            Self::new(RecognizeErrorKind::Connection, Some(message))
        } else {
            Self::new(RecognizeErrorKind::OtherPermanent, Some(message))
        }
    }

    /// A copy of this error.
    pub fn duplicate(&self) -> (r: Self)
        ensures
            r@ == self@,
    {
        Self { kind: self.kind, message: copy_opt_string(&self.message) }
    }

    /// Whether the two errors have the same kind and message.
    pub fn same_as(&self, other: &Self) -> (r: bool)
        ensures
            r == (self@ == other@),
    {
        self.kind == other.kind && opt_string_eq(&self.message, &other.message)
    }

    /// Whether the failure is permanent (i.e. "no matches found for
    /// this recording", in contrast to "internet connection error" or
    /// "expired token error")
    ///
    /// Permanent failures are not retried because they are unlikely to
    /// be resolved by retrying.
    pub fn is_permanent(&self) -> (r: bool)
        ensures
            r == kind_is_permanent(self@.0),
    {
        match self.kind {
            RecognizeErrorKind::NoMatches
            | RecognizeErrorKind::Fingerprint
            | RecognizeErrorKind::OtherPermanent => true,
            RecognizeErrorKind::Connection
            | RecognizeErrorKind::TokenLimitReached
            | RecognizeErrorKind::InvalidToken => false,
        }
    }

    /// This error shown under the given title.
    pub fn display_with_title(&self, title: &str) -> (r: String)
        ensures
            r@ == display_text(title@, self@.1),
    {
        let mut out = String::from_str(title);
        match &self.message {
            Some(m) => {
                out.append(": ");
                out.append(m.as_str());
            },
            None => {},
        }
        out
    }

    /// This error shown under its untranslated title.
    pub fn to_display_string(&self) -> (r: String)
        ensures
            r@ == display_text(spec_title_msgid(self@.0), self@.1),
    {
        self.display_with_title(self.title())
    }
}

} // verus!
