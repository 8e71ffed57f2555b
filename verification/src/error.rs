//! Errors: a message paired with a kind.

use crate::text::{debug_text, indent_text, indented, trim_text, trimmed};
use std::fmt::Debug;
use vstd::prelude::*;
use vstd::string::StringExecFns;

verus! {

/// Marker for error values of this library.
pub trait GeneralError {

}

/// Marker for the kind carried by an [`Error`].
pub trait GeneralErrorKind: Copy + Debug {

}

/// The report of an error whose message has been trimmed: the label of its
/// kind in brackets, then the message with each of its lines set in by a tab.
pub open spec fn report_of_trimmed(label: Seq<char>, message: Seq<char>) -> Seq<char> {
    "Error ("@ + label + "):\n\t"@ + indented(message)
}

/// The report of an error: that of its message without the white space
/// around it.
pub open spec fn report(label: Seq<char>, message: Seq<char>) -> Seq<char> {
    report_of_trimmed(label, trimmed(message))
}

/// Writes the report of a message that has been trimmed.
pub fn compose_report(label: &str, message: &str) -> (text: String)
    ensures
        text@ == report_of_trimmed(label@, message@),
{
    let mut text = String::from_str("Error (");
    text.append(label);
    text.append("):\n\t");
    let body = indent_text(message);
    text.append(body.as_str());
    text
}

/// Writes the report of a message: trims it, then composes the report.
pub fn report_text(label: &str, message: &str) -> (text: String)
    ensures
        text@ == report(label@, message@),
{
    compose_report(label, trim_text(message))
}

/// A message together with the kind of failure it reports.
#[derive(Clone, Debug)]
pub struct Error<K: GeneralErrorKind> {
    msg: String,
    kind: K,
}

impl<K: GeneralErrorKind> Error<K> {
    /// The message as a sequence of characters.
    pub closed spec fn message(&self) -> Seq<char> {
        self.msg@
    }

    /// The kind this error was made with.
    pub closed spec fn kind_of(&self) -> K {
        self.kind
    }

    /// An error with this message and this kind.
    pub fn new(msg: String, kind: K) -> (error: Self)
        ensures
            error.message() == msg@,
            error.kind_of() == kind,
    {
        Self { msg, kind }
    }

    /// The message.
    pub fn msg(&self) -> (text: &str)
        ensures
            text@ == self.message(),
    {
        self.msg.as_str()
    }

    /// The kind.
    pub fn kind(&self) -> (kind: K)
        ensures
            kind == self.kind_of(),
    {
        self.kind
    }

    /// The error as text: the report of its message under the label that the
    /// kind gives itself.
    pub fn to_text(&self) -> (text: String)
        ensures
            exists|label: Seq<char>| text@ == #[trigger] report(label, self.message()),
    {
        let label = debug_text(&self.kind);
        let text = report_text(label.as_str(), self.msg.as_str());
        assert(text@ == report(label@, self.message()));
        text
    }
}

impl<K: GeneralErrorKind> GeneralError for Error<K> {

}

/// Coarse kinds of failure, for callers that need no more detail.
#[derive(Debug, Clone, Copy, PartialEq, Eq, Structural)]
pub enum ErrorKind {
    Broker,
    Bank,
    Trading,
    LibLoading,
    IO,
    MisMatchedVersion,
    ModuleOpenFailed,
    ModuleFault,
    InvalidModuleConfig,
    DuplicateAlgorithm,
    Other,
}

impl GeneralErrorKind for ErrorKind {

}

/// Kinds of failure an algorithm reports while trading.
#[derive(Debug, Clone, Copy, PartialEq, Eq, Structural)]
pub enum TradingErrorKind {
    Other,
}

impl GeneralErrorKind for TradingErrorKind {

}

} // verus!
