//! Error handling.
use vstd::prelude::*;
use vstd::string::*;

use crate::outside::{canceled_text, io_error_text, send_error_text};
use futures::sync::mpsc::SendError;
use futures::sync::oneshot::Canceled;

verus! {

/// The kinds of error that the library reports.
#[derive(Clone, Copy, Debug, PartialEq, Eq, Structural)]
pub enum WomboErrorKind {
    /// An error sending a message over an mpsc sender.
    SendError,
    /// A oneshot channel whose sender went away.
    Canceled,
    /// An error indicating the Wombo instance is not initialized.
    NotInitialized,
    /// An unknown error.
    Unknown,
}

/// The label that `WomboErrorKind::to_string` gives a kind.
pub open spec fn kind_label(kind: WomboErrorKind) -> Seq<char> {
    match kind {
        WomboErrorKind::Canceled => "Canceled"@,
        WomboErrorKind::Unknown => "Unknown"@,
        WomboErrorKind::SendError => "Send Error"@,
        WomboErrorKind::NotInitialized => "Not Initialized"@,
    }
}

impl WomboErrorKind {
    /// The human readable label of this kind.
    pub fn to_string(&self) -> (label: &'static str)
        ensures
            label@ == kind_label(*self),
    {
        match *self {
            WomboErrorKind::Canceled => "Canceled",
            WomboErrorKind::Unknown => "Unknown",
            WomboErrorKind::SendError => "Send Error",
            WomboErrorKind::NotInitialized => "Not Initialized",
        }
    }
}

/// What an error is, as a mathematical value: its kind and the characters of its details.
pub struct ErrorView {
    pub kind: WomboErrorKind,
    pub details: Seq<char>,
}

/// An error of the library: a kind and a free-form description.
#[derive(Debug)]
pub struct WomboError {
    kind: WomboErrorKind,
    details: String,
}

impl View for WomboError {
    type V = ErrorView;

    closed spec fn view(&self) -> ErrorView {
        ErrorView { kind: self.kind, details: self.details@ }
    }
}

/// The text that `WomboError::to_string` gives an error: its kind's label, a colon, a space
/// and its details.
pub open spec fn error_text(e: ErrorView) -> Seq<char> {
    kind_label(e.kind) + ": "@ + e.details
}

impl WomboError {
    /// An error of the given kind with the given details.
    pub fn new(kind: WomboErrorKind, details: &str) -> (e: WomboError)
        ensures
            e@ == (ErrorView { kind, details: details@ }),
    {
        WomboError { kind, details: String::from_str(details) }
    }

    /// The error as text, `"<kind>: <details>"`.
    pub fn to_string(&self) -> (text: String)
        ensures
            text@ == error_text(self@),
    {
        let mut text = String::from_str(self.kind.to_string());
        text.append(": ");
        text.append(self.details.as_str());
        text
    }

    /// A `Canceled` error with empty details.
    pub fn new_canceled() -> (e: WomboError)
        ensures
            e@ == (ErrorView { kind: WomboErrorKind::Canceled, details: Seq::empty() }),
    {
        WomboError { kind: WomboErrorKind::Canceled, details: String::new() }
    }

    /// A `NotInitialized` error with empty details.
    pub fn new_not_initialized() -> (e: WomboError)
        ensures
            e@ == (ErrorView { kind: WomboErrorKind::NotInitialized, details: Seq::empty() }),
    {
        WomboError { kind: WomboErrorKind::NotInitialized, details: String::new() }
    }

    /// The kind of this error.
    pub fn kind(&self) -> (kind: &WomboErrorKind)
        ensures
            *kind == self@.kind,
    {
        &self.kind
    }
}

impl Clone for WomboError {
    fn clone(&self) -> (copy: Self)
        ensures
            copy@ == self@,
    {
        WomboError { kind: self.kind, details: self.details.clone() }
    }
}

impl PartialEq for WomboError {
    fn eq(&self, other: &Self) -> (same: bool)
        ensures
            same == (self@ == other@),
    {
        self.kind == other.kind && self.details == other.details
    }
}

impl vstd::std_specs::cmp::PartialEqSpecImpl for WomboError {
    open spec fn obeys_eq_spec() -> bool {
        true
    }

    open spec fn eq_spec(&self, other: &Self) -> bool {
        self@ == other@
    }
}

impl Eq for WomboError {
}

/// The error that an empty error `()` becomes.
pub open spec fn empty_error() -> ErrorView {
    ErrorView { kind: WomboErrorKind::Unknown, details: "Empty error."@ }
}

impl From<()> for WomboError {
    fn from(_empty: ()) -> (e: Self)
        ensures
            e@ == empty_error(),
    {
        WomboError::new(WomboErrorKind::Unknown, "Empty error.")
    }
}

// The `FromSpecImpl` impls below make no claim through `from_spec` (`obeys_from_spec` is
// false): an error holds a `String`, which no spec expression builds, so what each conversion
// gives is stated by the `ensures` of its `from` instead.
impl vstd::std_specs::convert::FromSpecImpl<()> for WomboError {
    open spec fn obeys_from_spec() -> bool {
        false
    }

    open spec fn from_spec(v: ()) -> Self {
        arbitrary()
    }
}

impl From<Canceled> for WomboError {
    /// A `Canceled` error whose details are the text of futures' `Canceled`.
    fn from(canceled: Canceled) -> (e: Self)
        ensures
            e@ == (ErrorView { kind: WomboErrorKind::Canceled, details: "oneshot canceled"@ }),
    {
        let text = canceled_text(&canceled);
        WomboError { kind: WomboErrorKind::Canceled, details: text }
    }
}

impl vstd::std_specs::convert::FromSpecImpl<Canceled> for WomboError {
    open spec fn obeys_from_spec() -> bool {
        false
    }

    open spec fn from_spec(v: Canceled) -> Self {
        arbitrary()
    }
}

impl<T: Into<WomboError>> From<SendError<T>> for WomboError {
    /// A `SendError` error whose details are the text of futures' `SendError`.
    fn from(error: SendError<T>) -> (e: Self)
        ensures
            e@ == (ErrorView {
                kind: WomboErrorKind::SendError,
                details: "send failed because receiver is gone"@,
            }),
    {
        let text = send_error_text(&error);
        WomboError { kind: WomboErrorKind::SendError, details: text }
    }
}

impl<T: Into<WomboError>> vstd::std_specs::convert::FromSpecImpl<SendError<T>> for WomboError {
    open spec fn obeys_from_spec() -> bool {
        false
    }

    open spec fn from_spec(v: SendError<T>) -> Self {
        arbitrary()
    }
}

impl From<std::io::Error> for WomboError {
    /// An `Unknown` error whose details are the text of the I/O error.
    fn from(error: std::io::Error) -> (e: Self)
        ensures
            e@.kind == WomboErrorKind::Unknown,
    {
        let text = io_error_text(&error);
        WomboError::new(WomboErrorKind::Unknown, text.as_str())
    }
}

impl vstd::std_specs::convert::FromSpecImpl<std::io::Error> for WomboError {
    open spec fn obeys_from_spec() -> bool {
        false
    }

    open spec fn from_spec(v: std::io::Error) -> Self {
        arbitrary()
    }
}

} // verus!
