//! Why a resource is refused.
use vstd::prelude::*;
use crate::text::{concat2, owned};

verus! {

/// A resource the operator refuses to reconcile, and why.
#[derive(Debug)]
pub enum Error {
    IllegalSingle,
    /// `networking.ingress` and `networking.httpRoute` are mutually exclusive.
    ConflictingNetworking,
    IllegalDatabase(String),
    IllegalCluster(String),
    IllegalEnv(String),
    IllegalSmtp(String),
    IllegalStrategy(String),
}

/// An `Error` with its message taken as a character sequence.
pub enum ErrorView {
    IllegalSingle,
    ConflictingNetworking,
    IllegalDatabase(Seq<char>),
    IllegalCluster(Seq<char>),
    IllegalEnv(Seq<char>),
    IllegalSmtp(Seq<char>),
    IllegalStrategy(Seq<char>),
}

impl View for Error {
    type V = ErrorView;

    open spec fn view(&self) -> ErrorView {
        match self {
            Error::IllegalSingle => ErrorView::IllegalSingle,
            Error::ConflictingNetworking => ErrorView::ConflictingNetworking,
            Error::IllegalDatabase(m) => ErrorView::IllegalDatabase(m@),
            Error::IllegalCluster(m) => ErrorView::IllegalCluster(m@),
            Error::IllegalEnv(m) => ErrorView::IllegalEnv(m@),
            Error::IllegalSmtp(m) => ErrorView::IllegalSmtp(m@),
            Error::IllegalStrategy(m) => ErrorView::IllegalStrategy(m@),
        }
    }
}

/// The outcome of a check, with the error taken by its view.
pub open spec fn outcome(r: Result<(), Error>) -> Result<(), ErrorView> {
    match r {
        Ok(()) => Ok(()),
        Err(e) => Err(e@),
    }
}

/// The first failure of two checks run in turn.
pub open spec fn and_then(a: Result<(), ErrorView>, b: Result<(), ErrorView>) -> Result<(), ErrorView> {
    match a {
        Ok(()) => b,
        Err(e) => Err(e),
    }
}

/// How an error reads: its variant's name, then its message.
pub open spec fn error_message(e: ErrorView) -> Seq<char> {
    match e {
        ErrorView::IllegalSingle => "IllegalSingle"@,
        ErrorView::ConflictingNetworking => "ConflictingNetworking: spec.networking.ingress and spec.networking.httpRoute are mutually exclusive"@,
        ErrorView::IllegalDatabase(m) => "IllegalDatabase: "@ + m,
        ErrorView::IllegalCluster(m) => "IllegalCluster: "@ + m,
        ErrorView::IllegalEnv(m) => "IllegalEnv: "@ + m,
        ErrorView::IllegalSmtp(m) => "IllegalSmtp: "@ + m,
        ErrorView::IllegalStrategy(m) => "IllegalStrategy: "@ + m,
    }
}

impl Error {
    /// The text of the error.
    pub fn message(&self) -> (r: String)
        ensures
            r@ == error_message(self@),
    {
        match self {
            Error::IllegalSingle => owned("IllegalSingle"),
            Error::ConflictingNetworking => owned(
                "ConflictingNetworking: spec.networking.ingress and spec.networking.httpRoute are mutually exclusive",
            ),
            Error::IllegalDatabase(m) => concat2("IllegalDatabase: ", m.as_str()),
            Error::IllegalCluster(m) => concat2("IllegalCluster: ", m.as_str()),
            Error::IllegalEnv(m) => concat2("IllegalEnv: ", m.as_str()),
            Error::IllegalSmtp(m) => concat2("IllegalSmtp: ", m.as_str()),
            Error::IllegalStrategy(m) => concat2("IllegalStrategy: ", m.as_str()),
        }
    }
}

} // verus!
