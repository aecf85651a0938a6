use vstd::prelude::*;

verus! {

/// Why a fetch did not save the picture.
#[derive(Debug, Clone, PartialEq, Eq)]
pub enum Error {
    /// The server answered with a status other than 200.
    GopherNotFound(String),
    /// The request itself failed (connection, DNS, TLS, malformed reply).
    Response(String),
    /// The picture could not be written to disk.
    IO(String),
}

/// The mathematical view of an [`Error`]: its kind and its text.
pub enum Failure {
    GopherNotFound(Seq<char>),
    Response(Seq<char>),
    IO(Seq<char>),
}

impl Failure {
    /// The text that the failure carries, whatever its kind.
    pub open spec fn text(self) -> Seq<char> {
        match self {
            Failure::GopherNotFound(t) => t,
            Failure::Response(t) => t,
            Failure::IO(t) => t,
        }
    }
}

impl View for Error {
    type V = Failure;

    open spec fn view(&self) -> Failure {
        match self {
            Error::GopherNotFound(t) => Failure::GopherNotFound(t@),
            Error::Response(t) => Failure::Response(t@),
            Error::IO(t) => Failure::IO(t@),
        }
    }
}

impl Error {
    /// The human-readable text of the error.
    pub fn message(&self) -> (r: String)
        ensures
            r@ == self@.text(),
    {
        match self {
            Error::GopherNotFound(t) => t.clone(),
            Error::Response(t) => t.clone(),
            Error::IO(t) => t.clone(),
        }
    }
}

} // verus!
