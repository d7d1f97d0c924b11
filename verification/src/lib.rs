//! Peer-to-peer file transfer and device discovery for devices on one network
//! segment: chunking and reassembly, the framed transfer protocol, the device
//! registry and the lifecycle rules of a running service.

use vstd::prelude::*;

pub mod crypto;
pub mod file;
pub mod p2p;
pub mod projection;
pub mod receive_loop;
pub mod session;
pub mod session_laws;
pub mod text;

verus! {

/// What went wrong, with a message for the person at the screen.
#[derive(Debug, Clone, PartialEq, Eq)]
pub enum Error {
    Network(String),
    Crypto(String),
    File(String),
    Protocol(String),
    NotFound(String),
}

/// The mathematical value of an [`Error`]: its class and its message.
pub enum ErrorView {
    Network(Seq<char>),
    Crypto(Seq<char>),
    File(Seq<char>),
    Protocol(Seq<char>),
    NotFound(Seq<char>),
}

impl View for Error {
    type V = ErrorView;

    open spec fn view(&self) -> ErrorView {
        match self {
            Error::Network(m) => ErrorView::Network(m@),
            Error::Crypto(m) => ErrorView::Crypto(m@),
            Error::File(m) => ErrorView::File(m@),
            Error::Protocol(m) => ErrorView::Protocol(m@),
            Error::NotFound(m) => ErrorView::NotFound(m@),
        }
    }
}

impl ErrorView {
    /// The message without its class.
    pub open spec fn message(self) -> Seq<char> {
        match self {
            ErrorView::Network(m) => m,
            ErrorView::Crypto(m) => m,
            ErrorView::File(m) => m,
            ErrorView::Protocol(m) => m,
            ErrorView::NotFound(m) => m,
        }
    }

    /// The words that name the class in front of the message.
    pub open spec fn heading(self) -> Seq<char> {
        match self {
            ErrorView::Network(_) => "Network error: "@,
            ErrorView::Crypto(_) => "Crypto error: "@,
            ErrorView::File(_) => "File error: "@,
            ErrorView::Protocol(_) => "Protocol error: "@,
            ErrorView::NotFound(_) => "Not found: "@,
        }
    }

    /// The full line shown to a person: heading, then message.
    pub open spec fn display(self) -> Seq<char> {
        self.heading() + self.message()
    }
}

impl Error {
    /// The message without its class.
    pub fn message(&self) -> (m: &String)
        ensures
            m@ == self@.message(),
    {
        match self {
            Error::Network(m) => m,
            Error::Crypto(m) => m,
            Error::File(m) => m,
            Error::Protocol(m) => m,
            Error::NotFound(m) => m,
        }
    }

    /// The full line shown to a person, such as `File error: Invalid file path`.
    pub fn to_string(&self) -> (s: String)
        ensures
            s@ == self@.display(),
    {
        let heading = match self {
            Error::Network(_) => "Network error: ",
            Error::Crypto(_) => "Crypto error: ",
            Error::File(_) => "File error: ",
            Error::Protocol(_) => "Protocol error: ",
            Error::NotFound(_) => "Not found: ",
        };
        text::join2(heading, self.message().as_str())
    }
}

/// Prepares the library for use by a device of the given kind. Nothing needs
/// preparing, so this always succeeds.
pub fn init(device_type: &str) -> (r: Result<(), Error>)
    ensures
        r is Ok,
{
    Ok(())
}

} // verus!
