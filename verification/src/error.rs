//! The error type of the library.

use vstd::prelude::*;
use vstd::string::*;

verus! {

/// What can go wrong while a firewall backend is chosen or used.
#[derive(Debug)]
pub enum NetavarkError {
    /// A plain message.
    Message(String),
    /// A message in front of the error that caused it.
    Chain(String, Box<NetavarkError>),
    /// A failure reported by the message-bus client.
    Dbus(zbus::Error),
}

/// The mathematical value of a [`NetavarkError`]: texts as sequences of
/// characters, the bus client's error as it is.
pub ghost enum ErrorView {
    Message(Seq<char>),
    Chain(Seq<char>, Box<ErrorView>),
    Dbus(zbus::Error),
}

impl View for NetavarkError {
    type V = ErrorView;

    open spec fn view(&self) -> ErrorView {
        self.model()
    }
}

impl NetavarkError {
    /// The value of the error, cause by cause.
    pub open spec fn model(&self) -> ErrorView
        decreases self,
    {
        match self {
            NetavarkError::Message(m) => ErrorView::Message(m@),
            NetavarkError::Chain(m, cause) => ErrorView::Chain(m@, Box::new(cause.model())),
            NetavarkError::Dbus(e) => ErrorView::Dbus(*e),
        }
    }

    /// An error that carries `msg` and nothing else.
    pub fn msg(msg: &str) -> (e: NetavarkError)
        ensures
            e@ == ErrorView::Message(msg@),
    {
        NetavarkError::Message(String::from_str(msg))
    }

    /// Puts `msg` in front of `chained`, which stays reachable as the cause.
    pub fn wrap(msg: &str, chained: NetavarkError) -> (e: NetavarkError)
        ensures
            e@ == ErrorView::Chain(msg@, Box::new(chained@)),
    {
        NetavarkError::Chain(String::from_str(msg), Box::new(chained))
    }
}

impl From<zbus::Error> for NetavarkError {
    /// The error that stands for a failure of the message-bus client.
    fn from(cause: zbus::Error) -> (e: NetavarkError) {
        NetavarkError::Dbus(cause)
    }
}

impl vstd::std_specs::convert::FromSpecImpl<zbus::Error> for NetavarkError {
    open spec fn obeys_from_spec() -> bool {
        true
    }

    open spec fn from_spec(cause: zbus::Error) -> NetavarkError {
        NetavarkError::Dbus(cause)
    }
}

} // verus!
