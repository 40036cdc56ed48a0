//! The errors of a backend, and the place where a caller that cannot take a
//! `Result` finds the last of them.

use vstd::prelude::*;
use vstd::string::StringExecFns;

verus! {

/// The operation that a backend could not carry out.
#[derive(Clone, Copy, Debug, PartialEq, Eq, Structural)]
pub enum ErrorKind {
    /// The battery subsystem is missing, unsupported or not accessible.
    Initialization,
    /// A device could not be listed or read while stepping through them.
    Enumeration,
    /// A device that was read before can no longer be read.
    Refresh,
}

/// A failure reported by a backend. The handles pass it on as it is.
#[derive(Debug, PartialEq, Eq)]
pub struct Error {
    pub kind: ErrorKind,
    pub description: String,
}

impl Clone for Error {
    fn clone(&self) -> (r: Error)
        ensures
            r == *self,
    {
        Error { kind: self.kind, description: self.description.clone() }
    }
}

impl ErrorKind {
    /// The words that stand for the kind in a message.
    pub open spec fn label(self) -> Seq<char> {
        match self {
            ErrorKind::Initialization => "battery subsystem is not available"@,
            ErrorKind::Enumeration => "battery could not be read"@,
            ErrorKind::Refresh => "battery can no longer be read"@,
        }
    }

    /// The words that stand for the kind in a message.
    pub fn as_str(&self) -> (r: &'static str)
        ensures
            r@ == self.label(),
    {
        match self {
            ErrorKind::Initialization => "battery subsystem is not available",
            ErrorKind::Enumeration => "battery could not be read",
            ErrorKind::Refresh => "battery can no longer be read",
        }
    }
}

impl Error {
    /// An error of the given kind with the backend's own words.
    pub fn new(kind: ErrorKind, description: &str) -> (r: Error)
        ensures
            r.kind == kind,
            r.description@ == description@,
    {
        Error { kind, description: String::from_str(description) }
    }

    /// The message as a reader sees it: the kind's label, a colon and a
    /// blank, then the backend's own words.
    pub open spec fn rendered(self) -> Seq<char> {
        self.kind.label() + ": "@ + self.description@
    }

    /// The message as a reader sees it.
    pub fn message(&self) -> (r: String)
        ensures
            r@ == self.rendered(),
            r@.len() > 0,
    {
        proof {
            lemma_rendered_is_not_empty(*self);
        }
        String::from_str(self.kind.as_str()).concat(": ").concat(self.description.as_str())
    }
}

/// No error renders to an empty message.
pub proof fn lemma_rendered_is_not_empty(error: Error)
    ensures
        error.rendered().len() > 0,
{
    reveal_strlit(": ");
}

/// The message of the last failure that one caller met. A call that fails
/// writes over it; a call that succeeds leaves it as it is.
pub struct LastError {
    message: Option<String>,
}

impl View for LastError {
    type V = Option<Seq<char>>;

    closed spec fn view(&self) -> Option<Seq<char>> {
        match self.message {
            Some(m) => Some(m@),
            None => None,
        }
    }
}

impl LastError {
    /// The text that a reader of the slot gets: the message held, or
    /// nothing.
    pub open spec fn text(self) -> Seq<char> {
        match self@ {
            Some(m) => m,
            None => Seq::empty(),
        }
    }

    /// A slot that holds no message.
    pub fn new() -> (r: LastError)
        ensures
            r@ is None,
    {
        LastError { message: None }
    }

    /// Puts the message of `error` in the slot, over what it held.
    pub fn record(&mut self, error: &Error)
        ensures
            final(self)@ == Some(error.rendered()),
    {
        self.message = Some(error.message());
    }

    /// The message held, or an empty string. Reading leaves the slot as it
    /// is.
    pub fn message(&self) -> (r: String)
        ensures
            r@ == self.text(),
    {
        match &self.message {
            Some(m) => m.clone(),
            None => String::new(),
        }
    }

    /// Turns a result into what can cross to a caller that knows no
    /// `Result`: the value, or nothing with the error's message left in
    /// the slot.
    pub fn capture<T>(&mut self, result: Result<T, Error>) -> (r: Option<T>)
        ensures
            match result {
                Ok(value) => r == Some(value) && final(self)@ == old(self)@,
                Err(error) => r is None && final(self)@ == Some(error.rendered())
                    && final(self).text().len() > 0,
            },
    {
        match result {
            Ok(value) => Some(value),
            Err(error) => {
                proof {
                    lemma_rendered_is_not_empty(error);
                }
                self.record(&error);
                None
            },
        }
    }
}

} // verus!
