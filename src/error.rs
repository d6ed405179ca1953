//! The error taxonomy of the library, and how an error is shown as one line.
use vstd::prelude::*;

verus! {

/// The class of a failure.
#[derive(Clone, Copy, Debug, PartialEq, Eq, Structural)]
pub enum ErrorKind {
    /// A document did not have the expected shape, or could not be written.
    Serialisation,
    /// The scheduling collaborator failed; its message is kept verbatim.
    Scheduling,
    /// A store operation failed.
    Database,
    /// The configuration failed to initialise, or was never initialised.
    Configuration,
    /// A domain rule of the store refused the operation.
    Invariant,
}

/// A failure of an operation of the library: its class, the operation that was
/// attempted (for Database, Serialisation and Invariant errors; empty for the
/// others), and the underlying cause as text, so that the whole chain can be
/// shown to a user.
#[derive(Clone, Debug, PartialEq, Eq)]
pub struct Error {
    pub kind: ErrorKind,
    pub context: String,
    pub cause: String,
}

/// The first part of the rendered message of `e`.
pub open spec fn primary_text(e: Error) -> Seq<char> {
    match e.kind {
        ErrorKind::Serialisation => "A document could not be read or written "@ + e.context@,
        ErrorKind::Scheduling => "Scheduling failed"@,
        ErrorKind::Database => "A database error occurred "@ + e.context@,
        ErrorKind::Configuration => "The configuration is unavailable"@,
        ErrorKind::Invariant => "The operation was refused "@ + e.context@,
    }
}

/// The cause that `e` carries.
pub open spec fn cause_text(e: Error) -> Seq<char> {
    e.cause@
}

/// Whether a sentence already ends with its own punctuation.
pub open spec fn ends_sentence(s: Seq<char>) -> bool {
    s.len() > 0 && (s.last() == '.' || s.last() == '?' || s.last() == '!')
}

/// The one-line form of an error: `primary. (cause.)`, or `primary.` when the
/// cause is empty. No second stop is added after a cause that ends a sentence.
pub open spec fn rendered(e: Error) -> Seq<char> {
    let c = cause_text(e);
    if c.len() == 0 {
        primary_text(e) + "."@
    } else if ends_sentence(c) {
        primary_text(e) + ". ("@ + c + ")"@
    } else {
        primary_text(e) + ". ("@ + c + ".)"@
    }
}

/// What a Database error built from `context` and `cause` is.
pub open spec fn is_database_error(e: Error, context: Seq<char>, cause: Seq<char>) -> bool {
    e.kind == ErrorKind::Database && e.context@ == context && e.cause@ == cause
}

/// What a Serialisation error built from `context` and `cause` is.
pub open spec fn is_serialisation_error(e: Error, context: Seq<char>, cause: Seq<char>) -> bool {
    e.kind == ErrorKind::Serialisation && e.context@ == context && e.cause@ == cause
}

/// What an Invariant error built from `context` and `reason` is.
pub open spec fn is_invariant_error(e: Error, context: Seq<char>, reason: Seq<char>) -> bool {
    e.kind == ErrorKind::Invariant && e.context@ == context && e.cause@ == reason
}

impl Error {
    pub fn database(context: &str, cause: String) -> (r: Error)
        ensures
            is_database_error(r, context@, cause@),
    {
        Error { kind: ErrorKind::Database, context: String::from_str(context), cause }
    }

    pub fn serialisation(context: &str, cause: String) -> (r: Error)
        ensures
            is_serialisation_error(r, context@, cause@),
    {
        Error { kind: ErrorKind::Serialisation, context: String::from_str(context), cause }
    }

    pub fn refusal(context: &str, reason: String) -> (r: Error)
        ensures
            is_invariant_error(r, context@, reason@),
    {
        Error { kind: ErrorKind::Invariant, context: String::from_str(context), cause: reason }
    }

    /// The Configuration error that stands for a failed initialisation, which
    /// carries the rendered message of the failure.
    pub fn configuration_failure(cause: &Error) -> (r: Error)
        ensures
            r.kind == ErrorKind::Configuration,
            r.context@.len() == 0,
            r.cause@ == rendered(*cause),
    {
        Error::configuration(cause.to_message())
    }

    /// A Configuration error with the message `cause`.
    pub fn configuration(cause: String) -> (r: Error)
        ensures
            r.kind == ErrorKind::Configuration,
            r.context@.len() == 0,
            r.cause@ == cause@,
    {
        Error { kind: ErrorKind::Configuration, context: String::new(), cause }
    }

    /// A Scheduling error that keeps the collaborator's message.
    pub fn scheduling(cause: String) -> (r: Error)
        ensures
            r.kind == ErrorKind::Scheduling,
            r.context@.len() == 0,
            r.cause@ == cause@,
    {
        Error { kind: ErrorKind::Scheduling, context: String::new(), cause }
    }

    /// An equal, separately owned error.
    pub fn duplicate(&self) -> (r: Error)
        ensures
            r == *self,
    {
        Error { kind: self.kind, context: self.context.clone(), cause: self.cause.clone() }
    }

    fn primary(&self) -> (r: String)
        ensures
            r@ == primary_text(*self),
    {
        match self.kind {
            ErrorKind::Serialisation => {
                let mut s = String::from_str("A document could not be read or written ");
                s.append(self.context.as_str());
                s
            },
            ErrorKind::Scheduling => String::from_str("Scheduling failed"),
            ErrorKind::Database => {
                let mut s = String::from_str("A database error occurred ");
                s.append(self.context.as_str());
                s
            },
            ErrorKind::Configuration => String::from_str("The configuration is unavailable"),
            ErrorKind::Invariant => {
                let mut s = String::from_str("The operation was refused ");
                s.append(self.context.as_str());
                s
            },
        }
    }

    /// The error as the single line shown to a user.
    pub fn to_message(&self) -> (r: String)
        ensures
            r@ == rendered(*self),
    {
        let mut s = self.primary();
        let c = &self.cause;
        let n = c.as_str().unicode_len();
        if n == 0 {
            s.append(".");
            return s;
        }
        let last = c.as_str().get_char(n - 1);
        s.append(". (");
        s.append(c.as_str());
        if last == '.' || last == '?' || last == '!' {
            s.append(")");
        } else {
            s.append(".)");
        }
        s
    }
}

} // verus!
