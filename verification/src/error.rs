//! What can go wrong with a command, and how it is told to the user.

use vstd::prelude::*;
use vstd::string::*;
use vstd::std_specs::convert::FromSpecImpl;

verus! {

/// The ways in which a command fails. A failure that came from the store,
/// the file system or the prompt carries the text of that failure.
#[derive(Debug, Clone)]
pub enum MenteeError {
    DatabaseError(String),
    IOError(String),
    InquireError(String),
    /// What was looked for and not found.
    NotFound(String),
    InvalidInput(String),
    /// The name that is already taken.
    UniqueViolation(String),
    ValidationError(String),
}

/// The kind of a failure, without the text it carries.
#[derive(Debug, Clone, Copy, PartialEq, Eq, Structural)]
pub enum ErrorKind {
    Database,
    IO,
    Inquire,
    NotFound,
    InvalidInput,
    UniqueViolation,
    Validation,
}

impl MenteeError {
    /// The kind of the failure.
    pub open spec fn kind_of(self) -> ErrorKind {
        match self {
            MenteeError::DatabaseError(_) => ErrorKind::Database,
            MenteeError::IOError(_) => ErrorKind::IO,
            MenteeError::InquireError(_) => ErrorKind::Inquire,
            MenteeError::NotFound(_) => ErrorKind::NotFound,
            MenteeError::InvalidInput(_) => ErrorKind::InvalidInput,
            MenteeError::UniqueViolation(_) => ErrorKind::UniqueViolation,
            MenteeError::ValidationError(_) => ErrorKind::Validation,
        }
    }

    /// The text that the failure carries.
    pub open spec fn detail(self) -> Seq<char> {
        match self {
            MenteeError::DatabaseError(t) => t@,
            MenteeError::IOError(t) => t@,
            MenteeError::InquireError(t) => t@,
            MenteeError::NotFound(t) => t@,
            MenteeError::InvalidInput(t) => t@,
            MenteeError::UniqueViolation(t) => t@,
            MenteeError::ValidationError(t) => t@,
        }
    }

    /// Whether the failure is of the given kind and carries the given text.
    pub open spec fn carries(self, kind: ErrorKind, detail: Seq<char>) -> bool {
        self.kind_of() == kind && self.detail() == detail
    }

    /// The kind of the failure.
    pub fn kind(&self) -> (r: ErrorKind)
        ensures
            r == self.kind_of(),
    {
        match self {
            MenteeError::DatabaseError(_) => ErrorKind::Database,
            MenteeError::IOError(_) => ErrorKind::IO,
            MenteeError::InquireError(_) => ErrorKind::Inquire,
            MenteeError::NotFound(_) => ErrorKind::NotFound,
            MenteeError::InvalidInput(_) => ErrorKind::InvalidInput,
            MenteeError::UniqueViolation(_) => ErrorKind::UniqueViolation,
            MenteeError::ValidationError(_) => ErrorKind::Validation,
        }
    }

    /// The line that tells the user about the failure.
    pub open spec fn message_text(self) -> Seq<char> {
        match self {
            MenteeError::DatabaseError(err) => "Database error: "@ + err@,
            MenteeError::IOError(err) => "IO error: "@ + err@,
            MenteeError::InquireError(err) => "Inquire error: "@ + err@,
            MenteeError::NotFound(resource) => resource@ + " not found"@,
            MenteeError::InvalidInput(msg) => "Invalid input: "@ + msg@,
            MenteeError::ValidationError(msg) => "Invalid input: "@ + msg@,
            MenteeError::UniqueViolation(name) => "Mentee with name '"@ + name@
                + "' already exists."@,
        }
    }

    /// The line that tells the user about the failure.
    pub fn message(&self) -> (r: String)
        ensures
            r@ == self.message_text(),
    {
        match self {
            MenteeError::DatabaseError(err) => {
                let mut r = String::from_str("Database error: ");
                r.append(err.as_str());
                r
            },
            MenteeError::IOError(err) => {
                let mut r = String::from_str("IO error: ");
                r.append(err.as_str());
                r
            },
            MenteeError::InquireError(err) => {
                let mut r = String::from_str("Inquire error: ");
                r.append(err.as_str());
                r
            },
            MenteeError::NotFound(resource) => {
                let mut r = String::from_str(resource.as_str());
                r.append(" not found");
                r
            },
            MenteeError::InvalidInput(msg) => {
                let mut r = String::from_str("Invalid input: ");
                r.append(msg.as_str());
                r
            },
            MenteeError::ValidationError(msg) => {
                let mut r = String::from_str("Invalid input: ");
                r.append(msg.as_str());
                r
            },
            MenteeError::UniqueViolation(name) => {
                let mut r = String::from_str("Mentee with name '");
                r.append(name.as_str());
                r.append("' already exists.");
                r
            },
        }
    }
}

impl MenteeError {
    /// The validation failure with the given message.
    pub fn validation(message: &str) -> (r: MenteeError)
        ensures
            r.carries(ErrorKind::Validation, message@),
    {
        MenteeError::ValidationError(String::from_str(message))
    }
}

impl<'a> From<&'a str> for MenteeError {
    /// A bare message is a validation failure.
    fn from(message: &'a str) -> (r: MenteeError)
        ensures
            r.carries(ErrorKind::Validation, message@),
    {
        MenteeError::validation(message)
    }
}

impl<'a> FromSpecImpl<&'a str> for MenteeError {
    /// The conversion is described by the contract of `from`: a spec
    /// function cannot build the string that the error carries.
    open spec fn obeys_from_spec() -> bool {
        false
    }

    open spec fn from_spec(message: &'a str) -> MenteeError {
        arbitrary()
    }
}

} // verus!
