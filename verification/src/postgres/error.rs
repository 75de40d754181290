//! The failures of the session side, each with the text shown to the user.

use vstd::prelude::*;
use vstd::string::StringExecFns;

verus! {

/// A connection could not be established.
pub struct ConnectError {
    /// The cause as the wire client reports it.
    pub message: String,
}

/// A statement could not be built or run.
pub enum QueryError {
    /// The name cannot be written as an identifier: it is empty or holds a
    /// NUL character.
    InvalidIdentifier(String),
    /// The server or the wire client refused the statement; the text is the
    /// cause as reported.
    Failed(String),
}

/// A pool could not be created.
pub enum PoolError {
    /// The pool's configuration was refused.
    Config(String),
    /// The pool could not be built from its configuration.
    Build(String),
}

impl ConnectError {
    /// The text shown for this error.
    pub open spec fn text(self) -> Seq<char> {
        self.message@
    }

    pub fn message(&self) -> (text: String)
        ensures
            text@ == self.text(),
    {
        self.message.clone()
    }
}

impl QueryError {
    /// The text shown for this error.
    pub open spec fn text(self) -> Seq<char> {
        match self {
            QueryError::InvalidIdentifier(name) => "invalid identifier: "@ + name@,
            QueryError::Failed(cause) => cause@,
        }
    }

    pub fn message(&self) -> (text: String)
        ensures
            text@ == self.text(),
    {
        match self {
            QueryError::InvalidIdentifier(name) => {
                String::from_str("invalid identifier: ").concat(name.as_str())
            },
            QueryError::Failed(cause) => cause.clone(),
        }
    }
}

impl PoolError {
    /// The text shown for this error.
    pub open spec fn text(self) -> Seq<char> {
        match self {
            PoolError::Config(cause) => "pool configuration: "@ + cause@,
            PoolError::Build(cause) => "pool build: "@ + cause@,
        }
    }

    pub fn message(&self) -> (text: String)
        ensures
            text@ == self.text(),
    {
        match self {
            PoolError::Config(cause) => String::from_str("pool configuration: ").concat(cause.as_str()),
            PoolError::Build(cause) => String::from_str("pool build: ").concat(cause.as_str()),
        }
    }
}

} // verus!
