//! Error kinds of the session manager, each carrying the cause as text.

use vstd::prelude::*;
use vstd::string::StringExecFns;

verus! {

/// Why a session could not be spawned. Each step of the launch has its own
/// variant, holding the operating system's error text.
#[derive(Debug, PartialEq, Eq)]
pub enum SpawnError {
    /// The pseudo-terminal pair could not be allocated.
    OpenPty(String),
    /// The shell process could not be launched.
    SpawnShell(String),
    /// The writer bound to the terminal's input could not be acquired.
    TakeWriter(String),
    /// The reader of the terminal's output could not be acquired.
    CloneReader(String),
}

/// Which input or control operation on a live session failed.
#[derive(Debug, PartialEq, Eq)]
pub enum IoError {
    Write(String),
    Flush(String),
    Resize(String),
}

/// Failure of a registry operation.
#[derive(Debug, PartialEq, Eq)]
pub enum SessionError {
    /// No live session has the given id.
    NotFound(String),
    Spawn(SpawnError),
    Io(IoError),
}

/// Failure of a group operation.
#[derive(Debug, PartialEq, Eq)]
pub enum GroupError {
    /// No group has the given id.
    NotFound(String),
}

/// Failure at the persistence boundary.
#[derive(Debug, PartialEq, Eq)]
pub enum PersistenceError {
    CreateDir(String),
    Read(String),
    Parse(String),
    Serialize(String),
    Write(String),
}

/// `prefix` followed by `cause`.
pub fn prefixed(prefix: &str, cause: &str) -> (r: String)
    ensures
        r@ == prefix@ + cause@,
{
    String::from_str(prefix).concat(cause)
}

impl SpawnError {
    /// The text in front of the cause.
    pub open spec fn prefix(self) -> Seq<char> {
        match self {
            SpawnError::OpenPty(_) => "Failed to open PTY: "@,
            SpawnError::SpawnShell(_) => "Failed to spawn shell: "@,
            SpawnError::TakeWriter(_) => "Failed to get writer: "@,
            SpawnError::CloneReader(_) => "Failed to clone reader: "@,
        }
    }

    /// The operating system's error text.
    pub open spec fn cause(self) -> Seq<char> {
        match self {
            SpawnError::OpenPty(e) => e@,
            SpawnError::SpawnShell(e) => e@,
            SpawnError::TakeWriter(e) => e@,
            SpawnError::CloneReader(e) => e@,
        }
    }

    /// Human-readable message: the step that failed, then the cause.
    pub fn message(&self) -> (r: String)
        ensures
            r@ == self.prefix() + self.cause(),
    {
        match self {
            SpawnError::OpenPty(e) => prefixed("Failed to open PTY: ", e.as_str()),
            SpawnError::SpawnShell(e) => prefixed("Failed to spawn shell: ", e.as_str()),
            SpawnError::TakeWriter(e) => prefixed("Failed to get writer: ", e.as_str()),
            SpawnError::CloneReader(e) => prefixed("Failed to clone reader: ", e.as_str()),
        }
    }
}

impl IoError {
    /// The text in front of the cause.
    pub open spec fn prefix(self) -> Seq<char> {
        match self {
            IoError::Write(_) => "Write error: "@,
            IoError::Flush(_) => "Flush error: "@,
            IoError::Resize(_) => "Resize error: "@,
        }
    }

    /// The operating system's error text.
    pub open spec fn cause(self) -> Seq<char> {
        match self {
            IoError::Write(e) => e@,
            IoError::Flush(e) => e@,
            IoError::Resize(e) => e@,
        }
    }

    /// Human-readable message: the operation that failed, then the cause.
    pub fn message(&self) -> (r: String)
        ensures
            r@ == self.prefix() + self.cause(),
    {
        match self {
            IoError::Write(e) => prefixed("Write error: ", e.as_str()),
            IoError::Flush(e) => prefixed("Flush error: ", e.as_str()),
            IoError::Resize(e) => prefixed("Resize error: ", e.as_str()),
        }
    }
}

impl SessionError {
    /// What [`SessionError::message`] returns.
    pub open spec fn text(self) -> Seq<char> {
        match self {
            SessionError::NotFound(id) => "Session not found: "@ + id@,
            SessionError::Spawn(e) => e.prefix() + e.cause(),
            SessionError::Io(e) => e.prefix() + e.cause(),
        }
    }

    /// Human-readable message shown to the presentation layer.
    pub fn message(&self) -> (r: String)
        ensures
            r@ == self.text(),
    {
        match self {
            SessionError::NotFound(id) => prefixed("Session not found: ", id.as_str()),
            SessionError::Spawn(e) => e.message(),
            SessionError::Io(e) => e.message(),
        }
    }
}

impl GroupError {
    /// What [`GroupError::message`] returns.
    pub open spec fn text(self) -> Seq<char> {
        match self {
            GroupError::NotFound(id) => "Group not found: "@ + id@,
        }
    }

    /// Human-readable message shown to the presentation layer.
    pub fn message(&self) -> (r: String)
        ensures
            r@ == self.text(),
    {
        match self {
            GroupError::NotFound(id) => prefixed("Group not found: ", id.as_str()),
        }
    }
}

impl PersistenceError {
    /// The text in front of the cause.
    pub open spec fn prefix(self) -> Seq<char> {
        match self {
            PersistenceError::CreateDir(_) => "Failed to create data dir: "@,
            PersistenceError::Read(_) => "Failed to read state file: "@,
            PersistenceError::Parse(_) => "Failed to parse state file: "@,
            PersistenceError::Serialize(_) => "Failed to serialize state: "@,
            PersistenceError::Write(_) => "Failed to write state file: "@,
        }
    }

    /// The underlying error text.
    pub open spec fn cause(self) -> Seq<char> {
        match self {
            PersistenceError::CreateDir(e) => e@,
            PersistenceError::Read(e) => e@,
            PersistenceError::Parse(e) => e@,
            PersistenceError::Serialize(e) => e@,
            PersistenceError::Write(e) => e@,
        }
    }

    /// Human-readable message: the step that failed, then the cause.
    pub fn message(&self) -> (r: String)
        ensures
            r@ == self.prefix() + self.cause(),
    {
        match self {
            PersistenceError::CreateDir(e) => prefixed("Failed to create data dir: ", e.as_str()),
            PersistenceError::Read(e) => prefixed("Failed to read state file: ", e.as_str()),
            PersistenceError::Parse(e) => prefixed("Failed to parse state file: ", e.as_str()),
            PersistenceError::Serialize(e) => prefixed("Failed to serialize state: ", e.as_str()),
            PersistenceError::Write(e) => prefixed("Failed to write state file: ", e.as_str()),
        }
    }
}

} // verus!
