//! The error type shared by the supervisor and the task repository.

use vstd::prelude::*;

verus! {

/// Classifies a failure: unknown application directory, repository trouble,
/// I/O (including process launch and message delivery), or configuration
/// (de)serialization.
#[derive(Clone, Copy, Debug, PartialEq, Eq, Structural)]
pub enum ErrorKind {
    DirUnknown,
    Db,
    Io,
    TomlDer,
    TomlSer,
}

/// The short description of each error kind.
pub open spec fn kind_text(k: ErrorKind) -> Seq<char> {
    match k {
        ErrorKind::DirUnknown => "app dir error"@,
        ErrorKind::Db => "database error"@,
        ErrorKind::Io => "io error"@,
        ErrorKind::TomlDer => "toml deserializing error"@,
        ErrorKind::TomlSer => "toml serializing error"@,
    }
}

/// An error: its kind, a free-form message, and optionally the rendered text
/// of the underlying failure it wraps.
#[derive(Debug)]
pub struct Error {
    pub kind: ErrorKind,
    pub message: String,
    pub source: Option<String>,
}

impl Error {
    /// The full text of an error: the kind's description, then the message if
    /// there is one.
    pub open spec fn rendered(self) -> Seq<char> {
        if self.message@.len() == 0 {
            kind_text(self.kind)
        } else {
            kind_text(self.kind) + ": "@ + self.message@
        }
    }

    pub fn new(kind: ErrorKind, message: String) -> (r: Error)
        ensures
            r.kind == kind,
            r.message@ == message@,
            r.source is None,
    {
        Error { kind, message, source: None }
    }

    pub fn with_source(kind: ErrorKind, message: String, source: String) -> (r: Error)
        ensures
            r.kind == kind,
            r.message@ == message@,
            r.source matches Some(s) && s@ == source@,
    {
        Error { kind, message, source: Some(source) }
    }

    pub fn kind(&self) -> (r: ErrorKind)
        ensures
            r == self.kind,
    {
        self.kind
    }

    fn kind_string(&self) -> (r: String)
        ensures
            r@ == kind_text(self.kind),
    {
        match self.kind {
            ErrorKind::DirUnknown => String::from_str("app dir error"),
            ErrorKind::Db => String::from_str("database error"),
            ErrorKind::Io => String::from_str("io error"),
            ErrorKind::TomlDer => String::from_str("toml deserializing error"),
            ErrorKind::TomlSer => String::from_str("toml serializing error"),
        }
    }

    /// The error as one line of text, for logs and for the user interface.
    pub fn render(&self) -> (r: String)
        ensures
            r@ == self.rendered(),
    {
        let head = self.kind_string();
        if self.message.as_str().is_empty() {
            head
        } else {
            head.concat(": ").concat(self.message.as_str())
        }
    }
}

} // verus!
