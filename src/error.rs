use vstd::prelude::*;
use crate::ast::SourceLocation;

verus! {

/// The classes of compile-time failure.
#[derive(Clone, Copy, Debug, PartialEq, Eq, Structural)]
pub enum ErrorKind {
    /// An identifier has no visible binding.
    UnresolvedName,
    /// A node or operator that lowering does not support.
    UnsupportedConstruct,
    /// A declaration whose name is not a plain identifier.
    MalformedDeclaration,
}

/// A compile error: its class, a message and, where known, a position.
#[derive(Clone, Debug)]
pub struct Error {
    pub kind: ErrorKind,
    pub message: String,
    pub position: Option<SourceLocation>,
}

/// The mathematical value of an [`Error`].
pub struct Fault {
    pub kind: ErrorKind,
    pub message: Seq<char>,
    pub position: Option<SourceLocation>,
}

impl View for Error {
    type V = Fault;

    open spec fn view(&self) -> Fault {
        Fault { kind: self.kind, message: self.message@, position: self.position }
    }
}

pub open spec fn fault(kind: ErrorKind, message: Seq<char>, position: Option<SourceLocation>) -> Fault {
    Fault { kind, message, position }
}

impl Error {
    pub fn new(kind: ErrorKind, message: String, position: Option<SourceLocation>) -> (r: Error)
        ensures
            r@ == fault(kind, message@, position),
    {
        Error { kind, message, position }
    }
}

} // verus!
