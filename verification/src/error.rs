//! The ways in which building a schema fails.

use vstd::prelude::*;
use vstd::string::StringExecFns;

verus! {

/// Why a schema could not be built. Each variant carries the name of the
/// type at fault.
#[derive(Clone, Debug, PartialEq, Eq)]
pub enum SchemaError {
    /// Two different descriptors were registered under one name.
    DuplicateTypeName(String),
    /// A root type is not among the registered types.
    RootTypeNotFound(String),
    /// The query root is not an object type.
    RootTypeNotObject(String),
    /// A type was asked for and never described.
    UnresolvedPlaceholder(String),
    /// A descriptor refers to a type that was never registered.
    UndeclaredType(String),
}

/// The value of a [`SchemaError`].
pub enum SchemaFault {
    DuplicateTypeName(Seq<char>),
    RootTypeNotFound(Seq<char>),
    RootTypeNotObject(Seq<char>),
    UnresolvedPlaceholder(Seq<char>),
    UndeclaredType(Seq<char>),
}

impl SchemaFault {
    /// The name of the type at fault.
    pub open spec fn subject(self) -> Seq<char> {
        match self {
            SchemaFault::DuplicateTypeName(n) => n,
            SchemaFault::RootTypeNotFound(n) => n,
            SchemaFault::RootTypeNotObject(n) => n,
            SchemaFault::UnresolvedPlaceholder(n) => n,
            SchemaFault::UndeclaredType(n) => n,
        }
    }

    /// What the fault says of the type, before its name.
    pub open spec fn prefix(self) -> Seq<char> {
        match self {
            SchemaFault::DuplicateTypeName(_) => "duplicate type name: "@,
            SchemaFault::RootTypeNotFound(_) => "root type not found: "@,
            SchemaFault::RootTypeNotObject(_) => "root type is not an object: "@,
            SchemaFault::UnresolvedPlaceholder(_) => "type is still a placeholder: "@,
            SchemaFault::UndeclaredType(_) => "type is referenced and not declared: "@,
        }
    }

    /// The fault in words.
    pub open spec fn message(self) -> Seq<char> {
        self.prefix() + self.subject()
    }
}

impl View for SchemaError {
    type V = SchemaFault;

    open spec fn view(&self) -> SchemaFault {
        match self {
            SchemaError::DuplicateTypeName(n) => SchemaFault::DuplicateTypeName(n@),
            SchemaError::RootTypeNotFound(n) => SchemaFault::RootTypeNotFound(n@),
            SchemaError::RootTypeNotObject(n) => SchemaFault::RootTypeNotObject(n@),
            SchemaError::UnresolvedPlaceholder(n) => SchemaFault::UnresolvedPlaceholder(n@),
            SchemaError::UndeclaredType(n) => SchemaFault::UndeclaredType(n@),
        }
    }
}

/// The value of an optional error.
pub open spec fn fault_of(e: Option<SchemaError>) -> Option<SchemaFault> {
    match e {
        Some(e) => Some(e@),
        None => None,
    }
}

impl SchemaError {
    /// The name of the type at fault.
    pub fn subject(&self) -> (r: &str)
        ensures
            r@ == self@.subject(),
    {
        match self {
            SchemaError::DuplicateTypeName(n) => n.as_str(),
            SchemaError::RootTypeNotFound(n) => n.as_str(),
            SchemaError::RootTypeNotObject(n) => n.as_str(),
            SchemaError::UnresolvedPlaceholder(n) => n.as_str(),
            SchemaError::UndeclaredType(n) => n.as_str(),
        }
    }

    /// The error in words: what is wrong, then the name of the type.
    pub fn to_string(&self) -> (r: String)
        ensures
            r@ == self@.message(),
    {
        let prefix = match self {
            SchemaError::DuplicateTypeName(_) => "duplicate type name: ",
            SchemaError::RootTypeNotFound(_) => "root type not found: ",
            SchemaError::RootTypeNotObject(_) => "root type is not an object: ",
            SchemaError::UnresolvedPlaceholder(_) => "type is still a placeholder: ",
            SchemaError::UndeclaredType(_) => "type is referenced and not declared: ",
        };
        String::from_str(prefix).concat(self.subject())
    }

    /// A copy of the error.
    pub fn duplicate(&self) -> (r: SchemaError)
        ensures
            r@ == self@,
    {
        match self {
            SchemaError::DuplicateTypeName(n) => SchemaError::DuplicateTypeName(n.clone()),
            SchemaError::RootTypeNotFound(n) => SchemaError::RootTypeNotFound(n.clone()),
            SchemaError::RootTypeNotObject(n) => SchemaError::RootTypeNotObject(n.clone()),
            SchemaError::UnresolvedPlaceholder(n) => SchemaError::UnresolvedPlaceholder(n.clone()),
            SchemaError::UndeclaredType(n) => SchemaError::UndeclaredType(n.clone()),
        }
    }
}

} // verus!
