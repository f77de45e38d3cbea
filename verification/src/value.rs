//! The engine-side collaborators of the capability layer: the generic
//! value, the execution state, and the error type.

use vstd::prelude::*;

verus! {

/// The engine's generic value, reduced to the primitive shapes the
/// capability layer touches: the undefined sentinel that fills sequence
/// gaps, booleans, integers and strings.
#[derive(Debug)]
pub enum Value {
    /// The sentinel substituted for absent sequence elements.
    Undefined,
    /// A boolean value.
    Bool(bool),
    /// A signed integer value.
    Int(i64),
    /// A string value.
    Str(String),
}

impl Value {
    /// True when this value is the undefined sentinel.
    pub fn is_undefined(&self) -> (r: bool)
        ensures
            r == (self is Undefined),
    {
        matches!(self, Value::Undefined)
    }
}

impl Clone for Value {
    fn clone(&self) -> (r: Self)
        ensures
            r == *self,
    {
        match self {
            Value::Undefined => Value::Undefined,
            Value::Bool(b) => Value::Bool(*b),
            Value::Int(i) => Value::Int(*i),
            Value::Str(s) => Value::Str(s.clone()),
        }
    }
}

impl PartialEq for Value {
    fn eq(&self, other: &Value) -> (r: bool) {
        match (self, other) {
            (Value::Undefined, Value::Undefined) => true,
            (Value::Bool(a), Value::Bool(b)) => *a == *b,
            (Value::Int(a), Value::Int(b)) => *a == *b,
            (Value::Str(a), Value::Str(b)) => *a == *b,
            _ => false,
        }
    }
}

impl vstd::std_specs::cmp::PartialEqSpecImpl for Value {
    open spec fn obeys_eq_spec() -> bool {
        true
    }

    open spec fn eq_spec(&self, other: &Value) -> bool {
        match (self, other) {
            (Value::Undefined, Value::Undefined) => true,
            (Value::Bool(a), Value::Bool(b)) => a == b,
            (Value::Int(a), Value::Int(b)) => a == b,
            (Value::Str(a), Value::Str(b)) => a@ == b@,
            _ => false,
        }
    }
}

/// The opaque interpreter context threaded unmodified into call and
/// method dispatch; this layer imposes nothing on its contents.
pub struct State;

/// Classifies a reported failure.  The two variants below are the only
/// kinds this layer itself produces; the set is open for the host.
#[derive(Clone, Copy, Debug, PartialEq, Eq, Structural)]
#[non_exhaustive]
pub enum ErrorKind {
    /// Method dispatch on a name the object does not recognize.
    UnknownMethod,
    /// An operation the value does not support, such as calling an
    /// object that has not opted into callability.
    InvalidOperation,
}

/// A failure raised during evaluation: a kind classification plus a
/// human-readable message.
pub struct Error {
    kind: ErrorKind,
    message: String,
}

impl Error {
    /// The kind classification of this error.
    pub closed spec fn kind_spec(&self) -> ErrorKind {
        self.kind
    }

    /// The human-readable message of this error.
    pub closed spec fn message_spec(&self) -> Seq<char> {
        self.message@
    }

    /// Creates an error of the given kind carrying the given message.
    pub fn new(kind: ErrorKind, message: String) -> (r: Error)
        ensures
            r.kind_spec() == kind,
            r.message_spec() == message@,
    {
        Error { kind, message }
    }

    /// Returns the kind classification.
    pub fn kind(&self) -> (k: ErrorKind)
        ensures
            k == self.kind_spec(),
    {
        self.kind
    }

    /// Returns the message.
    pub fn message(&self) -> (m: &str)
        ensures
            m@ == self.message_spec(),
    {
        self.message.as_str()
    }
}

} // verus!
