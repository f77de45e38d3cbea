//! The record capability: named-field read access plus enumeration of
//! field names.

use std::sync::Arc;
use vstd::prelude::*;

use crate::render::value_debug;
use crate::value::Value;

verus! {

/// Provides the behavior of an object holding a struct: a map with
/// string keys.
///
/// Field access is side-effect-free by design and has no failure
/// channel: absence is modeled only as "not found", never as an error.
/// Anything fallible or effectful belongs in a method call instead.
/// Enumeration of field names matching field coverage is a convention,
/// not an enforced invariant.
///
/// Implementations must tolerate concurrent read invocation: every
/// method takes `&self`, so internal mutable state needs synchronization
/// supplied by the implementer.
pub trait StructObject: Send + Sync {
    /// The field the record holds under the given name, if any.
    spec fn field_spec(&self, name: Seq<char>) -> Option<Value>;

    /// The names of the fields, in enumeration order; none unless the
    /// implementation overrides it.
    open spec fn fields_spec(&self) -> Seq<Seq<char>> {
        Seq::empty()
    }

    /// Gets a field of the struct by name; absence is returned when the
    /// field does not exist.
    fn get_field(&self, name: &str) -> (r: Option<Value>)
        ensures
            r == self.field_spec(name@),
    ;

    /// Enumerates the field names, in order.
    fn fields(&self) -> (r: Vec<String>)
        ensures
            r@.len() == self.fields_spec().len(),
            forall|i: int| 0 <= i < r@.len() ==> #[trigger] r@[i]@ == self.fields_spec()[i],
    ;

    /// Returns the number of fields in the struct; counts the
    /// enumerated names unless overridden with a cheaper count.
    fn field_count(&self) -> (n: usize)
        ensures
            n == self.fields_spec().len(),
    {
        self.fields().len()
    }
}

/// Shared-ownership forwarding: a reference-counted handle to a record
/// capability is itself the same record capability, every operation
/// forwarded unchanged to the inner implementation.
impl<T: StructObject> StructObject for Arc<T> {
    open spec fn field_spec(&self, name: Seq<char>) -> Option<Value> {
        (**self).field_spec(name)
    }

    open spec fn fields_spec(&self) -> Seq<Seq<char>> {
        (**self).fields_spec()
    }

    fn get_field(&self, name: &str) -> (r: Option<Value>) {
        (**self).get_field(name)
    }

    fn fields(&self) -> (r: Vec<String>) {
        (**self).fields()
    }

    fn field_count(&self) -> (n: usize) {
        (**self).field_count()
    }
}

/// Wrapping a record capability in a shared, reference-counted handle
/// is behavior-preserving: the handle reports the same fields under the
/// same names as the wrapped implementation.
pub proof fn lemma_shared_struct_transparent<T: StructObject>(a: &Arc<T>)
    ensures
        a.fields_spec() == (**a).fields_spec(),
        forall|name: Seq<char>| #[trigger] a.field_spec(name) == (**a).field_spec(name),
{
}

/// A record capability with no fields: the record view of objects that
/// expose none, and the shape every override-free record reports.
pub struct EmptyStructObject;

impl StructObject for EmptyStructObject {
    open spec fn field_spec(&self, name: Seq<char>) -> Option<Value> {
        None
    }

    fn get_field(&self, name: &str) -> (r: Option<Value>) {
        None
    }

    fn fields(&self) -> (r: Vec<String>) {
        Vec::new()
    }
}

/// The field a traversal of a record renders under a name: the field
/// held there, or the undefined sentinel when absent.
pub open spec fn field_or_undefined<T: StructObject>(t: &T, name: Seq<char>) -> Value {
    match t.field_spec(name) {
        Some(v) => v,
        None => Value::Undefined,
    }
}

/// The rendered form of one field entry: the name between double
/// quotes, a colon, and the debug form of the value.
pub open spec fn entry_debug(name: Seq<char>, v: Value) -> Seq<char> {
    seq!['"'] + name + seq!['"'] + ": "@ + value_debug(v)
}

/// The comma-joined rendered entries of the first `n` enumerated field
/// names of `t`.
pub open spec fn joined_fields<T: StructObject>(t: &T, names: Seq<Seq<char>>, n: int) -> Seq<char>
    decreases n,
{
    if n <= 0 {
        Seq::empty()
    } else if n == 1 {
        entry_debug(names[0], field_or_undefined(t, names[0]))
    } else {
        joined_fields(t, names, n - 1) + ", "@ + entry_debug(
            names[n - 1],
            field_or_undefined(t, names[n - 1]),
        )
    }
}

/// The map form of a record: the rendered entries, comma-separated,
/// between curly braces.
pub open spec fn struct_debug_rep<T: StructObject>(t: &T) -> Seq<char> {
    "{"@ + joined_fields(t, t.fields_spec(), t.fields_spec().len() as int) + "}"@
}

/// The list form of a record: the rendered entries, comma-separated,
/// between square brackets.
pub open spec fn struct_display_rep<T: StructObject>(t: &T) -> Seq<char> {
    "["@ + joined_fields(t, t.fields_spec(), t.fields_spec().len() as int) + "]"@
}

} // verus!
